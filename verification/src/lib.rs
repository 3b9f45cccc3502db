//! Configuration of a plot legend ("key") and its rendering into one line
//! of the plotting engine's scripting language.

pub mod key;
