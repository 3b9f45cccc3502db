use plot_key::key::Boxed;
use plot_key::key::Horizontal;
use plot_key::key::Justification;
use plot_key::key::Order;
use plot_key::key::Position;
use plot_key::key::Properties;
use plot_key::key::Stacked;
use plot_key::key::Text;
use plot_key::key::Vertical;

#[test]
fn scenario_defaults() {
    let properties = Properties::default();
    assert_eq!(properties.script(), "set key on \n");
}

#[test]
fn scenario_hidden() {
    let mut properties = Properties::default();
    properties.hide_key();
    assert_eq!(properties.script(), "set key off\n");
}

#[test]
fn scenario_boxed_and_title() {
    let mut properties = Properties::default();
    properties.set_boxed(Boxed::Yes);
    properties.set_title(Text::Borrowed("Legend"));
    assert_eq!(properties.script(), "set key on title 'Legend' box \n");
}

#[test]
fn scenario_position_and_stacking() {
    let mut properties = Properties::default();
    properties.set_position(Position::Inside(Vertical::Top, Horizontal::Right));
    properties.set_stacked(Stacked::Vertically);
    assert_eq!(properties.script(), "set key on inside top right vertically \n");
}

#[test]
fn scenario_show_after_hide() {
    let mut properties = Properties::default();
    properties.hide_key();
    properties.show();
    assert_eq!(properties.script(), Properties::default().script());
    assert_eq!(properties.script(), "set key on \n");
}

#[test]
fn hidden_absorbs_all_attributes() {
    let mut properties = Properties::default();
    properties.set_boxed(Boxed::Yes);
    properties.set_justification(Justification::Left);
    properties.set_order(Order::TextSample);
    properties.set_position(Position::Outside(Vertical::Bottom, Horizontal::Center));
    properties.set_stacked(Stacked::Horizontally);
    properties.set_title(Text::Owned("ignored".to_string()));
    properties.hide_key();
    assert_eq!(properties.script(), "set key off\n");
}

#[test]
fn visible_line_starts_with_on_prefix() {
    let mut properties = Properties::default();
    assert!(properties.script().starts_with("set key on "));
    properties.set_boxed(Boxed::Yes);
    properties.set_order(Order::SampleText);
    properties.set_title(Text::Borrowed("t"));
    assert!(properties.script().starts_with("set key on "));
    properties.set_position(Position::Inside(Vertical::Center, Horizontal::Left));
    assert!(properties.script().starts_with("set key on "));
}

#[test]
fn serializing_twice_yields_identical_lines() {
    let mut properties = Properties::default();
    properties.set_position(Position::Outside(Vertical::Top, Horizontal::Center));
    properties.set_title(Text::Owned("twice".to_string()));
    let first = properties.script();
    let second = properties.script();
    assert_eq!(first, second);
}

#[test]
fn mutation_order_is_immaterial_and_token_order_fixed() {
    let mut forward = Properties::default();
    forward.set_stacked(Stacked::Horizontally);
    forward.set_justification(Justification::Left);
    forward.set_order(Order::TextSample);

    let mut backward = Properties::default();
    backward.set_order(Order::TextSample);
    backward.set_justification(Justification::Left);
    backward.set_stacked(Stacked::Horizontally);

    assert_eq!(forward.script(), backward.script());
    assert_eq!(forward.script(), "set key on horizontally Left reverse \n");
}

#[test]
fn every_attribute_set_emits_tokens_in_fixed_order() {
    let mut properties = Properties::default();
    properties.set_title(Text::Borrowed("T"));
    properties.set_boxed(Boxed::Yes);
    properties.set_order(Order::SampleText);
    properties.set_justification(Justification::Right);
    properties.set_stacked(Stacked::Horizontally);
    properties.set_position(Position::Inside(Vertical::Top, Horizontal::Left));
    assert_eq!(
        properties.script(),
        "set key on inside top left horizontally Right noreverse title 'T' box \n",
    );
}

#[test]
fn outside_position_tokens() {
    let mut properties = Properties::default();
    properties.set_position(Position::Outside(Vertical::Bottom, Horizontal::Center));
    assert_eq!(properties.script(), "set key on outside bottom center \n");
}

#[test]
fn unboxing_after_boxing_removes_the_box_token() {
    let mut properties = Properties::default();
    properties.set_boxed(Boxed::Yes);
    properties.set_boxed(Boxed::No);
    assert_eq!(properties.script(), "set key on \n");
}

#[test]
fn setting_a_field_twice_keeps_the_last_value() {
    let mut properties = Properties::default();
    properties.set_title(Text::Borrowed("first"));
    properties.set_title(Text::Owned("second".to_string()));
    assert_eq!(properties.script(), "set key on title 'second' \n");

    properties.set_justification(Justification::Left);
    properties.set_justification(Justification::Right);
    assert_eq!(properties.script(), "set key on Right title 'second' \n");
}

#[test]
fn title_quotes_are_not_escaped() {
    let mut properties = Properties::default();
    properties.set_title(Text::Owned("it's".to_string()));
    assert_eq!(properties.script(), "set key on title 'it's' \n");
}

#[test]
fn vertical_display_tokens() {
    assert_eq!(Vertical::Bottom.display(), "bottom");
    assert_eq!(Vertical::Center.display(), "center");
    assert_eq!(Vertical::Top.display(), "top");
}

#[test]
fn horizontal_display_tokens() {
    assert_eq!(Horizontal::Center.display(), "center");
    assert_eq!(Horizontal::Left.display(), "left");
    assert_eq!(Horizontal::Right.display(), "right");
}

#[test]
fn justification_display_tokens() {
    assert_eq!(Justification::Left.display(), "Left");
    assert_eq!(Justification::Right.display(), "Right");
}

#[test]
fn order_display_tokens() {
    assert_eq!(Order::SampleText.display(), "noreverse");
    assert_eq!(Order::TextSample.display(), "reverse");
}

#[test]
fn stacked_display_tokens() {
    assert_eq!(Stacked::Horizontally.display(), "horizontally");
    assert_eq!(Stacked::Vertically.display(), "vertically");
}
