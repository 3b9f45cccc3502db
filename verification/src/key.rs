//! The legend ("key") of a plot: a set of optional attributes and the
//! serialization of those attributes into one `set key ...` script line.

use vstd::prelude::*;
use vstd::string::StringExecFns;

verus! {

/// The attributes of the key of a plot
///
/// Every optional attribute that is left unset produces no token in the
/// script line, and the plotting engine's own default applies.
#[derive(Clone)]
pub struct Properties {
    pub boxed: bool,
    pub hidden: bool,
    pub justification: Option<Justification>,
    pub order: Option<Order>,
    pub position: Option<Position>,
    pub stacked: Option<Stacked>,
    pub title: Option<Text>,
}

/// Title text, either borrowed with a static lifetime or owned, selected
/// at the call site so that a static reference never forces a copy
#[derive(Clone)]
pub enum Text {
    Borrowed(&'static str),
    Owned(String),
}

/// The characters of a title text, whichever way it is held
pub open spec fn text_chars(text: Text) -> Seq<char> {
    match text {
        Text::Borrowed(text) => text@,
        Text::Owned(text) => text@,
    }
}

/// Whether the key is surrounded by a box or not
#[derive(Clone, Copy)]
pub enum Boxed {
    No,
    Yes,
}

/// Horizontal position of the key
#[derive(Clone, Copy)]
pub enum Horizontal {
    Center,
    Left,
    Right,
}

/// Text justification of the key
#[derive(Clone, Copy)]
pub enum Justification {
    Left,
    Right,
}

/// Order of the elements of the key
#[derive(Clone, Copy)]
pub enum Order {
    SampleText,
    TextSample,
}

/// Position of the key
///
/// An absolute X/Y placement is not supported.
#[derive(Clone, Copy)]
pub enum Position {
    Inside(Vertical, Horizontal),
    Outside(Vertical, Horizontal),
}

/// How the entries of the key are stacked
#[derive(Clone, Copy)]
pub enum Stacked {
    Horizontally,
    Vertically,
}

/// Vertical position of the key
#[derive(Clone, Copy)]
pub enum Vertical {
    Bottom,
    Center,
    Top,
}

/// The attribute values of a key that no mutator has touched: visible,
/// not boxed, every optional attribute unset
pub open spec fn default_properties() -> Properties {
    Properties {
        boxed: false,
        hidden: false,
        justification: None,
        order: None,
        position: None,
        stacked: None,
        title: None,
    }
}

impl Default for Properties {
    /// A key with every attribute at its default
    fn default() -> (properties: Properties)
        ensures
            properties == default_properties(),
    {
        Properties {
            boxed: false,
            hidden: false,
            justification: None,
            order: None,
            position: None,
            stacked: None,
            title: None,
        }
    }
}

impl Properties {
    /// Hides the key
    pub fn hide_key(&mut self)
        ensures
            *final(self) == (Properties { hidden: true, ..*old(self) }),
    {
        self.hidden = true;
    }

    /// Shows the key
    ///
    /// The key is shown by default.
    pub fn show(&mut self)
        ensures
            *final(self) == (Properties { hidden: false, ..*old(self) }),
    {
        self.hidden = false;
    }

    /// Selects whether the key will be surrounded with a box or not
    ///
    /// The key is not boxed by default.
    pub fn set_boxed(&mut self, boxed: Boxed)
        ensures
            *final(self) == (Properties { boxed: (boxed is Yes), ..*old(self) }),
    {
        match boxed {
            Boxed::No => self.boxed = false,
            Boxed::Yes => self.boxed = true,
        }
    }

    /// Changes the justification of the text of each entry
    ///
    /// When unset, the engine's own default justification applies.
    pub fn set_justification(&mut self, justification: Justification)
        ensures
            *final(self) == (Properties { justification: Some(justification), ..*old(self) }),
    {
        self.justification = Some(justification);
    }

    /// Changes how each entry is ordered
    ///
    /// When unset, the engine's own default order applies.
    pub fn set_order(&mut self, order: Order)
        ensures
            *final(self) == (Properties { order: Some(order), ..*old(self) }),
    {
        self.order = Some(order);
    }

    /// Selects where to place the key
    ///
    /// When unset, the engine's own default placement applies.
    pub fn set_position(&mut self, position: Position)
        ensures
            *final(self) == (Properties { position: Some(position), ..*old(self) }),
    {
        self.position = Some(position);
    }

    /// Changes how the entries of the key are stacked
    ///
    /// When unset, the engine's own default stacking applies.
    pub fn set_stacked(&mut self, stacked: Stacked)
        ensures
            *final(self) == (Properties { stacked: Some(stacked), ..*old(self) }),
    {
        self.stacked = Some(stacked);
    }

    /// Sets the title of the key, adopting the text as it was given
    ///
    /// The text is later written verbatim between single quotes: an
    /// embedded single quote is not escaped and breaks the produced line
    /// for the consuming engine (a known limitation).
    pub fn set_title(&mut self, title: Text)
        ensures
            *final(self) == (Properties { title: Some(title), ..*old(self) }),
    {
        self.title = Some(title);
    }
}

/// The script token that stands for a vertical position
pub open spec fn vertical_token(vertical: Vertical) -> Seq<char> {
    match vertical {
        Vertical::Bottom => "bottom"@,
        Vertical::Center => "center"@,
        Vertical::Top => "top"@,
    }
}

/// The script token that stands for a horizontal position
pub open spec fn horizontal_token(horizontal: Horizontal) -> Seq<char> {
    match horizontal {
        Horizontal::Center => "center"@,
        Horizontal::Left => "left"@,
        Horizontal::Right => "right"@,
    }
}

/// The script token that stands for a justification
pub open spec fn justification_token(justification: Justification) -> Seq<char> {
    match justification {
        Justification::Left => "Left"@,
        Justification::Right => "Right"@,
    }
}

/// The script token that stands for an entry order
pub open spec fn order_token(order: Order) -> Seq<char> {
    match order {
        Order::SampleText => "noreverse"@,
        Order::TextSample => "reverse"@,
    }
}

/// The script token that stands for a stacking direction
pub open spec fn stacked_token(stacked: Stacked) -> Seq<char> {
    match stacked {
        Stacked::Horizontally => "horizontally"@,
        Stacked::Vertically => "vertically"@,
    }
}

/// The tokens that the position attribute contributes to the script line:
/// nothing when unset
pub open spec fn position_tokens(position: Option<Position>) -> Seq<char> {
    match position {
        None => Seq::<char>::empty(),
        Some(Position::Inside(vertical, horizontal)) => "inside "@ + vertical_token(vertical)
            + " "@ + horizontal_token(horizontal) + " "@,
        Some(Position::Outside(vertical, horizontal)) => "outside "@ + vertical_token(vertical)
            + " "@ + horizontal_token(horizontal) + " "@,
    }
}

/// The tokens that the stacking attribute contributes: nothing when unset
pub open spec fn stacked_tokens(stacked: Option<Stacked>) -> Seq<char> {
    match stacked {
        None => Seq::<char>::empty(),
        Some(stacked) => stacked_token(stacked) + " "@,
    }
}

/// The tokens that the justification attribute contributes: nothing when
/// unset
pub open spec fn justification_tokens(justification: Option<Justification>) -> Seq<char> {
    match justification {
        None => Seq::<char>::empty(),
        Some(justification) => justification_token(justification) + " "@,
    }
}

/// The tokens that the order attribute contributes: nothing when unset
pub open spec fn order_tokens(order: Option<Order>) -> Seq<char> {
    match order {
        None => Seq::<char>::empty(),
        Some(order) => order_token(order) + " "@,
    }
}

/// The tokens that the title contributes: the text verbatim between
/// single quotes, or nothing when unset
pub open spec fn title_tokens(title: Option<Text>) -> Seq<char> {
    match title {
        None => Seq::<char>::empty(),
        Some(title) => "title '"@ + text_chars(title) + "' "@,
    }
}

/// The token that the box flag contributes: nothing when the key is not
/// boxed
pub open spec fn boxed_tokens(boxed: bool) -> Seq<char> {
    if boxed {
        "box "@
    } else {
        Seq::<char>::empty()
    }
}

/// The one script line that a property set serializes to
///
/// A hidden key collapses to the off line; otherwise the attributes that
/// are set contribute their tokens in a fixed order: position, stacking,
/// justification, order, title, box.
pub open spec fn script_line(properties: Properties) -> Seq<char> {
    if properties.hidden {
        "set key off\n"@
    } else {
        "set key on "@ + position_tokens(properties.position)
            + stacked_tokens(properties.stacked)
            + justification_tokens(properties.justification)
            + order_tokens(properties.order) + title_tokens(properties.title)
            + boxed_tokens(properties.boxed) + "\n"@
    }
}

/// Appending the five position tokens one by one onto a prefix builds the
/// same sequence as appending their concatenation at once
proof fn lemma_regroup_position_tokens(
    prefix: Seq<char>,
    direction: Seq<char>,
    vertical: Seq<char>,
    horizontal: Seq<char>,
)
    ensures
        prefix + direction + vertical + " "@ + horizontal + " "@ == prefix + (direction + vertical
            + " "@ + horizontal + " "@),
{
    vstd::seq_lib::lemma_concat_associative(prefix, direction, vertical);
    vstd::seq_lib::lemma_concat_associative(prefix, direction + vertical, " "@);
    vstd::seq_lib::lemma_concat_associative(prefix, direction + vertical + " "@, horizontal);
    vstd::seq_lib::lemma_concat_associative(
        prefix,
        direction + vertical + " "@ + horizontal,
        " "@,
    );
}

impl Properties {
    /// Serializes the attributes into the one `set key ...` line of the
    /// engine's scripting language
    ///
    /// Serialization reads the attributes and cannot fail; the title text
    /// is written verbatim, embedded single quotes included.
    pub fn script(&self) -> (line: String)
        ensures
            line@ == script_line(*self),
    {
        if self.hidden {
            return "set key off\n".to_owned();
        }
        let mut line = "set key on ".to_owned();

        match self.position {
            None => {
                proof {
                    Seq::add_empty_right(line@, position_tokens(self.position));
                }
            },
            Some(Position::Inside(vertical, horizontal)) => {
                line.append("inside ");
                line.append(vertical.display());
                line.append(" ");
                line.append(horizontal.display());
                line.append(" ");
                proof {
                    lemma_regroup_position_tokens(
                        "set key on "@,
                        "inside "@,
                        vertical_token(vertical),
                        horizontal_token(horizontal),
                    );
                }
            },
            Some(Position::Outside(vertical, horizontal)) => {
                line.append("outside ");
                line.append(vertical.display());
                line.append(" ");
                line.append(horizontal.display());
                line.append(" ");
                proof {
                    lemma_regroup_position_tokens(
                        "set key on "@,
                        "outside "@,
                        vertical_token(vertical),
                        horizontal_token(horizontal),
                    );
                }
            },
        }
        let ghost after_position: Seq<char> = "set key on "@ + position_tokens(self.position);
        assert(line@ == after_position);

        if let Some(stacked) = self.stacked {
            line.append(stacked.display());
            line.append(" ");
            proof {
                vstd::seq_lib::lemma_concat_associative(
                    after_position,
                    stacked_token(stacked),
                    " "@,
                );
            }
        } else {
            proof {
                Seq::add_empty_right(after_position, stacked_tokens(self.stacked));
            }
        }
        let ghost after_stacked: Seq<char> = after_position + stacked_tokens(self.stacked);
        assert(line@ == after_stacked);

        if let Some(justification) = self.justification {
            line.append(justification.display());
            line.append(" ");
            proof {
                vstd::seq_lib::lemma_concat_associative(
                    after_stacked,
                    justification_token(justification),
                    " "@,
                );
            }
        } else {
            proof {
                Seq::add_empty_right(after_stacked, justification_tokens(self.justification));
            }
        }
        let ghost after_justification: Seq<char> = after_stacked + justification_tokens(
            self.justification,
        );
        assert(line@ == after_justification);

        if let Some(order) = self.order {
            line.append(order.display());
            line.append(" ");
            proof {
                vstd::seq_lib::lemma_concat_associative(after_justification, order_token(order), " "@);
            }
        } else {
            proof {
                Seq::add_empty_right(after_justification, order_tokens(self.order));
            }
        }
        let ghost after_order: Seq<char> = after_justification + order_tokens(self.order);
        assert(line@ == after_order);

        match &self.title {
            None => {
                proof {
                    Seq::add_empty_right(after_order, title_tokens(self.title));
                }
            },
            Some(title) => {
                line.append("title '");
                match title {
                    Text::Borrowed(text) => line.append(*text),
                    Text::Owned(text) => line.append(text.as_str()),
                }
                line.append("' ");
                proof {
                    vstd::seq_lib::lemma_concat_associative(
                        after_order,
                        "title '"@,
                        text_chars(*title),
                    );
                    vstd::seq_lib::lemma_concat_associative(
                        after_order,
                        "title '"@ + text_chars(*title),
                        "' "@,
                    );
                }
            },
        }
        let ghost after_title: Seq<char> = after_order + title_tokens(self.title);
        assert(line@ == after_title);

        if self.boxed {
            line.append("box ");
        } else {
            proof {
                Seq::add_empty_right(after_title, boxed_tokens(self.boxed));
            }
        }
        let ghost after_boxed: Seq<char> = after_title + boxed_tokens(self.boxed);
        assert(line@ == after_boxed);

        line.append("\n");
        assert(line@ == script_line(*self));
        line
    }
}

/// A hidden key is absorbing: whatever the other attributes hold, the
/// serialized line is exactly the off line.
pub proof fn lemma_hidden_is_absorbing(properties: Properties)
    requires
        properties.hidden,
    ensures
        script_line(properties) == "set key off\n"@,
{
}

/// The line of a visible key always starts with the on prefix, whatever
/// the other attributes hold.
pub proof fn lemma_visible_line_prefix(properties: Properties)
    requires
        !properties.hidden,
    ensures
        "set key on "@.is_prefix_of(script_line(properties)),
{
    let on = "set key on "@;
    let with_position = on + position_tokens(properties.position);
    let with_stacked = with_position + stacked_tokens(properties.stacked);
    let with_justification = with_stacked + justification_tokens(properties.justification);
    let with_order = with_justification + order_tokens(properties.order);
    let with_title = with_order + title_tokens(properties.title);
    let with_boxed = with_title + boxed_tokens(properties.boxed);
    assert(on.is_prefix_of(with_position)) by {
        assert(on =~= with_position.subrange(0, on.len() as int));
    };
    lemma_prefix_extends(on, with_position, stacked_tokens(properties.stacked));
    lemma_prefix_extends(on, with_stacked, justification_tokens(properties.justification));
    lemma_prefix_extends(on, with_justification, order_tokens(properties.order));
    lemma_prefix_extends(on, with_order, title_tokens(properties.title));
    lemma_prefix_extends(on, with_title, boxed_tokens(properties.boxed));
    lemma_prefix_extends(on, with_boxed, "\n"@);
}

/// A prefix of a sequence is a prefix of any extension of that sequence.
proof fn lemma_prefix_extends(prefix: Seq<char>, left: Seq<char>, right: Seq<char>)
    requires
        prefix.is_prefix_of(left),
    ensures
        prefix.is_prefix_of(left + right),
{
    assert(prefix =~= (left + right).subrange(0, prefix.len() as int));
}

/// Serialization is deterministic: two lines obtained from the same
/// attribute values, with no mutation in between, are identical.
pub proof fn lemma_script_deterministic(
    properties: Properties,
    first: Seq<char>,
    second: Seq<char>,
)
    requires
        first == script_line(properties),
        second == script_line(properties),
    ensures
        first == second,
{
}

/// Mutating stacking, then justification, then order leaves the same
/// attribute values as mutating them in the reverse order, and therefore
/// the same serialized line; where each token appears in that line is
/// fixed by the serializer alone.
pub proof fn lemma_mutation_order_immaterial(
    properties: Properties,
    stacked: Stacked,
    justification: Justification,
    order: Order,
)
    ensures
        ({
            let forward = Properties {
                order: Some(order),
                ..(Properties {
                    justification: Some(justification),
                    ..(Properties { stacked: Some(stacked), ..properties })
                })
            };
            let backward = Properties {
                stacked: Some(stacked),
                ..(Properties {
                    justification: Some(justification),
                    ..(Properties { order: Some(order), ..properties })
                })
            };
            forward == backward && script_line(forward) == script_line(backward)
        }),
{
}

impl Vertical {
    /// The canonical script token of this value
    pub fn display(&self) -> (token: &'static str)
        ensures
            token@ == vertical_token(*self),
    {
        match self {
            Vertical::Bottom => "bottom",
            Vertical::Center => "center",
            Vertical::Top => "top",
        }
    }
}

impl Horizontal {
    /// The canonical script token of this value
    pub fn display(&self) -> (token: &'static str)
        ensures
            token@ == horizontal_token(*self),
    {
        match self {
            Horizontal::Center => "center",
            Horizontal::Left => "left",
            Horizontal::Right => "right",
        }
    }
}

impl Justification {
    /// The canonical script token of this value
    pub fn display(&self) -> (token: &'static str)
        ensures
            token@ == justification_token(*self),
    {
        match self {
            Justification::Left => "Left",
            Justification::Right => "Right",
        }
    }
}

impl Order {
    /// The canonical script token of this value
    pub fn display(&self) -> (token: &'static str)
        ensures
            token@ == order_token(*self),
    {
        match self {
            Order::SampleText => "noreverse",
            Order::TextSample => "reverse",
        }
    }
}

impl Stacked {
    /// The canonical script token of this value
    pub fn display(&self) -> (token: &'static str)
        ensures
            token@ == stacked_token(*self),
    {
        match self {
            Stacked::Horizontally => "horizontally",
            Stacked::Vertically => "vertically",
        }
    }
}

} // verus!
