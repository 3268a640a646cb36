//! Colour schemes, and painting text for a terminal.

use vstd::prelude::*;

verus! {

/// How one piece of the line is painted.
#[derive(Clone, Copy, Debug, PartialEq, Eq, Structural)]
pub enum Paint {
    /// As it is, with no escape code around it.
    Plain,
    /// In blue.
    Blue,
    /// In green.
    Green,
    /// In yellow.
    Yellow,
    /// In red.
    Red,
}

/// The slot that paints the branch name.
pub const BRANCH_SLOT: usize = 0;

/// The slot that paints the count of new files.
pub const ADDED_SLOT: usize = 1;

/// The slot that paints the count of modified files and the running operation.
pub const WARNING_SLOT: usize = 2;

/// The slot that paints the commit id.
pub const COMMIT_SLOT: usize = 3;

/// The escape character, which every code for the terminal starts with.
pub open spec fn escape() -> char {
    '\x1b'
}

/// Whether `text` is free of the escape character, and so of any code for
/// the terminal.
pub open spec fn has_no_escape(text: Seq<char>) -> bool {
    forall|i: int| 0 <= i < text.len() ==> #[trigger] text[i] != escape()
}

/// The code that switches the terminal to `paint`; nothing for plain text.
pub open spec fn paint_prefix(paint: Paint) -> Seq<char> {
    match paint {
        Paint::Plain => Seq::empty(),
        Paint::Blue => seq![escape(), '[', '3', '4', 'm'],
        Paint::Green => seq![escape(), '[', '3', '2', 'm'],
        Paint::Yellow => seq![escape(), '[', '3', '3', 'm'],
        Paint::Red => seq![escape(), '[', '3', '1', 'm'],
    }
}

/// The code that switches the terminal back after `paint`; nothing after
/// plain text.
pub open spec fn paint_suffix(paint: Paint) -> Seq<char> {
    match paint {
        Paint::Plain => Seq::empty(),
        _ => seq![escape(), '[', '0', 'm'],
    }
}

/// `text` as the terminal gets it when it is painted with `paint`.
pub open spec fn painted_text(paint: Paint, text: Seq<char>) -> Seq<char> {
    paint_prefix(paint) + text + paint_suffix(paint)
}

/// The four slots of the scheme with the index `color_scheme`. Scheme 1 has
/// colours; an index without a scheme selects plain text in every slot.
pub open spec fn scheme_slots(color_scheme: usize) -> Seq<Paint> {
    if color_scheme == 1 {
        seq![Paint::Blue, Paint::Green, Paint::Yellow, Paint::Red]
    } else {
        seq![Paint::Plain, Paint::Plain, Paint::Plain, Paint::Plain]
    }
}

/// The scheme with the index `color_scheme`.
pub fn get_color_scheme(color_scheme: usize) -> (scheme: [Paint; 4])
    ensures
        scheme@ == scheme_slots(color_scheme),
{
    let scheme = if color_scheme == 1 {
        [Paint::Blue, Paint::Green, Paint::Yellow, Paint::Red]
    } else {
        [Paint::Plain, Paint::Plain, Paint::Plain, Paint::Plain]
    };
    assert(scheme@ =~= scheme_slots(color_scheme));
    scheme
}

/// Calls `ansi_term::Style::paint` with the style that `paint` stands for
/// (`Style::new()` for plain text, `Colour::X.normal()` for a colour) and
/// takes the painted text as a `String`. Trusted: for plain text the crate
/// writes the text alone; for a colour it writes the escape character, `[`,
/// the colour's foreground code (31 red, 32 green, 33 yellow, 34 blue) and
/// `m`, then the text, then the reset code.
#[verifier::external_body]
pub(crate) fn ansi_paint(paint: Paint, text: &str) -> (painted: String)
    ensures
        painted@ == painted_text(paint, text@),
{
    let style = match paint {
        Paint::Plain => ansi_term::Style::new(),
        Paint::Blue => ansi_term::Colour::Blue.normal(),
        Paint::Green => ansi_term::Colour::Green.normal(),
        Paint::Yellow => ansi_term::Colour::Yellow.normal(),
        Paint::Red => ansi_term::Colour::Red.normal(),
    };
    style.paint(text).to_string()
}

/// `text` painted with `paint`, as the terminal gets it.
pub fn paint_text(paint: Paint, text: &str) -> (painted: String)
    ensures
        painted@ == painted_text(paint, text@),
        paint == Paint::Plain ==> painted@ == text@,
{
    ansi_paint(paint, text)
}

/// With an index that has no scheme, painting changes nothing: whatever the
/// slot and the text, the painted text is the text itself.
pub proof fn lemma_unknown_scheme_is_plain(color_scheme: usize, slot: int, text: Seq<char>)
    requires
        color_scheme != 1,
        0 <= slot < 4,
    ensures
        scheme_slots(color_scheme)[slot] == Paint::Plain,
        painted_text(scheme_slots(color_scheme)[slot], text) == text,
{
}

} // verus!
