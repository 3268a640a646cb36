use git_prompt::color::get_color_scheme;
use git_prompt::color::paint_text;
use git_prompt::color::Paint;
use git_prompt::color::ADDED_SLOT;
use git_prompt::color::BRANCH_SLOT;
use git_prompt::color::COMMIT_SLOT;
use git_prompt::color::WARNING_SLOT;

#[test]
fn scheme_one_has_colours() {
    assert_eq!(get_color_scheme(1), [Paint::Blue, Paint::Green, Paint::Yellow, Paint::Red]);
}

#[test]
fn scheme_zero_is_plain() {
    assert_eq!(get_color_scheme(0), [Paint::Plain; 4]);
}

#[test]
fn unknown_schemes_are_plain() {
    assert_eq!(get_color_scheme(2), [Paint::Plain; 4]);
    assert_eq!(get_color_scheme(77), [Paint::Plain; 4]);
    assert_eq!(get_color_scheme(usize::MAX), [Paint::Plain; 4]);
}

#[test]
fn slots_are_the_four_of_a_scheme() {
    assert_eq!(BRANCH_SLOT, 0);
    assert_eq!(ADDED_SLOT, 1);
    assert_eq!(WARNING_SLOT, 2);
    assert_eq!(COMMIT_SLOT, 3);
}

#[test]
fn plain_paint_changes_nothing() {
    assert_eq!(paint_text(Paint::Plain, "main"), "main");
    assert_eq!(paint_text(Paint::Plain, ""), "");
}

#[test]
fn colours_wrap_the_text_in_codes() {
    assert_eq!(paint_text(Paint::Blue, "main"), "\x1b[34mmain\x1b[0m");
    assert_eq!(paint_text(Paint::Green, "N1"), "\x1b[32mN1\x1b[0m");
    assert_eq!(paint_text(Paint::Yellow, "Merge"), "\x1b[33mMerge\x1b[0m");
    assert_eq!(paint_text(Paint::Red, "abcdef1"), "\x1b[31mabcdef1\x1b[0m");
    assert_eq!(paint_text(Paint::Red, ""), "\x1b[31m\x1b[0m");
}

#[test]
fn paint_agrees_with_ansi_term() {
    let text = "feature/π";
    assert_eq!(paint_text(Paint::Plain, text), ansi_term::Style::new().paint(text).to_string());
    assert_eq!(paint_text(Paint::Blue, text), ansi_term::Colour::Blue.paint(text).to_string());
    assert_eq!(paint_text(Paint::Green, text), ansi_term::Colour::Green.paint(text).to_string());
    assert_eq!(paint_text(Paint::Yellow, text), ansi_term::Colour::Yellow.paint(text).to_string());
    assert_eq!(paint_text(Paint::Red, text), ansi_term::Colour::Red.paint(text).to_string());
}

#[test]
fn unknown_scheme_paints_every_slot_plain() {
    let scheme = get_color_scheme(5);
    for slot in 0..4 {
        assert_eq!(paint_text(scheme[slot], "text"), "text");
    }
}
