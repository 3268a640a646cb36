use git_prompt::arguments::match_arguments;
use git_prompt::arguments::prompt_options;
use git_prompt::color::Paint;
use git_prompt::options::Options;
use git_prompt::render::push_commit_id;
use git_prompt::render::push_count;
use git_prompt::render::push_counts;
use git_prompt::render::push_operation;
use git_prompt::render::render;
use git_prompt::repository::Head;
use git_prompt::repository::RepositoryState;
use git_prompt::repository::Snapshot;
use git_prompt::status::Category;
use git_prompt::status::StatusEntry;

const COMMIT_ID: &str = "abcdef1234567890abcdef1234567890abcdef10";

fn options_of(flags: Vec<&str>) -> Options {
    let args: Vec<String> = flags.into_iter().map(String::from).collect();
    match match_arguments(&args, &prompt_options()) {
        Ok(options) => options,
        Err(error) => panic!("{:?}", error),
    }
}

fn entry(new: bool, modified: bool) -> StatusEntry {
    StatusEntry {
        wt_new: new,
        wt_deleted: false,
        wt_modified: modified,
        wt_renamed: false,
        wt_typechange: false,
        conflicted: false,
    }
}

fn on_main(statuses: Vec<StatusEntry>, state: RepositoryState) -> Snapshot {
    Snapshot {
        head: Some(Head {
            shorthand: Some(String::from("main")),
            commit_id: Some(String::from(COMMIT_ID)),
        }),
        statuses: Some(statuses),
        state,
    }
}

fn strip_codes(text: &str) -> String {
    let mut out = String::new();
    let mut chars = text.chars();
    while let Some(c) = chars.next() {
        if c == '\x1b' {
            for d in chars.by_ref() {
                if d == 'm' {
                    break;
                }
            }
        } else {
            out.push(c);
        }
    }
    out
}

#[test]
fn nothing_is_shown_outside_a_repository() {
    assert_eq!(render(&Options::new(), None), "");
    assert_eq!(render(&options_of(vec!["-b", "-c", "7", "-s", "-C", "1"]), None), "");
}

#[test]
fn branch_and_commit_id_are_parted_by_a_colon() {
    let snapshot = on_main(Vec::new(), RepositoryState::Clean);
    assert_eq!(render(&options_of(vec!["-b", "-c", "7"]), Some(&snapshot)), "(main:abcdef1)");
}

#[test]
fn a_length_beyond_the_commit_id_shows_all_of_it() {
    let snapshot = on_main(Vec::new(), RepositoryState::Clean);
    assert_eq!(
        render(&options_of(vec!["-c", "45"]), Some(&snapshot)),
        "(abcdef1234567890abcdef1234567890abcdef10)"
    );
    assert_eq!(
        render(&options_of(vec!["-c", "40"]), Some(&snapshot)),
        "(abcdef1234567890abcdef1234567890abcdef10)"
    );
    assert_eq!(
        render(&options_of(vec!["-c", "41"]), Some(&snapshot)),
        "(abcdef1234567890abcdef1234567890abcdef10)"
    );
    assert_eq!(
        render(&options_of(vec!["-c", "39"]), Some(&snapshot)),
        "(abcdef1234567890abcdef1234567890abcdef1)"
    );
}

#[test]
fn new_comes_before_modified_with_nothing_between() {
    let snapshot = on_main(vec![entry(false, true), entry(true, false)], RepositoryState::Clean);
    assert_eq!(render(&options_of(vec!["-s"]), Some(&snapshot)), "(N1M1)");
}

#[test]
fn a_rebase_without_dirty_files_shows_one_space() {
    let snapshot = on_main(Vec::new(), RepositoryState::Rebase);
    assert_eq!(render(&options_of(vec!["-s"]), Some(&snapshot)), "( Rebase)");
    let interactive = on_main(Vec::new(), RepositoryState::RebaseInteractive);
    assert_eq!(render(&options_of(vec!["-s"]), Some(&interactive)), "( Rebase Interactive)");
}

#[test]
fn every_operation_is_shown_after_one_space() {
    let cases = vec![
        (RepositoryState::Clean, "(M1)"),
        (RepositoryState::Merge, "(M1 Merge)"),
        (RepositoryState::Revert, "(M1 Revert)"),
        (RepositoryState::RevertSequence, "(M1 Revert Sequence)"),
        (RepositoryState::CherryPick, "(M1 Cherry-pick)"),
        (RepositoryState::CherryPickSequence, "(M1 Cherry-pick Sequence)"),
        (RepositoryState::Bisect, "(M1 Bisect)"),
        (RepositoryState::Rebase, "(M1 Rebase)"),
        (RepositoryState::RebaseInteractive, "(M1 Rebase Interactive)"),
        (RepositoryState::RebaseMerge, "(M1 Rebase Merge)"),
        (RepositoryState::ApplyMailbox, "(M1 Apply Mailbox)"),
        (RepositoryState::ApplyMailboxOrRebase, "(M1 Apply Mailbox or Rebase)"),
    ];
    for (state, expected) in cases {
        let snapshot = on_main(vec![entry(false, true)], state);
        assert_eq!(render(&options_of(vec!["-s"]), Some(&snapshot)), expected);
    }
}

#[test]
fn an_unknown_scheme_gives_plain_text() {
    let snapshot = on_main(vec![entry(true, true)], RepositoryState::Merge);
    let plain = "(main:abcdef1 N1M1 Merge)";
    for scheme in vec!["0", "2", "3", "99", "18446744073709551615"] {
        let line = render(&options_of(vec!["-b", "-c", "7", "-s", "-C", scheme]), Some(&snapshot));
        assert_eq!(line, plain);
        assert_eq!(strip_codes(&line), line);
        assert!(!line.contains('\x1b'));
    }
}

#[test]
fn scheme_one_paints_each_part_with_its_slot() {
    let snapshot = on_main(vec![entry(true, true)], RepositoryState::Merge);
    let line = render(&options_of(vec!["-b", "-c", "7", "-s", "-C", "1"]), Some(&snapshot));
    assert_eq!(
        line,
        "(\x1b[34mmain\x1b[0m:\x1b[31mabcdef1\x1b[0m \x1b[32mN1\x1b[0m\x1b[33mM1\x1b[0m \x1b[33mMerge\x1b[0m)"
    );
    assert_eq!(strip_codes(&line), "(main:abcdef1 N1M1 Merge)");
}

#[test]
fn every_category_is_shown_in_the_fixed_order() {
    let all = StatusEntry {
        wt_new: true,
        wt_deleted: true,
        wt_modified: true,
        wt_renamed: true,
        wt_typechange: true,
        conflicted: true,
    };
    let mut statuses = vec![all; 12];
    statuses.push(entry(false, true));
    let snapshot = on_main(statuses, RepositoryState::Clean);
    assert_eq!(render(&options_of(vec!["-s"]), Some(&snapshot)), "(N12D12M13R12T12C12)");
    let painted = render(&options_of(vec!["-s", "-C", "1"]), Some(&snapshot));
    assert_eq!(
        painted,
        "(\x1b[32mN12\x1b[0m\x1b[31mD12\x1b[0m\x1b[33mM13\x1b[0m\x1b[34mR12\x1b[0m\x1b[34mT12\x1b[0m\x1b[31mC12\x1b[0m)"
    );
}

#[test]
fn an_unresolved_head_leaves_the_brackets_empty() {
    let snapshot = Snapshot {
        head: None,
        statuses: Some(vec![entry(true, false)]),
        state: RepositoryState::Merge,
    };
    assert_eq!(render(&options_of(vec!["-b", "-c", "7", "-s"]), Some(&snapshot)), "()");
    assert_eq!(render(&Options::new(), Some(&snapshot)), "()");
}

#[test]
fn without_options_the_brackets_are_empty() {
    let snapshot = on_main(vec![entry(true, false)], RepositoryState::Merge);
    assert_eq!(render(&Options::new(), Some(&snapshot)), "()");
}

#[test]
fn a_head_without_short_name_shows_no_branch() {
    let snapshot = Snapshot {
        head: Some(Head { shorthand: None, commit_id: Some(String::from(COMMIT_ID)) }),
        statuses: None,
        state: RepositoryState::Clean,
    };
    assert_eq!(render(&options_of(vec!["-b"]), Some(&snapshot)), "()");
    assert_eq!(render(&options_of(vec!["-b", "-c", "4"]), Some(&snapshot)), "(:abcd)");
}

#[test]
fn a_head_without_commit_shows_no_id() {
    let snapshot = Snapshot {
        head: Some(Head { shorthand: Some(String::from("main")), commit_id: None }),
        statuses: Some(vec![entry(false, true)]),
        state: RepositoryState::Clean,
    };
    assert_eq!(render(&options_of(vec!["-b", "-c", "7"]), Some(&snapshot)), "(main:)");
    assert_eq!(render(&options_of(vec!["-c", "7", "-s"]), Some(&snapshot)), "( M1)");
    assert_eq!(render(&options_of(vec!["-b", "-c", "7", "-s"]), Some(&snapshot)), "(main: M1)");
}

#[test]
fn a_status_that_could_not_be_read_shows_no_counts() {
    let snapshot = Snapshot {
        head: Some(Head { shorthand: Some(String::from("main")), commit_id: None }),
        statuses: None,
        state: RepositoryState::Bisect,
    };
    assert_eq!(render(&options_of(vec!["-b", "-s"]), Some(&snapshot)), "(main Bisect)");
}

#[test]
fn commit_and_state_are_parted_by_a_space() {
    let snapshot = on_main(vec![entry(false, true)], RepositoryState::Clean);
    assert_eq!(render(&options_of(vec!["-c", "7", "-s"]), Some(&snapshot)), "(abcdef1 M1)");
    assert_eq!(render(&options_of(vec!["-b", "-s"]), Some(&snapshot)), "(mainM1)");
    let clean = on_main(Vec::new(), RepositoryState::Clean);
    assert_eq!(render(&options_of(vec!["-c", "7", "-s"]), Some(&clean)), "(abcdef1 )");
}

#[test]
fn a_commit_id_is_cut_by_characters() {
    let mut out = String::from(">");
    push_commit_id(&mut out, Paint::Plain, "héllo", 2);
    assert_eq!(out, ">hé");
    let mut whole = String::new();
    push_commit_id(&mut whole, Paint::Red, "abc", 3);
    assert_eq!(whole, "\x1b[31mabc\x1b[0m");
    let mut none = String::new();
    push_commit_id(&mut none, Paint::Plain, "abc", 0);
    assert_eq!(none, "");
    let mut short = String::new();
    push_commit_id(&mut short, Paint::Plain, "", 7);
    assert_eq!(short, "");
}

#[test]
fn a_count_of_zero_is_not_shown() {
    let mut out = String::from("(");
    push_count(&mut out, 1, Category::Deleted, 0);
    assert_eq!(out, "(");
    push_count(&mut out, 1, Category::Deleted, 3);
    assert_eq!(out, "(\x1b[31mD3\x1b[0m");
    push_count(&mut out, 0, Category::Conflicted, 1024);
    assert_eq!(out, "(\x1b[31mD3\x1b[0mC1024");
}

#[test]
fn counts_and_operation_are_appended() {
    let mut out = String::from("x");
    push_counts(&mut out, 0, &vec![entry(true, false), entry(true, true)]);
    assert_eq!(out, "xN2M1");
    push_operation(&mut out, 0, RepositoryState::Clean);
    assert_eq!(out, "xN2M1");
    push_operation(&mut out, 1, RepositoryState::Merge);
    assert_eq!(out, "xN2M1 \x1b[33mMerge\x1b[0m");
}

#[test]
fn what_is_not_asked_for_does_not_show() {
    let one = on_main(vec![entry(true, false)], RepositoryState::Merge);
    let other = Snapshot {
        head: Some(Head { shorthand: Some(String::from("main")), commit_id: None }),
        statuses: None,
        state: RepositoryState::Clean,
    };
    let options = options_of(vec!["-b"]);
    assert_eq!(render(&options, Some(&one)), render(&options, Some(&other)));
    assert_eq!(render(&options, Some(&one)), "(main)");
}
