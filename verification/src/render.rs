//! The line that is shown for a repository.

use vstd::prelude::*;
use vstd::string::StringExecFns;
use vstd::string::StrSliceExecFns;
use crate::color::get_color_scheme;
use crate::color::paint_text;
use crate::color::escape;
use crate::color::has_no_escape;
use crate::color::painted_text;
use crate::color::scheme_slots;
use crate::color::Paint;
use crate::color::BRANCH_SLOT;
use crate::color::COMMIT_SLOT;
use crate::color::WARNING_SLOT;
use crate::options::Options;
use crate::repository::Head;
use crate::repository::RepositoryState;
use crate::repository::Snapshot;
use crate::status::count_of;
use crate::status::count_statuses;
use crate::status::Category;
use crate::status::StatusEntry;
use crate::text::decimal_text;
use crate::text::is_digit;
use crate::text::lemma_decimal_text_denotes;
use crate::text::push_decimal;

verus! {

/// The part of a commit id that is shown where `length` characters are asked
/// for: its first `length` characters, or all of it where it has fewer.
pub open spec fn shown_commit_id(id: Seq<char>, length: usize) -> Seq<char> {
    if length <= id.len() {
        id.subrange(0, length as int)
    } else {
        id
    }
}

/// The branch name as it is shown: painted, where it is asked for and the
/// head has a short name.
pub open spec fn branch_part(options: Options, head: Head) -> Seq<char> {
    match head.shorthand {
        Some(name) if options.git_branch => painted_text(
            scheme_slots(options.color_scheme)[BRANCH_SLOT as int],
            name@,
        ),
        _ => Seq::empty(),
    }
}

/// The commit id as it is shown: cut and painted, where it is asked for and
/// the head leads to a commit.
pub open spec fn commit_part(options: Options, head: Head) -> Seq<char> {
    match head.commit_id {
        Some(id) if options.git_commit_id > 0 => painted_text(
            scheme_slots(options.color_scheme)[COMMIT_SLOT as int],
            shown_commit_id(id@, options.git_commit_id),
        ),
        _ => Seq::empty(),
    }
}

/// One category as it is shown: its letter and its count, painted; nothing
/// where the count is zero.
pub open spec fn count_part(color_scheme: usize, category: Category, count: nat) -> Seq<char> {
    if count > 0 {
        painted_text(
            scheme_slots(color_scheme)[category.slot_index() as int],
            category.letter_text() + decimal_text(count),
        )
    } else {
        Seq::empty()
    }
}

/// The counts of a status as they are shown: the categories in their fixed
/// order, with nothing between them.
pub open spec fn counts_part(color_scheme: usize, entries: Seq<StatusEntry>) -> Seq<char> {
    count_part(color_scheme, Category::New, count_of(entries, Category::New)) + count_part(
        color_scheme,
        Category::Deleted,
        count_of(entries, Category::Deleted),
    ) + count_part(color_scheme, Category::Modified, count_of(entries, Category::Modified))
        + count_part(color_scheme, Category::Renamed, count_of(entries, Category::Renamed))
        + count_part(color_scheme, Category::TypeChanged, count_of(entries, Category::TypeChanged))
        + count_part(color_scheme, Category::Conflicted, count_of(entries, Category::Conflicted))
}

/// The operation under way as it is shown: a space, then its words, painted;
/// nothing for a clean repository.
pub open spec fn operation_part(color_scheme: usize, state: RepositoryState) -> Seq<char> {
    match state.label_text() {
        Some(words) => seq![' '] + painted_text(
            scheme_slots(color_scheme)[WARNING_SLOT as int],
            words,
        ),
        None => Seq::empty(),
    }
}

/// The state of the working tree as it is shown, where it is asked for: the
/// counts, where the status could be read, then the operation under way.
pub open spec fn state_part(options: Options, snapshot: Snapshot) -> Seq<char> {
    if options.git_state {
        (match snapshot.statuses {
            Some(entries) => counts_part(options.color_scheme, entries@),
            None => Seq::empty(),
        }) + operation_part(options.color_scheme, snapshot.state)
    } else {
        Seq::empty()
    }
}

/// What stands between the brackets for a repository with the head `head`.
pub open spec fn head_line(options: Options, snapshot: Snapshot, head: Head) -> Seq<char> {
    branch_part(options, head) + (if options.git_branch && options.git_commit_id > 0 {
        seq![':']
    } else {
        Seq::empty()
    }) + commit_part(options, head) + (if options.git_commit_id > 0 && options.git_state {
        seq![' ']
    } else {
        Seq::empty()
    }) + state_part(options, snapshot)
}

/// The line for a repository: a pair of brackets round what its head gives,
/// and round nothing where the head cannot be resolved.
pub open spec fn repository_line(options: Options, snapshot: Snapshot) -> Seq<char> {
    seq!['('] + (match snapshot.head {
        Some(head) => head_line(options, snapshot, head),
        None => Seq::empty(),
    }) + seq![')']
}

/// The line that is shown: that of the repository, and nothing at all
/// outside a repository.
pub open spec fn rendered(options: Options, snapshot: Option<&Snapshot>) -> Seq<char> {
    match snapshot {
        Some(snapshot) => repository_line(options, *snapshot),
        None => Seq::empty(),
    }
}

/// Writes the first `length` characters of the commit id `id` at the end of
/// `out`, painted with `paint`. Where the id has fewer characters, all of it
/// is written: a length beyond the id is cut down to the id's own.
pub fn push_commit_id(out: &mut String, paint: Paint, id: &str, length: usize)
    ensures
        final(out)@ == old(out)@ + painted_text(paint, shown_commit_id(id@, length)),
{
    let available = id.unicode_len();
    let shown = if length <= available {
        id.substring_char(0, length)
    } else {
        id
    };
    let painted = paint_text(paint, shown);
    out.append(painted.as_str());
}

/// Writes one category at the end of `out`: its letter and `count`, painted
/// with the category's slot of `scheme`; nothing where `count` is zero.
pub fn push_count(out: &mut String, color_scheme: usize, category: Category, count: usize)
    ensures
        final(out)@ == old(out)@ + count_part(color_scheme, category, count as nat),
{
    if count > 0 {
        let scheme = get_color_scheme(color_scheme);
        let mut block = String::new();
        block.append(category.letter());
        push_decimal(&mut block, count);
        let painted = paint_text(scheme[category.slot()], block.as_str());
        out.append(painted.as_str());
    }
}

/// Writes the counts of `entries` at the end of `out`, category by category
/// in the fixed order.
pub fn push_counts(out: &mut String, color_scheme: usize, entries: &Vec<StatusEntry>)
    ensures
        final(out)@ == old(out)@ + counts_part(color_scheme, entries@),
{
    let counts = count_statuses(entries);
    push_count(out, color_scheme, Category::New, counts.get(Category::New));
    push_count(out, color_scheme, Category::Deleted, counts.get(Category::Deleted));
    push_count(out, color_scheme, Category::Modified, counts.get(Category::Modified));
    push_count(out, color_scheme, Category::Renamed, counts.get(Category::Renamed));
    push_count(out, color_scheme, Category::TypeChanged, counts.get(Category::TypeChanged));
    push_count(out, color_scheme, Category::Conflicted, counts.get(Category::Conflicted));
    assert(final(out)@ =~= old(out)@ + counts_part(color_scheme, entries@));
}

/// Writes the operation under way at the end of `out`: a space and the
/// painted words; nothing for a clean repository.
pub fn push_operation(out: &mut String, color_scheme: usize, state: RepositoryState)
    ensures
        final(out)@ == old(out)@ + operation_part(color_scheme, state),
{
    match state.label() {
        Some(words) => {
            let scheme = get_color_scheme(color_scheme);
            let painted = paint_text(scheme[WARNING_SLOT], words);
            proof {
                reveal_strlit(" ");
            }
            out.append(" ");
            out.append(painted.as_str());
            assert(final(out)@ =~= old(out)@ + operation_part(color_scheme, state));
        },
        None => {},
    }
}

/// Writes the branch name at the end of `out`, painted, where it is asked
/// for and the head has a short name.
pub fn push_branch(out: &mut String, options: &Options, head: &Head)
    ensures
        final(out)@ == old(out)@ + branch_part(*options, *head),
{
    if options.git_branch {
        match &head.shorthand {
            Some(name) => {
                let scheme = get_color_scheme(options.color_scheme);
                let painted = paint_text(scheme[BRANCH_SLOT], name.as_str());
                out.append(painted.as_str());
            },
            None => {},
        }
    }
}

/// Writes the commit id at the end of `out`, cut and painted, where it is
/// asked for and the head leads to a commit.
pub fn push_commit(out: &mut String, options: &Options, head: &Head)
    ensures
        final(out)@ == old(out)@ + commit_part(*options, *head),
{
    if options.git_commit_id > 0 {
        match &head.commit_id {
            Some(id) => {
                let scheme = get_color_scheme(options.color_scheme);
                push_commit_id(out, scheme[COMMIT_SLOT], id.as_str(), options.git_commit_id);
            },
            None => {},
        }
    }
}

/// Writes the state of the working tree at the end of `out`, where it is
/// asked for: the counts, where the status could be read, then the operation
/// under way.
pub fn push_state(out: &mut String, options: &Options, snapshot: &Snapshot)
    ensures
        final(out)@ == old(out)@ + state_part(*options, *snapshot),
{
    if options.git_state {
        match &snapshot.statuses {
            Some(entries) => {
                push_counts(out, options.color_scheme, entries);
            },
            None => {},
        }
        push_operation(out, options.color_scheme, snapshot.state);
    }
}

/// Writes at the end of `out` what stands between the brackets for a
/// repository with the head `head`.
pub fn push_head(out: &mut String, options: &Options, snapshot: &Snapshot, head: &Head)
    ensures
        final(out)@ == old(out)@ + head_line(*options, *snapshot, *head),
{
    proof {
        reveal_strlit(":");
        reveal_strlit(" ");
    }
    push_branch(out, options, head);
    if options.git_branch && options.git_commit_id > 0 {
        out.append(":");
    }
    let ghost before_commit = out@;
    push_commit(out, options, head);
    if options.git_commit_id > 0 && options.git_state {
        out.append(" ");
    }
    let ghost before_state = out@;
    push_state(out, options, snapshot);
    proof {
        let branch = branch_part(*options, *head);
        let commit = commit_part(*options, *head);
        let state = state_part(*options, *snapshot);
        let colon: Seq<char> = if options.git_branch && options.git_commit_id > 0 {
            seq![':']
        } else {
            Seq::empty()
        };
        let space: Seq<char> = if options.git_commit_id > 0 && options.git_state {
            seq![' ']
        } else {
            Seq::empty()
        };
        assert(before_commit =~= old(out)@ + branch + colon);
        assert(before_state =~= old(out)@ + branch + colon + commit + space);
        assert(final(out)@ =~= old(out)@ + (branch + colon + commit + space + state));
    }
}

/// The line that is shown for what was read: nothing outside a repository;
/// inside one, a pair of brackets round the branch name, the commit id and
/// the state of the working tree, each where the options ask for it and it
/// could be read. Branch and commit id are parted by a colon, commit id and
/// state by a space, wherever both are asked for.
pub fn render(options: &Options, snapshot: Option<&Snapshot>) -> (line: String)
    ensures
        line@ == rendered(*options, snapshot),
        snapshot is None ==> line@.len() == 0,
{
    let mut line = String::new();
    match snapshot {
        Some(snapshot) => {
            proof {
                reveal_strlit("(");
                reveal_strlit(")");
            }
            line.append("(");
            match &snapshot.head {
                Some(head) => {
                    push_head(&mut line, options, snapshot, head);
                },
                None => {},
            }
            line.append(")");
        },
        None => {},
    }
    line
}

/// The text that a count is shown with holds no escape character.
pub proof fn lemma_count_text_has_no_escape(category: Category, count: nat)
    ensures
        has_no_escape(category.letter_text() + decimal_text(count)),
{
    lemma_decimal_text_denotes(count);
    let text = category.letter_text() + decimal_text(count);
    assert forall|i: int| 0 <= i < text.len() implies #[trigger] text[i] != escape() by {
        if i >= 1 {
            assert(text[i] == decimal_text(count)[i - 1]);
            assert(is_digit(decimal_text(count)[i - 1]));
        }
    }
}

/// The words that an operation is shown with hold no escape character.
pub proof fn lemma_label_has_no_escape(state: RepositoryState)
    ensures
        state.label_text() matches Some(words) ==> has_no_escape(words),
{
    reveal_strlit("Merge");
    reveal_strlit("Revert");
    reveal_strlit("Revert Sequence");
    reveal_strlit("Cherry-pick");
    reveal_strlit("Cherry-pick Sequence");
    reveal_strlit("Bisect");
    reveal_strlit("Rebase");
    reveal_strlit("Rebase Interactive");
    reveal_strlit("Rebase Merge");
    reveal_strlit("Apply Mailbox");
    reveal_strlit("Apply Mailbox or Rebase");
}

/// Two texts without an escape character make one without.
pub proof fn lemma_joined_has_no_escape(left: Seq<char>, right: Seq<char>)
    requires
        has_no_escape(left),
        has_no_escape(right),
    ensures
        has_no_escape(left + right),
{
    let joined = left + right;
    assert forall|i: int| 0 <= i < joined.len() implies #[trigger] joined[i] != escape() by {
        if i < left.len() {
            assert(joined[i] == left[i]);
        } else {
            assert(joined[i] == right[i - left.len()]);
        }
    }
}

/// With a colour scheme that is not known, the counts hold no escape
/// character.
pub proof fn lemma_plain_counts_have_no_escape(color_scheme: usize, entries: Seq<StatusEntry>)
    requires
        color_scheme != 1,
    ensures
        has_no_escape(counts_part(color_scheme, entries)),
{
    let new = count_part(color_scheme, Category::New, count_of(entries, Category::New));
    let deleted = count_part(color_scheme, Category::Deleted, count_of(entries, Category::Deleted));
    let modified = count_part(
        color_scheme,
        Category::Modified,
        count_of(entries, Category::Modified),
    );
    let renamed = count_part(color_scheme, Category::Renamed, count_of(entries, Category::Renamed));
    let typechanged = count_part(
        color_scheme,
        Category::TypeChanged,
        count_of(entries, Category::TypeChanged),
    );
    let conflicted = count_part(
        color_scheme,
        Category::Conflicted,
        count_of(entries, Category::Conflicted),
    );
    assert forall|category: Category, count: nat|
        has_no_escape(#[trigger] count_part(color_scheme, category, count)) by {
        lemma_count_text_has_no_escape(category, count);
        let text = category.letter_text() + decimal_text(count);
        assert(painted_text(Paint::Plain, text) == text);
    }
    lemma_joined_has_no_escape(new, deleted);
    lemma_joined_has_no_escape(new + deleted, modified);
    lemma_joined_has_no_escape(new + deleted + modified, renamed);
    lemma_joined_has_no_escape(new + deleted + modified + renamed, typechanged);
    lemma_joined_has_no_escape(new + deleted + modified + renamed + typechanged, conflicted);
}

/// With a colour scheme that is not known, the state of the working tree
/// holds no escape character.
pub proof fn lemma_plain_state_has_no_escape(options: Options, snapshot: Snapshot)
    requires
        options.color_scheme != 1,
    ensures
        has_no_escape(state_part(options, snapshot)),
{
    lemma_label_has_no_escape(snapshot.state);
    let operation = operation_part(options.color_scheme, snapshot.state);
    match snapshot.state.label_text() {
        Some(words) => {
            assert(painted_text(Paint::Plain, words) == words);
            lemma_joined_has_no_escape(seq![' '], words);
        },
        None => {},
    }
    assert(has_no_escape(operation));
    match snapshot.statuses {
        Some(entries) => {
            lemma_plain_counts_have_no_escape(options.color_scheme, entries@);
            lemma_joined_has_no_escape(counts_part(options.color_scheme, entries@), operation);
        },
        None => {
            assert(Seq::<char>::empty() + operation == operation);
        },
    }
}

/// With a colour scheme that is not known, the line is plain text: where
/// neither the branch name nor the commit id holds an escape character, the
/// line holds none.
pub proof fn lemma_unknown_scheme_renders_plain(options: Options, snapshot: Snapshot)
    requires
        options.color_scheme != 1,
        snapshot.head matches Some(head) ==> {
            &&& head.shorthand matches Some(name) ==> has_no_escape(name@)
            &&& head.commit_id matches Some(id) ==> has_no_escape(id@)
        },
    ensures
        has_no_escape(rendered(options, Some(&snapshot))),
{
    let inner = match snapshot.head {
        Some(head) => head_line(options, snapshot, head),
        None => Seq::empty(),
    };
    match snapshot.head {
        Some(head) => {
            let branch = branch_part(options, head);
            let colon: Seq<char> = if options.git_branch && options.git_commit_id > 0 {
                seq![':']
            } else {
                Seq::empty()
            };
            let commit = commit_part(options, head);
            let space: Seq<char> = if options.git_commit_id > 0 && options.git_state {
                seq![' ']
            } else {
                Seq::empty()
            };
            let state = state_part(options, snapshot);
            match head.shorthand {
                Some(name) => {
                    assert(painted_text(Paint::Plain, name@) == name@);
                },
                None => {},
            }
            assert(has_no_escape(branch));
            match head.commit_id {
                Some(id) => {
                    let shown = shown_commit_id(id@, options.git_commit_id);
                    assert(has_no_escape(shown));
                    assert(painted_text(Paint::Plain, shown) == shown);
                },
                None => {},
            }
            assert(has_no_escape(commit));
            lemma_plain_state_has_no_escape(options, snapshot);
            lemma_joined_has_no_escape(branch, colon);
            lemma_joined_has_no_escape(branch + colon, commit);
            lemma_joined_has_no_escape(branch + colon + commit, space);
            lemma_joined_has_no_escape(branch + colon + commit + space, state);
        },
        None => {},
    }
    assert(has_no_escape(inner));
    lemma_joined_has_no_escape(seq!['('], inner);
    lemma_joined_has_no_escape(seq!['('] + inner, seq![')']);
}

/// A length beyond the commit id shows the whole id, and a length within it
/// shows that many characters.
pub proof fn lemma_shown_commit_id_is_cut(id: Seq<char>, length: usize)
    ensures
        length >= id.len() ==> shown_commit_id(id, length) == id,
        length <= id.len() ==> shown_commit_id(id, length).len() == length,
        shown_commit_id(id, length).is_prefix_of(id),
{
    if length >= id.len() {
        assert(id.subrange(0, id.len() as int) == id);
    }
}

/// What the options do not ask for does not show: two repositories with
/// heads give one line where they agree on the short name, if the branch is
/// asked for, on the commit id, if that is asked for, and on the status and
/// the operation under way, if the state is asked for.
pub proof fn lemma_only_what_is_asked_for_shows(options: Options, one: Snapshot, other: Snapshot)
    requires
        one.head matches Some(head) && other.head matches Some(other_head) && {
            &&& options.git_branch ==> head.shorthand == other_head.shorthand
            &&& options.git_commit_id > 0 ==> head.commit_id == other_head.commit_id
        },
        options.git_state ==> one.statuses == other.statuses && one.state == other.state,
    ensures
        rendered(options, Some(&one)) == rendered(options, Some(&other)),
{
}

/// Outside a repository nothing is shown, whatever the options.
pub proof fn lemma_nothing_outside_repository(options: Options)
    ensures
        rendered(options, None) == Seq::<char>::empty(),
{
}

} // verus!
