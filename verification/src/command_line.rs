//! The option table and the parser of the `getopts` crate, with what this
//! library takes for granted of them.

use vstd::prelude::*;
use getopts::Matches;
use getopts::Options as Getopts;

verus! {

/// Whether an option takes a value, as `getopts::HasArg` says it.
pub enum HasArgument {
    /// It must be given one.
    Yes,
    /// It takes none.
    No,
    /// It may be given one.
    Maybe,
}

/// How often an option may be given, as `getopts::Occur` says it.
pub enum Occurrence {
    /// Exactly once.
    Required,
    /// At most once.
    Optional,
    /// Any number of times.
    Multiple,
}

/// One entry of an option table: an option with its two names.
pub struct OptionGroup {
    /// The name after a single dash: one character, or empty.
    pub short_name: Seq<char>,
    /// The name after a double dash, or empty.
    pub long_name: Seq<char>,
    /// What the usage text calls the option's value.
    pub hint: Seq<char>,
    /// What the usage text says of the option.
    pub description: Seq<char>,
    /// Whether the option takes a value.
    pub has_argument: HasArgument,
    /// How often the option may be given.
    pub occurrence: Occurrence,
}

/// What an option table holds.
pub struct OptionTable {
    /// The entries, oldest first.
    pub groups: Seq<OptionGroup>,
    /// Whether parsing stops to look for options at the first argument that
    /// is none.
    pub stop_at_first_free: bool,
    /// Whether long names are written with a single dash.
    pub long_only: bool,
}

/// What each option was given on a command line: for every name that the
/// table defines, the values of the option's occurrences in their order,
/// `None` for an occurrence without a value.
pub type Matched = Map<Seq<char>, Seq<Option<Seq<char>>>>;

#[verifier::external_type_specification]
#[verifier::external_body]
pub struct ExGetopts(Getopts);

#[verifier::external_type_specification]
#[verifier::external_body]
pub struct ExMatches(Matches);

/// What the option table `table` holds.
pub uninterp spec fn option_table(table: Getopts) -> OptionTable;

/// What the options were given, as `matches` holds it.
pub uninterp spec fn matched(matches: Matches) -> Matched;

/// What `getopts::Options::parse` makes of the arguments `args` with a table
/// that holds `table`: what the options were given, or the message of the
/// failure.
pub uninterp spec fn parse_outcome(table: OptionTable, args: Seq<Seq<char>>) -> Result<
    Matched,
    Seq<char>,
>;

/// The text that `getopts::Options::usage` writes for a table that holds
/// `table` under the first line `brief`.
pub uninterp spec fn usage_text(table: OptionTable, brief: Seq<char>) -> Seq<char>;

/// The texts of `args`, one for one.
pub open spec fn texts(args: Seq<String>) -> Seq<Seq<char>> {
    args.map_values(|arg: String| arg@)
}

/// Whether `c` is a visible character of ASCII.
pub open spec fn is_visible_ascii(c: char) -> bool {
    '!' <= c <= '~'
}

/// Whether an option may have these two names: the short one is empty or
/// one visible character of ASCII, the long one is not a single character,
/// and one of the two is not empty.
pub open spec fn names_allowed(short_name: Seq<char>, long_name: Seq<char>) -> bool {
    &&& short_name.len() == 0 || (short_name.len() == 1 && is_visible_ascii(short_name[0]))
    &&& long_name.len() != 1
    &&& short_name.len() + long_name.len() > 0
}

/// Whether every entry of `table` has names that an option may have.
pub open spec fn well_named(table: OptionTable) -> bool {
    forall|i: int|
        0 <= i < table.groups.len() ==> names_allowed(
            (#[trigger] table.groups[i]).short_name,
            table.groups[i].long_name,
        )
}

/// Whether `table` has an option with the name `name`, short or long.
pub open spec fn defines(table: OptionTable, name: Seq<char>) -> bool {
    name.len() > 0 && exists|i: int|
        0 <= i < table.groups.len() && ((#[trigger] table.groups[i]).short_name == name
            || table.groups[i].long_name == name)
}

/// Whether the option `name` was given at all.
pub open spec fn given(matched: Matched, name: Seq<char>) -> bool {
    matched[name].len() > 0
}

/// The value of the first occurrence of the option `name`; `None` where the
/// option was not given, or was first given without a value.
pub open spec fn first_value(matched: Matched, name: Seq<char>) -> Option<Seq<char>> {
    if matched[name].len() > 0 {
        matched[name][0]
    } else {
        None
    }
}

/// Calls `getopts::Options::new`. Trusted: the new table has no entry, looks
/// for options among all arguments, and writes long names with two dashes.
#[verifier::external_body]
pub(crate) fn new_table() -> (table: Getopts)
    ensures
        option_table(table) == (OptionTable {
            groups: Seq::empty(),
            stop_at_first_free: false,
            long_only: false,
        }),
{
    Getopts::new()
}

/// Calls `getopts::Options::optflag`, which panics on a short name of more
/// than one byte and on a long name of one byte. Trusted: the table gets one
/// more entry at its end, an option without a value and without a hint that
/// may be given at most once, and is else unchanged.
#[verifier::external_body]
pub(crate) fn add_flag(table: &mut Getopts, short_name: &str, long_name: &str, description: &str)
    requires
        names_allowed(short_name@, long_name@),
    ensures
        option_table(*final(table)) == (OptionTable {
            groups: option_table(*old(table)).groups.push(
                OptionGroup {
                    short_name: short_name@,
                    long_name: long_name@,
                    hint: Seq::empty(),
                    description: description@,
                    has_argument: HasArgument::No,
                    occurrence: Occurrence::Optional,
                },
            ),
            ..option_table(*old(table))
        }),
{
    table.optflag(short_name, long_name, description);
}

/// Calls `getopts::Options::optopt`, which panics on a short name of more
/// than one byte and on a long name of one byte. Trusted: the table gets one
/// more entry at its end, an option with a value that may be given at most
/// once, and is else unchanged.
#[verifier::external_body]
pub(crate) fn add_option(
    table: &mut Getopts,
    short_name: &str,
    long_name: &str,
    description: &str,
    hint: &str,
)
    requires
        names_allowed(short_name@, long_name@),
    ensures
        option_table(*final(table)) == (OptionTable {
            groups: option_table(*old(table)).groups.push(
                OptionGroup {
                    short_name: short_name@,
                    long_name: long_name@,
                    hint: hint@,
                    description: description@,
                    has_argument: HasArgument::Yes,
                    occurrence: Occurrence::Optional,
                },
            ),
            ..option_table(*old(table))
        }),
{
    table.optopt(short_name, long_name, description, hint);
}

/// Calls `getopts::Options::parse`, which panics on an entry without a name,
/// and turns a failure into its message as `Display` writes it. Trusted: the
/// outcome depends on what the table holds and on the arguments alone, and
/// what comes back on success has an entry for each name that the table
/// defines and for no other.
#[verifier::external_body]
pub(crate) fn parse(table: &Getopts, args: &[String]) -> (outcome: Result<Matches, String>)
    requires
        well_named(option_table(*table)),
    ensures
        match outcome {
            Ok(matches) => {
                &&& parse_outcome(option_table(*table), texts(args@)) == Ok::<Matched, Seq<char>>(
                    matched(matches),
                )
                &&& forall|name: Seq<char>|
                    matched(matches).dom().contains(name) <==> defines(option_table(*table), name)
            },
            Err(message) => parse_outcome(option_table(*table), texts(args@)) == Err::<
                Matched,
                Seq<char>,
            >(message@),
        },
{
    table.parse(args).map_err(|failure| failure.to_string())
}

/// Calls `getopts::Options::usage`, which panics on a short name that is
/// not one column wide. Trusted: the text depends on what the table holds
/// and on the first line alone.
#[verifier::external_body]
pub(crate) fn usage(table: &Getopts, brief: &str) -> (text: String)
    requires
        well_named(option_table(*table)),
    ensures
        text@ == usage_text(option_table(*table), brief@),
{
    table.usage(brief)
}

/// Calls `getopts::Matches::opt_present`, which panics on a name that the
/// table does not define. Trusted: the answer is whether the option has an
/// occurrence.
#[verifier::external_body]
pub(crate) fn flag_present(matches: &Matches, name: &str) -> (present: bool)
    requires
        matched(*matches).dom().contains(name@),
    ensures
        present == given(matched(*matches), name@),
{
    matches.opt_present(name)
}

/// Calls `getopts::Matches::opt_str`, which panics on a name that the table
/// does not define. Trusted: what comes back is the value of the option's
/// first occurrence, and `None` where the option has no occurrence or its
/// first occurrence has no value.
#[verifier::external_body]
pub(crate) fn option_value(matches: &Matches, name: &str) -> (value: Option<String>)
    requires
        matched(*matches).dom().contains(name@),
    ensures
        match value {
            Some(text) => first_value(matched(*matches), name@) == Some(text@),
            None => first_value(matched(*matches), name@) is None,
        },
{
    matches.opt_str(name)
}

} // verus!
