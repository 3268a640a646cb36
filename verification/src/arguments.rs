//! From the arguments of the command line to the options of the run.

use vstd::prelude::*;
use vstd::slice::slice_subrange;
use vstd::string::StringExecFns;
use getopts::Matches;
use getopts::Options as Getopts;
use crate::command_line::add_flag;
use crate::command_line::add_option;
use crate::command_line::defines;
use crate::command_line::first_value;
use crate::command_line::flag_present;
use crate::command_line::given;
use crate::command_line::matched;
use crate::command_line::new_table;
use crate::command_line::option_table;
use crate::command_line::option_value;
use crate::command_line::parse;
use crate::command_line::parse_outcome;
use crate::command_line::texts;
use crate::command_line::usage;
use crate::command_line::usage_text;
use crate::command_line::well_named;
use crate::command_line::HasArgument;
use crate::command_line::Matched;
use crate::command_line::Occurrence;
use crate::command_line::OptionGroup;
use crate::command_line::OptionTable;
use crate::options::Options;
use crate::text::parse_number;
use crate::text::parsed_number;

verus! {

/// The options whose value is a number.
#[derive(Clone, Copy, Debug, PartialEq, Eq, Structural)]
pub enum NumericOption {
    /// `-C`, the index of the colour scheme.
    ColorScheme,
    /// `-c`, the length of the commit id.
    CommitLength,
}

/// Why the arguments give no options.
#[derive(Clone, Debug, PartialEq, Eq)]
pub enum ArgumentError {
    /// Help was asked for.
    HelpRequested,
    /// The arguments are not a command line of this program; the parser's
    /// message says why.
    ParseError(String),
    /// The value of a numeric option is not a number.
    InvalidArgument(NumericOption),
}

/// An `ArgumentError` with its message as a sequence of characters.
pub enum ArgumentErrorView {
    /// Help was asked for.
    HelpRequested,
    /// The parser's message.
    ParseError(Seq<char>),
    /// The option whose value is not a number.
    InvalidArgument(NumericOption),
}

impl View for ArgumentError {
    type V = ArgumentErrorView;

    open spec fn view(&self) -> ArgumentErrorView {
        match self {
            ArgumentError::HelpRequested => ArgumentErrorView::HelpRequested,
            ArgumentError::ParseError(message) => ArgumentErrorView::ParseError(message@),
            ArgumentError::InvalidArgument(option) => ArgumentErrorView::InvalidArgument(*option),
        }
    }
}

/// The message of an error; a request for help has none.
pub open spec fn error_message(error: ArgumentErrorView) -> Option<Seq<char>> {
    match error {
        ArgumentErrorView::HelpRequested => None,
        ArgumentErrorView::ParseError(message) => Some(message),
        ArgumentErrorView::InvalidArgument(NumericOption::ColorScheme) => Some(
            "color SCHEME is not a valid number"@,
        ),
        ArgumentErrorView::InvalidArgument(NumericOption::CommitLength) => Some(
            "commit LENGTH is not a valid number"@,
        ),
    }
}

impl ArgumentError {
    /// The message of the error; a request for help has none.
    pub fn message(&self) -> (message: Option<String>)
        ensures
            match message {
                Some(text) => error_message(self@) == Some(text@),
                None => error_message(self@) is None,
            },
    {
        match self {
            ArgumentError::HelpRequested => None,
            ArgumentError::ParseError(message) => Some(message.clone()),
            ArgumentError::InvalidArgument(NumericOption::ColorScheme) => Some(
                String::from_str("color SCHEME is not a valid number"),
            ),
            ArgumentError::InvalidArgument(NumericOption::CommitLength) => Some(
                String::from_str("commit LENGTH is not a valid number"),
            ),
        }
    }
}

/// What a command line selects, before any value is read as a number.
#[derive(Clone, Debug, PartialEq, Eq)]
pub struct Selection {
    /// Whether help is asked for.
    pub help: bool,
    /// The value given for the colour scheme.
    pub color_scheme: Option<String>,
    /// Whether the branch name is asked for.
    pub branch: bool,
    /// The value given for the length of the commit id.
    pub commit_length: Option<String>,
    /// Whether the state of the working tree is asked for.
    pub state: bool,
}

/// A `Selection` with its values as sequences of characters.
pub struct SelectionView {
    /// Whether help is asked for.
    pub help: bool,
    /// The value given for the colour scheme.
    pub color_scheme: Option<Seq<char>>,
    /// Whether the branch name is asked for.
    pub branch: bool,
    /// The value given for the length of the commit id.
    pub commit_length: Option<Seq<char>>,
    /// Whether the state of the working tree is asked for.
    pub state: bool,
}

/// The text of an optional string.
pub open spec fn optional_text(value: Option<String>) -> Option<Seq<char>> {
    match value {
        Some(text) => Some(text@),
        None => None,
    }
}

impl View for Selection {
    type V = SelectionView;

    open spec fn view(&self) -> SelectionView {
        SelectionView {
            help: self.help,
            color_scheme: optional_text(self.color_scheme),
            branch: self.branch,
            commit_length: optional_text(self.commit_length),
            state: self.state,
        }
    }
}

/// Whether `value` is given and is no number that a `usize` holds.
pub open spec fn is_refused(value: Option<Seq<char>>) -> bool {
    value matches Some(text) && parsed_number(text) is None
}

/// The number that `value` gives; zero where no value is given.
pub open spec fn number_or_zero(value: Option<Seq<char>>) -> usize {
    match value {
        Some(text) => match parsed_number(text) {
            Some(number) => number,
            None => 0,
        },
        None => 0,
    }
}

/// The options that a selection gives, or why it gives none. A request for
/// help comes before everything else, a colour scheme that is no number
/// before a length that is none.
pub open spec fn resolution(selection: SelectionView) -> Result<Options, ArgumentErrorView> {
    if selection.help {
        Err(ArgumentErrorView::HelpRequested)
    } else if is_refused(selection.color_scheme) {
        Err(ArgumentErrorView::InvalidArgument(NumericOption::ColorScheme))
    } else if is_refused(selection.commit_length) {
        Err(ArgumentErrorView::InvalidArgument(NumericOption::CommitLength))
    } else {
        Ok(
            Options {
                color_scheme: number_or_zero(selection.color_scheme),
                git_branch: selection.branch,
                git_commit_id: number_or_zero(selection.commit_length),
                git_state: selection.state,
            },
        )
    }
}

/// Whether `outcome` is `expected`, the error taken by its view.
pub open spec fn is_outcome(
    outcome: Result<Options, ArgumentError>,
    expected: Result<Options, ArgumentErrorView>,
) -> bool {
    match outcome {
        Ok(options) => expected == Ok::<Options, ArgumentErrorView>(options),
        Err(error) => expected == Err::<Options, ArgumentErrorView>(error@),
    }
}

/// Reads the value of the numeric option `option`: zero where none is given,
/// and an error where the value is no number that a `usize` holds.
fn read_number(value: &Option<String>, option: NumericOption) -> (number: Result<
    usize,
    ArgumentError,
>)
    ensures
        match number {
            Ok(n) => !is_refused(optional_text(*value)) && n == number_or_zero(
                optional_text(*value),
            ),
            Err(error) => is_refused(optional_text(*value)) && error@
                == ArgumentErrorView::InvalidArgument(option),
        },
{
    match value {
        Some(text) => match parse_number(text.as_str()) {
            Some(n) => Ok(n),
            None => Err(ArgumentError::InvalidArgument(option)),
        },
        None => Ok(0),
    }
}

/// The options that `selection` gives, or why it gives none.
pub fn resolve(selection: &Selection) -> (outcome: Result<Options, ArgumentError>)
    ensures
        is_outcome(outcome, resolution(selection@)),
{
    if selection.help {
        return Err(ArgumentError::HelpRequested);
    }
    let color_scheme = match read_number(&selection.color_scheme, NumericOption::ColorScheme) {
        Ok(n) => n,
        Err(error) => { return Err(error); },
    };
    let git_commit_id = match read_number(&selection.commit_length, NumericOption::CommitLength) {
        Ok(n) => n,
        Err(error) => { return Err(error); },
    };
    let mut options = Options::new();
    options.color_scheme = color_scheme;
    options.git_branch = selection.branch;
    options.git_commit_id = git_commit_id;
    options.git_state = selection.state;
    Ok(options)
}

/// One entry of this program's table.
pub open spec fn prompt_group(
    short_name: Seq<char>,
    long_name: Seq<char>,
    description: Seq<char>,
    hint: Seq<char>,
    has_argument: HasArgument,
) -> OptionGroup {
    OptionGroup {
        short_name,
        long_name,
        hint,
        description,
        has_argument,
        occurrence: Occurrence::Optional,
    }
}

/// What the table of this program's options holds: help, the colour scheme,
/// the branch, the commit id and the state, in this order.
pub open spec fn prompt_table() -> OptionTable {
    OptionTable {
        groups: seq![
            prompt_group("h"@, "help"@, "print this help menu"@, Seq::empty(), HasArgument::No),
            prompt_group(
                "C"@,
                "color"@,
                "render using a color scheme"@,
                "SCHEME"@,
                HasArgument::Yes,
            ),
            prompt_group("b"@, "branch"@, "print the branch name"@, Seq::empty(), HasArgument::No),
            prompt_group(
                "c"@,
                "commit"@,
                "print the commit id, truncated to LENGTH"@,
                "LENGTH"@,
                HasArgument::Yes,
            ),
            prompt_group(
                "s"@,
                "state"@,
                "print the repository state"@,
                Seq::empty(),
                HasArgument::No,
            ),
        ],
        stop_at_first_free: false,
        long_only: false,
    }
}

/// Whether `table` has the five options that this program reads, each under
/// its short name.
pub open spec fn defines_prompt_options(table: OptionTable) -> bool {
    &&& defines(table, "h"@)
    &&& defines(table, "C"@)
    &&& defines(table, "b"@)
    &&& defines(table, "c"@)
    &&& defines(table, "s"@)
}

/// This program's table has well-formed names and defines what the program
/// reads.
pub proof fn lemma_prompt_table_is_sound()
    ensures
        well_named(prompt_table()),
        defines_prompt_options(prompt_table()),
{
    reveal_strlit("h");
    reveal_strlit("help");
    reveal_strlit("C");
    reveal_strlit("color");
    reveal_strlit("b");
    reveal_strlit("branch");
    reveal_strlit("c");
    reveal_strlit("commit");
    reveal_strlit("s");
    reveal_strlit("state");
    let table = prompt_table();
    assert(table.groups[0].short_name == "h"@);
    assert(table.groups[1].short_name == "C"@);
    assert(table.groups[2].short_name == "b"@);
    assert(table.groups[3].short_name == "c"@);
    assert(table.groups[4].short_name == "s"@);
}

/// The table of this program's options.
pub fn prompt_options() -> (table: Getopts)
    ensures
        option_table(table) == prompt_table(),
{
    proof {
        reveal_strlit("h");
        reveal_strlit("help");
        reveal_strlit("C");
        reveal_strlit("color");
        reveal_strlit("b");
        reveal_strlit("branch");
        reveal_strlit("c");
        reveal_strlit("commit");
        reveal_strlit("s");
        reveal_strlit("state");
        reveal_strlit("");
    }
    let mut table = new_table();
    add_flag(&mut table, "h", "help", "print this help menu");
    add_option(&mut table, "C", "color", "render using a color scheme", "SCHEME");
    add_flag(&mut table, "b", "branch", "print the branch name");
    add_option(&mut table, "c", "commit", "print the commit id, truncated to LENGTH", "LENGTH");
    add_flag(&mut table, "s", "state", "print the repository state");
    assert(option_table(table).groups =~= prompt_table().groups);
    table
}

/// What a command line selects, from what its options were given.
pub open spec fn selection_of(matched: Matched) -> SelectionView {
    SelectionView {
        help: given(matched, "h"@),
        color_scheme: first_value(matched, "C"@),
        branch: given(matched, "b"@),
        commit_length: first_value(matched, "c"@),
        state: given(matched, "s"@),
    }
}

/// The options that the arguments `args` give with a table that holds
/// `table`, or why they give none: the parser's failure where it fails, else
/// what the selection resolves to.
pub open spec fn arguments_outcome(table: OptionTable, args: Seq<Seq<char>>) -> Result<
    Options,
    ArgumentErrorView,
> {
    match parse_outcome(table, args) {
        Ok(matched) => resolution(selection_of(matched)),
        Err(message) => Err(ArgumentErrorView::ParseError(message)),
    }
}

/// Reads from `matches` what the command line selects.
fn select(matches: &Matches) -> (selection: Selection)
    requires
        matched(*matches).dom().contains("h"@),
        matched(*matches).dom().contains("C"@),
        matched(*matches).dom().contains("b"@),
        matched(*matches).dom().contains("c"@),
        matched(*matches).dom().contains("s"@),
    ensures
        selection@ == selection_of(matched(*matches)),
{
    Selection {
        help: flag_present(matches, "h"),
        color_scheme: option_value(matches, "C"),
        branch: flag_present(matches, "b"),
        commit_length: option_value(matches, "c"),
        state: flag_present(matches, "s"),
    }
}

/// The options that the arguments `args`, the program's name not among
/// them, give with the table `opts`, or why they give none.
pub fn match_arguments(args: &[String], opts: &Getopts) -> (outcome: Result<
    Options,
    ArgumentError,
>)
    requires
        well_named(option_table(*opts)),
        defines_prompt_options(option_table(*opts)),
    ensures
        is_outcome(outcome, arguments_outcome(option_table(*opts), texts(args@))),
{
    let matches = match parse(opts, args) {
        Ok(matches) => matches,
        Err(message) => { return Err(ArgumentError::ParseError(message)); },
    };
    let selection = select(&matches);
    resolve(&selection)
}

/// The first line of the usage text for a program called `program`.
pub open spec fn brief_text(program: Seq<char>) -> Seq<char> {
    "Usage: "@ + program + " [options]"@
}

/// What is written when a command line is turned down: the usage text, and
/// after it a line with the error's message where the error has one.
pub open spec fn rejection_text(usage: Seq<char>, error: ArgumentErrorView) -> Seq<char> {
    match error_message(error) {
        Some(message) => usage + "Argument parsing error: "@ + message + seq!['\n'],
        None => usage,
    }
}

/// How a run ends that a command line has turned down.
#[derive(Clone, Debug, PartialEq, Eq)]
pub struct Rejection {
    /// What is written to standard output.
    pub output: String,
    /// The exit code of the process.
    pub exit_code: i32,
}

/// How a run ends whose command line gave `error`, under the usage text
/// `usage`: the text and the error's line are written, and the exit code
/// is 1.
pub fn reject(usage: String, error: &ArgumentError) -> (rejection: Rejection)
    ensures
        rejection.exit_code == 1,
        rejection.output@ == rejection_text(usage@, error@),
{
    let mut output = usage;
    match error.message() {
        Some(message) => {
            proof {
                reveal_strlit("\n");
            }
            output.append("Argument parsing error: ");
            output.append(message.as_str());
            output.append("\n");
            assert(output@ =~= rejection_text(usage@, error@));
        },
        None => {},
    }
    Rejection { output, exit_code: 1 }
}

/// The usage text of this program under the name `program`.
pub fn usage_for(program: &str) -> (text: String)
    ensures
        text@ == usage_text(prompt_table(), brief_text(program@)),
{
    let table = prompt_options();
    let mut brief = String::from_str("Usage: ");
    brief.append(program);
    brief.append(" [options]");
    proof {
        lemma_prompt_table_is_sound();
    }
    usage(&table, brief.as_str())
}

/// What the command line `argv`, the program's name first, makes of the
/// run: its options, or how it ends at once.
pub open spec fn command_line_outcome(argv: Seq<Seq<char>>) -> Result<
    Options,
    ArgumentErrorView,
> {
    arguments_outcome(prompt_table(), argv.skip(1))
}

/// The options of the run with the command line `argv`, the program's name
/// first; or, where help is asked for or the command line is refused, what
/// is written and the exit code 1.
pub fn process_arguments(argv: &Vec<String>) -> (outcome: Result<Options, Rejection>)
    requires
        argv.len() > 0,
    ensures
        match outcome {
            Ok(options) => command_line_outcome(texts(argv@)) == Ok::<Options, ArgumentErrorView>(
                options,
            ),
            Err(rejection) => {
                &&& command_line_outcome(texts(argv@)) matches Err(error)
                &&& rejection.exit_code == 1
                &&& rejection.output@ == rejection_text(
                    usage_text(prompt_table(), brief_text(argv[0]@)),
                    error,
                )
            },
        },
{
    let table = prompt_options();
    let args = slice_subrange(argv.as_slice(), 1, argv.len());
    proof {
        lemma_prompt_table_is_sound();
        assert(texts(args@) =~= texts(argv@).skip(1));
    }
    match match_arguments(args, &table) {
        Ok(options) => Ok(options),
        Err(error) => {
            let text = usage_for(argv[0].as_str());
            Err(reject(text, &error))
        },
    }
}

/// Help comes before everything else: a selection that asks for help gives
/// the request for help whatever else it holds, and what is then written is
/// the usage text alone, with no line for an error.
pub proof fn lemma_help_comes_first(selection: SelectionView, usage: Seq<char>)
    requires
        selection.help,
    ensures
        resolution(selection) == Err::<Options, ArgumentErrorView>(
            ArgumentErrorView::HelpRequested,
        ),
        rejection_text(usage, ArgumentErrorView::HelpRequested) == usage,
{
}

/// A command line that the parser takes and that asks for help ends the
/// run with the request for help, whatever else it holds.
pub proof fn lemma_help_ends_the_run(argv: Seq<Seq<char>>, matched: Matched)
    requires
        parse_outcome(prompt_table(), argv.skip(1)) == Ok::<Matched, Seq<char>>(matched),
        given(matched, "h"@),
    ensures
        command_line_outcome(argv) == Err::<Options, ArgumentErrorView>(
            ArgumentErrorView::HelpRequested,
        ),
{
}

/// Where help is not asked for, the value given for the colour scheme
/// decides: a number that a `usize` holds is the scheme of the options, if
/// there are any, and the only error left is that of the commit length;
/// anything else is refused as an invalid colour scheme.
pub proof fn lemma_color_scheme_decides(selection: SelectionView, value: Seq<char>)
    requires
        !selection.help,
        selection.color_scheme == Some(value),
    ensures
        match parsed_number(value) {
            Some(number) => match resolution(selection) {
                Ok(options) => options.color_scheme == number,
                Err(error) => error == ArgumentErrorView::InvalidArgument(
                    NumericOption::CommitLength,
                ),
            },
            None => resolution(selection) == Err::<Options, ArgumentErrorView>(
                ArgumentErrorView::InvalidArgument(NumericOption::ColorScheme),
            ),
        },
{
}

/// Where help is not asked for and the colour scheme is not refused, the
/// value given for the commit length decides in the same way.
pub proof fn lemma_commit_length_decides(selection: SelectionView, value: Seq<char>)
    requires
        !selection.help,
        !is_refused(selection.color_scheme),
        selection.commit_length == Some(value),
    ensures
        match parsed_number(value) {
            Some(number) => resolution(selection) matches Ok(options) && options.git_commit_id
                == number,
            None => resolution(selection) == Err::<Options, ArgumentErrorView>(
                ArgumentErrorView::InvalidArgument(NumericOption::CommitLength),
            ),
        },
{
}

} // verus!
