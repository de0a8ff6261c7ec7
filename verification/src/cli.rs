//! The command line: which command the arguments ask for, and the fixed
//! texts of the commands that print no report.

use vstd::prelude::*;
use vstd::string::*;

verus! {

/// What the program was asked to do.
#[derive(Debug, PartialEq, Eq)]
pub enum Command {
    /// Collect a snapshot and print the report.
    Report,
    /// Print the usage text.
    Help,
    /// Print name and version.
    Version,
    /// Say that the flag is not known.
    UnknownFlag(String),
}

/// A command as mathematical values.
pub enum CommandModel {
    Report,
    Help,
    Version,
    UnknownFlag(Seq<char>),
}

impl View for Command {
    type V = CommandModel;

    open spec fn view(&self) -> CommandModel {
        match self {
            Command::Report => CommandModel::Report,
            Command::Help => CommandModel::Help,
            Command::Version => CommandModel::Version,
            Command::UnknownFlag(flag) => CommandModel::UnknownFlag(flag@),
        }
    }
}

/// The command that a single flag asks for.
pub open spec fn command_of_flag(flag: Seq<char>) -> CommandModel {
    if flag == "--help"@ || flag == "-h"@ {
        CommandModel::Help
    } else if flag == "--version"@ || flag == "-v"@ {
        CommandModel::Version
    } else {
        CommandModel::UnknownFlag(flag)
    }
}

/// The command that the arguments ask for. The first argument is the name
/// of the program. Exactly one more is read as a flag; any other number of
/// arguments asks for the report.
pub open spec fn command_of(args: Seq<Seq<char>>) -> CommandModel {
    if args.len() == 2 {
        command_of_flag(args[1])
    } else {
        CommandModel::Report
    }
}

/// Whether a command collects a snapshot.
pub open spec fn collects_snapshot(command: CommandModel) -> bool {
    command is Report
}

/// The message for a flag that is not known.
pub open spec fn unknown_flag_text(flag: Seq<char>) -> Seq<char> {
    "Unknown flag: "@ + flag
}

/// The line that names the program and its version.
pub open spec fn version_text(version: Seq<char>) -> Seq<char> {
    "sfetch "@ + version
}

/// The usage text.
pub open spec fn usage_text() -> Seq<char> {
    "usage:\n    sfetch\n\n    [options]\n    -v | --version to see version info\n    -h | --help to get this message and exit\n    "@
}

/// The sequence that clears the screen and moves the cursor to its top left.
pub open spec fn clear_screen_text() -> Seq<char> {
    "\x1B[2J\x1B[1;1H"@
}

/// Whether `text` is exactly `literal`.
fn text_is(text: &String, literal: &str) -> (r: bool)
    ensures
        r == (text@ == literal@),
{
    let other = String::from_str(literal);
    *text == other
}

/// Reads the command from the arguments of the program, its name included.
pub fn parse_command(args: &Vec<String>) -> (command: Command)
    ensures
        command@ == command_of(args.deep_view()),
        collects_snapshot(command@) <==> args@.len() != 2,
{
    if args.len() == 2 {
        let flag = &args[1];
        assert(args.deep_view()[1] == flag@);
        if text_is(flag, "--help") || text_is(flag, "-h") {
            Command::Help
        } else if text_is(flag, "--version") || text_is(flag, "-v") {
            Command::Version
        } else {
            Command::UnknownFlag(flag.clone())
        }
    } else {
        Command::Report
    }
}

/// Builds the message for a flag that is not known.
pub fn unknown_flag_message(flag: &str) -> (r: String)
    ensures
        r@ == unknown_flag_text(flag@),
{
    let mut r = String::from_str("Unknown flag: ");
    r.append(flag);
    r
}

/// Builds the line that names the program and the given version.
pub fn version_line(version: &str) -> (r: String)
    ensures
        r@ == version_text(version@),
{
    let mut r = String::from_str("sfetch ");
    r.append(version);
    r
}

/// The usage text.
pub fn help_text() -> (r: &'static str)
    ensures
        r@ == usage_text(),
{
    "usage:\n    sfetch\n\n    [options]\n    -v | --version to see version info\n    -h | --help to get this message and exit\n    "
}

/// The sequence that clears the screen.
pub fn clear_screen_sequence() -> (r: &'static str)
    ensures
        r@ == clear_screen_text(),
{
    "\x1B[2J\x1B[1;1H"
}

} // verus!
