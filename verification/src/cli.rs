//! The command line: which operation a flag asks for, and what its arguments must be.

use vstd::prelude::*;
use vstd::string::StringExecFns;
use crate::expect_pretty::{ExpectPretty, Fatal};
use crate::url::{url_serialization, ParsedUrl};

verus! {

/// The operation that a flag asks for. Without a flag the program checks the targets.
#[derive(Debug, Clone, Copy, PartialEq, Eq)]
pub enum Command {
    /// `-a`: add a target.
    Add,
    /// `-d`: remove a target.
    Delete,
    /// `-h` or `-help`: show how the program is used.
    Help,
    /// `-l`: show the targets.
    List,
    /// Any other flag: nothing is done but to say so.
    Invalid,
}

/// The operation that the text `flag` asks for.
pub open spec fn command(flag: Seq<char>) -> Command {
    if flag == "-a"@ {
        Command::Add
    } else if flag == "-d"@ {
        Command::Delete
    } else if flag == "-h"@ || flag == "-help"@ {
        Command::Help
    } else if flag == "-l"@ {
        Command::List
    } else {
        Command::Invalid
    }
}

/// The text that `help` returns.
pub open spec fn usage() -> Seq<char> {
    "Usage:\nRun without flags to check targets\nAdd a search target: stock_checker.exe -a [url] [element-id]\nRemove a search target: stock_checker.exe -d [url]\nList all current search targets: stock_checker.exe -l"@
}

/// The message for a missing address argument.
pub open spec fn no_url() -> Seq<char> {
    "No URL argument"@
}

/// The message for an address to add that does not parse.
pub open spec fn invalid_new_url() -> Seq<char> {
    "Invalid URL, perhaps you forgot to specify a protocol?"@
}

/// The message for a missing selector argument.
pub open spec fn no_id() -> Seq<char> {
    "No id argument\nIf you specified an id with #, you may need to preface it with \\"@
}

/// The message for an address to remove that does not parse.
pub open spec fn invalid_url() -> Seq<char> {
    "Invalid URL"@
}

/// What the arguments of an addition come to: the parsed address and the selector, or the
/// message of the first thing that is wrong with them.
pub open spec fn addition(url: Option<Seq<char>>, id: Option<Seq<char>>) -> Result<
    (Seq<char>, Seq<char>),
    Seq<char>,
> {
    match url {
        None => Err(no_url()),
        Some(text) => match url_serialization(text) {
            None => Err(invalid_new_url()),
            Some(serialization) => match id {
                None => Err(no_id()),
                Some(selector) => Ok((serialization, selector)),
            },
        },
    }
}

/// What the argument of a removal comes to: the parsed address, or the message of what is
/// wrong with it.
pub open spec fn removal(url: Option<Seq<char>>) -> Result<Seq<char>, Seq<char>> {
    match url {
        None => Err(no_url()),
        Some(text) => match url_serialization(text) {
            None => Err(invalid_url()),
            Some(serialization) => Ok(serialization),
        },
    }
}

/// A text that may be absent, as a sequence of characters.
pub open spec fn text_of(argument: Option<String>) -> Option<Seq<char>> {
    match argument {
        Some(text) => Some(text@),
        None => None,
    }
}

/// Tells which operation `flag` asks for.
pub fn parse_flags(flag: String) -> (asked: Command)
    ensures
        asked == command(flag@),
{
    if flag == String::from_str("-a") {
        Command::Add
    } else if flag == String::from_str("-d") {
        Command::Delete
    } else if flag == String::from_str("-h") || flag == String::from_str("-help") {
        Command::Help
    } else if flag == String::from_str("-l") {
        Command::List
    } else {
        Command::Invalid
    }
}

/// The text that says how the program is used.
pub fn help() -> (text: &'static str)
    ensures
        text@ == usage(),
{
    "Usage:\nRun without flags to check targets\nAdd a search target: stock_checker.exe -a [url] [element-id]\nRemove a search target: stock_checker.exe -d [url]\nList all current search targets: stock_checker.exe -l"
}

/// Checks the arguments of an addition, the address before the selector.
pub fn add_arguments(url: Option<String>, id: Option<String>) -> (outcome: Result<
    (ParsedUrl, String),
    Fatal,
>)
    ensures
        match addition(text_of(url), text_of(id)) {
            Ok((serialization, selector)) => outcome is Ok && outcome->Ok_0.0@ == serialization
                && outcome->Ok_0.1@ == selector,
            Err(message) => outcome is Err && outcome->Err_0@ == message,
        },
{
    let text = url.expect_p("No URL argument")?;
    let parsed = ParsedUrl::parse(text.as_str()).expect_p(
        "Invalid URL, perhaps you forgot to specify a protocol?",
    )?;
    let selector = id.expect_p(
        "No id argument\nIf you specified an id with #, you may need to preface it with \\",
    )?;
    Ok((parsed, selector))
}

/// Checks the argument of a removal.
pub fn delete_arguments(url: Option<String>) -> (outcome: Result<ParsedUrl, Fatal>)
    ensures
        match removal(text_of(url)) {
            Ok(serialization) => outcome is Ok && outcome->Ok_0@ == serialization,
            Err(message) => outcome is Err && outcome->Err_0@ == message,
        },
{
    let text = url.expect_p("No URL argument")?;
    ParsedUrl::parse(text.as_str()).expect_p("Invalid URL")
}

} // verus!
