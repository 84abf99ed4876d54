//! What a line typed at the menu selects: a profile to connect to, one of the
//! four commands, or nothing.

use regex::Regex;
use vstd::prelude::*;

use crate::text::{is_digit_run, number_of, parse_number, trim, trimmed};

verus! {

/// The commands of the menu, each typed as one lower-case letter.
#[derive(Debug, Clone, Copy, PartialEq, Eq)]
pub enum Command {
    /// `c`: add a profile.
    Create,
    /// `u`: change a profile.
    Update,
    /// `d`: remove a profile.
    Delete,
    /// `q`: leave.
    Quit,
}

/// What a line typed at the menu asks for.
#[derive(Debug, Clone, Copy, PartialEq, Eq)]
pub enum Selection {
    /// Connect to the profile with this id.
    Connect(i32),
    /// Run a command.
    Command(Command),
    /// Neither an id nor a command.
    Unknown,
}

/// The answer to a question for a profile's id.
#[derive(Debug, Clone, Copy, PartialEq, Eq)]
pub enum IdAnswer {
    /// The id that was typed.
    Id(i32),
    /// No id was typed: the operation is given up.
    Abandoned,
}

/// The pattern of a text made of decimal digits from its first character to
/// its last.
pub const DIGIT_RUN: &'static str = "^\\d+$";

/// Whether a pattern of the crate `regex` matches somewhere in a text.
pub uninterp spec fn pattern_matches(pattern: Seq<char>, text: Seq<char>) -> bool;

/// `regex::Regex::new` on the pattern, then `Regex::is_match` on the text.
/// The one pattern that is taken is `DIGIT_RUN`, which compiles. Its `\d` is
/// the class `Nd` of Unicode, which holds the ten digits of ASCII, and its `^`
/// and `$` are the two ends of the text: a run of ASCII digits is matched,
/// and the empty text is not.
#[verifier::external_body]
fn matches_pattern(pattern: &str, text: &str) -> (found: bool)
    requires
        pattern@ == DIGIT_RUN@,
    ensures
        found == pattern_matches(pattern@, text@),
        is_digit_run(text@) ==> found,
        found ==> text@.len() > 0,
{
    Regex::new(pattern).unwrap().is_match(text)
}

/// The command that a trimmed line names.
pub open spec fn command_of(text: Seq<char>) -> Option<Command> {
    if text == seq!['c'] {
        Some(Command::Create)
    } else if text == seq!['u'] {
        Some(Command::Update)
    } else if text == seq!['d'] {
        Some(Command::Delete)
    } else if text == seq!['q'] {
        Some(Command::Quit)
    } else {
        None
    }
}

/// What a line selects: white space around it does not count; a run of
/// digits is an id, one of the letters `c`, `u`, `d`, `q` a command.
pub open spec fn selection_of(line: Seq<char>) -> Selection {
    let text = trimmed(line);
    match number_of(text) {
        Some(id) => Selection::Connect(id),
        None => match command_of(text) {
            Some(command) => Selection::Command(command),
            None => Selection::Unknown,
        },
    }
}

/// The id that a line gives in answer to a question for one.
pub open spec fn id_answer_of(line: Seq<char>) -> IdAnswer {
    match number_of(trimmed(line)) {
        Some(id) => IdAnswer::Id(id),
        None => IdAnswer::Abandoned,
    }
}

/// Reads a text as an id: a run of decimal digits that denotes at most
/// `i32::MAX`.
pub fn read_id(text: &str) -> (id: Option<i32>)
    ensures
        id == number_of(text@),
{
    if matches_pattern(DIGIT_RUN, text) {
        parse_number(text)
    } else {
        None
    }
}

/// Reads a text as a command.
pub fn read_command(text: &str) -> (command: Option<Command>)
    ensures
        command == command_of(text@),
{
    if text.unicode_len() != 1 {
        return None;
    }
    let c = text.get_char(0);
    assert(text@ =~= seq![c]);
    if c == 'c' {
        Some(Command::Create)
    } else if c == 'u' {
        Some(Command::Update)
    } else if c == 'd' {
        Some(Command::Delete)
    } else if c == 'q' {
        Some(Command::Quit)
    } else {
        None
    }
}

/// Says what a line typed at the menu selects. Every line selects something:
/// one that is neither an id nor a command is `Unknown`.
pub fn classify(line: &str) -> (selection: Selection)
    ensures
        selection == selection_of(line@),
{
    let text = trim(line);
    match read_id(text) {
        Some(id) => Selection::Connect(id),
        None => match read_command(text) {
            Some(command) => Selection::Command(command),
            None => Selection::Unknown,
        },
    }
}

/// Reads the answer to a question for a profile's id. A line that is no id
/// gives the operation up.
pub fn read_id_answer(line: &str) -> (answer: IdAnswer)
    ensures
        answer == id_answer_of(line@),
{
    match read_id(trim(line)) {
        Some(id) => IdAnswer::Id(id),
        None => IdAnswer::Abandoned,
    }
}

} // verus!
