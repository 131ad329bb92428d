//! What the node and the command line share with the scripting engine: the
//! names of the hooks, the engine's errors, and the reading of an answer to a
//! question.

use crate::ssh::lines;
use crate::ssh::text_lines;
use crate::text::decimal;
use crate::text::decimal_string;
use crate::text::str_eq;
use vstd::prelude::*;
use vstd::std_specs::convert::FromSpecImpl;
use vstd::string::StrSliceExecFns;
use vstd::string::StringExecFns;

verus! {

/// The script that a node loads when it comes up.
pub const START_FILE: &'static str = "cluster.js";

/// The hook that is called once the script is loaded.
pub const INIT_HOOK: &'static str = "init";

/// The hook that is called when the node has become the leader.
pub const LEADER_HOOK: &'static str = "leader";

/// The hook that builds a cluster.
pub const BOOTSTRAP_HOOK: &'static str = "bootstrap";

/// What can go wrong between a caller and the engine.
#[derive(Clone, Debug, PartialEq, Eq)]
pub enum EngineError {
    /// The engine did not take the call; with the channel's account.
    SendCallback(String),
    /// The engine gave no answer; with the channel's account.
    ReceiveCallback(String),
    /// The script failed.
    Script(String),
    NoModuleLoaded,
}

/// The text of an error.
pub open spec fn error_text(error: EngineError) -> Seq<char> {
    match error {
        EngineError::SendCallback(e) => "Send error: "@ + e@,
        EngineError::ReceiveCallback(e) => "Receive error: "@ + e@,
        EngineError::Script(e) => "Script error: "@ + e@,
        EngineError::NoModuleLoaded => "No module has been loaded"@,
    }
}

impl EngineError {
    /// The text to show for this error.
    pub fn message(&self) -> (text: String)
        ensures
            text@ == error_text(*self),
    {
        match self {
            EngineError::SendCallback(e) => {
                let mut text = String::from_str("Send error: ");
                text.append(e.as_str());
                text
            },
            EngineError::ReceiveCallback(e) => {
                let mut text = String::from_str("Receive error: ");
                text.append(e.as_str());
                text
            },
            EngineError::Script(e) => {
                let mut text = String::from_str("Script error: ");
                text.append(e.as_str());
                text
            },
            EngineError::NoModuleLoaded => String::from_str("No module has been loaded"),
        }
    }
}

impl From<String> for EngineError {
    fn from(err: String) -> (error: EngineError) {
        EngineError::Script(err)
    }
}

impl FromSpecImpl<String> for EngineError {
    open spec fn obeys_from_spec() -> bool {
        true
    }

    open spec fn from_spec(err: String) -> EngineError {
        EngineError::Script(err)
    }
}

/// A text without the white space at its ends, as std's `str::trim` leaves
/// it.
pub uninterp spec fn trimmed(text: Seq<char>) -> Seq<char>;

/// A text in lower case, as std's `str::to_lowercase` writes it.
pub uninterp spec fn lowercased(text: Seq<char>) -> Seq<char>;

/// Calls std's `str::trim`. The result depends on the text alone.
#[verifier::external_body]
fn trim(text: &str) -> (result: &str)
    ensures
        result@ == trimmed(text@),
{
    text.trim()
}

/// Calls std's `str::to_lowercase`. The result depends on the text alone.
#[verifier::external_body]
fn to_lowercase(text: &str) -> (result: String)
    ensures
        result@ == lowercased(text@),
{
    text.to_lowercase()
}

/// Whether a line typed in answer to a question says `word`: it does if,
/// without the white space around it and in lower case, it is that word.
pub fn is_affirmative(input: &str, word: &str) -> (yes: bool)
    ensures
        yes == (lowercased(trimmed(input@)) == word@),
{
    let answer = to_lowercase(trim(input));
    str_eq(answer.as_str(), word)
}

/// The question as it is shown: the prompt, then the two answers in
/// brackets.
pub fn question(prompt: &str, choices: &str) -> (text: String)
    ensures
        text@ == prompt@ + " ("@ + choices@ + "): "@,
{
    let mut text = String::from_str(prompt);
    text.append(" (");
    text.append(choices);
    text.append("): ");
    text
}

/// The parts of a text between its line feeds, as std's `str::split` gives
/// them for the separator `'\n'`.
pub uninterp spec fn split_at_line_feeds(text: Seq<char>) -> Seq<Seq<char>>;

/// Calls std's `str::split` with the separator `'\n'` and collects what it
/// yields. The parts depend on the text alone.
#[verifier::external_body]
fn split_lines(text: &str) -> (parts: Vec<String>)
    ensures
        parts@.len() == split_at_line_feeds(text@).len(),
        forall|i: int|
            0 <= i < parts@.len() ==> (#[trigger] parts@[i])@ == split_at_line_feeds(text@)[i],
{
    let mut parts = Vec::new();
    for part in text.split('\n') {
        parts.push(part.to_string());
    }
    parts
}

/// Something to print, and where.
#[derive(Clone, Debug, PartialEq, Eq)]
pub enum Printed {
    /// A line for standard output.
    Stdout(String),
    /// A line for standard error.
    Stderr(String),
}

/// What a printed line holds, for contracts.
pub enum PrintedView {
    Stdout(Seq<char>),
    Stderr(Seq<char>),
}

impl Printed {
    pub open spec fn view(&self) -> PrintedView {
        match self {
            Printed::Stdout(text) => PrintedView::Stdout(text@),
            Printed::Stderr(text) => PrintedView::Stderr(text@),
        }
    }
}

/// `count` times the character `c`.
pub open spec fn repeated(c: char, count: nat) -> Seq<char> {
    Seq::new(count, |i: int| c)
}

/// `count` times the character `=`, to go above and below the name of a
/// script.
pub fn rule(count: usize) -> (text: String)
    ensures
        text@ == repeated('=', count as nat),
{
    let mut text = String::new();
    let mut i: usize = 0;
    proof {
        reveal_strlit("=");
    }
    while i < count
        invariant
            i <= count,
            text@ == repeated('=', i as nat),
            "="@ == seq!['='],
        decreases count - i,
    {
        text.append("=");
        i = i + 1;
        assert(text@ =~= repeated('=', i as nat));
    }
    text
}

/// The mark below the place of an error, moved right so that it ends in
/// column `width`: `^ ` in front of the first line of the message, `| ` in
/// front of the others.
pub open spec fn marker_text(first: bool, width: nat) -> Seq<char> {
    repeated(' ', if width > 2 {
        (width - 2) as nat
    } else {
        0
    }) + if first {
        "^ "@
    } else {
        "| "@
    }
}

fn marker(first: bool, width: usize) -> (text: String)
    ensures
        text@ == marker_text(first, width as nat),
{
    let mut text = String::new();
    let pad: usize = if width > 2 {
        width - 2
    } else {
        0
    };
    let mut i: usize = 0;
    proof {
        reveal_strlit(" ");
    }
    while i < pad
        invariant
            i <= pad,
            text@ == repeated(' ', i as nat),
            " "@ == seq![' '],
        decreases pad - i,
    {
        text.append(" ");
        i = i + 1;
        assert(text@ =~= repeated(' ', i as nat));
    }
    if first {
        text.append("^ ");
    } else {
        text.append("| ");
    }
    text
}

/// The number of a line as it stands in front of the line: the number, a
/// colon and a space.
pub open spec fn line_number_text(line: nat) -> Seq<char> {
    decimal(line) + ": "@
}

/// The lines that show an error at a place in a script: the line of the
/// script with its number in front, then each line of the message behind a
/// mark that points at the place, then an empty line. The line of the script
/// and the empty line go to standard error, the message to standard output.
pub open spec fn error_report(
    script_lines: Seq<Seq<char>>,
    message_lines: Seq<Seq<char>>,
    line: nat,
    position: nat,
) -> Seq<PrintedView>
    recommends
        1 <= line <= script_lines.len(),
{
    let width = line_number_text(line).len() + position + 1;
    seq![PrintedView::Stderr(line_number_text(line) + script_lines[line - 1])] + Seq::new(
        message_lines.len(),
        |i: int| PrintedView::Stdout(marker_text(i == 0, width) + message_lines[i]),
    ) + seq![PrintedView::Stderr(Seq::empty())]
}

/// The views of printed lines.
pub open spec fn printed_views(lines: Seq<Printed>) -> Seq<PrintedView> {
    lines.map_values(|p: Printed| p@)
}

/// What to print for an error of the script `input` at the given line and
/// position, both counted from 1. `None` if the script has no such line.
pub fn script_error_report(input: &str, line: u16, position: u16, message: &str) -> (report:
    Option<Vec<Printed>>)
    ensures
        match report {
            Some(printed) => {
                &&& 1 <= line <= split_at_line_feeds(input@).len()
                &&& printed_views(printed@) == error_report(
                    split_at_line_feeds(input@),
                    text_lines(message@),
                    line as nat,
                    position as nat,
                )
            },
            None => line == 0 || line > split_at_line_feeds(input@).len(),
        },
{
    let script_lines = split_lines(input);
    if line == 0 || line as usize > script_lines.len() {
        return None;
    }
    let message_lines = lines(message);
    let mut line_no = decimal_string(line as u128);
    line_no.append(": ");
    let digits: usize = line_no.as_str().unicode_len();
    proof {
        lemma_decimal_len(line as nat);
        reveal_strlit(": ");
    }
    let width: usize = digits + position as usize + 1;
    let mut first_line = line_no.clone();
    first_line.append(script_lines[line as usize - 1].as_str());
    let mut printed: Vec<Printed> = Vec::new();
    printed.push(Printed::Stderr(first_line));
    let ghost expected = error_report(
        split_at_line_feeds(input@),
        text_lines(message@),
        line as nat,
        position as nat,
    );
    let mut i: usize = 0;
    while i < message_lines.len()
        invariant
            i <= message_lines@.len(),
            message_lines@.len() == text_lines(message@).len(),
            forall|k: int|
                0 <= k < message_lines@.len() ==> (#[trigger] message_lines@[k])@ == text_lines(
                    message@,
                )[k],
            1 <= line <= split_at_line_feeds(input@).len(),
            width == line_number_text(line as nat).len() + position + 1,
            expected == error_report(
                split_at_line_feeds(input@),
                text_lines(message@),
                line as nat,
                position as nat,
            ),
            printed@.len() == i + 1,
            forall|k: int| 0 <= k < i + 1 ==> (#[trigger] printed@[k])@ == expected[k],
        decreases message_lines@.len() - i,
    {
        let mut text = marker(i == 0, width);
        text.append(message_lines[i].as_str());
        printed.push(Printed::Stdout(text));
        i = i + 1;
    }
    printed.push(Printed::Stderr(String::new()));
    assert(printed_views(printed@) =~= expected);
    Some(printed)
}

/// A decimal number of 16 bits has five digits at most.
proof fn lemma_decimal_len(n: nat)
    requires
        n < 65536,
    ensures
        1 <= decimal(n).len() <= 5,
{
    reveal_with_fuel(decimal, 6);
}

/// The three lines that name a script above the account of its error: the
/// name between two rules of as many characters as the name has bytes.
pub fn script_header(path: &str) -> (header: Vec<String>)
    ensures
        header@.len() == 3,
        header@[0]@ == repeated('=', path.len() as nat),
        header@[1]@ == path@,
        header@[2]@ == repeated('=', path.len() as nat),
{
    let mut header: Vec<String> = Vec::new();
    header.push(rule(path.len()));
    header.push(String::from_str(path));
    header.push(rule(path.len()));
    header
}

/// The lines of a script, each with its number, counted from 1, in front.
pub open spec fn numbered(script_lines: Seq<Seq<char>>) -> Seq<Seq<char>> {
    Seq::new(script_lines.len(), |i: int| line_number_text((i + 1) as nat) + script_lines[i])
}

/// A script line by line, for showing it below an error that has no place.
pub fn numbered_lines(script_contents: &str) -> (numbered_script: Vec<String>)
    ensures
        numbered_script@.len() == text_lines(script_contents@).len(),
        forall|i: int|
            0 <= i < numbered_script@.len() ==> (#[trigger] numbered_script@[i])@ == numbered(
                text_lines(script_contents@),
            )[i],
{
    let script_lines = lines(script_contents);
    let mut numbered_script: Vec<String> = Vec::new();
    let mut i: usize = 0;
    while i < script_lines.len()
        invariant
            i <= script_lines@.len(),
            script_lines@.len() == text_lines(script_contents@).len(),
            forall|k: int|
                0 <= k < script_lines@.len() ==> (#[trigger] script_lines@[k])@ == text_lines(
                    script_contents@,
                )[k],
            numbered_script@.len() == i,
            forall|k: int|
                0 <= k < i ==> (#[trigger] numbered_script@[k])@ == numbered(
                    text_lines(script_contents@),
                )[k],
        decreases script_lines@.len() - i,
    {
        let mut text = decimal_string(i as u128 + 1);
        text.append(": ");
        text.append(script_lines[i].as_str());
        numbered_script.push(text);
        i = i + 1;
    }
    numbered_script
}

} // verus!
