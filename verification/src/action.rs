//! Units of work and what they answer.
//!
//! An actor is processed exactly once and answers with exactly one
//! [`ActorResponse`]. Running a shell command is done outside this library;
//! what the command printed and how it ended is turned into a
//! [`CommandResult`] here.

use crate::text::signed_decimal;
use crate::text::signed_decimal_string;
use vstd::prelude::*;
use vstd::string::StringExecFns;
use vstd::utf8::decode_utf8;
use vstd::utf8::valid_utf8;

verus! {

/// What a shell command left behind.
#[derive(Clone, Debug, PartialEq, Eq)]
pub struct CommandResult {
    pub stdout: String,
    pub stderr: String,
    pub status: i32,
}

/// The answers an actor can give.
#[derive(Clone, Debug, PartialEq, Eq)]
pub enum ActorResponse {
    Empty,
    Boolean(bool),
    CommandResult(CommandResult),
    /// A payload that only the actor and its caller understand.
    Custom(Vec<u8>),
}

/// A shell command to be run by `bash -c`.
#[derive(Clone, Debug, PartialEq, Eq)]
pub struct BashCommand {
    command: String,
}

/// The text that `String::from_utf8_lossy` makes of a byte sequence.
pub uninterp spec fn utf8_lossy(bytes: Seq<u8>) -> Seq<char>;

/// Calls std's `String::from_utf8_lossy`. The result depends on the bytes
/// alone; for valid UTF-8 it is the text that the bytes encode. (For other
/// input std puts U+FFFD in place of each invalid sequence, which is not
/// stated here.)
#[verifier::external_body]
fn from_utf8_lossy(bytes: &[u8]) -> (text: String)
    ensures
        text@ == utf8_lossy(bytes@),
        valid_utf8(bytes@) ==> text@ == decode_utf8(bytes@),
{
    String::from_utf8_lossy(bytes).to_string()
}

/// The exit status reported for a command: its exit code, or -1 if it had
/// none (it was ended by a signal).
pub open spec fn exit_status(code: Option<i32>) -> i32 {
    match code {
        Some(c) => c,
        None => -1i32,
    }
}

impl CommandResult {
    /// The result of a command from the bytes it wrote and its exit code.
    pub fn from_output(stdout: &[u8], stderr: &[u8], code: Option<i32>) -> (result: CommandResult)
        ensures
            result.stdout@ == utf8_lossy(stdout@),
            result.stderr@ == utf8_lossy(stderr@),
            valid_utf8(stdout@) ==> result.stdout@ == decode_utf8(stdout@),
            valid_utf8(stderr@) ==> result.stderr@ == decode_utf8(stderr@),
            result.status == exit_status(code),
    {
        CommandResult {
            stdout: from_utf8_lossy(stdout),
            stderr: from_utf8_lossy(stderr),
            status: match code {
                Some(c) => c,
                None => -1,
            },
        }
    }
}

impl BashCommand {
    pub closed spec fn spec_command(&self) -> Seq<char> {
        self.command@
    }

    pub fn new(command: String) -> (actor: Box<BashCommand>)
        ensures
            actor.spec_command() == command@,
    {
        Box::new(BashCommand { command })
    }

    /// The text handed to `bash -c`.
    pub fn command(&self) -> (command: &str)
        ensures
            command@ == self.spec_command(),
    {
        self.command.as_str()
    }

    /// The answer of this actor, once the command has run.
    pub fn response(&self, stdout: &[u8], stderr: &[u8], code: Option<i32>) -> (response:
        ActorResponse)
        ensures
            response matches ActorResponse::CommandResult(result) && {
                &&& result.stdout@ == utf8_lossy(stdout@)
                &&& result.stderr@ == utf8_lossy(stderr@)
                &&& result.status == exit_status(code)
            },
    {
        ActorResponse::CommandResult(CommandResult::from_output(stdout, stderr, code))
    }
}

/// The line noted when an actor has answered: one for a command's result,
/// one for a boolean, none for the other answers.
pub open spec fn log_line_spec(response: ActorResponse) -> Option<Seq<char>> {
    match response {
        ActorResponse::CommandResult(cmd) => Some(
            "Command executed with status: "@ + signed_decimal(cmd.status as int) + ", stdout: "@
                + cmd.stdout@ + ", stderr: "@ + cmd.stderr@,
        ),
        ActorResponse::Boolean(val) => Some(
            "Boolean result: "@ + if val {
                "true"@
            } else {
                "false"@
            },
        ),
        _ => None,
    }
}

impl ActorResponse {
    /// The line to note for this answer, if it calls for one.
    pub fn log_line(&self) -> (line: Option<String>)
        ensures
            match line {
                Some(text) => log_line_spec(*self) == Some(text@),
                None => log_line_spec(*self) is None,
            },
    {
        match self {
            ActorResponse::CommandResult(cmd) => {
                let mut line = String::from_str("Command executed with status: ");
                let status = signed_decimal_string(cmd.status as i64);
                line.append(status.as_str());
                line.append(", stdout: ");
                line.append(cmd.stdout.as_str());
                line.append(", stderr: ");
                line.append(cmd.stderr.as_str());
                Some(line)
            },
            ActorResponse::Boolean(val) => {
                let mut line = String::from_str("Boolean result: ");
                if *val {
                    line.append("true");
                } else {
                    line.append("false");
                }
                Some(line)
            },
            _ => None,
        }
    }
}

} // verus!
