//! What can go wrong between asking the node a question and holding its answer.

use crate::command::CommandSpec;
use crate::network::LookupError;
use crate::pattern::{from_utf8_lossy, utf8_lossy};
use crate::text::followed_by;
use vstd::prelude::*;
use vstd::string::*;

verus! {

/// The place of the running binary could not be told.
#[derive(Clone, Copy, Debug, PartialEq, Eq, Structural)]
pub enum LocationError {
    /// The path of the running binary is not known.
    NoExecutable,
    /// The path of the running binary has no directory above it.
    NoParent,
}

/// A command did not run to a successful end. The command and all that was
/// captured of its output are kept.
#[derive(Debug, PartialEq, Eq)]
pub enum ExecutionError {
    /// The process exited with a status other than zero.
    Exit { command: CommandSpec, stdout: Vec<u8>, stderr: Vec<u8> },
    /// The process could not be started.
    Spawn { command: CommandSpec, reason: String },
}

/// A command ran, and what it printed was not what was expected. The output
/// is kept as it was read.
#[derive(Debug, PartialEq, Eq)]
pub enum DecodeError {
    /// The output is not the JSON value that was expected.
    Json { output: Vec<u8>, reason: String },
    /// The output holds no version banner.
    Banner { output: Vec<u8> },
    /// The pattern of the version banner was not accepted.
    Pattern,
}

/// Any of the ways in which a question to the node can fail.
#[derive(Debug, PartialEq, Eq)]
pub enum CommandError {
    Location(LocationError),
    Execution(ExecutionError),
    Decode(DecodeError),
    Lookup(LookupError),
    /// The node answered the question with a refusal of its own.
    Remote(String),
}

impl LocationError {
    /// The error in words.
    pub open spec fn message_text(self) -> Seq<char> {
        match self {
            LocationError::NoExecutable => "Unable to resolve the location of this program"@,
            LocationError::NoParent => "Unable to resolve yagna binaries location"@,
        }
    }

    pub fn message(&self) -> (text: String)
        ensures
            text@ == self.message_text(),
    {
        match self {
            LocationError::NoExecutable => String::from_str(
                "Unable to resolve the location of this program",
            ),
            LocationError::NoParent => String::from_str(
                "Unable to resolve yagna binaries location",
            ),
        }
    }
}

impl ExecutionError {
    /// The error in words: the command as one line, and after it all that was
    /// captured of its output, or the reason for which it did not start.
    pub open spec fn message_text(&self) -> Seq<char> {
        match self {
            ExecutionError::Exit { command, stdout, stderr } => command.rendered()
                + " failed.: Stdout:\n"@ + utf8_lossy(stdout@) + "\nStderr:\n"@ + utf8_lossy(
                stderr@,
            ),
            ExecutionError::Spawn { command, reason } => command.rendered() + " failed.: "@
                + reason@,
        }
    }

    pub fn message(&self) -> (text: String)
        ensures
            text@ == self.message_text(),
    {
        match self {
            ExecutionError::Exit { command, stdout, stderr } => {
                let mut text = command.render();
                text.append(" failed.: Stdout:\n");
                text.append(from_utf8_lossy(stdout.as_slice()).as_str());
                text.append("\nStderr:\n");
                text.append(from_utf8_lossy(stderr.as_slice()).as_str());
                text
            },
            ExecutionError::Spawn { command, reason } => {
                let mut text = command.render();
                text.append(" failed.: ");
                text.append(reason.as_str());
                text
            },
        }
    }
}

impl DecodeError {
    /// The error in words.
    pub open spec fn message_text(&self) -> Seq<char> {
        match self {
            DecodeError::Json { reason, .. } => "cannot parse reply: "@ + reason@,
            DecodeError::Banner { output } => "cannot parse yagna version "@ + utf8_lossy(output@),
            DecodeError::Pattern => "cannot read the pattern of the yagna version"@,
        }
    }

    pub fn message(&self) -> (text: String)
        ensures
            text@ == self.message_text(),
    {
        match self {
            DecodeError::Json { reason, .. } => followed_by(
                "cannot parse reply: ",
                reason.as_str(),
            ),
            DecodeError::Banner { output } => followed_by(
                "cannot parse yagna version ",
                from_utf8_lossy(output.as_slice()).as_str(),
            ),
            DecodeError::Pattern => String::from_str(
                "cannot read the pattern of the yagna version",
            ),
        }
    }
}

impl CommandError {
    /// The error in words. A refusal of the node is given in the node's words.
    pub open spec fn message_text(&self) -> Seq<char> {
        match self {
            CommandError::Location(e) => e.message_text(),
            CommandError::Execution(e) => e.message_text(),
            CommandError::Decode(e) => e.message_text(),
            CommandError::Lookup(e) => e.message_text(),
            CommandError::Remote(refusal) => refusal@,
        }
    }

    pub fn message(&self) -> (text: String)
        ensures
            text@ == self.message_text(),
    {
        match self {
            CommandError::Location(e) => e.message(),
            CommandError::Execution(e) => e.message(),
            CommandError::Decode(e) => e.message(),
            CommandError::Lookup(e) => e.message(),
            CommandError::Remote(refusal) => refusal.clone(),
        }
    }
}

impl From<LocationError> for CommandError {
    fn from(e: LocationError) -> (error: CommandError) {
        CommandError::Location(e)
    }
}

impl vstd::std_specs::convert::FromSpecImpl<LocationError> for CommandError {
    open spec fn obeys_from_spec() -> bool {
        true
    }

    open spec fn from_spec(e: LocationError) -> CommandError {
        CommandError::Location(e)
    }
}

impl From<ExecutionError> for CommandError {
    fn from(e: ExecutionError) -> (error: CommandError) {
        CommandError::Execution(e)
    }
}

impl vstd::std_specs::convert::FromSpecImpl<ExecutionError> for CommandError {
    open spec fn obeys_from_spec() -> bool {
        true
    }

    open spec fn from_spec(e: ExecutionError) -> CommandError {
        CommandError::Execution(e)
    }
}

impl From<DecodeError> for CommandError {
    fn from(e: DecodeError) -> (error: CommandError) {
        CommandError::Decode(e)
    }
}

impl vstd::std_specs::convert::FromSpecImpl<DecodeError> for CommandError {
    open spec fn obeys_from_spec() -> bool {
        true
    }

    open spec fn from_spec(e: DecodeError) -> CommandError {
        CommandError::Decode(e)
    }
}

impl From<LookupError> for CommandError {
    fn from(e: LookupError) -> (error: CommandError) {
        CommandError::Lookup(e)
    }
}

impl vstd::std_specs::convert::FromSpecImpl<LookupError> for CommandError {
    open spec fn obeys_from_spec() -> bool {
        true
    }

    open spec fn from_spec(e: LookupError) -> CommandError {
        CommandError::Lookup(e)
    }
}

} // verus!
