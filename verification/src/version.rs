//! The version banner of the core daemon: free text, read with a pattern.

use crate::command::{CommandSpec, Completion, ProcessResult};
use crate::error::{CommandError, DecodeError};
use crate::pattern::{captures, from_utf8_lossy, regex_captures, regex_compiles, utf8_lossy};
use vstd::prelude::*;
use vstd::utf8::{decode_utf8, valid_utf8};

verus! {

/// What the core daemon says of its build.
#[derive(Debug, PartialEq, Eq)]
pub struct VersionRaw {
    pub version: String,
    pub sha: String,
    pub date: String,
    /// The number of the build; empty where the build was not numbered.
    pub build: String,
}

/// A `VersionRaw` as characters.
pub struct VersionRawView {
    pub version: Seq<char>,
    pub sha: Seq<char>,
    pub date: Seq<char>,
    pub build: Seq<char>,
}

impl View for VersionRaw {
    type V = VersionRawView;

    open spec fn view(&self) -> VersionRawView {
        VersionRawView {
            version: self.version@,
            sha: self.sha@,
            date: self.date@,
            build: self.build@,
        }
    }
}

/// The pattern of the banner. Its groups are, in order: the version, in digits
/// and dots; the commit, in hexadecimal digits of lower case; the date, in
/// digits and dashes; the build clause and, within that, the build number.
pub open spec fn banner_pattern() -> Seq<char> {
    "yagna ([0-9.]+) \\(([0-9a-f]+) ([-0-9]+)( build #(\\d+))?"@
}

/// The banner that the groups of a match stand for: version, commit and date
/// from the first three groups, the build number from the fifth. `None` where
/// a group is missing that every banner has.
pub open spec fn banner_fields(groups: Seq<Option<Seq<char>>>) -> Option<VersionRawView> {
    if groups.len() > 5 && groups[1] is Some && groups[2] is Some && groups[3] is Some {
        Some(
            VersionRawView {
                version: groups[1]->0,
                sha: groups[2]->0,
                date: groups[3]->0,
                build: match groups[5] {
                    Some(number) => number,
                    None => Seq::<char>::empty(),
                },
            },
        )
    } else {
        None
    }
}

/// The banner found in `output`, if the pattern is accepted and matches.
pub open spec fn banner_in(output: Seq<u8>) -> Option<VersionRawView> {
    if regex_compiles(banner_pattern()) {
        match regex_captures(banner_pattern(), utf8_lossy(output)) {
            Some(groups) => banner_fields(groups),
            None => None,
        }
    } else {
        None
    }
}

/// No banner is read off a process that failed, whatever it printed: the
/// failure comes back as it is.
pub proof fn lemma_failure_gives_no_banner(
    command: CommandSpec,
    completion: Completion,
)
    requires
        !(completion matches Completion::Exited { success: true, .. }),
    ensures
        command.result_of(completion) is Failure,
        VersionRaw::decoded(command.result_of(completion)) == Err::<VersionRawView, CommandError>(
            CommandError::Execution(command.result_of(completion)->Failure_0),
        ),
{
}

impl VersionRaw {
    /// Reads the banner off the groups of a match.
    pub fn from_captures(groups: &Vec<Option<String>>) -> (banner: Option<VersionRaw>)
        ensures
            match banner_fields(groups.deep_view()) {
                Some(fields) => banner is Some && banner->0@ == fields,
                None => banner is None,
            },
    {
        if groups.len() <= 5 {
            return None;
        }
        let ghost all = groups.deep_view();
        proof {
            assert(all[1] == groups@[1].deep_view());
            assert(all[2] == groups@[2].deep_view());
            assert(all[3] == groups@[3].deep_view());
            assert(all[5] == groups@[5].deep_view());
        }
        match (&groups[1], &groups[2], &groups[3]) {
            (Some(version), Some(sha), Some(date)) => {
                let build = match &groups[5] {
                    Some(number) => number.clone(),
                    None => String::new(),
                };
                Some(
                    VersionRaw {
                        version: version.clone(),
                        sha: sha.clone(),
                        date: date.clone(),
                        build,
                    },
                )
            },
            _ => None,
        }
    }

    /// The banner in what the daemon printed. Output that holds none is kept
    /// in the error.
    pub open spec fn parsed(output: Vec<u8>) -> Result<VersionRawView, CommandError> {
        match banner_in(output@) {
            Some(fields) => Ok(fields),
            None => Err(
                CommandError::Decode(
                    if regex_compiles(banner_pattern()) {
                        DecodeError::Banner { output }
                    } else {
                        DecodeError::Pattern
                    },
                ),
            ),
        }
    }

    /// The banner at the end of the daemon's process. A process that failed
    /// gives its failure and no banner.
    pub open spec fn decoded(result: ProcessResult) -> Result<VersionRawView, CommandError> {
        match result {
            ProcessResult::Failure(failure) => Err(CommandError::Execution(failure)),
            ProcessResult::Success { stdout } => Self::parsed(stdout),
        }
    }

    /// Finds the banner in what the daemon printed. Where that is well-formed
    /// UTF-8, the banner is looked for in the text that it encodes.
    pub fn parse(output: Vec<u8>) -> (banner: Result<VersionRaw, CommandError>)
        ensures
            match Self::parsed(output) {
                Ok(fields) => banner is Ok && banner->Ok_0@ == fields,
                Err(e) => banner == Err::<VersionRaw, CommandError>(e),
            },
            valid_utf8(output@) ==> utf8_lossy(output@) == decode_utf8(output@),
    {
        let text = from_utf8_lossy(output.as_slice());
        let found = captures(
            "yagna ([0-9.]+) \\(([0-9a-f]+) ([-0-9]+)( build #(\\d+))?",
            text.as_str(),
        );
        match found {
            Err(_) => Err(CommandError::Decode(DecodeError::Pattern)),
            Ok(None) => Err(CommandError::Decode(DecodeError::Banner { output })),
            Ok(Some(groups)) => match Self::from_captures(&groups) {
                Some(banner) => Ok(banner),
                None => Err(CommandError::Decode(DecodeError::Banner { output })),
            },
        }
    }

    pub fn decode(result: ProcessResult) -> (banner: Result<VersionRaw, CommandError>)
        ensures
            match Self::decoded(result) {
                Ok(fields) => banner is Ok && banner->Ok_0@ == fields,
                Err(e) => banner == Err::<VersionRaw, CommandError>(e),
            },
    {
        match result {
            ProcessResult::Failure(failure) => Err(CommandError::Execution(failure)),
            ProcessResult::Success { stdout } => Self::parse(stdout),
        }
    }
}

} // verus!
