//! Questions to the provider agent.

use crate::command::{CommandSpec, Completion};
use crate::error::CommandError;
use vstd::prelude::*;

verus! {

/// An invocation of the provider agent.
#[derive(Debug, PartialEq, Eq)]
pub struct YaProviderCommand {
    pub cmd: CommandSpec,
}

/// The provider agent's configuration. `account` is the node's address as the
/// agent prints it.
#[derive(Debug, PartialEq, Eq)]
pub struct ProviderConfig {
    pub node_name: Option<String>,
    pub subnet: Option<String>,
    pub account: Option<String>,
}

/// A runtime that the provider agent offers.
#[derive(Debug, PartialEq, Eq)]
pub struct RuntimeInfo {
    pub name: String,
    pub description: Option<String>,
}

impl YaProviderCommand {
    /// Asks for the agent's configuration, as JSON.
    pub fn get_config(self) -> (query: YaProviderCommand)
        ensures
            query.cmd@ == self.cmd@.with_args(seq!["--json"@, "config"@, "get"@]),
    {
        let mut cmd = self.cmd;
        cmd.arg("--json");
        cmd.arg("config");
        cmd.arg("get");
        assert(cmd@.args =~= self.cmd@.args + seq!["--json"@, "config"@, "get"@]);
        YaProviderCommand { cmd }
    }

    /// What the end of the agent's process gives: its standard output, or the
    /// failure.
    pub fn run(self, completion: Completion) -> (output: Result<Vec<u8>, CommandError>)
        ensures
            output == self.cmd.result_of(completion).output_of(),
    {
        self.cmd.result(completion).output()
    }
}

} // verus!
