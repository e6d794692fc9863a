//! Questions to the core daemon: the invocation that asks each, and what the
//! daemon's end says of the answer.

use crate::command::{CommandSpec, Completion};
use crate::error::{CommandError, DecodeError};
use crate::network::{NetworkName, PaymentDriver};
use vstd::prelude::*;

verus! {

/// An invocation of the core daemon.
#[derive(Debug, PartialEq, Eq)]
pub struct YagnaCommand {
    pub cmd: CommandSpec,
}

/// The identity of the node.
#[derive(Debug, PartialEq, Eq)]
pub struct Id {
    pub node_id: String,
}

impl Id {
    /// What the daemon's reply to the question of identity means. The reply
    /// is an identity or the daemon's own refusal, which is no decoding error.
    pub fn from_reply(reply: Result<Id, String>) -> (id: Result<Id, CommandError>)
        ensures
            id == match reply {
                Ok(found) => Ok::<Id, CommandError>(found),
                Err(refusal) => Err(CommandError::Remote(refusal)),
            },
    {
        match reply {
            Ok(found) => Ok(found),
            Err(refusal) => Err(CommandError::Remote(refusal)),
        }
    }
}

/// What parsing the JSON that a command printed came to: the value, or the
/// parser's complaint with the output it was made about.
pub fn json_reply<T>(parsed: Result<T, String>, output: Vec<u8>) -> (reply: Result<T, CommandError>)
    ensures
        reply == match parsed {
            Ok(value) => Ok::<T, CommandError>(value),
            Err(reason) => Err(CommandError::Decode(DecodeError::Json { output, reason })),
        },
{
    match parsed {
        Ok(value) => Ok(value),
        Err(reason) => Err(CommandError::Decode(DecodeError::Json { output, reason })),
    }
}

impl YagnaCommand {
    /// The arguments that ask for the payment status of `address` on
    /// `network`, paid through `driver`.
    pub open spec fn payment_status_args(
        address: Seq<char>,
        network: NetworkName,
        driver: Seq<char>,
    ) -> Seq<Seq<char>> {
        seq![
            "payment"@,
            "status"@,
            "--account"@,
            address,
            "--network"@,
            network.name(),
            "--driver"@,
            driver,
            "--json"@,
        ]
    }

    /// What the end of the daemon's process gives: its standard output, or the
    /// failure.
    pub fn run(self, completion: Completion) -> (output: Result<Vec<u8>, CommandError>)
        ensures
            output == self.cmd.result_of(completion).output_of(),
    {
        self.cmd.result(completion).output()
    }

    /// The invocation that asks for its answer as JSON.
    pub fn run_json(self) -> (query: YagnaCommand)
        ensures
            query.cmd@ == self.cmd@.with_arg("--json"@),
    {
        let mut cmd = self.cmd;
        cmd.arg("--json");
        YagnaCommand { cmd }
    }

    /// Asks for the identity of the node.
    pub fn default_id(self) -> (query: YagnaCommand)
        ensures
            query.cmd@ == self.cmd@.with_args(seq!["id"@, "show"@, "--json"@]),
    {
        let mut cmd = self.cmd;
        cmd.arg("id");
        cmd.arg("show");
        cmd.arg("--json");
        assert(cmd@.args =~= self.cmd@.args + seq!["id"@, "show"@, "--json"@]);
        YagnaCommand { cmd }
    }

    /// Asks for the version of the daemon and of any release that awaits.
    pub fn version(self) -> (query: YagnaCommand)
        ensures
            query.cmd@ == self.cmd@.with_args(seq!["version"@, "show"@, "--json"@]),
    {
        let mut cmd = self.cmd;
        cmd.arg("version");
        cmd.arg("show");
        cmd.arg("--json");
        assert(cmd@.args =~= self.cmd@.args + seq!["version"@, "show"@, "--json"@]);
        YagnaCommand { cmd }
    }

    /// Asks for the daemon's version banner, which is free text.
    pub fn version_raw(self) -> (query: YagnaCommand)
        ensures
            query.cmd@ == self.cmd@.with_args(seq!["--version"@]),
    {
        let mut cmd = self.cmd;
        cmd.arg("--version");
        assert(cmd@.args =~= self.cmd@.args + seq!["--version"@]);
        YagnaCommand { cmd }
    }

    /// Asks for the payment status of `address` on `network`. The driver is
    /// the one that `payment_driver` has for the network; a network that it
    /// does not serve is an error that names the network.
    pub fn payment_status(
        self,
        address: &str,
        network: &NetworkName,
        payment_driver: &PaymentDriver,
    ) -> (query: Result<YagnaCommand, CommandError>)
        ensures
            match query {
                Ok(made) => payment_driver@.contains_key(*network) && made.cmd@
                    == self.cmd@.with_args(
                    Self::payment_status_args(
                        address@,
                        *network,
                        payment_driver@[*network].driver,
                    ),
                ),
                Err(e) => !payment_driver@.contains_key(*network) && e == CommandError::Lookup(
                    crate::network::LookupError { network: *network },
                ),
            },
    {
        let mut cmd = self.cmd;
        cmd.arg("payment");
        cmd.arg("status");
        cmd.arg("--account");
        cmd.arg(address);
        let payment_platform = match payment_driver.platform(network) {
            Ok(platform) => platform,
            Err(e) => {
                return Err(CommandError::Lookup(e));
            },
        };
        cmd.arg("--network");
        cmd.arg(network.as_str());
        cmd.arg("--driver");
        cmd.arg(payment_platform.driver);
        cmd.arg("--json");
        assert(cmd@.args =~= self.cmd@.args + Self::payment_status_args(
            address@,
            *network,
            payment_driver@[*network].driver,
        ));
        Ok(YagnaCommand { cmd })
    }

    /// Asks for the status of invoices.
    pub fn invoice_status(self) -> (query: YagnaCommand)
        ensures
            query.cmd@ == self.cmd@.with_args(seq!["payment"@, "invoice"@, "status"@, "--json"@]),
    {
        let mut cmd = self.cmd;
        cmd.arg("payment");
        cmd.arg("invoice");
        cmd.arg("status");
        cmd.arg("--json");
        assert(cmd@.args =~= self.cmd@.args + seq![
            "payment"@,
            "invoice"@,
            "status"@,
            "--json"@,
        ]);
        YagnaCommand { cmd }
    }

    /// Asks for the counts of activities.
    pub fn activity_status(self) -> (query: YagnaCommand)
        ensures
            query.cmd@ == self.cmd@.with_args(seq!["activity"@, "status"@, "--json"@]),
    {
        let mut cmd = self.cmd;
        cmd.arg("activity");
        cmd.arg("status");
        cmd.arg("--json");
        assert(cmd@.args =~= self.cmd@.args + seq!["activity"@, "status"@, "--json"@]);
        YagnaCommand { cmd }
    }
}

} // verus!
