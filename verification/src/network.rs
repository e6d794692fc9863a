//! Payment networks, the groups they fall into, and the tables that give each
//! network its payment platform under one driver.

use crate::text::{followed_by, str_eq};
use vstd::prelude::*;
use vstd::string::*;

verus! {

/// A payment network known to the node.
#[derive(Clone, Copy, Debug, PartialEq, Eq, Hash, Structural)]
pub enum NetworkName {
    Mainnet,
    Rinkeby,
    Goerli,
    Mumbai,
    Polygon,
}

impl NetworkName {
    /// The name under which the node's command line knows this network.
    pub open spec fn name(self) -> Seq<char> {
        match self {
            NetworkName::Mainnet => "mainnet"@,
            NetworkName::Rinkeby => "rinkeby"@,
            NetworkName::Goerli => "goerli"@,
            NetworkName::Mumbai => "mumbai"@,
            NetworkName::Polygon => "polygon"@,
        }
    }

    /// The network that goes by `name`, if there is one.
    pub open spec fn named(name: Seq<char>) -> Option<NetworkName> {
        if name == "mainnet"@ {
            Some(NetworkName::Mainnet)
        } else if name == "rinkeby"@ {
            Some(NetworkName::Rinkeby)
        } else if name == "goerli"@ {
            Some(NetworkName::Goerli)
        } else if name == "mumbai"@ {
            Some(NetworkName::Mumbai)
        } else if name == "polygon"@ {
            Some(NetworkName::Polygon)
        } else {
            None
        }
    }

    pub fn as_str(self) -> (s: &'static str)
        ensures
            s@ == self.name(),
    {
        match self {
            NetworkName::Mainnet => "mainnet",
            NetworkName::Rinkeby => "rinkeby",
            NetworkName::Goerli => "goerli",
            NetworkName::Mumbai => "mumbai",
            NetworkName::Polygon => "polygon",
        }
    }

    /// Reads a network off its name, which is matched letter for letter.
    pub fn parse(name: &str) -> (network: Option<NetworkName>)
        ensures
            network == Self::named(name@),
    {
        if str_eq(name, "mainnet") {
            Some(NetworkName::Mainnet)
        } else if str_eq(name, "rinkeby") {
            Some(NetworkName::Rinkeby)
        } else if str_eq(name, "goerli") {
            Some(NetworkName::Goerli)
        } else if str_eq(name, "mumbai") {
            Some(NetworkName::Mumbai)
        } else if str_eq(name, "polygon") {
            Some(NetworkName::Polygon)
        } else {
            None
        }
    }

    /// A network is read back off its own name, and off no other network's.
    pub proof fn lemma_named_by_its_name(network: NetworkName)
        ensures
            Self::named(network.name()) == Some(network),
    {
        reveal_strlit("mainnet");
        reveal_strlit("rinkeby");
        reveal_strlit("goerli");
        reveal_strlit("mumbai");
        reveal_strlit("polygon");
        assert("mainnet"@[1] == 'a' && "rinkeby"@[1] == 'i' && "polygon"@[1] == 'o');
        assert("goerli"@[0] == 'g' && "mumbai"@[0] == 'm' && "mainnet"@[0] == 'm');
        assert("mumbai"@[1] == 'u');
    }
}

/// Whether a network carries real value or is a test network.
#[derive(Clone, Copy, Debug, PartialEq, Eq, Hash, Structural)]
pub enum NetworkGroup {
    Mainnet,
    Testnet,
}

impl NetworkGroup {
    /// The group's name in lower case.
    pub open spec fn name(self) -> Seq<char> {
        match self {
            NetworkGroup::Mainnet => "mainnet"@,
            NetworkGroup::Testnet => "testnet"@,
        }
    }

    /// The networks of the group, in the order in which they are shown.
    pub open spec fn members(self) -> Seq<NetworkName> {
        match self {
            NetworkGroup::Mainnet => seq![NetworkName::Mainnet, NetworkName::Polygon],
            NetworkGroup::Testnet => seq![
                NetworkName::Rinkeby,
                NetworkName::Mumbai,
                NetworkName::Goerli,
            ],
        }
    }

    /// The group that `network` belongs to.
    pub open spec fn group_of(network: NetworkName) -> NetworkGroup {
        match network {
            NetworkName::Mainnet | NetworkName::Polygon => NetworkGroup::Mainnet,
            NetworkName::Rinkeby | NetworkName::Mumbai | NetworkName::Goerli => {
                NetworkGroup::Testnet
            },
        }
    }

    /// The group that goes by `name`, if there is one.
    pub open spec fn named(name: Seq<char>) -> Option<NetworkGroup> {
        if name == "mainnet"@ {
            Some(NetworkGroup::Mainnet)
        } else if name == "testnet"@ {
            Some(NetworkGroup::Testnet)
        } else {
            None
        }
    }

    pub fn as_str(self) -> (s: &'static str)
        ensures
            s@ == self.name(),
    {
        match self {
            NetworkGroup::Mainnet => "mainnet",
            NetworkGroup::Testnet => "testnet",
        }
    }

    /// Reads a group off its name, which is matched letter for letter.
    pub fn parse(name: &str) -> (group: Option<NetworkGroup>)
        ensures
            group == Self::named(name@),
    {
        if str_eq(name, "mainnet") {
            Some(NetworkGroup::Mainnet)
        } else if str_eq(name, "testnet") {
            Some(NetworkGroup::Testnet)
        } else {
            None
        }
    }

    /// A group is read back off its own name.
    pub proof fn lemma_named_by_its_name(group: NetworkGroup)
        ensures
            Self::named(group.name()) == Some(group),
    {
        reveal_strlit("mainnet");
        reveal_strlit("testnet");
        assert("mainnet"@[0] == 'm' && "testnet"@[0] == 't');
    }

    pub fn networks(self) -> (list: Vec<NetworkName>)
        ensures
            list@ == self.members(),
    {
        let mut list: Vec<NetworkName> = Vec::new();
        match self {
            NetworkGroup::Mainnet => {
                list.push(NetworkName::Mainnet);
                list.push(NetworkName::Polygon);
            },
            NetworkGroup::Testnet => {
                list.push(NetworkName::Rinkeby);
                list.push(NetworkName::Mumbai);
                list.push(NetworkName::Goerli);
            },
        }
        assert(list@ =~= self.members());
        list
    }

    pub fn of(network: NetworkName) -> (group: NetworkGroup)
        ensures
            group == Self::group_of(network),
    {
        match network {
            NetworkName::Mainnet | NetworkName::Polygon => NetworkGroup::Mainnet,
            NetworkName::Rinkeby | NetworkName::Mumbai | NetworkName::Goerli => {
                NetworkGroup::Testnet
            },
        }
    }

    /// Every network is a member of exactly one group: the one `of` gives.
    pub proof fn lemma_groups_partition(network: NetworkName, group: NetworkGroup)
        ensures
            group.members().contains(network) <==> Self::group_of(network) == group,
    {
        let main = NetworkGroup::Mainnet.members();
        let test = NetworkGroup::Testnet.members();
        assert(main[0] == NetworkName::Mainnet && main[1] == NetworkName::Polygon);
        assert(test[0] == NetworkName::Rinkeby && test[1] == NetworkName::Mumbai && test[2]
            == NetworkName::Goerli);
    }
}

/// What the payment subsystem is told for one network under one driver.
#[derive(Clone, Copy, Debug, PartialEq, Eq)]
pub struct PaymentPlatform {
    pub platform: &'static str,
    pub driver: &'static str,
    pub token: &'static str,
}

/// The three identifiers of a payment platform, as characters.
pub struct PlatformView {
    pub platform: Seq<char>,
    pub driver: Seq<char>,
    pub token: Seq<char>,
}

impl View for PaymentPlatform {
    type V = PlatformView;

    open spec fn view(&self) -> PlatformView {
        PlatformView { platform: self.platform@, driver: self.driver@, token: self.token@ }
    }
}

/// The platforms of one payment driver, each under the network it serves. Where a
/// network is listed more than once, the first entry counts.
pub struct PaymentDriver(pub Vec<(NetworkName, PaymentPlatform)>);

/// The first entry for `network` among `entries`, if there is one.
pub open spec fn first_entry(
    entries: Seq<(NetworkName, PaymentPlatform)>,
    network: NetworkName,
) -> Option<PaymentPlatform>
    decreases entries.len(),
{
    if entries.len() == 0 {
        None
    } else if entries[0].0 == network {
        Some(entries[0].1)
    } else {
        first_entry(entries.drop_first(), network)
    }
}

/// The table that a list of entries stands for.
pub open spec fn table_of(entries: Seq<(NetworkName, PaymentPlatform)>) -> Map<
    NetworkName,
    PlatformView,
> {
    Map::new(
        |n: NetworkName| first_entry(entries, n) is Some,
        |n: NetworkName| first_entry(entries, n)->0@,
    )
}

/// The platforms of the zksync driver.
pub open spec fn zksync_platforms() -> Map<NetworkName, PlatformView> {
    map![
        NetworkName::Mainnet => PlatformView {
            platform: "zksync-mainnet-glm"@,
            driver: "zksync"@,
            token: "GLM"@,
        },
        NetworkName::Rinkeby => PlatformView {
            platform: "zksync-rinkeby-tglm"@,
            driver: "zksync"@,
            token: "tGLM"@,
        },
    ]
}

/// The platforms of the erc20 driver.
pub open spec fn erc20_platforms() -> Map<NetworkName, PlatformView> {
    map![
        NetworkName::Mainnet => PlatformView {
            platform: "erc20-mainnet-glm"@,
            driver: "erc20"@,
            token: "GLM"@,
        },
        NetworkName::Rinkeby => PlatformView {
            platform: "erc20-rinkeby-tglm"@,
            driver: "erc20"@,
            token: "tGLM"@,
        },
        NetworkName::Goerli => PlatformView {
            platform: "erc20-goerli-tglm"@,
            driver: "erc20"@,
            token: "tGLM"@,
        },
        NetworkName::Mumbai => PlatformView {
            platform: "erc20-mumbai-tglm"@,
            driver: "erc20"@,
            token: "tGLM"@,
        },
        NetworkName::Polygon => PlatformView {
            platform: "erc20-polygon-glm"@,
            driver: "erc20"@,
            token: "GLM"@,
        },
    ]
}

/// The erc20 driver serves every network, each through a platform of its own
/// whose driver is erc20.
pub proof fn lemma_erc20_serves_every_network(network: NetworkName)
    ensures
        erc20_platforms().contains_key(network),
        erc20_platforms()[network].driver == "erc20"@,
        erc20_platforms()[network].token == match NetworkGroup::group_of(network) {
            NetworkGroup::Mainnet => "GLM"@,
            NetworkGroup::Testnet => "tGLM"@,
        },
{
}

/// The zksync driver serves the main network and Rinkeby, and no other.
pub proof fn lemma_zksync_serves_two_networks(network: NetworkName)
    ensures
        zksync_platforms().contains_key(network) <==> network == NetworkName::Mainnet || network
            == NetworkName::Rinkeby,
        zksync_platforms().contains_key(network) ==> zksync_platforms()[network].driver
            == "zksync"@,
{
}

impl View for PaymentDriver {
    type V = Map<NetworkName, PlatformView>;

    open spec fn view(&self) -> Map<NetworkName, PlatformView> {
        table_of(self.0@)
    }
}

/// A lookup that found no entry; it names the network that was asked for.
#[derive(Clone, Copy, Debug, PartialEq, Eq, Structural)]
pub struct LookupError {
    pub network: NetworkName,
}

impl LookupError {
    /// The error in words.
    pub open spec fn message_text(self) -> Seq<char> {
        "Payment driver config for network '"@ + self.network.name() + "' not found."@
    }

    pub fn message(&self) -> (text: String)
        ensures
            text@ == self.message_text(),
    {
        let mut text = followed_by("Payment driver config for network '", self.network.as_str());
        text.append("' not found.");
        text
    }
}

impl PaymentDriver {
    pub fn zksync() -> (driver: PaymentDriver)
        ensures
            driver@ == zksync_platforms(),
    {
        let mut entries: Vec<(NetworkName, PaymentPlatform)> = Vec::new();
        entries.push(
            (
                NetworkName::Mainnet,
                PaymentPlatform { platform: "zksync-mainnet-glm", driver: "zksync", token: "GLM" },
            ),
        );
        entries.push(
            (
                NetworkName::Rinkeby,
                PaymentPlatform {
                    platform: "zksync-rinkeby-tglm",
                    driver: "zksync",
                    token: "tGLM",
                },
            ),
        );
        proof {
            reveal_with_fuel(first_entry, 4);
            assert(table_of(entries@) =~= zksync_platforms());
        }
        PaymentDriver(entries)
    }

    pub fn erc20() -> (driver: PaymentDriver)
        ensures
            driver@ == erc20_platforms(),
    {
        let mut entries: Vec<(NetworkName, PaymentPlatform)> = Vec::new();
        entries.push(
            (
                NetworkName::Mainnet,
                PaymentPlatform { platform: "erc20-mainnet-glm", driver: "erc20", token: "GLM" },
            ),
        );
        entries.push(
            (
                NetworkName::Rinkeby,
                PaymentPlatform { platform: "erc20-rinkeby-tglm", driver: "erc20", token: "tGLM" },
            ),
        );
        entries.push(
            (
                NetworkName::Goerli,
                PaymentPlatform { platform: "erc20-goerli-tglm", driver: "erc20", token: "tGLM" },
            ),
        );
        entries.push(
            (
                NetworkName::Mumbai,
                PaymentPlatform { platform: "erc20-mumbai-tglm", driver: "erc20", token: "tGLM" },
            ),
        );
        entries.push(
            (
                NetworkName::Polygon,
                PaymentPlatform { platform: "erc20-polygon-glm", driver: "erc20", token: "GLM" },
            ),
        );
        proof {
            reveal_with_fuel(first_entry, 7);
            assert(table_of(entries@) =~= erc20_platforms());
        }
        PaymentDriver(entries)
    }

    /// The platform that this driver uses on `network`.
    pub fn platform(&self, network: &NetworkName) -> (found: Result<&PaymentPlatform, LookupError>)
        ensures
            match found {
                Ok(platform) => self@.contains_key(*network) && platform@ == self@[*network],
                Err(e) => !self@.contains_key(*network) && e.network == *network,
            },
    {
        let mut i: usize = 0;
        assert(self.0@.skip(0) =~= self.0@);
        while i < self.0.len()
            invariant
                i <= self.0@.len(),
                first_entry(self.0@, *network) == first_entry(self.0@.skip(i as int), *network),
            decreases self.0@.len() - i,
        {
            proof {
                let rest = self.0@.skip(i as int);
                assert(rest[0] == self.0@[i as int]);
                assert(rest.drop_first() =~= self.0@.skip(i + 1));
            }
            if self.0[i].0 == *network {
                return Ok(&self.0[i].1);
            }
            i += 1;
        }
        Err(LookupError { network: *network })
    }
}

} // verus!
