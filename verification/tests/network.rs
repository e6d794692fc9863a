use golemsp::network::{LookupError, NetworkGroup, NetworkName, PaymentDriver, PaymentPlatform};

const ALL: [NetworkName; 5] = [
    NetworkName::Mainnet,
    NetworkName::Rinkeby,
    NetworkName::Goerli,
    NetworkName::Mumbai,
    NetworkName::Polygon,
];

#[test]
fn erc20_serves_every_network_with_its_own_platform() {
    let erc20 = PaymentDriver::erc20();
    let expected = [
        ("erc20-mainnet-glm", "GLM"),
        ("erc20-rinkeby-tglm", "tGLM"),
        ("erc20-goerli-tglm", "tGLM"),
        ("erc20-mumbai-tglm", "tGLM"),
        ("erc20-polygon-glm", "GLM"),
    ];
    for (network, (platform, token)) in ALL.iter().zip(expected.iter()) {
        assert_eq!(
            erc20.platform(network),
            Ok(&PaymentPlatform { platform, driver: "erc20", token })
        );
    }
}

#[test]
fn zksync_serves_mainnet_and_rinkeby_only() {
    let zksync = PaymentDriver::zksync();
    assert_eq!(
        zksync.platform(&NetworkName::Mainnet),
        Ok(&PaymentPlatform { platform: "zksync-mainnet-glm", driver: "zksync", token: "GLM" })
    );
    assert_eq!(
        zksync.platform(&NetworkName::Rinkeby),
        Ok(&PaymentPlatform { platform: "zksync-rinkeby-tglm", driver: "zksync", token: "tGLM" })
    );
    for network in [NetworkName::Goerli, NetworkName::Mumbai, NetworkName::Polygon] {
        assert_eq!(zksync.platform(&network), Err(LookupError { network }));
    }
}

#[test]
fn lookup_in_an_empty_table_names_the_network() {
    let empty = PaymentDriver(Vec::new());
    for network in ALL {
        assert_eq!(empty.platform(&network), Err(LookupError { network }));
    }
}

#[test]
fn lookup_error_message_names_the_network() {
    let missing = LookupError { network: NetworkName::Polygon };
    assert_eq!(missing.message(), "Payment driver config for network 'polygon' not found.");
}

#[test]
fn first_entry_of_a_network_counts() {
    let first = PaymentPlatform { platform: "a", driver: "one", token: "T" };
    let second = PaymentPlatform { platform: "b", driver: "two", token: "T" };
    let table = PaymentDriver(vec![
        (NetworkName::Goerli, first),
        (NetworkName::Mumbai, second),
        (NetworkName::Goerli, second),
    ]);
    assert_eq!(table.platform(&NetworkName::Goerli), Ok(&first));
    assert_eq!(table.platform(&NetworkName::Mumbai), Ok(&second));
    assert_eq!(
        table.platform(&NetworkName::Mainnet),
        Err(LookupError { network: NetworkName::Mainnet })
    );
}

#[test]
fn networks_are_named_in_lower_case() {
    let names: Vec<&str> = ALL.iter().map(|n| n.as_str()).collect();
    assert_eq!(names, vec!["mainnet", "rinkeby", "goerli", "mumbai", "polygon"]);
    assert_eq!(NetworkGroup::Mainnet.as_str(), "mainnet");
    assert_eq!(NetworkGroup::Testnet.as_str(), "testnet");
}

#[test]
fn groups_list_their_networks_in_order() {
    assert_eq!(
        NetworkGroup::Mainnet.networks(),
        vec![NetworkName::Mainnet, NetworkName::Polygon]
    );
    assert_eq!(
        NetworkGroup::Testnet.networks(),
        vec![NetworkName::Rinkeby, NetworkName::Mumbai, NetworkName::Goerli]
    );
}

#[test]
fn every_network_is_in_the_group_it_is_said_to_be_in() {
    for network in ALL {
        let group = NetworkGroup::of(network);
        assert!(group.networks().contains(&network));
        let other = match group {
            NetworkGroup::Mainnet => NetworkGroup::Testnet,
            NetworkGroup::Testnet => NetworkGroup::Mainnet,
        };
        assert!(!other.networks().contains(&network));
    }
}

#[test]
fn networks_and_groups_are_read_off_their_names() {
    for network in ALL {
        assert_eq!(NetworkName::parse(network.as_str()), Some(network));
    }
    for group in [NetworkGroup::Mainnet, NetworkGroup::Testnet] {
        assert_eq!(NetworkGroup::parse(group.as_str()), Some(group));
    }
    for name in ["", "Mainnet", "MAINNET", "mainnet ", "main", "ropsten", "testnet"] {
        assert_eq!(NetworkName::parse(name), None);
    }
    for name in ["", "Testnet", "polygon", "test", "testnets"] {
        assert_eq!(NetworkGroup::parse(name), None);
    }
}
