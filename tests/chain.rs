use flop_chain::chain::{Chain, ConfigError};

const ALL: [Chain; 4] = [Chain::Mainnet, Chain::Testnet, Chain::Signet, Chain::Regtest];

#[test]
fn accessors_are_total_on_every_chain() {
    for chain in ALL {
        let params = chain.params();
        assert_eq!(params.default_rpc_port, chain.default_rpc_port());
        assert_eq!(params.inscription_content_size_limit, chain.inscription_content_size_limit());
        assert_eq!(params.first_inscription_height, chain.first_inscription_height());
        assert_eq!(params.first_dune_height, chain.first_dune_height());
        assert_eq!(params.network, chain.network());
        assert_eq!(params.name, chain.name());
        assert_eq!(params.genesis_hex, chain.genesis_hex());
        let _ = chain.join_with_data_dir("base");
    }
}

#[test]
fn rpc_ports() {
    assert_eq!(Chain::Mainnet.default_rpc_port(), 32552);
    assert_eq!(Chain::Testnet.default_rpc_port(), 44873);
    assert_eq!(Chain::Signet.default_rpc_port(), 38332);
    assert_eq!(Chain::Regtest.default_rpc_port(), 18332);
}

#[test]
fn limits_and_heights() {
    for chain in ALL {
        assert_eq!(chain.inscription_content_size_limit(), None);
        assert_eq!(chain.first_inscription_height(), 0);
        assert_eq!(chain.first_dune_height(), 0);
    }
}

#[test]
fn networks() {
    assert_eq!(Chain::Mainnet.network(), bitcoin::Network::Bitcoin);
    assert_eq!(Chain::Testnet.network(), bitcoin::Network::Testnet);
    assert_eq!(Chain::Signet.network(), bitcoin::Network::Signet);
    assert_eq!(Chain::Regtest.network(), bitcoin::Network::Regtest);
}

#[test]
fn data_dirs() {
    let base = std::path::Path::new("/var/lib/flop");
    assert_eq!(Chain::Mainnet.join_with_data_dir("/var/lib/flop"), "/var/lib/flop");
    assert_eq!(
        Chain::Testnet.join_with_data_dir("/var/lib/flop"),
        base.join("testnet3").to_string_lossy()
    );
    assert_eq!(Chain::Signet.join_with_data_dir("/var/lib/flop"), base.join("signet").to_string_lossy());
    assert_eq!(Chain::Regtest.join_with_data_dir("/var/lib/flop"), base.join("regtest").to_string_lossy());
    assert_eq!(Chain::Testnet.join_with_data_dir("/var/lib/flop"), "/var/lib/flop/testnet3");
    assert_eq!(Chain::Signet.join_with_data_dir("base"), "base/signet");
    assert_eq!(Chain::Regtest.join_with_data_dir("base"), "base/regtest");
}

#[test]
fn data_subpaths_are_distinct() {
    assert_eq!(Chain::Mainnet.data_dir_subpath(), None);
    assert_eq!(Chain::Testnet.data_dir_subpath(), Some("testnet3"));
    assert_eq!(Chain::Signet.data_dir_subpath(), Some("signet"));
    assert_eq!(Chain::Regtest.data_dir_subpath(), Some("regtest"));
}

#[test]
fn activation_is_a_step_at_the_threshold() {
    for chain in ALL {
        for height in [0u32, 1, 1000, u32::MAX] {
            assert_eq!(chain.inscriptions_active(height), height >= chain.first_inscription_height());
            assert_eq!(chain.dunes_active(height), height >= chain.first_dune_height());
        }
        assert!(chain.inscriptions_active(0));
        assert!(chain.dunes_active(0));
    }
}

#[test]
fn default_is_mainnet() {
    assert_eq!(Chain::default(), Chain::Mainnet);
    assert_eq!(Chain::default().params().default_rpc_port, 32552);
}

#[test]
fn main_and_mainnet_select_the_same_chain() {
    let a = Chain::from_selector("main").unwrap();
    let b = Chain::from_selector("mainnet").unwrap();
    assert_eq!(a, b);
    assert_eq!(a, Chain::Mainnet);
    assert_eq!(a.params().default_rpc_port, b.params().default_rpc_port);
    assert_eq!(a.params().name, b.params().name);
}

#[test]
fn unknown_selector_is_an_error() {
    assert_eq!(Chain::from_selector("foo"), Err(ConfigError::UnknownChain));
    assert_eq!(Chain::from_selector(""), Err(ConfigError::UnknownChain));
    assert_eq!(Chain::from_selector("mainnet "), Err(ConfigError::UnknownChain));
    assert_eq!(Chain::from_selector("mai"), Err(ConfigError::UnknownChain));
}

#[test]
fn selectors_and_aliases() {
    assert_eq!(Chain::from_selector("test"), Ok(Chain::Testnet));
    assert_eq!(Chain::from_selector("testnet"), Ok(Chain::Testnet));
    assert_eq!(Chain::from_selector("signet"), Ok(Chain::Signet));
    assert_eq!(Chain::from_selector("regtest"), Ok(Chain::Regtest));
    assert_eq!(Chain::from_selector("MainNet"), Ok(Chain::Mainnet));
    assert_eq!(Chain::from_selector("REGTEST"), Ok(Chain::Regtest));
}

#[test]
fn names() {
    assert_eq!(Chain::Mainnet.to_string(), "mainnet");
    assert_eq!(Chain::Testnet.to_string(), "testnet");
    assert_eq!(Chain::Signet.to_string(), "signet");
    assert_eq!(Chain::Regtest.to_string(), "regtest");
    for chain in ALL {
        assert_eq!(Chain::from_selector(chain.name()), Ok(chain));
    }
}

#[test]
fn explorer_urls() {
    assert_eq!(Chain::Mainnet.explorer_base_url(), "https://localhost/inscription/");
    assert_eq!(Chain::Testnet.explorer_base_url(), "https://localhost/inscription/");
    assert_eq!(Chain::Signet.explorer_base_url(), "https://localhost/inscription/");
    assert_eq!(Chain::Regtest.explorer_base_url(), "http://localhost/inscription/");
}
