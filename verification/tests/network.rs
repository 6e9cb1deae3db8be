use block_metrics::error::MetricError;
use block_metrics::network::{get_chain, Network};

#[test]
#[allow(unreachable_patterns)]
fn test_get_chain() {
    let chain = get_chain("main").unwrap();
    match chain {
        Network::Bitcoin | Network::Regtest | Network::Signet | Network::Testnet => {
            println!("{}", chain.core_name());
        }
        _ => panic!("Unexpected network type"),
    }
}

#[test]
fn get_chain_recognises_the_four_names() {
    assert_eq!(get_chain("main"), Ok(Network::Bitcoin));
    assert_eq!(get_chain("test"), Ok(Network::Testnet));
    assert_eq!(get_chain("signet"), Ok(Network::Signet));
    assert_eq!(get_chain("regtest"), Ok(Network::Regtest));
}

#[test]
fn get_chain_refuses_any_other_name() {
    assert_eq!(get_chain(""), Err(MetricError::UnknownNetwork));
    assert_eq!(get_chain("Main"), Err(MetricError::UnknownNetwork));
    assert_eq!(get_chain("main "), Err(MetricError::UnknownNetwork));
    assert_eq!(get_chain("mainnet"), Err(MetricError::UnknownNetwork));
    assert_eq!(get_chain("bitcoin"), Err(MetricError::UnknownNetwork));
    assert_eq!(get_chain("testnet"), Err(MetricError::UnknownNetwork));
    assert_eq!(get_chain("testnet4"), Err(MetricError::UnknownNetwork));
    assert_eq!(get_chain("test\u{e9}"), Err(MetricError::UnknownNetwork));
    assert_eq!(get_chain("m\u{e4}in"), Err(MetricError::UnknownNetwork));
    assert_eq!(get_chain("regtes"), Err(MetricError::UnknownNetwork));
}

#[test]
fn core_name_is_read_back_as_the_same_network() {
    assert_eq!(Network::Bitcoin.core_name(), "main");
    assert_eq!(Network::Testnet.core_name(), "test");
    assert_eq!(Network::Signet.core_name(), "signet");
    assert_eq!(Network::Regtest.core_name(), "regtest");
    assert_eq!(get_chain(Network::Bitcoin.core_name()), Ok(Network::Bitcoin));
    assert_eq!(get_chain(Network::Testnet.core_name()), Ok(Network::Testnet));
    assert_eq!(get_chain(Network::Signet.core_name()), Ok(Network::Signet));
    assert_eq!(get_chain(Network::Regtest.core_name()), Ok(Network::Regtest));
}
