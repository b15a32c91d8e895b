use minimal_node::chain_spec::{
    ChainType, development_chain_spec, development_config_genesis, development_fee_params,
    get_preset, native_version, preset_names,
};
use minimal_node::pipeline::{Account, FeeParams};

#[test]
fn development_chain_spec_has_the_development_identity() {
    let s = development_chain_spec();
    assert_eq!(s.name, "Development");
    assert_eq!(s.id, "dev");
    assert_eq!(s.chain_type, ChainType::Development);
    assert_eq!(s.genesis_preset, "development");
    assert_eq!(s.properties.token_decimals, 0);
    assert_eq!(s.properties.token_symbol, "MINI");
}

#[test]
fn development_genesis_endows_every_test_account() {
    let g = development_config_genesis(5, 3);
    assert_eq!(g.endowment, 5000);
    assert_eq!(g.accounts.len(), 4);
    assert_eq!(g.accounts[0], Account { nonce: 0, balance: 0 });
    for i in 1..=3 {
        assert_eq!(g.accounts[i], Account { nonce: 0, balance: 5000 });
    }
    assert_eq!(g.sudo, 1);
}

#[test]
fn development_genesis_endowment_is_at_least_one_thousand() {
    let g = development_config_genesis(0, 1);
    assert_eq!(g.endowment, 1000);
}

#[test]
fn the_development_preset_yields_the_development_genesis() {
    let g = get_preset("development", 5, 3).unwrap();
    assert_eq!(g.endowment, 5000);
    assert_eq!(g.accounts.len(), 4);
    assert_eq!(g.accounts[0], Account { nonce: 0, balance: 0 });
    for i in 1..=3 {
        assert_eq!(g.accounts[i], Account { nonce: 0, balance: 5000 });
    }
    assert_eq!(g.sudo, 1);
}

#[test]
fn only_the_development_preset_exists() {
    assert!(get_preset("development", 1, 2).is_some());
    assert!(get_preset("dev", 1, 2).is_none());
    assert!(get_preset("", 1, 2).is_none());
    assert!(get_preset("production", 1, 2).is_none());
    let names = preset_names();
    assert_eq!(names, vec!["development".to_string()]);
}

#[test]
fn development_fees_ignore_weight_and_length() {
    assert_eq!(development_fee_params(), FeeParams { weight_fee: 0, length_fee: 1 });
}

#[test]
fn runtime_version_identity() {
    let v = native_version();
    assert_eq!(v.spec_name, "minimal-template-runtime");
    assert_eq!(v.impl_name, "minimal-template-runtime");
    assert_eq!(v.authoring_version, 1);
    assert_eq!(v.spec_version, 0);
    assert_eq!(v.impl_version, 1);
    assert_eq!(v.transaction_version, 1);
    assert_eq!(v.system_version, 1);
}
