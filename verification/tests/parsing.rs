use minimal_node::consensus::Consensus;

#[test]
fn parses_instant_seal() {
    assert!(matches!(Consensus::from_str("instant-seal"), Ok(Consensus::InstantSeal)));
}

#[test]
fn parses_manual_seal_with_block_time() {
    assert!(matches!(Consensus::from_str("manual-seal-3000"), Ok(Consensus::ManualSeal(3000))));
}

#[test]
fn parses_default_mode_string() {
    // The node's default configuration value.
    assert!(matches!(Consensus::from_str("manual-seal-3000"), Ok(Consensus::ManualSeal(3000))));
}

#[test]
fn parses_manual_seal_zero() {
    assert!(matches!(Consensus::from_str("manual-seal-0"), Ok(Consensus::ManualSeal(0))));
}

#[test]
fn rejects_manual_seal_with_letters() {
    let r = Consensus::from_str("manual-seal-abc");
    assert_eq!(r.unwrap_err(), "invalid block time".to_string());
}

#[test]
fn rejects_manual_seal_with_empty_suffix() {
    let r = Consensus::from_str("manual-seal-");
    assert_eq!(r.unwrap_err(), "invalid block time".to_string());
}

#[test]
fn rejects_manual_seal_with_overflowing_block_time() {
    let r = Consensus::from_str("manual-seal-99999999999999999999999");
    assert_eq!(r.unwrap_err(), "invalid block time".to_string());
}

#[test]
fn parses_none_in_any_case() {
    assert!(matches!(Consensus::from_str("none"), Ok(Consensus::NoAuthoring)));
    assert!(matches!(Consensus::from_str("None"), Ok(Consensus::NoAuthoring)));
    assert!(matches!(Consensus::from_str("NONE"), Ok(Consensus::NoAuthoring)));
    assert!(matches!(Consensus::from_str("nOnE"), Ok(Consensus::NoAuthoring)));
}

#[test]
fn rejects_unknown_identifier() {
    let r = Consensus::from_str("garbage");
    assert_eq!(r.unwrap_err(), "incorrect consensus identifier".to_string());
}

#[test]
fn rejects_partial_matches() {
    assert!(Consensus::from_str("instant-seal-now").is_err());
    assert!(Consensus::from_str("instant").is_err());
    assert!(Consensus::from_str("nonexistent").is_err());
    assert!(Consensus::from_str("").is_err());
    assert!(Consensus::from_str("manual-seal").is_err());
}

#[test]
fn parses_largest_block_time() {
    assert!(matches!(
        Consensus::from_str("manual-seal-18446744073709551615"),
        Ok(Consensus::ManualSeal(u64::MAX))
    ));
    assert_eq!(
        Consensus::from_str("manual-seal-18446744073709551616").unwrap_err(),
        "invalid block time".to_string()
    );
}
