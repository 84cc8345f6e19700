use std::collections::HashSet;

use contract_check::errors::CheckError;
use contract_check::policy::{
    resolve_baseline, resolve_explicit, resolve_from_config, select_policy_source, PolicySource,
};

#[test]
fn both_sources_are_rejected() {
    let r = select_policy_source(Some("iterator".to_string()), Some("config.bin".to_string()));
    match r {
        Err(CheckError::Usage(_)) => {}
        _ => panic!("conflicting sources must be a usage error"),
    }
}

#[test]
fn single_sources_are_selected() {
    match select_policy_source(Some("iterator".to_string()), None) {
        Ok(PolicySource::Explicit(csv)) => assert_eq!(csv, "iterator"),
        _ => panic!("expected the explicit list"),
    }
    match select_policy_source(None, Some("chain.cfg".to_string())) {
        Ok(PolicySource::FromFile(path)) => assert_eq!(path, "chain.cfg"),
        _ => panic!("expected the config path"),
    }
    match select_policy_source(None, None) {
        Ok(PolicySource::Baseline) => {}
        _ => panic!("expected the baseline"),
    }
}

#[test]
fn explicit_policy_uses_the_given_list() {
    let policy = resolve_explicit("water, beer");
    assert_eq!(policy.capabilities.len(), 2);
    assert!(policy.capabilities.contains("water"));
    assert!(policy.capabilities.contains("beer"));
    assert!(!policy.capabilities.contains("iterator"));
}

#[test]
fn baseline_policy_uses_the_default_list() {
    let policy = resolve_baseline();
    assert_eq!(policy.capabilities.len(), 9);
    assert!(policy.capabilities.contains("iterator"));
    assert!(policy.capabilities.contains("cosmwasm_2_1"));
}

#[test]
fn config_bytes_resolve_to_the_embedded_capabilities() {
    let caps: HashSet<String> = ["water".to_string(), "beer".to_string()].into();
    let options = cosmwasm_vm::CacheOptions::new(
        "/tmp/does-not-matter",
        caps,
        cosmwasm_vm::Size::mebi(200),
        cosmwasm_vm::Size::mebi(32),
    );
    let config = cosmwasm_vm::Config::new(options);
    let bytes = rmp_serde::to_vec(&config).expect("encoding the configuration");
    let policy = resolve_from_config(&bytes).expect("the bytes decode");
    assert_eq!(policy.capabilities.len(), 2);
    assert!(policy.capabilities.contains("water"));
    assert!(policy.capabilities.contains("beer"));
    assert!(!policy.capabilities.contains("iterator"));
}

#[test]
fn undecodable_config_bytes_are_a_decode_error() {
    let r = resolve_from_config(&[0x17, 0x2a, 0xff]);
    match r {
        Err(CheckError::Decode(_)) => {}
        _ => panic!("garbage bytes must fail with a decode error"),
    }
    let r = resolve_from_config(&[]);
    match r {
        Err(e) => {
            let text = e.describe();
            assert!(text.starts_with("config decode error: "), "got {text:?}");
        }
        Ok(_) => panic!("empty bytes must not decode"),
    }
}
