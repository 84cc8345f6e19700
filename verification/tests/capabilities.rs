use contract_check::capabilities::{capabilities_from_csv, default_capabilities, trim_str, CapabilitySet};

fn assert_same_as_engine(csv: &str) {
    let ours = capabilities_from_csv(csv);
    let engine = cosmwasm_vm::capabilities_from_csv(csv);
    assert_eq!(ours.len(), engine.len(), "cardinality differs for {:?}", csv);
    for name in &engine {
        assert!(ours.contains(name), "missing {:?} for input {:?}", name, csv);
    }
}

#[test]
fn csv_parsing_collects_trimmed_tokens() {
    let set = capabilities_from_csv("foo, bar,baz ");
    assert_eq!(set.len(), 3);
    assert!(set.contains("foo"));
    assert!(set.contains("bar"));
    assert!(set.contains("baz"));
    assert!(!set.contains("qux"));
}

#[test]
fn csv_parsing_skips_empty_tokens() {
    assert_eq!(capabilities_from_csv("").len(), 0);
    assert_eq!(capabilities_from_csv(" ,  ,,").len(), 0);
    let set = capabilities_from_csv("a,,b");
    assert_eq!(set.len(), 2);
    assert!(set.contains("a"));
    assert!(set.contains("b"));
    let set = capabilities_from_csv("a,b,");
    assert_eq!(set.len(), 2);
}

#[test]
fn csv_parsing_ignores_duplicates_and_order() {
    let once = capabilities_from_csv("a,b");
    let doubled = capabilities_from_csv("b, a ,b,a");
    assert_eq!(once.len(), 2);
    assert_eq!(doubled.len(), 2);
    for name in ["a", "b"] {
        assert!(once.contains(name));
        assert!(doubled.contains(name));
    }
}

#[test]
fn csv_parsing_matches_the_engine() {
    for csv in [
        "",
        "iterator",
        "foo, bar,baz ",
        "a,,b",
        "a,b,",
        " staking , staking,iterator",
        "iterator,staking,stargate,cosmwasm_1_1,cosmwasm_1_2,cosmwasm_1_3,cosmwasm_1_4,cosmwasm_2_0,cosmwasm_2_1",
        "iterator\u{a0}, b",
        "\u{3000}a\u{3000},\u{2028} b,\u{85}c\u{2009}",
        "\u{a0}\u{1680}\u{200a}\u{202f}\u{205f}",
    ] {
        assert_same_as_engine(csv);
    }
}

#[test]
fn default_set_is_the_fixed_baseline_list() {
    let set = default_capabilities();
    assert_eq!(set.len(), 9);
    for name in [
        "iterator",
        "staking",
        "stargate",
        "cosmwasm_1_1",
        "cosmwasm_1_2",
        "cosmwasm_1_3",
        "cosmwasm_1_4",
        "cosmwasm_2_0",
        "cosmwasm_2_1",
    ] {
        assert!(set.contains(name), "default set misses {name}");
    }
    assert!(!set.contains("cosmwasm_9_9"));
}

#[test]
fn default_set_equals_parsing_the_default_csv() {
    let parsed = capabilities_from_csv(
        "iterator,staking,stargate,cosmwasm_1_1,cosmwasm_1_2,cosmwasm_1_3,cosmwasm_1_4,cosmwasm_2_0,cosmwasm_2_1",
    );
    let fixed = default_capabilities();
    assert_eq!(parsed.len(), fixed.len());
    for name in fixed.as_names() {
        assert!(parsed.contains(name));
    }
}

#[test]
fn trimming_removes_surrounding_whitespace_only() {
    assert_eq!(trim_str(" x "), "x");
    assert_eq!(trim_str("\t a b \n"), "a b");
    assert_eq!(trim_str("none"), "none");
    assert_eq!(trim_str("   "), "");
    assert_eq!(trim_str(""), "");
}

#[test]
fn trimming_covers_unicode_whitespace() {
    assert_eq!(trim_str("\u{a0}x\u{a0}"), "x");
    assert_eq!(trim_str("\u{3000}\u{2000}y\u{200a}\u{2029}"), "y");
    for raw in [" x ", "\u{a0}iterator\u{85}", "\u{1680}a b\u{202f}", "\u{2028}\u{205f}"] {
        assert_eq!(trim_str(raw), raw.trim(), "input {raw:?}");
    }
}

#[test]
fn insert_deduplicates() {
    let mut set = CapabilitySet::new();
    set.insert("iterator".to_string());
    set.insert("iterator".to_string());
    set.insert("staking".to_string());
    assert_eq!(set.len(), 2);
    assert_eq!(set.as_names().len(), 2);
}
