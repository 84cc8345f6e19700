use contract_check::checker::{check_wasm_bytes, classify_outcome, display_identifier, log_prefix};
use contract_check::errors::CheckError;
use contract_check::policy::resolve_baseline;

#[test]
fn identifier_is_the_file_name_component() {
    assert_eq!(display_identifier("a/b/c.wasm"), "c.wasm");
    assert_eq!(display_identifier("c.wasm"), "c.wasm");
    assert_eq!(display_identifier("/c.wasm"), "c.wasm");
    assert_eq!(display_identifier("a/b/"), "b");
    assert_eq!(display_identifier("a//b"), "b");
    assert_eq!(display_identifier("./c.wasm"), "c.wasm");
    assert_eq!(display_identifier("a/."), "a");
    assert_eq!(display_identifier(".wasm"), ".wasm");
    assert_eq!(display_identifier("..."), "...");
}

#[test]
fn identifier_falls_back_to_the_path_without_a_file_name() {
    assert_eq!(display_identifier(""), "");
    assert_eq!(display_identifier("/"), "/");
    assert_eq!(display_identifier("."), ".");
    assert_eq!(display_identifier(".."), "..");
    assert_eq!(display_identifier("a/.."), "a/..");
    assert_eq!(display_identifier("a/../"), "a/../");
}

#[test]
fn identifier_matches_the_platform_file_name() {
    for path in [
        "a/b/c.wasm",
        "c.wasm",
        "/c.wasm",
        "a/b/",
        "a//b",
        "./c.wasm",
        "a/.",
        "a/./",
        ".wasm",
        "...",
        "",
        "/",
        "//",
        ".",
        "..",
        "a/..",
        "a/../",
        "contracts/v2/token.wasm",
    ] {
        let expected = std::path::Path::new(path)
            .file_name()
            .map(|f| f.to_string_lossy().into_owned())
            .unwrap_or(path.to_string());
        assert_eq!(display_identifier(path), expected, "path {path:?}");
    }
}

#[test]
fn log_prefix_wraps_the_identifier() {
    assert_eq!(log_prefix("c.wasm"), "    c.wasm: ");
}

#[test]
fn validation_failures_are_tagged_as_validation() {
    let r = classify_outcome(Err("bad import".to_string()), None);
    match r {
        Err(CheckError::Validation(m)) => assert_eq!(m, "bad import"),
        _ => panic!("expected a validation failure"),
    }
}

#[test]
fn compile_failures_after_validation_are_tagged_as_compilation() {
    let r = classify_outcome(Ok(()), Some(Err("codegen".to_string())));
    match r {
        Err(CheckError::Compile(m)) => assert_eq!(m, "codegen"),
        _ => panic!("expected a compilation failure"),
    }
    let v = classify_outcome(Err("first".to_string()), None)
        .expect_err("validation failed")
        .describe();
    let c = classify_outcome(Ok(()), Some(Err("first".to_string())))
        .expect_err("compilation failed")
        .describe();
    assert!(v.starts_with("validation error: "));
    assert!(c.starts_with("compilation error: "));
    assert_ne!(v, c);
}

#[test]
fn both_steps_passing_is_a_pass() {
    assert!(classify_outcome(Ok(()), Some(Ok(()))).is_ok());
}

#[test]
fn garbage_bytes_fail_validation() {
    let policy = resolve_baseline();
    let r = check_wasm_bytes(b"not a wasm module", &policy, false, "x.wasm");
    match r {
        Err(CheckError::Validation(_)) => {}
        _ => panic!("garbage must fail static validation"),
    }
}

#[test]
fn empty_module_fails_validation() {
    let policy = resolve_baseline();
    // A well-formed but empty Wasm module: magic and version only. It parses,
    // but misses everything a contract must export.
    let wasm: &[u8] = &[0x00, 0x61, 0x73, 0x6d, 0x01, 0x00, 0x00, 0x00];
    let r = check_wasm_bytes(wasm, &policy, false, "empty.wasm");
    assert!(r.is_err());
}

#[test]
fn verbosity_never_changes_the_verdict() {
    let policy = resolve_baseline();
    let quiet = check_wasm_bytes(b"not a wasm module", &policy, false, "x.wasm");
    let loud = check_wasm_bytes(b"not a wasm module", &policy, true, "x.wasm");
    match (quiet, loud) {
        (Err(CheckError::Validation(a)), Err(CheckError::Validation(b))) => assert_eq!(a, b),
        _ => panic!("the verbosity flag must not change the outcome"),
    }
}

#[test]
fn rechecking_the_same_bytes_is_idempotent() {
    let policy = resolve_baseline();
    let first = check_wasm_bytes(b"\x17\x2a", &policy, false, "x.wasm");
    let second = check_wasm_bytes(b"\x17\x2a", &policy, false, "x.wasm");
    match (first, second) {
        (Err(a), Err(b)) => assert_eq!(a.describe(), b.describe()),
        _ => panic!("both runs must fail the same way"),
    }
}
