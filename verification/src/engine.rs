//! Trusted interface to the external validation and compilation engine and
//! to the chain-configuration decoder.
//!
//! Everything a contract's bytes are actually held against — structure,
//! imports and exports, memory and function limits, required capabilities,
//! determinism — is owned by the engine; this crate only sequences the
//! calls. Each item below carries the contract this crate relies on.

use vstd::prelude::*;

verus! {

/// The engine's record of structural and resource ceilings for a module.
/// Its content is owned by the engine; this crate only carries it from the
/// policy resolution to each validation call.
#[verifier::external_type_specification]
#[verifier::external_body]
pub struct ExWasmLimits(cosmwasm_vm::WasmLimits);

/// The capability names embedded in a chain configuration, when the bytes
/// are a valid encoding of one; decoding is a function of the bytes alone.
pub uninterp spec fn decoded_caps(bytes: Seq<u8>) -> Option<Set<Seq<char>>>;

/// Relies on `rmp_serde::from_slice` decoding a `cosmwasm_vm::Config`:
/// decoding either fully succeeds or fails as a whole, is deterministic in
/// the bytes, and a configuration embeds a limit record and a set of
/// capability names (a `HashSet`, so the returned names are distinct; their
/// order is whatever the set iteration gives and is not relied upon).
#[verifier::external_body]
pub(crate) fn decode_config_bytes(bytes: &[u8]) -> (r: Result<
    (cosmwasm_vm::WasmLimits, Vec<String>),
    String,
>)
    ensures
        r is Ok <==> decoded_caps(bytes@) is Some,
        r matches Ok(p) ==> p.1.deep_view().to_set() == decoded_caps(bytes@).unwrap()
            && p.1.deep_view().no_duplicates(),
{
    match rmp_serde::from_slice::<cosmwasm_vm::Config>(bytes) {
        Ok(c) => Ok((c.wasm_limits, c.cache.available_capabilities.into_iter().collect())),
        Err(e) => Err(e.to_string()),
    }
}

/// Relies on `cosmwasm_vm::WasmLimits::default` (a derived `Default`): the
/// limit record in which every ceiling falls back to the engine's default.
#[verifier::external_body]
pub(crate) fn default_limits() -> cosmwasm_vm::WasmLimits {
    cosmwasm_vm::WasmLimits::default()
}

/// Whether the engine's static validation accepts a module under a
/// capability set and a limit record. Validation is pure static analysis,
/// deterministic in exactly these three arguments; in particular it does
/// not depend on the verbosity of the logging.
pub uninterp spec fn check_verdict(
    wasm: Seq<u8>,
    caps: Set<Seq<char>>,
    limits: cosmwasm_vm::WasmLimits,
) -> bool;

/// Relies on `cosmwasm_vm::internals::check_wasm`: the engine's static
/// validation of the module bytes against the available capability names
/// and the limit record, a deterministic function of those three alone
/// (named `check_verdict`). The verbosity flag only selects between the
/// engine's stderr logger (with the given line prefix) and its silent
/// logger; per the engine's source the logger receives diagnostics and
/// never enters the verdict.
#[verifier::external_body]
pub(crate) fn vm_check_wasm(
    wasm: &[u8],
    names: &Vec<String>,
    limits: &cosmwasm_vm::WasmLimits,
    verbose: bool,
    prefix: &str,
) -> (r: Result<(), String>)
    ensures
        r is Ok <==> check_verdict(wasm@, names.deep_view().to_set(), *limits),
{
    let caps: std::collections::HashSet<String> = names.iter().cloned().collect();
    let logs = if verbose {
        cosmwasm_vm::internals::Logger::On {
            prefix,
            output: cosmwasm_vm::internals::LogOutput::StdErr,
        }
    } else {
        cosmwasm_vm::internals::Logger::Off
    };
    cosmwasm_vm::internals::check_wasm(wasm, &caps, limits, logs).map_err(|e| e.to_string())
}

/// Relies on `cosmwasm_vm::internals::make_compiling_engine` and `compile`:
/// a compilation engine created fresh for this one module (no state shared
/// across files), which compiles the bytes or reports why it will not. The
/// compiled artifact is dropped at once; only the verdict leaves.
#[verifier::external_body]
pub(crate) fn vm_compile(wasm: &[u8]) -> Result<(), String> {
    let engine = cosmwasm_vm::internals::make_compiling_engine(None, None);
    match cosmwasm_vm::internals::compile(&engine, wasm) {
        Ok(_) => Ok(()),
        Err(e) => Err(e.to_string()),
    }
}

} // verus!
