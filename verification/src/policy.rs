//! Resolution of the run's policy: which capabilities are available and
//! which resource limits apply.
//!
//! The two command-line sources are mutually exclusive, which the tagged
//! union below makes structural: a run's policy comes from an explicit
//! capability list, from a chain-configuration file, or from the baseline.
//! Resolution happens exactly once per run, before any file is checked, and
//! the resolved pair applies uniformly to every file.

use vstd::prelude::*;

use crate::capabilities::CapabilitySet;
use crate::capabilities::capabilities_from_csv;
use crate::capabilities::csv_capability_set;
use crate::capabilities::default_capabilities;
use crate::capabilities::default_capability_set;
use crate::engine;
use crate::engine::decoded_caps;
use crate::errors::CheckError;

verus! {

/// Where the run's policy comes from. The variants are exclusive by
/// construction, so conflicting inputs cannot reach the resolvers.
pub enum PolicySource {
    /// A comma-separated capability list given on the command line.
    Explicit(String),
    /// The path of a binary-encoded chain configuration to load.
    FromFile(String),
    /// Neither was given: baseline capabilities, default limits.
    Baseline,
}

/// The policy of one run, applied to every input file: the engine's limit
/// record and the set of available capabilities.
pub struct Policy {
    pub limits: cosmwasm_vm::WasmLimits,
    pub capabilities: CapabilitySet,
}

/// Decide the policy source from the two optional command-line inputs.
/// Giving both is a usage error, rejected before anything is opened or
/// read; otherwise the given one (or the baseline) is chosen.
pub fn select_policy_source(capabilities_csv: Option<String>, config_path: Option<String>) -> (r:
    Result<PolicySource, CheckError>)
    ensures
        (capabilities_csv is Some && config_path is Some) <==> r is Err,
        r matches Err(e) ==> e is Usage,
        capabilities_csv matches Some(c) ==> (config_path is None ==> (r matches Ok(s)
            && s matches PolicySource::Explicit(d) && d == c)),
        config_path matches Some(p) ==> (capabilities_csv is None ==> (r matches Ok(s)
            && s matches PolicySource::FromFile(q) && q == p)),
        (capabilities_csv is None && config_path is None) ==> (r matches Ok(s)
            && s is Baseline),
{
    match (capabilities_csv, config_path) {
        (Some(_), Some(_)) => Err(
            CheckError::Usage(
                "an explicit capability list conflicts with a chain configuration; give only one".to_owned(),
            ),
        ),
        (Some(c), None) => Ok(PolicySource::Explicit(c)),
        (None, Some(p)) => Ok(PolicySource::FromFile(p)),
        (None, None) => Ok(PolicySource::Baseline),
    }
}

/// Resolve the policy from an explicit comma-separated capability list:
/// exactly its distinct trimmed names, and the default limits.
pub fn resolve_explicit(csv: &str) -> (r: Policy)
    ensures
        r.capabilities.wf(),
        r.capabilities@ == csv_capability_set(csv@),
{
    Policy { limits: engine::default_limits(), capabilities: capabilities_from_csv(csv) }
}

/// Resolve the policy when nothing was given: exactly the baseline
/// capability set, and the default limits.
pub fn resolve_baseline() -> (r: Policy)
    ensures
        r.capabilities.wf(),
        r.capabilities@ == default_capability_set(),
{
    Policy { limits: engine::default_limits(), capabilities: default_capabilities() }
}

/// Resolve the policy from the bytes of a chain configuration: the embedded
/// limit record and exactly the embedded capability names, taken verbatim.
/// Bytes that do not decode yield a decode error and nothing else; no file
/// can be checked in that run.
pub fn resolve_from_config(bytes: &[u8]) -> (r: Result<Policy, CheckError>)
    ensures
        r is Ok <==> decoded_caps(bytes@) is Some,
        r matches Ok(p) ==> p.capabilities.wf() && p.capabilities@ == decoded_caps(
            bytes@,
        ).unwrap(),
        r matches Err(e) ==> e is Decode,
{
    match engine::decode_config_bytes(bytes) {
        Ok((limits, names)) => {
            let capabilities = CapabilitySet::from_names(&names);
            Ok(Policy { limits, capabilities })
        },
        Err(m) => Err(CheckError::Decode(m)),
    }
}

} // verus!
