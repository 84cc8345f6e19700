//! Error taxonomy of a check run.
//!
//! Setup errors (`Usage`, `Io` on the configuration, `Decode`) abort the
//! whole run; per-file errors (`Io`, `Validation`, `Compile`) fail only the
//! file they belong to.

use vstd::prelude::*;

verus! {

/// One failure, carrying a human-readable diagnostic message.
#[derive(Debug)]
pub enum CheckError {
    /// Conflicting or missing command-line arguments.
    Usage(String),
    /// A file could not be opened or read.
    Io(String),
    /// The chain configuration bytes are not a valid encoding.
    Decode(String),
    /// The module violates a structural, capability or limit rule.
    Validation(String),
    /// The module compiles under no circumstances although it validated.
    Compile(String),
}

/// The rendered diagnostic of an error: a step-identifying prefix followed
/// by the carried message, so that a reader can always tell which stage of
/// the pipeline rejected the input.
pub open spec fn describe_spec(e: CheckError) -> Seq<char> {
    match e {
        CheckError::Usage(m) => "usage error: "@ + m@,
        CheckError::Io(m) => "io error: "@ + m@,
        CheckError::Decode(m) => "config decode error: "@ + m@,
        CheckError::Validation(m) => "validation error: "@ + m@,
        CheckError::Compile(m) => "compilation error: "@ + m@,
    }
}

impl CheckError {
    /// Render the diagnostic line for this error.
    pub fn describe(&self) -> (r: String)
        ensures
            r@ == describe_spec(*self),
    {
        match self {
            CheckError::Usage(m) => prefixed("usage error: ", m),
            CheckError::Io(m) => prefixed("io error: ", m),
            CheckError::Decode(m) => prefixed("config decode error: ", m),
            CheckError::Validation(m) => prefixed("validation error: ", m),
            CheckError::Compile(m) => prefixed("compilation error: ", m),
        }
    }
}

/// Concatenate a static prefix and a message.
fn prefixed(prefix: &str, msg: &String) -> (r: String)
    ensures
        r@ == prefix@ + msg@,
{
    let mut r = prefix.to_owned();
    r.append(msg.as_str());
    r
}

/// A validation failure and a compilation failure never render to the same
/// diagnostic: the step prefixes differ in their first character, so the
/// text always distinguishes the two steps, whatever messages they carry.
pub proof fn lemma_describe_distinguishes_steps(m1: String, m2: String)
    ensures
        describe_spec(CheckError::Validation(m1)) != describe_spec(CheckError::Compile(m2)),
{
    reveal_strlit("validation error: ");
    reveal_strlit("compilation error: ");
    let v = describe_spec(CheckError::Validation(m1));
    let c = describe_spec(CheckError::Compile(m2));
    assert(v[0] == 'v');
    assert(c[0] == 'c');
}

} // verus!
