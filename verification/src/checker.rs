//! The per-file check pipeline: static validation first, then, only when it
//! passed, a fresh compilation of the same bytes as a correctness oracle.
//!
//! A failure at either step is terminal for that file and is tagged with
//! the step it came from; other files are unaffected.

use vstd::prelude::*;

use crate::engine;
use crate::errors::CheckError;
use crate::policy::Policy;

verus! {

/// The start of the path component that ends right before index `e`,
/// scanning left over everything that is not a separator.
pub open spec fn comp_start(s: Seq<char>, e: int) -> int
    decreases e,
{
    if 0 < e <= s.len() && s[e - 1] != '/' {
        comp_start(s, e - 1)
    } else {
        e
    }
}

proof fn lemma_comp_start_range(s: Seq<char>, e: int)
    requires
        0 <= e <= s.len(),
    ensures
        0 <= comp_start(s, e) <= e,
    decreases e,
{
    if 0 < e && s[e - 1] != '/' {
        lemma_comp_start_range(s, e - 1);
    }
}

proof fn lemma_comp_start_take(s: Seq<char>, e: int, m: int)
    requires
        0 <= m <= e <= s.len(),
    ensures
        comp_start(s.take(e), m) == comp_start(s, m),
    decreases m,
{
    if 0 < m && s[m - 1] != '/' {
        lemma_comp_start_take(s, e, m - 1);
    }
}

/// The file name of a slash-separated path, by the platform's rule:
/// trailing separators are ignored, a final `.` component is skipped, and a
/// final `..` component — or nothing left — yields no name.
pub open spec fn file_name_of(s: Seq<char>) -> Option<Seq<char>>
    decreases s.len() via file_name_of_decreases
{
    if s.len() == 0 {
        None
    } else if s.last() == '/' {
        file_name_of(s.drop_last())
    } else {
        let k = comp_start(s, s.len() as int);
        let c = s.skip(k);
        if c == seq!['.'] {
            file_name_of(s.take(k))
        } else if c == seq!['.', '.'] {
            None
        } else {
            Some(c)
        }
    }
}

#[via_fn]
proof fn file_name_of_decreases(s: Seq<char>) {
    if s.len() > 0 && s.last() != '/' {
        assert(comp_start(s, s.len() as int) == comp_start(s, s.len() - 1));
        lemma_comp_start_range(s, s.len() - 1);
    }
}

/// The short identifier a file is reported under: the file-name component
/// of its path when there is one, else the path as given. Used only as a
/// diagnostic prefix; it never affects a verdict.
pub open spec fn display_identifier_spec(path: Seq<char>) -> Seq<char> {
    match file_name_of(path) {
        Some(name) => name,
        None => path,
    }
}

/// Derive the identifier a file is reported under from its path.
pub fn display_identifier(path: &str) -> (r: String)
    ensures
        r@ == display_identifier_spec(path@),
{
    let n = path.unicode_len();
    let mut e: usize = n;
    proof {
        assert(path@.take(n as int) =~= path@);
    }
    loop
        invariant
            0 <= e <= n,
            n == path@.len(),
            file_name_of(path@) == file_name_of(path@.take(e as int)),
        decreases e,
    {
        let ghost e_entry = e;
        while e > 0 && path.get_char(e - 1) == '/'
            invariant
                0 <= e <= e_entry <= n,
                n == path@.len(),
                file_name_of(path@) == file_name_of(path@.take(e as int)),
            decreases e,
        {
            proof {
                let t = path@.take(e as int);
                assert(t.last() == path@[e as int - 1]);
                assert(t.drop_last() =~= path@.take(e as int - 1));
            }
            e -= 1;
        }
        if e == 0 {
            proof {
                assert(path@.take(0).len() == 0);
            }
            return path.to_owned();
        }
        let mut k: usize = e;
        while k > 0 && path.get_char(k - 1) != '/'
            invariant
                0 <= k <= e <= n,
                n == path@.len(),
                comp_start(path@, e as int) == comp_start(path@, k as int),
            decreases k,
        {
            k -= 1;
        }
        proof {
            let t = path@.take(e as int);
            assert(t.last() == path@[e as int - 1]);
            assert(comp_start(path@, k as int) == k);
            lemma_comp_start_take(path@, e as int, e as int);
            assert(comp_start(t, t.len() as int) == k);
            assert(t.skip(k as int) =~= path@.subrange(k as int, e as int));
        }
        if e - k == 1 && path.get_char(k) == '.' {
            // A lone `.` names no file: drop it and keep scanning.
            proof {
                let t = path@.take(e as int);
                assert(t.skip(k as int) =~= seq!['.']);
                assert(t.take(k as int) =~= path@.take(k as int));
                assert(comp_start(path@, e as int) == comp_start(path@, e as int - 1));
                lemma_comp_start_range(path@, e as int - 1);
            }
            e = k;
        } else if e - k == 2 && path.get_char(k) == '.' && path.get_char(k + 1) == '.' {
            // A final `..` has no file name; report under the whole path.
            proof {
                let t = path@.take(e as int);
                assert(t.skip(k as int) =~= seq!['.', '.']);
            }
            return path.to_owned();
        } else {
            let t = path.substring_char(k, e);
            proof {
                let tv = path@.take(e as int);
                let c = tv.skip(k as int);
                assert(c.len() == e - k);
                if c == seq!['.'] {
                    assert(c[0] == path@[k as int]);
                    assert(false);
                }
                if c == seq!['.', '.'] {
                    assert(c[0] == path@[k as int] && c[1] == path@[k as int + 1]);
                    assert(false);
                }
            }
            return t.to_owned();
        }
    }
}

/// The prefix put before each diagnostic line a file's check logs.
pub open spec fn log_prefix_spec(id: Seq<char>) -> Seq<char> {
    "    "@ + id + ": "@
}

/// Render the diagnostic-line prefix for a file.
pub fn log_prefix(id: &str) -> (r: String)
    ensures
        r@ == log_prefix_spec(id@),
{
    let mut r = "    ".to_owned();
    r.append(id);
    r.append(": ");
    r
}

/// The file's outcome, given each step's verdict. A validation failure is
/// the file's failure, tagged as validation, and compilation is never
/// reached; a compilation failure after passed validation is tagged as
/// compilation; the file passes exactly when both steps passed.
pub fn classify_outcome(validation: Result<(), String>, compilation: Option<Result<(), String>>)
    -> (r: Result<(), CheckError>)
    requires
        validation is Ok <==> compilation is Some,
    ensures
        validation matches Err(m) ==> r == Result::<(), CheckError>::Err(
            CheckError::Validation(m),
        ),
        compilation matches Some(c) ==> (c matches Err(m) ==> r == Result::<(),
            CheckError,
        >::Err(CheckError::Compile(m))),
        compilation matches Some(c) ==> (c is Ok ==> r is Ok),
{
    match validation {
        Err(m) => Err(CheckError::Validation(m)),
        Ok(()) => match compilation {
            Some(Err(m)) => Err(CheckError::Compile(m)),
            Some(Ok(())) => Ok(()),
            None => Ok(()),  // unreachable under the precondition
        },
    }
}

/// Check one contract's bytes under the resolved policy: run the engine's
/// static validation and, only when it passed, compile the same bytes on a
/// fresh engine. A module the engine's validation rejects fails here as a
/// validation failure, whatever the verbosity; a compilation failure can
/// only follow a passed validation; a pass needs both steps. Setup error
/// kinds never come out of here.
pub fn check_wasm_bytes(wasm: &[u8], policy: &Policy, verbose: bool, path: &str) -> (r: Result<
    (),
    CheckError,
>)
    ensures
        r matches Err(e) ==> (e is Validation || e is Compile),
        r is Ok ==> engine::check_verdict(wasm@, policy.capabilities@, policy.limits),
        !engine::check_verdict(wasm@, policy.capabilities@, policy.limits) ==> (r matches Err(e)
            && e is Validation),
        r matches Err(e) ==> (e is Validation <==> !engine::check_verdict(
            wasm@,
            policy.capabilities@,
            policy.limits,
        )),
{
    let id = display_identifier(path);
    let prefix = log_prefix(id.as_str());
    let validation = engine::vm_check_wasm(
        wasm,
        policy.capabilities.as_names(),
        &policy.limits,
        verbose,
        prefix.as_str(),
    );
    match validation {
        Err(m) => classify_outcome(Err(m), None),
        Ok(()) => {
            let compilation = engine::vm_compile(wasm);
            classify_outcome(Ok(()), Some(compilation))
        },
    }
}

} // verus!
