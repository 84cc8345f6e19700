//! Aggregation and reporting of per-file outcomes.
//!
//! Each checked file yields a pass or a failure; the run summary counts the
//! two, decides the exact summary line and the process exit status: zero
//! exactly when no file failed.

use vstd::prelude::*;

verus! {

/// How many entries of an outcome sequence are passes.
pub open spec fn count_passes(outcomes: Seq<bool>) -> nat
    decreases outcomes.len(),
{
    if outcomes.len() == 0 {
        0
    } else {
        count_passes(outcomes.drop_last()) + if outcomes.last() {
            1nat
        } else {
            0nat
        }
    }
}

/// Counts of passed and failed files, accumulated over a run.
pub struct RunSummary {
    pub passes: usize,
    pub failures: usize,
}

impl RunSummary {
    /// A summary of a run before any file was checked.
    pub fn new() -> (r: RunSummary)
        ensures
            r.passes == 0,
            r.failures == 0,
    {
        RunSummary { passes: 0, failures: 0 }
    }

    /// The number of files accounted for.
    pub open spec fn total(self) -> int {
        self.passes + self.failures
    }

    /// Record the outcome of one more file.
    pub fn record(&mut self, pass: bool)
        requires
            old(self).total() < usize::MAX,
        ensures
            pass ==> final (self).passes == old(self).passes + 1 && final (self).failures == old(
                self,
            ).failures,
            !pass ==> final (self).failures == old(self).failures + 1 && final (self).passes
                == old(self).passes,
    {
        if pass {
            self.passes += 1;
        } else {
            self.failures += 1;
        }
    }
}

/// Partition a sequence of outcomes into pass and failure counts.
pub fn summarize(outcomes: &Vec<bool>) -> (r: RunSummary)
    ensures
        r.passes == count_passes(outcomes@),
        r.failures == outcomes@.len() - count_passes(outcomes@),
{
    let mut r = RunSummary::new();
    let n = outcomes.len();
    let mut i: usize = 0;
    proof {
        assert(outcomes@.take(0) =~= Seq::<bool>::empty());
    }
    while i < n
        invariant
            0 <= i <= n,
            n == outcomes@.len(),
            r.passes == count_passes(outcomes@.take(i as int)),
            r.passes + r.failures == i,
        decreases n - i,
    {
        proof {
            lemma_count_passes_bound(outcomes@.take(i as int + 1));
            assert(outcomes@.take(i as int + 1).drop_last() =~= outcomes@.take(i as int));
            assert(outcomes@.take(i as int + 1).last() == outcomes@[i as int]);
        }
        r.record(outcomes[i]);
        i += 1;
    }
    proof {
        assert(outcomes@.take(n as int) =~= outcomes@);
    }
    r
}

/// No more passes than entries.
pub proof fn lemma_count_passes_bound(outcomes: Seq<bool>)
    ensures
        count_passes(outcomes) <= outcomes.len(),
    decreases outcomes.len(),
{
    if outcomes.len() > 0 {
        lemma_count_passes_bound(outcomes.drop_last());
    }
}

/// A batch in which every file passes is summarised as exactly as many
/// passes as files and no failure.
pub proof fn lemma_all_pass(outcomes: Seq<bool>)
    requires
        forall|i: int| 0 <= i < outcomes.len() ==> outcomes[i],
    ensures
        count_passes(outcomes) == outcomes.len(),
    decreases outcomes.len(),
{
    if outcomes.len() > 0 {
        assert(outcomes.last());
        lemma_all_pass(outcomes.drop_last());
    }
}

/// The decimal digit characters, in value order.
pub open spec fn digit_char(d: nat) -> char {
    if d == 0 {
        '0'
    } else if d == 1 {
        '1'
    } else if d == 2 {
        '2'
    } else if d == 3 {
        '3'
    } else if d == 4 {
        '4'
    } else if d == 5 {
        '5'
    } else if d == 6 {
        '6'
    } else if d == 7 {
        '7'
    } else if d == 8 {
        '8'
    } else {
        '9'
    }
}

/// The decimal representation of a number, most significant digit first,
/// without leading zeros (a lone zero for zero).
pub open spec fn dec_str(n: nat) -> Seq<char>
    decreases n,
{
    if n < 10 {
        seq![digit_char(n)]
    } else {
        dec_str(n / 10) + seq![digit_char(n % 10)]
    }
}

/// The one-character string for a decimal digit.
fn digit_str(d: usize) -> (r: &'static str)
    requires
        d < 10,
    ensures
        r@ == seq![digit_char(d as nat)],
{
    let digits = "0123456789";
    proof {
        reveal_strlit("0123456789");
        assert(digits@[d as int] == digit_char(d as nat));
        assert(digits@.subrange(d as int, d as int + 1) =~= seq![digit_char(d as nat)]);
    }
    digits.substring_char(d, d + 1)
}

/// Format a number in decimal.
pub fn usize_to_string(n: usize) -> (r: String)
    ensures
        r@ == dec_str(n as nat),
    decreases n,
{
    if n < 10 {
        digit_str(n).to_owned()
    } else {
        let mut s = usize_to_string(n / 10);
        s.append(digit_str(n % 10));
        s
    }
}

/// The per-file status line printed as soon as a file's outcome is known.
pub open spec fn file_line_spec(path: Seq<char>, pass: bool) -> Seq<char> {
    if pass {
        path + ": pass"@
    } else {
        path + ": failure"@
    }
}

/// Render the status line for one file.
pub fn file_line(path: &str, pass: bool) -> (r: String)
    ensures
        r@ == file_line_spec(path@, pass),
{
    let mut r = path.to_owned();
    if pass {
        r.append(": pass");
    } else {
        r.append(": failure");
    }
    r
}

/// The summary line that closes a run: a congratulation when nothing
/// failed, otherwise the two counts.
pub open spec fn summary_line_spec(s: RunSummary) -> Seq<char> {
    if s.failures == 0 {
        "All contracts ("@ + dec_str(s.passes as nat) + ") passed checks!"@
    } else {
        "Passes: "@ + dec_str(s.passes as nat) + ", failures: "@ + dec_str(s.failures as nat)
    }
}

/// Render the summary line of a run.
pub fn summary_line(s: &RunSummary) -> (r: String)
    ensures
        r@ == summary_line_spec(*s),
{
    if s.failures == 0 {
        let mut r = "All contracts (".to_owned();
        r.append(usize_to_string(s.passes).as_str());
        r.append(") passed checks!");
        r
    } else {
        let mut r = "Passes: ".to_owned();
        r.append(usize_to_string(s.passes).as_str());
        r.append(", failures: ");
        r.append(usize_to_string(s.failures).as_str());
        r
    }
}

/// The process exit status of a run: zero exactly when no file failed,
/// one otherwise.
pub fn exit_status(summary: &RunSummary) -> (r: i32)
    ensures
        r == 0 <==> summary.failures == 0,
        r == 0 || r == 1,
{
    if summary.failures == 0 {
        0
    } else {
        1
    }
}

} // verus!
