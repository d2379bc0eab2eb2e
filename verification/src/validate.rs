//! Reporting of the colour-space round-trip validation: names of the tested paths,
//! the pass/fail summary and the process exit status.

use vstd::prelude::*;
use crate::text::{concat, decimal, push_decimal, str_eq};

verus! {

broadcast use vstd::string::group_string_axioms;

/// Human-readable name of a validation path.
pub open spec fn human_path_spec(path: Seq<char>) -> Seq<char> {
    if path == "srgb_to_oklab_roundtrip"@ {
        "sRGB"@
    } else if path == "acescct_to_oklab_roundtrip"@ {
        "ACEScct"@
    } else {
        path
    }
}

/// Human-readable name of a validation path; unknown paths are shown as they are.
pub fn human_path(path: &str) -> (r: &str)
    ensures
        r@ == human_path_spec(path@),
{
    if str_eq(path, "srgb_to_oklab_roundtrip") {
        "sRGB"
    } else if str_eq(path, "acescct_to_oklab_roundtrip") {
        "ACEScct"
    } else {
        path
    }
}

/// The heading of one path's result in the text report.
pub fn result_heading(path: &str) -> (r: String)
    ensures
        r@ == human_path_spec(path@) + " \u{2194} Oklab round-trip"@,
{
    concat(human_path(path), " \u{2194} Oklab round-trip")
}

/// The verdict shown for one path.
pub fn status_label(passed: bool) -> (r: &'static str)
    ensures
        passed ==> r@ == "\u{2713} PASS"@,
        !passed ==> r@ == "\u{2717} FAIL (threshold: 0.1)"@,
{
    if passed {
        "\u{2713} PASS"
    } else {
        "\u{2717} FAIL (threshold: 0.1)"
    }
}

/// Counts of a validation run.
#[derive(Debug, Clone, Copy, PartialEq, Eq, Structural)]
pub struct ValidationSummary {
    pub total: usize,
    pub passed: usize,
    pub failed: usize,
}

/// Number of `true` entries.
pub open spec fn count_true(s: Seq<bool>) -> nat
    decreases s.len(),
{
    if s.len() == 0 {
        0
    } else {
        count_true(s.drop_last()) + if s.last() {
            1nat
        } else {
            0nat
        }
    }
}

/// Summarise the verdicts of a run.
pub fn summarize_validation(passed: &[bool]) -> (r: ValidationSummary)
    ensures
        r.total == passed@.len(),
        r.passed == count_true(passed@),
        r.failed == passed@.len() - count_true(passed@),
{
    let mut n: usize = 0;
    let mut i: usize = 0;
    let len = passed.len();
    while i < len
        invariant
            len == passed@.len(),
            i <= len,
            n == count_true(passed@.take(i as int)),
            n <= i,
        decreases len - i,
    {
        proof {
            assert(passed@.take(i + 1).drop_last() =~= passed@.take(i as int));
        }
        if passed[i] {
            n = n + 1;
        }
        i = i + 1;
    }
    assert(passed@.take(len as int) =~= passed@);
    ValidationSummary { total: len, passed: n, failed: len - n }
}

/// Process exit status: 0 when every path passed, 1 otherwise.
pub fn validation_exit_code(s: &ValidationSummary) -> (r: i32)
    ensures
        r == (if s.failed == 0 {
            0i32
        } else {
            1i32
        }),
{
    if s.failed == 0 {
        0
    } else {
        1
    }
}

/// The summary line of the text report.
pub open spec fn validation_summary_line_spec(s: ValidationSummary) -> Seq<char> {
    if s.failed == 0 {
        "Summary: "@ + decimal(s.passed as nat) + "/"@ + decimal(s.total as nat)
            + " tests passed"@
    } else {
        "Summary: "@ + decimal(s.passed as nat) + "/"@ + decimal(s.total as nat)
            + " tests passed, "@ + decimal(s.failed as nat) + " failed"@
    }
}

/// The summary line of the text report.
pub fn validation_summary_line(s: &ValidationSummary) -> (r: String)
    ensures
        r@ == validation_summary_line_spec(*s),
{
    let mut line = String::from_str("Summary: ");
    push_decimal(&mut line, s.passed as u64);
    line.append("/");
    push_decimal(&mut line, s.total as u64);
    if s.failed == 0 {
        line.append(" tests passed");
    } else {
        line.append(" tests passed, ");
        push_decimal(&mut line, s.failed as u64);
        line.append(" failed");
    }
    line
}

/// Exactly the runs in which every path passed exit with 0.
pub proof fn lemma_exit_zero_iff_all_passed(passed: Seq<bool>)
    ensures
        (passed.len() - count_true(passed) == 0) <==> (forall|i: int|
            0 <= i < passed.len() ==> #[trigger] passed[i]),
    decreases passed.len(),
{
    if passed.len() > 0 {
        lemma_exit_zero_iff_all_passed(passed.drop_last());
        lemma_count_true_bound(passed.drop_last());
        if passed.len() - count_true(passed) == 0 {
            assert forall|i: int| 0 <= i < passed.len() implies #[trigger] passed[i] by {
                if i < passed.len() - 1 {
                    assert(passed.drop_last()[i] == passed[i]);
                }
            }
        } else {
            if passed.last() {
                let j = choose|j: int|
                    0 <= j < passed.drop_last().len() && !#[trigger] passed.drop_last()[j];
                assert(!passed[j]);
            } else {
                assert(!passed[passed.len() - 1]);
            }
        }
    }
}

proof fn lemma_count_true_bound(s: Seq<bool>)
    ensures
        count_true(s) <= s.len(),
    decreases s.len(),
{
    if s.len() > 0 {
        lemma_count_true_bound(s.drop_last());
    }
}

} // verus!
