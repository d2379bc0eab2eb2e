//! Cross-project consistency and fingerprint comparison: their errors, and the order
//! in which project pairs are compared.

use vstd::prelude::*;
use crate::text::{concat, push_signed_decimal, signed_decimal};

verus! {

broadcast use vstd::string::group_string_axioms;

/// Errors of consistency reports.
#[derive(Debug, Clone)]
pub enum ConsistencyError {
    ProjectNotFound(String),
    NoFingerprints,
    DbError(String),
}

impl ConsistencyError {
    /// The text of the error.
    pub fn message(&self) -> (r: String)
        ensures
            *self matches ConsistencyError::ProjectNotFound(n) ==> r@
                == "CONSISTENCY_PROJECT_NOT_FOUND -- project '"@ + n@ + "' not found"@,
            *self is NoFingerprints ==> r@
                == "CONSISTENCY_NO_FINGERPRINTS -- no fingerprints found in specified projects"@,
            *self matches ConsistencyError::DbError(m) ==> r@ == "CONSISTENCY_DB_ERROR -- "@ + m@,
    {
        match self {
            ConsistencyError::ProjectNotFound(n) => {
                let a = concat("CONSISTENCY_PROJECT_NOT_FOUND -- project '", n.as_str());
                concat(a.as_str(), "' not found")
            },
            ConsistencyError::NoFingerprints => String::from_str(
                "CONSISTENCY_NO_FINGERPRINTS -- no fingerprints found in specified projects",
            ),
            ConsistencyError::DbError(m) => concat("CONSISTENCY_DB_ERROR -- ", m.as_str()),
        }
    }
}

/// Check the projects of a report: at least one must be named.
pub fn check_report_projects(count: usize) -> (r: Result<(), ConsistencyError>)
    ensures
        count == 0 ==> (r matches Err(ConsistencyError::DbError(m)) && m@ == "no projects specified"@),
        count > 0 ==> r is Ok,
{
    if count == 0 {
        return Err(ConsistencyError::DbError(String::from_str("no projects specified")));
    }
    Ok(())
}

/// The first of the first `n` named projects that does not exist (`None` in
/// `counts`), if any.
pub open spec fn first_missing(counts: Seq<Option<usize>>, n: int) -> Option<int>
    decreases n,
{
    if n <= 0 {
        None
    } else {
        match first_missing(counts, n - 1) {
            Some(i) => Some(i),
            None => if counts[n - 1] is None {
                Some(n - 1)
            } else {
                None
            },
        }
    }
}

/// The indices, in order, of those of the first `n` projects that hold fingerprints.
pub open spec fn kept_projects(counts: Seq<Option<usize>>, n: int) -> Seq<int>
    decreases n,
{
    if n <= 0 {
        Seq::empty()
    } else {
        kept_projects(counts, n - 1) + (if counts[n - 1] matches Some(c) && c > 0 {
            seq![n - 1]
        } else {
            Seq::empty()
        })
    }
}

/// The projects a report covers, given for each named project how many decodable
/// fingerprints it holds (`None` when it does not exist): the first project that
/// does not exist is an error; projects without fingerprints are left out; and when
/// no project is left, there are no fingerprints to report on. Gives the indices of
/// the projects kept, in order.
pub fn select_report_projects(names: &[String], counts: &[Option<usize>]) -> (r: Result<Vec<usize>, ConsistencyError>)
    requires
        names@.len() == counts@.len(),
    ensures
        first_missing(counts@, counts@.len() as int) matches Some(i) ==> (r matches Err(
            ConsistencyError::ProjectNotFound(n)) && n@ == names@[i]@),
        first_missing(counts@, counts@.len() as int) is None && kept_projects(counts@, counts@.len() as int).len()
            == 0 ==> (r matches Err(ConsistencyError::NoFingerprints)),
        first_missing(counts@, counts@.len() as int) is None && kept_projects(counts@, counts@.len() as int).len()
            > 0 ==> (r matches Ok(v) && v@.len() == kept_projects(counts@, counts@.len() as int).len() && forall|k: int|
            0 <= k < v@.len() ==> #[trigger] v@[k] == kept_projects(counts@, counts@.len() as int)[k]),
        (exists|i: int| 0 <= i < counts@.len() && #[trigger] counts@[i] is None) ==> (r matches Err(
            ConsistencyError::ProjectNotFound(n)) && exists|i: int|
            0 <= i < counts@.len() && #[trigger] counts@[i] is None && n@ == names@[i]@ && forall|k: int|
                0 <= k < i ==> #[trigger] counts@[k] is Some),
        (forall|i: int| 0 <= i < counts@.len() ==> #[trigger] counts@[i] == Some(0usize)) ==> (r matches Err(
            ConsistencyError::NoFingerprints)),
        (forall|i: int| 0 <= i < counts@.len() ==> #[trigger] counts@[i] is Some) && (exists|i: int|
            0 <= i < counts@.len() && (#[trigger] counts@[i] matches Some(c) && c >= 1)) ==> (r matches Ok(v) && (
            forall|i: int| 0 <= i < counts@.len() ==> (v@.contains(i as usize) <==> (#[trigger] counts@[i]
                matches Some(c) && c >= 1))) && (forall|a: int, b: int| 0 <= a < b < v@.len() ==> v@[a] < v@[b])),
{
    proof {
        lemma_first_missing(counts@, counts@.len() as int);
        lemma_kept_projects(counts@, counts@.len() as int);
    }
    let mut kept: Vec<usize> = Vec::new();
    let mut i: usize = 0;
    while i < counts.len()
        invariant
            i <= counts@.len(),
            names@.len() == counts@.len(),
            first_missing(counts@, i as int) is None,
            kept@.len() == kept_projects(counts@, i as int).len(),
            forall|k: int| 0 <= k < kept@.len() ==> #[trigger] kept@[k] == kept_projects(counts@, i as int)[k],
        decreases counts@.len() - i,
    {
        match counts[i] {
            None => {
                proof {
                    assert(first_missing(counts@, i as int + 1) == Some(i as int));
                    lemma_first_missing_stays(counts@, i as int + 1, counts@.len() as int);
                    assert(counts@[i as int] is None);
                    lemma_first_missing(counts@, i as int);
                    assert(forall|k: int| 0 <= k < i ==> #[trigger] counts@[k] is Some);
                }
                return Err(ConsistencyError::ProjectNotFound(names[i].clone()));
            },
            Some(c) => {
                if c > 0 {
                    kept.push(i);
                }
            },
        }
        i = i + 1;
    }
    let ghost kp = kept_projects(counts@, counts@.len() as int);
    if kept.len() == 0 {
        return Err(ConsistencyError::NoFingerprints);
    }
    proof {
        assert(kept@[0] == kp[0]);
        if forall|i: int| 0 <= i < counts@.len() ==> #[trigger] counts@[i] == Some(0usize) {
            assert(counts@[kp[0]] == Some(0usize));
        }
        assert forall|i: int| 0 <= i < counts@.len() implies (kept@.contains(i as usize) <==> (
            #[trigger] counts@[i] matches Some(c) && c >= 1)) by {
            if counts@[i] matches Some(c) && c >= 1 {
                assert(kp.contains(i));
                let j = choose|j: int| 0 <= j < kp.len() && kp[j] == i;
                assert(kept@[j] == i as usize);
            }
            if kept@.contains(i as usize) {
                let j = choose|j: int| 0 <= j < kept@.len() && kept@[j] == i as usize;
                assert(kp[j] == i);
            }
        }
        assert forall|a: int, b: int| 0 <= a < b < kept@.len() implies kept@[a] < kept@[b] by {
            assert(kept@[a] == kp[a] && kept@[b] == kp[b]);
        }
    }
    Ok(kept)
}

/// The first missing project is missing and every project before it exists; there
/// is none exactly when every project exists.
pub proof fn lemma_first_missing(counts: Seq<Option<usize>>, n: int)
    requires
        0 <= n <= counts.len(),
    ensures
        first_missing(counts, n) is None <==> forall|k: int| 0 <= k < n ==> #[trigger] counts[k] is Some,
        first_missing(counts, n) matches Some(i) ==> 0 <= i < n && counts[i] is None && forall|k: int|
            0 <= k < i ==> #[trigger] counts[k] is Some,
    decreases n,
{
    if n > 0 {
        lemma_first_missing(counts, n - 1);
        if first_missing(counts, n - 1) is None && counts[n - 1] is Some {
            assert forall|k: int| 0 <= k < n implies #[trigger] counts[k] is Some by {
                if k < n - 1 {
                    assert(counts[k] is Some);
                }
            }
        }
    }
}

/// The kept projects are, in increasing order, exactly those holding at least one
/// fingerprint.
pub proof fn lemma_kept_projects(counts: Seq<Option<usize>>, n: int)
    requires
        0 <= n <= counts.len(),
    ensures
        forall|j: int| 0 <= j < kept_projects(counts, n).len() ==> 0 <= #[trigger] kept_projects(counts, n)[j] < n
            && (counts[kept_projects(counts, n)[j]] matches Some(c) && c >= 1),
        forall|a: int, b: int| 0 <= a < b < kept_projects(counts, n).len() ==> kept_projects(counts, n)[a]
            < kept_projects(counts, n)[b],
        forall|i: int| 0 <= i < n && (#[trigger] counts[i] matches Some(c) && c >= 1) ==> kept_projects(counts,
            n).contains(i),
    decreases n,
{
    if n > 0 {
        lemma_kept_projects(counts, n - 1);
        let prev = kept_projects(counts, n - 1);
        let cur = kept_projects(counts, n);
        if counts[n - 1] matches Some(c) && c > 0 {
            assert(cur == prev + seq![n - 1]);
            assert forall|i: int| 0 <= i < n && (#[trigger] counts[i] matches Some(c) && c >= 1) implies cur.contains(i) by {
                if i < n - 1 {
                    let j = choose|j: int| 0 <= j < prev.len() && prev[j] == i;
                    assert(cur[j] == i);
                } else {
                    assert(cur[prev.len() as int] == i);
                }
            }
        } else {
            assert(cur =~= prev);
            assert forall|i: int| 0 <= i < n && (#[trigger] counts[i] matches Some(c) && c >= 1) implies cur.contains(i) by {
                assert(i < n - 1);
            }
        }
    }
}

/// Once a missing project is found among the first `m`, it stays the first missing
/// one among more.
proof fn lemma_first_missing_stays(counts: Seq<Option<usize>>, m: int, n: int)
    requires
        0 < m <= n,
        first_missing(counts, m) is Some,
    ensures
        first_missing(counts, n) == first_missing(counts, m),
    decreases n - m,
{
    if m < n {
        lemma_first_missing_stays(counts, m, n - 1);
    }
}

/// All pairs `(i, j)` with `i < j < n`, each once, in the order the report lists
/// them: by `i`, then by `j`.
pub fn project_pairs(n: usize) -> (r: Vec<(usize, usize)>)
    requires
        n * n <= usize::MAX,
    ensures
        r@.len() == n * (n - 1) / 2,
        forall|k: int| 0 <= k < r@.len() ==> (#[trigger] r@[k]).0 < r@[k].1 && r@[k].1 < n,
        forall|a: int, b: int| 0 <= a < b < r@.len() ==> (r@[a].0 < r@[b].0 || (r@[a].0 == r@[b].0 && r@[a].1 < r@[b].1)),
{
    let mut out: Vec<(usize, usize)> = Vec::new();
    let mut i: usize = 0;
    while i < n
        invariant
            i <= n,
            n * n <= usize::MAX,
            2 * out@.len() == i * (2 * n - i - 1),
            forall|k: int| 0 <= k < out@.len() ==> (#[trigger] out@[k]).0 < out@[k].1 && out@[k].1 < n && out@[k].0 < i,
            forall|a: int, b: int| 0 <= a < b < out@.len() ==> (out@[a].0 < out@[b].0 || (out@[a].0 == out@[b].0 && out@[a].1 < out@[b].1)),
        decreases n - i,
    {
        let mut j: usize = i + 1;
        let ghost start = out@.len();
        while j < n
            invariant
                i < n,
                i + 1 <= j <= n,
                n * n <= usize::MAX,
                out@.len() == start + (j - i - 1),
                2 * start == i * (2 * n - i - 1),
                forall|k: int| 0 <= k < start ==> (#[trigger] out@[k]).0 < out@[k].1 && out@[k].1 < n && out@[k].0 < i,
                forall|k: int| start <= k < out@.len() ==> (#[trigger] out@[k]).0 == i && out@[k].1 == i + 1 + (k - start),
                forall|a: int, b: int| 0 <= a < b < out@.len() ==> (out@[a].0 < out@[b].0 || (out@[a].0 == out@[b].0 && out@[a].1 < out@[b].1)),
            decreases n - j,
        {
            out.push((i, j));
            j = j + 1;
        }
        proof {
            assert(i * (2 * n - i - 1) + 2 * (n - i - 1) == (i + 1) * (2 * n - (i + 1) - 1)) by (nonlinear_arith)
                requires i < n;
        }
        i = i + 1;
    }
    proof {
        assert(n * (2 * n - n - 1) == n * (n - 1)) by (nonlinear_arith);
        assert(out@.len() == n * (n - 1) / 2) by (nonlinear_arith)
            requires 2 * out@.len() == n * (n - 1);
    }
    out
}

/// Errors of fingerprint comparison.
#[derive(Debug, Clone)]
pub enum CompareError {
    NotFound(i64),
    DbError(String),
}

impl CompareError {
    /// The text of the error.
    pub fn message(&self) -> (r: String)
        ensures
            *self matches CompareError::NotFound(id) ==> r@ == "COMPARE_NOT_FOUND -- fingerprint "@
                + signed_decimal(id as int) + " not found"@,
            *self matches CompareError::DbError(m) ==> r@ == "COMPARE_DB_ERROR -- "@ + m@,
    {
        match self {
            CompareError::NotFound(id) => {
                let mut s = String::from_str("COMPARE_NOT_FOUND -- fingerprint ");
                push_signed_decimal(&mut s, *id);
                s.append(" not found");
                s
            },
            CompareError::DbError(m) => concat("COMPARE_DB_ERROR -- ", m.as_str()),
        }
    }
}

} // verus!
