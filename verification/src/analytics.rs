//! Usage analytics: session records, calibration and vocabulary metrics, per-user
//! statistics, and which stored rows each metric counts.

use vstd::prelude::*;
use crate::text::concat;

verus! {

broadcast use vstd::string::group_string_axioms;

/// Errors of analytics operations.
#[derive(Debug, Clone)]
pub enum AnalyticsError {
    /// A database error; its text.
    DatabaseError(String),
}

impl AnalyticsError {
    /// The text of the error.
    pub fn message(&self) -> (r: String)
        ensures
            *self matches AnalyticsError::DatabaseError(m) ==> r@ == "ANALYTICS_DB_ERROR -- "@ + m@,
    {
        match self {
            AnalyticsError::DatabaseError(m) => concat("ANALYTICS_DB_ERROR -- ", m.as_str()),
        }
    }
}

/// A recorded command-line session.
#[derive(Debug, Clone)]
pub struct SessionRecord {
    pub session_id: String,
    pub command: String,
    pub args_json: String,
    pub started_at: i64,
    pub ended_at: i64,
    pub duration_ms: i64,
    pub exit_code: i32,
    pub search_to_export_ms: Option<i64>,
    pub user: String,
}

/// Calibration activity: number of corrections, corrections per project (most first)
/// and the time of the latest one.
#[derive(Debug, Clone)]
pub struct CalibrationMetrics {
    pub total_corrections: usize,
    pub project_breakdown: Vec<(String, usize)>,
    pub latest_correction_at: Option<i64>,
}

/// Vocabulary growth: distinct tags, tags new in the last week, most used tags.
#[derive(Debug, Clone)]
pub struct VocabularyMetrics {
    pub total_unique_tags: usize,
    pub new_tags_last_week: usize,
    pub top_tags: Vec<(String, usize)>,
}

/// Statistics of one user's sessions.
#[derive(Debug, Clone)]
pub struct UserStats {
    pub user: String,
    pub session_count: usize,
    pub avg_duration_ms: i64,
    pub search_count: usize,
    pub last_session_at: Option<i64>,
}

/// The queries behind the calibration metrics: the count, the per-project breakdown
/// and the latest time, restricted to activities since a time when one is given.
pub fn calibration_queries(since_given: bool) -> (r: (&'static str, &'static str, &'static str))
    ensures
        since_given ==> r.0@ == "SELECT COUNT(*) FROM calibration_activities WHERE created_at >= ?1"@
            && r.1@ == "SELECT project_name, COUNT(*) as cnt FROM calibration_activities WHERE created_at >= ?1 GROUP BY project_name ORDER BY cnt DESC"@
            && r.2@ == "SELECT MAX(created_at) FROM calibration_activities WHERE created_at >= ?1"@,
        !since_given ==> r.0@ == "SELECT COUNT(*) FROM calibration_activities"@
            && r.1@ == "SELECT project_name, COUNT(*) as cnt FROM calibration_activities GROUP BY project_name ORDER BY cnt DESC"@
            && r.2@ == "SELECT MAX(created_at) FROM calibration_activities"@,
{
    if since_given {
        (
            "SELECT COUNT(*) FROM calibration_activities WHERE created_at >= ?1",
            "SELECT project_name, COUNT(*) as cnt FROM calibration_activities WHERE created_at >= ?1 GROUP BY project_name ORDER BY cnt DESC",
            "SELECT MAX(created_at) FROM calibration_activities WHERE created_at >= ?1",
        )
    } else {
        (
            "SELECT COUNT(*) FROM calibration_activities",
            "SELECT project_name, COUNT(*) as cnt FROM calibration_activities GROUP BY project_name ORDER BY cnt DESC",
            "SELECT MAX(created_at) FROM calibration_activities",
        )
    }
}

/// Counts read back from the database, as unsigned counts (`i64 as usize`).
pub open spec fn count_of(n: i64) -> usize {
    n as usize
}

/// Named counts read back from the database (a command, a project or a tag with its
/// count), the counts taken as unsigned (`i64 as usize`), in the order given.
pub fn named_counts(rows: Vec<(String, i64)>) -> (r: Vec<(String, usize)>)
    ensures
        r@.len() == rows@.len(),
        forall|i: int| 0 <= i < rows@.len() ==> (#[trigger] r@[i]).0 == rows@[i].0
            && r@[i].1 == count_of(rows@[i].1),
{
    let mut out: Vec<(String, usize)> = Vec::new();
    let ghost all = rows@;
    let mut rest = rows;
    let n = rest.len();
    let mut i: usize = 0;
    while i < n
        invariant
            n == all.len(),
            i <= n,
            rest@ == all.skip(i as int),
            out@.len() == i,
            forall|k: int| 0 <= k < i ==> (#[trigger] out@[k]).0 == all[k].0 && out@[k].1 == count_of(all[k].1),
        decreases n - i,
    {
        let (name, cnt) = rest.remove(0);
        proof {
            assert(all[i as int] == (name, cnt));
            assert(rest@ =~= all.skip(i + 1));
        }
        out.push((name, cnt as usize));
        i = i + 1;
    }
    out
}

/// The calibration metrics from what the queries returned.
pub fn calibration_metrics_from(total: i64, breakdown: Vec<(String, i64)>, latest: Option<i64>) -> (r: CalibrationMetrics)
    ensures
        r.total_corrections == count_of(total),
        r.project_breakdown@.len() == breakdown@.len(),
        forall|i: int| 0 <= i < breakdown@.len() ==> (#[trigger] r.project_breakdown@[i]).0 == breakdown@[i].0
            && r.project_breakdown@[i].1 == count_of(breakdown@[i].1),
        r.latest_correction_at == latest,
{
    CalibrationMetrics { total_corrections: total as usize, project_breakdown: named_counts(breakdown), latest_correction_at: latest }
}

/// The vocabulary metrics from what the queries returned.
pub fn vocabulary_metrics_from(total: i64, new_last_week: i64, top: Vec<(String, i64)>) -> (r: VocabularyMetrics)
    ensures
        r.total_unique_tags == count_of(total),
        r.new_tags_last_week == count_of(new_last_week),
        r.top_tags@.len() == top@.len(),
        forall|i: int| 0 <= i < top@.len() ==> (#[trigger] r.top_tags@[i]).0 == top@[i].0
            && r.top_tags@[i].1 == count_of(top@[i].1),
{
    VocabularyMetrics {
        total_unique_tags: total as usize,
        new_tags_last_week: new_last_week as usize,
        top_tags: named_counts(top),
    }
}

/// Seconds in a week.
pub const WEEK_SECS: i64 = 604800;

/// The start of the week ending at `now` (seconds since the Unix epoch).
pub fn week_before(now: i64) -> (r: i64)
    requires
        now >= i64::MIN + WEEK_SECS,
    ensures
        r == now - WEEK_SECS,
{
    now - WEEK_SECS
}

/// The statistics of a user from what the query returned; the average duration is
/// given already rounded to whole milliseconds.
pub fn user_stats_from(user: &str, session_count: i64, avg_duration_ms: i64, search_count: i64, last_session_at: Option<i64>) -> (r: UserStats)
    ensures
        r.user@ == user@,
        r.session_count == count_of(session_count),
        r.avg_duration_ms == avg_duration_ms,
        r.search_count == count_of(search_count),
        r.last_session_at == last_session_at,
{
    UserStats {
        user: String::from_str(user),
        session_count: session_count as usize,
        avg_duration_ms,
        search_count: search_count as usize,
        last_session_at,
    }
}

} // verus!
