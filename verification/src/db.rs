//! Database layout and bookkeeping: where the database lives, which schema
//! migrations are pending, which raw queries are allowed, identifiers of agent
//! sessions and branches, and the rows the listing queries return.

use vstd::prelude::*;
use crate::clock::epoch_nanos;
use crate::text::{
    concat, decimal, hex_lower, parse_i64, parse_i64_spec, push_decimal, push_hex, push_signed_decimal,
    signed_decimal, str_chars, to_uppercase, trim, unicode_trim, unicode_uppercase,
};

verus! {

broadcast use {vstd::string::group_string_axioms, vstd::seq_lib::group_to_multiset_ensures};

/// `base` joined with `rel` as `Path::join` does on Unix: an absolute `rel` replaces
/// `base`; otherwise a separator is added unless `base` is empty or already ends with one.
pub open spec fn path_join(base: Seq<char>, rel: Seq<char>) -> Seq<char> {
    if rel.len() > 0 && rel[0] == '/' {
        rel
    } else if base.len() == 0 {
        rel
    } else if base.last() == '/' {
        base + rel
    } else {
        base + seq!['/'] + rel
    }
}

/// Joins `rel` onto `base`.
pub fn join_path(base: &str, rel: &str) -> (r: String)
    ensures
        r@ == path_join(base@, rel@),
{
    let b = str_chars(base);
    let rc = str_chars(rel);
    if rc.len() > 0 && rc[0] == '/' {
        String::from_str(rel)
    } else if b.len() == 0 {
        String::from_str(rel)
    } else if b[b.len() - 1] == '/' {
        concat(base, rel)
    } else {
        let with_sep = concat(base, "/");
        let r = concat(with_sep.as_str(), rel);
        proof {
            reveal_strlit("/");
        }
        assert(r@ =~= path_join(base@, rel@));
        r
    }
}

/// The directory of the database under a home directory.
pub open spec fn db_dir_spec(home: Seq<char>) -> Seq<char> {
    path_join(home, ".mengxi/data"@)
}

/// The database file under a home directory.
pub open spec fn db_path_spec(home: Seq<char>) -> Seq<char> {
    path_join(db_dir_spec(home), "mengxi.db"@)
}

/// The user's home directory (`dirs::home_dir`, shown as text). Where it comes from
/// (the environment, the account database) is not stated.
#[verifier::external_body]
fn home_dir() -> (r: Option<String>) {
    dirs::home_dir().map(|p| p.to_string_lossy().into_owned())
}

/// The database directory under the home directory `home`: `<home>/.mengxi/data`.
pub fn db_dir_in(home: &str) -> (r: String)
    ensures
        r@ == db_dir_spec(home@),
{
    proof {
        reveal_strlit(".mengxi/data");
    }
    join_path(home, ".mengxi/data")
}

/// The database file under the home directory `home`: `<home>/.mengxi/data/mengxi.db`.
pub fn db_path_in(home: &str) -> (r: String)
    ensures
        r@ == db_path_spec(home@),
{
    let dir = db_dir_in(home);
    proof {
        reveal_strlit("mengxi.db");
    }
    join_path(dir.as_str(), "mengxi.db")
}

/// The database directory of the current user; `None` when the home directory cannot
/// be determined.
pub fn db_dir() -> (r: Option<String>)
    ensures
        r matches Some(d) ==> exists|h: Seq<char>| d@ == #[trigger] db_dir_spec(h),
{
    match home_dir() {
        Some(h) => Some(db_dir_in(h.as_str())),
        None => None,
    }
}

/// The database file of the current user; `None` when the home directory cannot be
/// determined.
pub fn db_path() -> (r: Option<String>)
    ensures
        r matches Some(p) ==> exists|h: Seq<char>| p@ == #[trigger] db_path_spec(h),
{
    match home_dir() {
        Some(h) => Some(db_path_in(h.as_str())),
        None => None,
    }
}

/// The suffix of SQL migration files.
pub open spec fn sql_suffix() -> Seq<char> {
    seq!['.', 's', 'q', 'l']
}

/// Whether `s` ends with ".sql".
pub open spec fn has_sql_suffix(s: Seq<char>) -> bool {
    s.len() >= 4 && s.subrange(s.len() - 4, s.len() as int) == sql_suffix()
}

/// `s` with every trailing ".sql" removed.
pub open spec fn trim_sql(s: Seq<char>) -> Seq<char>
    decreases s.len(),
{
    if has_sql_suffix(s) {
        trim_sql(s.subrange(0, s.len() - 4))
    } else {
        s
    }
}

/// The part of `s` before its first underscore (all of `s` when there is none).
pub open spec fn before_underscore(s: Seq<char>) -> Seq<char>
    decreases s.len(),
{
    if s.len() == 0 {
        s
    } else if s[0] == '_' {
        Seq::empty()
    } else {
        seq![s[0]] + before_underscore(s.drop_first())
    }
}

/// The message for a migration file without a numeric prefix.
pub open spec fn migration_name_error(name: Seq<char>) -> Seq<char> {
    "Migration file '"@ + name + "' does not start with a numeric prefix"@
}

/// The schema version a migration file name declares: `None` for files that are not
/// ".sql" files (they are skipped), the number before the first underscore otherwise,
/// or an error when that is not a number.
pub open spec fn migration_version_spec(name: Seq<char>) -> Result<Option<int>, Seq<char>> {
    if !has_sql_suffix(name) {
        Ok(None)
    } else {
        match parse_i64_spec(before_underscore(trim_sql(name))) {
            Some(v) => Ok(Some(v)),
            None => Err(migration_name_error(name)),
        }
    }
}

fn ends_with_sql(s: &[char], n: usize) -> (r: bool)
    requires
        n <= s@.len(),
    ensures
        r == has_sql_suffix(s@.take(n as int)),
{
    if n < 4 {
        return false;
    }
    let r = s[n - 4] == '.' && s[n - 3] == 's' && s[n - 2] == 'q' && s[n - 1] == 'l';
    proof {
        let t = s@.take(n as int);
        if r {
            assert(t.subrange(t.len() - 4, t.len() as int) =~= sql_suffix());
        } else {
            if t.subrange(t.len() - 4, t.len() as int) == sql_suffix() {
                assert(t.subrange(t.len() - 4, t.len() as int)[0] == '.');
                assert(t.subrange(t.len() - 4, t.len() as int)[1] == 's');
                assert(t.subrange(t.len() - 4, t.len() as int)[2] == 'q');
                assert(t.subrange(t.len() - 4, t.len() as int)[3] == 'l');
            }
        }
    }
    r
}

proof fn lemma_before_underscore(s: Seq<char>, k: int)
    requires
        0 <= k <= s.len(),
        forall|i: int| 0 <= i < k ==> s[i] != '_',
        k == s.len() || s[k] == '_',
    ensures
        before_underscore(s) == s.take(k),
    decreases s.len(),
{
    if s.len() > 0 && s[0] != '_' {
        lemma_before_underscore(s.drop_first(), k - 1);
        assert(seq![s[0]] + s.drop_first().take(k - 1) =~= s.take(k));
    } else if s.len() > 0 {
        assert(s.take(0) =~= Seq::<char>::empty());
    } else {
        assert(s.take(0) =~= s);
    }
}

/// The schema version a migration file name declares.
pub fn migration_version(file_name: &str) -> (r: Result<Option<i64>, String>)
    ensures
        match migration_version_spec(file_name@) {
            Ok(None) => r == Ok::<Option<i64>, String>(None),
            Ok(Some(v)) => r == Ok::<Option<i64>, String>(Some(v as i64)),
            Err(m) => (r matches Err(e) && e@ == m),
        },
{
    let cs = str_chars(file_name);
    let n = cs.len();
    assert(cs@.take(n as int) =~= cs@);
    if !ends_with_sql(cs.as_slice(), n) {
        return Ok(None);
    }
    let mut end = n;
    while ends_with_sql(cs.as_slice(), end)
        invariant
            end <= n,
            n == cs@.len(),
            trim_sql(cs@.take(end as int)) == trim_sql(cs@),
        decreases end,
    {
        proof {
            assert(cs@.take(end as int).subrange(0, end - 4) =~= cs@.take(end - 4));
        }
        end = end - 4;
    }
    let ghost stem = cs@.take(end as int);
    assert(trim_sql(stem) == stem);
    let mut k: usize = 0;
    while k < end && cs[k] != '_'
        invariant
            k <= end <= n,
            n == cs@.len(),
            forall|i: int| 0 <= i < k ==> cs@[i] != '_',
        decreases end - k,
    {
        k = k + 1;
    }
    proof {
        lemma_before_underscore(stem, k as int);
        assert(stem.take(k as int) =~= cs@.subrange(0, k as int));
    }
    let prefix = vstd::slice::slice_subrange(cs.as_slice(), 0, k);
    match parse_i64(prefix) {
        Some(v) => Ok(Some(v)),
        None => {
            let a = concat("Migration file '", file_name);
            Err(concat(a.as_str(), "' does not start with a numeric prefix"))
        },
    }
}

/// Whether migrations are ordered by version.
pub open spec fn sorted_by_version(ms: Seq<(i64, String)>) -> bool {
    forall|i: int, j: int| 0 <= i < j < ms.len() ==> ms[i].0 <= ms[j].0
}

/// Order migrations by version.
pub fn sort_migrations(migrations: Vec<(i64, String)>) -> (r: Vec<(i64, String)>)
    ensures
        sorted_by_version(r@),
        r@.to_multiset() == migrations@.to_multiset(),
{
    let ghost orig = migrations@;
    let mut rest = migrations;
    let mut out: Vec<(i64, String)> = Vec::new();
    let n = rest.len();
    let mut i: usize = 0;
    assert(orig.take(0) =~= Seq::<(i64, String)>::empty());
    while i < n
        invariant
            n == orig.len(),
            i <= n,
            rest@ == orig.skip(i as int),
            sorted_by_version(out@),
            out@.to_multiset() == orig.take(i as int).to_multiset(),
        decreases n - i,
    {
        let item = rest.remove(0);
        proof {
            assert(item == orig[i as int]);
            assert(rest@ =~= orig.skip(i + 1));
            assert(orig.take(i + 1) =~= orig.take(i as int).push(item));
        }
        let v = item.0;
        let mut p: usize = 0;
        while p < out.len() && out[p].0 <= v
            invariant
                p <= out@.len(),
                forall|k: int| 0 <= k < p ==> out@[k].0 <= v,
            decreases out@.len() - p,
        {
            p = p + 1;
        }
        let ghost before = out@;
        out.insert(p, item);
        proof {
            assert(out@ == before.insert(p as int, item));
            assert forall|a: int, b: int| 0 <= a < b < out@.len() implies out@[a].0 <= out@[b].0 by {
                if a < p && b == p {
                } else if a == p && b > p {
                    assert(before[p as int].0 > v);
                    assert(before[p as int].0 <= before[b - 1].0);
                } else if a < p && b > p {
                } else if a > p {
                    assert(before[a - 1].0 <= before[b - 1].0);
                } else {
                }
            }
        }
        i = i + 1;
    }
    assert(orig.take(n as int) =~= orig);
    out
}

/// The migrations newer than the current schema version, in order.
pub open spec fn pending_spec(current: i64, ms: Seq<(i64, String)>) -> Seq<(i64, String)>
    decreases ms.len(),
{
    if ms.len() == 0 {
        Seq::empty()
    } else if ms.last().0 > current {
        pending_spec(current, ms.drop_last()).push(ms.last())
    } else {
        pending_spec(current, ms.drop_last())
    }
}

/// The migrations newer than the current schema version, in order.
pub fn pending_migrations(current: i64, migrations: &Vec<(i64, String)>) -> (r: Vec<(i64, String)>)
    ensures
        r@ == pending_spec(current, migrations@),
{
    let mut out: Vec<(i64, String)> = Vec::new();
    let mut i: usize = 0;
    while i < migrations.len()
        invariant
            i <= migrations@.len(),
            out@ == pending_spec(current, migrations@.take(i as int)),
        decreases migrations@.len() - i,
    {
        proof {
            assert(migrations@.take(i + 1).drop_last() =~= migrations@.take(i as int));
        }
        if migrations[i].0 > current {
            let m = (migrations[i].0, migrations[i].1.clone());
            out.push(m);
        }
        i = i + 1;
    }
    assert(migrations@.take(migrations@.len() as int) =~= migrations@);
    out
}

/// The schema version after the pending migrations ran: the version of the last one,
/// or the current version when none was pending.
pub open spec fn version_after(current: i64, ms: Seq<(i64, String)>) -> i64 {
    if pending_spec(current, ms).len() == 0 {
        current
    } else {
        pending_spec(current, ms).last().0
    }
}

proof fn lemma_pending_members(current: i64, ms: Seq<(i64, String)>)
    ensures
        forall|k: int| 0 <= k < pending_spec(current, ms).len() ==> #[trigger] pending_spec(current, ms)[k].0 > current
            && ms.contains(pending_spec(current, ms)[k]),
        pending_spec(current, ms).len() == 0 ==> forall|k: int| 0 <= k < ms.len() ==> #[trigger] ms[k].0 <= current,
    decreases ms.len(),
{
    if ms.len() > 0 {
        let p = ms.drop_last();
        lemma_pending_members(current, p);
        assert forall|k: int| 0 <= k < pending_spec(current, ms).len() implies #[trigger] pending_spec(current, ms)[k].0 > current
            && ms.contains(pending_spec(current, ms)[k]) by {
            if k < pending_spec(current, p).len() {
                assert(pending_spec(current, ms)[k] == pending_spec(current, p)[k]);
                assert(pending_spec(current, p)[k].0 > current && p.contains(pending_spec(current, p)[k]));
                let j = choose|j: int| 0 <= j < p.len() && p[j] == pending_spec(current, p)[k];
                assert(ms[j] == p[j]);
            } else {
                assert(ms[ms.len() - 1] == ms.last());
            }
        }
        if pending_spec(current, ms).len() == 0 {
            assert forall|k: int| 0 <= k < ms.len() implies #[trigger] ms[k].0 <= current by {
                if k < ms.len() - 1 {
                    assert(p[k] == ms[k]);
                }
            }
        }
    }
}

/// Running the pending migrations brings the schema to a version at which nothing is
/// pending any more: a second run applies nothing.
pub proof fn lemma_second_run_applies_nothing(current: i64, ms: Seq<(i64, String)>)
    requires
        sorted_by_version(ms),
    ensures
        pending_spec(version_after(current, ms), ms).len() == 0,
{
    lemma_pending_members(current, ms);
    let v = version_after(current, ms);
    if pending_spec(current, ms).len() > 0 {
        lemma_last_is_max(current, ms);
    }
    lemma_none_above(v, ms);
}

proof fn lemma_last_is_max(current: i64, ms: Seq<(i64, String)>)
    requires
        sorted_by_version(ms),
        pending_spec(current, ms).len() > 0,
    ensures
        forall|k: int| 0 <= k < ms.len() ==> #[trigger] ms[k].0 <= version_after(current, ms),
{
    lemma_pending_members(current, ms);
    let e = pending_spec(current, ms)[0];
    assert(e.0 > current && ms.contains(e));
    let j = choose|j: int| 0 <= j < ms.len() && ms[j] == e;
    assert(ms[j].0 <= ms[ms.len() - 1].0);
    assert(ms.last().0 > current);
    assert(pending_spec(current, ms).last() == ms.last());
}

proof fn lemma_none_above(v: i64, ms: Seq<(i64, String)>)
    requires
        forall|k: int| 0 <= k < ms.len() ==> #[trigger] ms[k].0 <= v,
    ensures
        pending_spec(v, ms).len() == 0,
    decreases ms.len(),
{
    if ms.len() > 0 {
        let p = ms.drop_last();
        assert forall|k: int| 0 <= k < p.len() implies #[trigger] p[k].0 <= v by {
            assert(ms[k] == p[k]);
        }
        lemma_none_above(v, p);
        assert(ms[ms.len() - 1].0 <= v);
    }
}

/// Every pending migration is newer than the current version and comes from the list.
pub proof fn lemma_pending_are_newer(current: i64, ms: Seq<(i64, String)>)
    ensures
        forall|k: int|
            0 <= k < pending_spec(current, ms).len() ==> #[trigger] pending_spec(current, ms)[k].0
                > current && ms.contains(pending_spec(current, ms)[k]),
{
    lemma_pending_members(current, ms);
}

/// A raw query was refused because it is not a SELECT.
#[derive(Debug, Clone, Copy, PartialEq, Eq, Structural)]
pub struct NonSelectError;

impl NonSelectError {
    /// The text of the error.
    pub fn message(&self) -> (r: &'static str)
        ensures
            r@ == "DB_NON_SELECT -- only SELECT queries are allowed"@,
    {
        "DB_NON_SELECT -- only SELECT queries are allowed"
    }
}

/// Whether `l` starts with `p`.
pub open spec fn starts_with(l: Seq<char>, p: Seq<char>) -> bool {
    p.len() <= l.len() && l.take(p.len() as int) == p
}

/// The statement a raw query runs: the query trimmed, accepted only when its
/// upper-cased form starts with "SELECT".
pub fn select_statement(sql: &str) -> (r: Result<&str, NonSelectError>)
    ensures
        starts_with(unicode_uppercase(unicode_trim(sql@)), "SELECT"@) ==> (r matches Ok(t) && t@
            == unicode_trim(sql@)),
        !starts_with(unicode_uppercase(unicode_trim(sql@)), "SELECT"@) ==> r is Err,
{
    let trimmed = trim(sql);
    let upper = to_uppercase(trimmed);
    let u = str_chars(upper.as_str());
    let p = str_chars("SELECT");
    if u.len() < p.len() {
        return Err(NonSelectError);
    }
    let mut k: usize = 0;
    while k < p.len()
        invariant
            k <= p@.len() <= u@.len(),
            u@ == upper@,
            upper@ == unicode_uppercase(unicode_trim(sql@)),
            p@ == "SELECT"@,
            forall|m: int| 0 <= m < k ==> u@[m] == p@[m],
        decreases p@.len() - k,
    {
        if u[k] != p[k] {
            assert(u@.take(p@.len() as int)[k as int] != p@[k as int]);
            return Err(NonSelectError);
        }
        k = k + 1;
    }
    assert(u@.take(p@.len() as int) =~= p@);
    Ok(trimmed)
}

/// Errors of agent session, branch and message storage.
#[derive(Debug, Clone)]
pub enum DbError {
    Query(String),
    Other(String),
}

impl DbError {
    /// The text of the error.
    pub fn message(&self) -> (r: String)
        ensures
            *self matches DbError::Query(m) ==> r@ == "DB_QUERY_ERROR -- "@ + m@,
            *self matches DbError::Other(m) ==> r@ == "DB_ERROR -- "@ + m@,
    {
        match self {
            DbError::Query(m) => concat("DB_QUERY_ERROR -- ", m.as_str()),
            DbError::Other(m) => concat("DB_ERROR -- ", m.as_str()),
        }
    }
}

/// Row of the project listing.
#[derive(Debug, Clone)]
pub struct ProjectRow {
    pub id: i64,
    pub name: String,
    pub path: String,
    pub dpx_count: i64,
    pub exr_count: i64,
    pub mov_count: i64,
    pub file_count: i64,
    pub fingerprint_count: i64,
    pub created_at: i64,
}

/// Row of the file listing of a project.
#[derive(Debug, Clone)]
pub struct FileRow {
    pub id: i64,
    pub filename: String,
    pub format: String,
    pub fingerprint_count: i64,
    pub created_at: i64,
}

/// Row of the tag listing.
#[derive(Debug, Clone)]
pub struct TagRow {
    pub id: i64,
    pub tag: String,
    pub source: String,
    pub project_name: String,
    pub filename: String,
    pub created_at: i64,
}

/// Row of the LUT export history.
#[derive(Debug, Clone)]
pub struct LutRow {
    pub id: i64,
    pub title: Option<String>,
    pub format: String,
    pub grid_size: i64,
    pub output_path: String,
    pub project_name: String,
    pub created_at: i64,
}

/// A stored agent session.
#[derive(Debug, Clone)]
pub struct AgentSessionRecord {
    pub id: String,
    pub title: String,
    pub provider: Option<String>,
    pub model: Option<String>,
    pub created_at: i64,
    pub updated_at: i64,
}

/// An agent session in the session listing, with its message count.
#[derive(Debug, Clone)]
pub struct AgentSessionInfo {
    pub id: String,
    pub title: String,
    pub message_count: i64,
    pub updated_at: i64,
}

/// A branch of an agent session.
#[derive(Debug, Clone)]
pub struct BranchRecord {
    pub id: String,
    pub session_id: String,
    pub parent_branch_id: Option<String>,
    pub branch_point_seq: Option<i64>,
    pub name: String,
    pub created_at: i64,
}

/// A stored agent message.
#[derive(Debug, Clone)]
pub struct MessageRecord {
    pub seq: i64,
    pub role: String,
    pub content_json: String,
}

/// A timestamp identifier: nanoseconds since the Unix epoch in lower-case hexadecimal.
pub fn uuid_timestamp() -> (r: String)
    ensures
        exists|n: u128| r@ == #[trigger] hex_lower(n as nat),
{
    let n = epoch_nanos();
    let mut s = String::new();
    push_hex(&mut s, n);
    assert(s@ =~= hex_lower(n as nat));
    s
}

/// The identifier of a new session created at `nanos`: "sess_" and the hexadecimal time.
pub fn session_id_at(nanos: u128) -> (r: String)
    ensures
        r@ == "sess_"@ + hex_lower(nanos as nat),
{
    let mut s = String::from_str("sess_");
    push_hex(&mut s, nanos);
    s
}

/// The identifier of a new branch created at `nanos`: "br_" and the hexadecimal time.
pub fn branch_id_at(nanos: u128) -> (r: String)
    ensures
        r@ == "br_"@ + hex_lower(nanos as nat),
{
    let mut s = String::from_str("br_");
    push_hex(&mut s, nanos);
    s
}

/// The sequence number of the next message on a branch whose highest number is
/// `max_seq` (-1 for a branch without messages).
pub fn next_seq(max_seq: i64) -> (r: i64)
    requires
        max_seq < i64::MAX,
    ensures
        r == max_seq + 1,
{
    max_seq + 1
}

/// The record of a branch just created.
pub fn new_branch_record(
    id: String,
    session_id: &str,
    parent_branch_id: Option<&str>,
    branch_point_seq: i64,
    name: &str,
    created_at: i64,
) -> (r: BranchRecord)
    ensures
        r.id@ == id@,
        r.session_id@ == session_id@,
        r.parent_branch_id is Some <==> parent_branch_id is Some,
        parent_branch_id matches Some(p) ==> (r.parent_branch_id matches Some(q) && q@ == p@),
        r.branch_point_seq == Some(branch_point_seq),
        r.name@ == name@,
        r.created_at == created_at,
{
    BranchRecord {
        id,
        session_id: String::from_str(session_id),
        parent_branch_id: match parent_branch_id {
            Some(p) => Some(String::from_str(p)),
            None => None,
        },
        branch_point_seq: Some(branch_point_seq),
        name: String::from_str(name),
        created_at,
    }
}

/// A value read from a query result, other than a floating-point one.
#[derive(Debug, Clone)]
pub enum SqlCell {
    Null,
    Integer(i64),
    Text(String),
    Blob(usize),
}

/// How a query result cell is shown.
pub open spec fn cell_text(c: SqlCell) -> Seq<char> {
    match c {
        SqlCell::Null => "NULL"@,
        SqlCell::Integer(i) => signed_decimal(i as int),
        SqlCell::Text(s) => s@,
        SqlCell::Blob(n) => "<blob "@ + decimal(n as nat) + " bytes>"@,
    }
}

/// How a query result cell is shown.
pub fn render_cell(c: &SqlCell) -> (r: String)
    ensures
        r@ == cell_text(*c),
{
    match c {
        SqlCell::Null => String::from_str("NULL"),
        SqlCell::Integer(i) => {
            let mut s = String::new();
            push_signed_decimal(&mut s, *i);
            assert(s@ =~= signed_decimal(*i as int));
            s
        },
        SqlCell::Text(t) => t.clone(),
        SqlCell::Blob(n) => {
            let mut s = String::from_str("<blob ");
            push_decimal(&mut s, *n as u64);
            s.append(" bytes>");
            s
        },
    }
}

} // verus!
