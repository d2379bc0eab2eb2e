//! Protocol and lifecycle decisions of the Python AI subprocess bridge.
//!
//! Requests are JSON lines written to the subprocess; responses are JSON lines
//! read back. The subprocess is started on first use, replaced when it died or sat
//! idle too long, dropped on an inference timeout, and a request that found it
//! crashed is retried once on a fresh one.

use vstd::prelude::*;
use crate::clock::epoch_nanos;
use crate::text::{concat, decimal, hex_lower, push_decimal, push_hex, str_eq};

verus! {

broadcast use vstd::string::group_string_axioms;

/// Errors of AI subprocess operations.
#[derive(Debug, Clone)]
pub enum AiError {
    SubprocessNotFound(String),
    SubprocessCrashed(String),
    Timeout(String),
    ProtocolError(String),
    InferenceError(String),
    ModelNotFound(String),
}

/// The text of an error: its code, " -- " and its message.
pub open spec fn ai_error_text(e: AiError) -> Seq<char> {
    match e {
        AiError::SubprocessNotFound(m) => "AI_SUBPROCESS_NOT_FOUND -- "@ + m@,
        AiError::SubprocessCrashed(m) => "AI_SUBPROCESS_CRASHED -- "@ + m@,
        AiError::Timeout(m) => "AI_TIMEOUT -- "@ + m@,
        AiError::ProtocolError(m) => "AI_PROTOCOL_ERROR -- "@ + m@,
        AiError::InferenceError(m) => "AI_INFERENCE_ERROR -- "@ + m@,
        AiError::ModelNotFound(m) => "AI_MODEL_NOT_FOUND -- "@ + m@,
    }
}

impl AiError {
    /// The text of the error.
    pub fn message(&self) -> (r: String)
        ensures
            r@ == ai_error_text(*self),
    {
        match self {
            AiError::SubprocessNotFound(m) => concat("AI_SUBPROCESS_NOT_FOUND -- ", m.as_str()),
            AiError::SubprocessCrashed(m) => concat("AI_SUBPROCESS_CRASHED -- ", m.as_str()),
            AiError::Timeout(m) => concat("AI_TIMEOUT -- ", m.as_str()),
            AiError::ProtocolError(m) => concat("AI_PROTOCOL_ERROR -- ", m.as_str()),
            AiError::InferenceError(m) => concat("AI_INFERENCE_ERROR -- ", m.as_str()),
            AiError::ModelNotFound(m) => concat("AI_MODEL_NOT_FOUND -- ", m.as_str()),
        }
    }
}

/// Map an error code reported by the Python side to an error: missing files and
/// models, invalid parameters, inference failures and timeouts get their own kind, with
/// the message as it is; any other code is an inference error "code: message".
pub fn map_python_error(code: &str, message: &str) -> (r: AiError)
    ensures
        mapped_as(code@, message@, r),
        (code@ == "FILE_NOT_FOUND"@ || code@ == "AI_MODEL_NOT_FOUND"@) ==> (r matches AiError::ModelNotFound(m)
            && m@ == message@),
        code@ == "INVALID_PARAMS"@ ==> (r matches AiError::ProtocolError(m) && m@ == message@),
        (code@ == "INFERENCE_ERROR"@ || code@ == "AI_INFERENCE_ERROR"@) ==> (r matches AiError::InferenceError(m)
            && m@ == message@),
        code@ == "TIMEOUT"@ ==> (r matches AiError::Timeout(m) && m@ == message@),
        !(code@ == "FILE_NOT_FOUND"@ || code@ == "AI_MODEL_NOT_FOUND"@ || code@ == "INVALID_PARAMS"@ || code@
            == "INFERENCE_ERROR"@ || code@ == "AI_INFERENCE_ERROR"@ || code@ == "TIMEOUT"@) ==> (r matches AiError::InferenceError(m)
            && m@ == code@ + ": "@ + message@),
{
    proof {
        reveal_strlit("FILE_NOT_FOUND");
        reveal_strlit("AI_MODEL_NOT_FOUND");
        reveal_strlit("INVALID_PARAMS");
        reveal_strlit("INFERENCE_ERROR");
        reveal_strlit("AI_INFERENCE_ERROR");
        reveal_strlit("TIMEOUT");
        assert("FILE_NOT_FOUND"@.len() != "AI_MODEL_NOT_FOUND"@.len());
        assert("FILE_NOT_FOUND"@[0] != "INVALID_PARAMS"@[0]);
        assert("FILE_NOT_FOUND"@.len() != "INFERENCE_ERROR"@.len());
        assert("FILE_NOT_FOUND"@.len() != "AI_INFERENCE_ERROR"@.len());
        assert("FILE_NOT_FOUND"@.len() != "TIMEOUT"@.len());
        assert("AI_MODEL_NOT_FOUND"@.len() != "INVALID_PARAMS"@.len());
        assert("AI_MODEL_NOT_FOUND"@.len() != "INFERENCE_ERROR"@.len());
        assert("AI_MODEL_NOT_FOUND"@[3] != "AI_INFERENCE_ERROR"@[3]);
        assert("AI_MODEL_NOT_FOUND"@.len() != "TIMEOUT"@.len());
        assert("INVALID_PARAMS"@.len() != "INFERENCE_ERROR"@.len());
        assert("INVALID_PARAMS"@.len() != "AI_INFERENCE_ERROR"@.len());
        assert("INVALID_PARAMS"@.len() != "TIMEOUT"@.len());
        assert("INFERENCE_ERROR"@.len() != "AI_INFERENCE_ERROR"@.len());
        assert("INFERENCE_ERROR"@.len() != "TIMEOUT"@.len());
        assert("AI_INFERENCE_ERROR"@.len() != "TIMEOUT"@.len());
    }
    if str_eq(code, "FILE_NOT_FOUND") || str_eq(code, "AI_MODEL_NOT_FOUND") {
        AiError::ModelNotFound(String::from_str(message))
    } else if str_eq(code, "INVALID_PARAMS") {
        AiError::ProtocolError(String::from_str(message))
    } else if str_eq(code, "INFERENCE_ERROR") || str_eq(code, "AI_INFERENCE_ERROR") {
        AiError::InferenceError(String::from_str(message))
    } else if str_eq(code, "TIMEOUT") {
        AiError::Timeout(String::from_str(message))
    } else {
        let a = concat(code, ": ");
        AiError::InferenceError(concat(a.as_str(), message))
    }
}

/// A request id: the nanoseconds since the Unix epoch in lower-case hexadecimal.
pub fn request_id_from_nanos(nanos: u128) -> (r: String)
    ensures
        r@ == hex_lower(nanos as nat),
{
    let mut s = String::new();
    push_hex(&mut s, nanos);
    assert(s@ =~= hex_lower(nanos as nat));
    s
}

/// A fresh request id from the clock: the time since the Unix epoch in nanoseconds,
/// in lower-case hexadecimal.
pub fn uuid_simple() -> (r: String)
    ensures
        exists|n: u128| r@ == #[trigger] hex_lower(n as nat),
{
    let n = epoch_nanos();
    request_id_from_nanos(n)
}

/// Pick the Python interpreter: `python3` when it runs, else `python`.
pub fn find_python(python3_runs: bool, python_runs: bool) -> (r: Result<&'static str, AiError>)
    ensures
        python3_runs ==> (r matches Ok(p) && p@ == "python3"@),
        !python3_runs && python_runs ==> (r matches Ok(p) && p@ == "python"@),
        !python3_runs && !python_runs ==> (r matches Err(AiError::SubprocessNotFound(m))
            && m@ == "Python not found. Please install Python 3.x."@),
{
    if python3_runs {
        Ok("python3")
    } else if python_runs {
        Ok("python")
    } else {
        Err(AiError::SubprocessNotFound(String::from_str("Python not found. Please install Python 3.x.")))
    }
}

/// Why starting the subprocess failed.
#[derive(Debug, Clone)]
pub enum SpawnFailure {
    /// The interpreter could not be launched; the reason.
    Launch(String),
    /// The child has no standard input pipe.
    NoStdin,
    /// The child has no standard output pipe.
    NoStdout,
}

/// The error for a failed start of the interpreter `python`.
pub fn spawn_error(python: &str, failure: SpawnFailure) -> (r: AiError)
    ensures
        failure matches SpawnFailure::Launch(reason) ==> (r matches AiError::SubprocessNotFound(m)
            && m@ == "Failed to spawn Python subprocess '"@ + python@ + "': "@ + reason@
            + ". Is Python installed?"@),
        failure is NoStdin ==> (r matches AiError::SubprocessCrashed(m)
            && m@ == "Failed to open subprocess stdin"@),
        failure is NoStdout ==> (r matches AiError::SubprocessCrashed(m)
            && m@ == "Failed to open subprocess stdout"@),
{
    match failure {
        SpawnFailure::Launch(reason) => {
            let a = concat("Failed to spawn Python subprocess '", python);
            let b = concat(a.as_str(), "': ");
            let c = concat(b.as_str(), reason.as_str());
            AiError::SubprocessNotFound(concat(c.as_str(), ". Is Python installed?"))
        },
        SpawnFailure::NoStdin => AiError::SubprocessCrashed(
            String::from_str("Failed to open subprocess stdin"),
        ),
        SpawnFailure::NoStdout => AiError::SubprocessCrashed(
            String::from_str("Failed to open subprocess stdout"),
        ),
    }
}

/// Whether an idle time of `secs` seconds and `nanos` nanoseconds exceeds a timeout of
/// `timeout_secs` seconds.
pub open spec fn idle_expired(secs: u64, nanos: u32, timeout_secs: u64) -> bool {
    secs > timeout_secs || (secs == timeout_secs && nanos > 0)
}

/// Whether a fresh subprocess must be started before a request: when there is none,
/// when it exited, or when it sat idle longer than the idle timeout (any current one is
/// then dropped).
pub fn must_spawn(
    has_process: bool,
    alive: bool,
    idle_secs: u64,
    idle_nanos: u32,
    idle_timeout_secs: u64,
) -> (r: bool)
    ensures
        r == (!has_process || !alive || idle_expired(idle_secs, idle_nanos, idle_timeout_secs)),
{
    if !has_process {
        true
    } else if !alive {
        true
    } else {
        idle_secs > idle_timeout_secs || (idle_secs == idle_timeout_secs && idle_nanos > 0)
    }
}

/// How exchanging one request with the subprocess failed.
#[derive(Debug, Clone)]
pub enum ExchangeFailure {
    /// The subprocess has no input pipe.
    NoStdin,
    /// Writing the request failed; the reason.
    WriteFailed(String),
    /// Flushing the request failed; the reason.
    FlushFailed(String),
    /// No response arrived in time.
    TimedOut,
    /// The reader of the response stream stopped.
    Disconnected,
    /// The response line is not JSON; the reason.
    BadJson(String),
}

/// The error reported for a failed exchange, given the inference timeout.
pub open spec fn exchange_error_text(f: ExchangeFailure, timeout_secs: u64) -> Seq<char> {
    match f {
        ExchangeFailure::NoStdin => "stdin not available"@,
        ExchangeFailure::WriteFailed(e) => "Broken pipe: "@ + e@,
        ExchangeFailure::FlushFailed(e) => "Flush failed: "@ + e@,
        ExchangeFailure::TimedOut => "AI inference timed out after "@ + decimal(timeout_secs as nat)
            + "s"@,
        ExchangeFailure::Disconnected => "Reader thread disconnected: subprocess likely crashed"@,
        ExchangeFailure::BadJson(e) => "Invalid JSON from subprocess: "@ + e@,
    }
}

/// The error reported for a failed exchange, and whether the subprocess is dropped
/// (on a timeout, so that no partial result is ever returned).
pub fn exchange_error(f: ExchangeFailure, timeout_secs: u64) -> (r: (AiError, bool))
    ensures
        r.1 == (f is TimedOut),
        f is TimedOut ==> (r.0 matches AiError::Timeout(m) && m@ == exchange_error_text(f, timeout_secs)),
        f is BadJson ==> (r.0 matches AiError::ProtocolError(m) && m@ == exchange_error_text(f, timeout_secs)),
        !(f is TimedOut) && !(f is BadJson) ==> (r.0 matches AiError::SubprocessCrashed(m)
            && m@ == exchange_error_text(f, timeout_secs)),
{
    let ghost g = f;
    match f {
        ExchangeFailure::NoStdin => (
            AiError::SubprocessCrashed(String::from_str("stdin not available")),
            false,
        ),
        ExchangeFailure::WriteFailed(e) => (
            AiError::SubprocessCrashed(concat("Broken pipe: ", e.as_str())),
            false,
        ),
        ExchangeFailure::FlushFailed(e) => (
            AiError::SubprocessCrashed(concat("Flush failed: ", e.as_str())),
            false,
        ),
        ExchangeFailure::TimedOut => {
            let mut m = String::from_str("AI inference timed out after ");
            push_decimal(&mut m, timeout_secs);
            m.append("s");
            (AiError::Timeout(m), true)
        },
        ExchangeFailure::Disconnected => (
            AiError::SubprocessCrashed(
                String::from_str("Reader thread disconnected: subprocess likely crashed"),
            ),
            false,
        ),
        ExchangeFailure::BadJson(e) => (
            AiError::ProtocolError(concat("Invalid JSON from subprocess: ", e.as_str())),
            false,
        ),
    }
}

/// Whether a failed request is retried once on a fresh subprocess: exactly when the
/// subprocess crashed.
pub fn retries_after(e: &AiError) -> (r: bool)
    ensures
        r == (*e is SubprocessCrashed),
{
    match e {
        AiError::SubprocessCrashed(_) => true,
        _ => false,
    }
}

/// The error when starting a fresh subprocess after a crash failed.
pub fn recovery_error(spawn_err: &AiError) -> (r: AiError)
    ensures
        r matches AiError::SubprocessCrashed(m) && m@ == "Crash recovery failed: "@ + ai_error_text(
            *spawn_err,
        ),
{
    let t = spawn_err.message();
    AiError::SubprocessCrashed(concat("Crash recovery failed: ", t.as_str()))
}

/// One entry of the `result.tags` array of a response.
#[derive(Debug, Clone)]
pub enum TagItem {
    /// A JSON string.
    Text(String),
    /// Any other JSON value, as JSON text.
    Other(String),
}

/// What the bridge reads of a response object.
#[derive(Debug, Clone)]
pub struct AiResponse {
    /// `status`, when it is a string.
    pub status: Option<String>,
    /// `error.code`, when it is a string.
    pub error_code: Option<String>,
    /// `error.message`, when it is a string.
    pub error_message: Option<String>,
    /// `result.tags`, when it is an array.
    pub tags: Option<Vec<TagItem>>,
}

/// Whether an optional string holds exactly `t`.
pub open spec fn opt_is(o: Option<String>, t: Seq<char>) -> bool {
    o matches Some(s) && s@ == t
}

/// The characters of an optional string, or a default.
pub open spec fn opt_or(o: Option<String>, d: Seq<char>) -> Seq<char> {
    match o {
        Some(s) => s@,
        None => d,
    }
}

fn opt_str_eq(o: &Option<String>, t: &str) -> (r: bool)
    ensures
        r == opt_is(*o, t@),
{
    match o {
        Some(s) => str_eq(s.as_str(), t),
        None => false,
    }
}

/// The error a response reports, when its status is "error": the error code (or
/// "UNKNOWN") and message (or "Unknown error") mapped by `map_python_error`.
pub fn response_error(resp: &AiResponse) -> (r: Option<AiError>)
    ensures
        !opt_is(resp.status, "error"@) ==> r is None,
        opt_is(resp.status, "error"@) ==> (r matches Some(e) && mapped_as(
            opt_or(resp.error_code, "UNKNOWN"@),
            opt_or(resp.error_message, "Unknown error"@),
            e,
        )),
{
    if opt_str_eq(&resp.status, "error") {
        let code: &str = match &resp.error_code {
            Some(c) => c.as_str(),
            None => "UNKNOWN",
        };
        let message: &str = match &resp.error_message {
            Some(m) => m.as_str(),
            None => "Unknown error",
        };
        Some(map_python_error(code, message))
    } else {
        None
    }
}

/// The relation `map_python_error` establishes between its arguments and result.
pub open spec fn mapped_as(code: Seq<char>, message: Seq<char>, e: AiError) -> bool {
    if code == "FILE_NOT_FOUND"@ || code == "AI_MODEL_NOT_FOUND"@ {
        e matches AiError::ModelNotFound(m) && m@ == message
    } else if code == "INVALID_PARAMS"@ {
        e matches AiError::ProtocolError(m) && m@ == message
    } else if code == "INFERENCE_ERROR"@ || code == "AI_INFERENCE_ERROR"@ {
        e matches AiError::InferenceError(m) && m@ == message
    } else if code == "TIMEOUT"@ {
        e matches AiError::Timeout(m) && m@ == message
    } else {
        e matches AiError::InferenceError(m) && m@ == code + ": "@ + message
    }
}

/// Index of the first entry that is not a string, if any.
pub open spec fn first_non_text(items: Seq<TagItem>) -> Option<int>
    decreases items.len(),
{
    if items.len() == 0 {
        None
    } else {
        match first_non_text(items.drop_last()) {
            Some(i) => Some(i),
            None => if items.last() is Other {
                Some(items.len() - 1)
            } else {
                None
            },
        }
    }
}

/// Views of a string sequence.
pub open spec fn strings_of(v: Seq<String>) -> Seq<Seq<char>> {
    v.map_values(|s: String| s@)
}

/// The texts of the entries.
pub open spec fn tag_texts(items: Seq<TagItem>) -> Seq<Seq<char>> {
    items.map_values(
        |t: TagItem|
            match t {
                TagItem::Text(s) => s@,
                TagItem::Other(s) => s@,
            },
    )
}

proof fn lemma_first_non_text(items: Seq<TagItem>)
    ensures
        first_non_text(items) matches Some(i) ==> 0 <= i < items.len() && items[i] is Other
            && forall|k: int| 0 <= k < i ==> items[k] is Text,
        first_non_text(items) is None ==> forall|k: int| 0 <= k < items.len() ==> items[k] is Text,
    decreases items.len(),
{
    if items.len() > 0 {
        lemma_first_non_text(items.drop_last());
        assert forall|k: int| 0 <= k < items.len() - 1 implies items.drop_last()[k] == items[k] by {}
    }
}

/// The tags of a response: the reported error when its status is "error"; otherwise
/// the strings of `result.tags`, which must be an array of strings, not empty.
pub fn tags_from_response(resp: &AiResponse) -> (r: Result<Vec<String>, AiError>)
    ensures
        opt_is(resp.status, "error"@) ==> (r matches Err(e) && mapped_as(
            opt_or(resp.error_code, "UNKNOWN"@),
            opt_or(resp.error_message, "Unknown error"@),
            e,
        )),
        !opt_is(resp.status, "error"@) ==> (match resp.tags {
            None => (r matches Err(AiError::ProtocolError(m))
                && m@ == "Response missing 'result.tags' array"@),
            Some(items) => match first_non_text(items@) {
                Some(i) => (r matches Err(AiError::ProtocolError(m))
                    && m@ == "Tag contains non-string value: "@ + tag_texts(items@)[i]),
                None => if items@.len() == 0 {
                    (r matches Err(AiError::InferenceError(m)) && m@ == "No tags generated for image"@)
                } else {
                    (r matches Ok(v) && strings_of(v@) == tag_texts(items@))
                },
            },
        }),
{
    match response_error(resp) {
        Some(e) => {
            return Err(e);
        },
        None => {},
    }
    let items = match &resp.tags {
        Some(items) => items,
        None => {
            return Err(AiError::ProtocolError(String::from_str("Response missing 'result.tags' array")));
        },
    };
    proof {
        lemma_first_non_text(items@);
    }
    let mut out: Vec<String> = Vec::new();
    let mut i: usize = 0;
    while i < items.len()
        invariant
            i <= items@.len(),
            !opt_is(resp.status, "error"@),
            resp.tags == Some(*items),
            forall|k: int| 0 <= k < i ==> items@[k] is Text,
            strings_of(out@) == tag_texts(items@).take(i as int),
        decreases items@.len() - i,
    {
        match &items[i] {
            TagItem::Text(s) => {
                assert(tag_texts(items@)[i as int] == s@);
                let ghost before = strings_of(out@);
                out.push(s.clone());
                proof {
                    assert(strings_of(out@) =~= before.push(s@));
                    assert(tag_texts(items@).take(i + 1) =~= tag_texts(items@).take(i as int).push(
                        tag_texts(items@)[i as int],
                    ));
                    assert(strings_of(out@) =~= tag_texts(items@).take(i + 1));
                }
            },
            TagItem::Other(v) => {
                proof {
                    lemma_first_non_text(items@);
                    assert(first_non_text(items@) == Some(i as int)) by {
                        lemma_first_non_text_unique(items@, i as int);
                    }
                }
                return Err(AiError::ProtocolError(concat("Tag contains non-string value: ", v.as_str())));
            },
        }
        i = i + 1;
    }
    if out.len() == 0 {
        return Err(AiError::InferenceError(String::from_str("No tags generated for image")));
    }
    assert(tag_texts(items@).take(items@.len() as int) =~= tag_texts(items@));
    Ok(out)
}

proof fn lemma_first_non_text_unique(items: Seq<TagItem>, i: int)
    requires
        0 <= i < items.len(),
        items[i] is Other,
        forall|k: int| 0 <= k < i ==> items[k] is Text,
    ensures
        first_non_text(items) == Some(i),
    decreases items.len(),
{
    if i < items.len() - 1 {
        lemma_first_non_text_unique(items.drop_last(), i);
    } else {
        lemma_first_non_text(items.drop_last());
        if first_non_text(items.drop_last()) is Some {
            let j = first_non_text(items.drop_last())->0;
            assert(items.drop_last()[j] is Other);
            assert(items[j] is Other);
        }
    }
}

/// Whether a liveness response reports status "ok".
pub fn ping_ok(resp: &AiResponse) -> (r: bool)
    ensures
        r == opt_is(resp.status, "ok"@),
{
    opt_str_eq(&resp.status, "ok")
}

/// Whether tag generation sends the personalised vocabulary along: only when it is
/// not empty; otherwise the plain tag request is sent.
pub fn candidate_tags(personalized: &[String]) -> (r: Option<&[String]>)
    ensures
        personalized@.len() == 0 ==> r is None,
        personalized@.len() > 0 ==> r == Some(personalized),
{
    if personalized.len() == 0 {
        None
    } else {
        Some(personalized)
    }
}

} // verus!
