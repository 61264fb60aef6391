use vstd::prelude::*;
use vstd::string::StrSliceExecFns;

use crate::requests::Task;

verus! {

/// The supported HTTP methods, as the executor classifies them.
#[derive(Clone, Copy, Debug, PartialEq, Eq, Structural)]
pub enum MethodKind {
    Get,
    Post,
    Put,
    Delete,
}

/// The characters spell GET, in any casing of each letter.
pub open spec fn is_get(m: Seq<char>) -> bool {
    m.len() == 3 && (m[0] == 'G' || m[0] == 'g') && (m[1] == 'E' || m[1] == 'e') && (m[2] == 'T'
        || m[2] == 't')
}

/// The characters spell POST, in any casing of each letter.
pub open spec fn is_post(m: Seq<char>) -> bool {
    m.len() == 4 && (m[0] == 'P' || m[0] == 'p') && (m[1] == 'O' || m[1] == 'o') && (m[2] == 'S'
        || m[2] == 's') && (m[3] == 'T' || m[3] == 't')
}

/// The characters spell PUT, in any casing of each letter.
pub open spec fn is_put(m: Seq<char>) -> bool {
    m.len() == 3 && (m[0] == 'P' || m[0] == 'p') && (m[1] == 'U' || m[1] == 'u') && (m[2] == 'T'
        || m[2] == 't')
}

/// The characters spell DELETE, in any casing of each letter.
pub open spec fn is_delete(m: Seq<char>) -> bool {
    m.len() == 6 && (m[0] == 'D' || m[0] == 'd') && (m[1] == 'E' || m[1] == 'e') && (m[2] == 'L'
        || m[2] == 'l') && (m[3] == 'E' || m[3] == 'e') && (m[4] == 'T' || m[4] == 't') && (m[5]
        == 'E' || m[5] == 'e')
}

/// How a method name is classified: one of the four supported kinds, or
/// nothing for every other name.
pub open spec fn method_kind(m: Seq<char>) -> Option<MethodKind> {
    if is_get(m) {
        Some(MethodKind::Get)
    } else if is_post(m) {
        Some(MethodKind::Post)
    } else if is_put(m) {
        Some(MethodKind::Put)
    } else if is_delete(m) {
        Some(MethodKind::Delete)
    } else {
        None
    }
}

/// The call shape of a supported method: POST and PUT send the request
/// body, GET and DELETE send none.
pub open spec fn sends_body(k: MethodKind) -> bool {
    k == MethodKind::Post || k == MethodKind::Put
}

/// Classifies a method name, comparing letters without regard to case.
pub fn classify_method(method: &str) -> (r: Option<MethodKind>)
    ensures
        r == method_kind(method@),
{
    let n = method.unicode_len();
    if n == 3 {
        let c0 = method.get_char(0);
        let c1 = method.get_char(1);
        let c2 = method.get_char(2);
        if (c0 == 'G' || c0 == 'g') && (c1 == 'E' || c1 == 'e') && (c2 == 'T' || c2 == 't') {
            Some(MethodKind::Get)
        } else if (c0 == 'P' || c0 == 'p') && (c1 == 'U' || c1 == 'u') && (c2 == 'T' || c2 == 't') {
            Some(MethodKind::Put)
        } else {
            None
        }
    } else if n == 4 {
        let c0 = method.get_char(0);
        let c1 = method.get_char(1);
        let c2 = method.get_char(2);
        let c3 = method.get_char(3);
        if (c0 == 'P' || c0 == 'p') && (c1 == 'O' || c1 == 'o') && (c2 == 'S' || c2 == 's') && (c3
            == 'T' || c3 == 't') {
            Some(MethodKind::Post)
        } else {
            None
        }
    } else if n == 6 {
        let c0 = method.get_char(0);
        let c1 = method.get_char(1);
        let c2 = method.get_char(2);
        let c3 = method.get_char(3);
        let c4 = method.get_char(4);
        let c5 = method.get_char(5);
        if (c0 == 'D' || c0 == 'd') && (c1 == 'E' || c1 == 'e') && (c2 == 'L' || c2 == 'l') && (c3
            == 'E' || c3 == 'e') && (c4 == 'T' || c4 == 't') && (c5 == 'E' || c5 == 'e') {
            Some(MethodKind::Delete)
        } else {
            None
        }
    } else {
        None
    }
}

/// Why a task failed without producing a result row.
#[derive(Debug)]
pub enum FailureKind {
    /// The method is none of GET, POST, PUT or DELETE; no call was
    /// attempted.
    UnsupportedMethod,
    /// The transport reported a fault (connection, timeout, protocol); the
    /// description is carried for the diagnostic.
    Transport(String),
}

/// The mathematical content of a failure kind.
pub enum FailureKindView {
    UnsupportedMethod,
    Transport(Seq<char>),
}

impl View for FailureKind {
    type V = FailureKindView;

    open spec fn view(&self) -> FailureKindView {
        match self {
            FailureKind::UnsupportedMethod => FailureKindView::UnsupportedMethod,
            FailureKind::Transport(s) => FailureKindView::Transport(s@),
        }
    }
}

/// A task that could not complete: the task context and why. It is
/// reported, never persisted as an output row.
#[derive(Debug)]
pub struct ExecutionFailure {
    pub endpoint: String,
    pub method: String,
    pub kind: FailureKind,
}

/// The mathematical content of an execution failure.
pub struct ExecutionFailureView {
    pub endpoint: Seq<char>,
    pub method: Seq<char>,
    pub kind: FailureKindView,
}

impl View for ExecutionFailure {
    type V = ExecutionFailureView;

    open spec fn view(&self) -> ExecutionFailureView {
        ExecutionFailureView { endpoint: self.endpoint@, method: self.method@, kind: self.kind@ }
    }
}

/// One row of the output: the task's endpoint and method as supplied,
/// wall-clock timestamps around the call in microseconds since the Unix
/// epoch, the monotonic elapsed time of the call in nanoseconds, and the
/// HTTP status of the response — whatever that status was.
#[derive(Debug)]
pub struct ResultRecord {
    pub endpoint: String,
    pub request_time_us: i64,
    pub response_time_us: i64,
    pub method: String,
    pub time_taken_nanos: u64,
    pub status: u16,
}

/// The mathematical content of a result record.
pub struct ResultRecordView {
    pub endpoint: Seq<char>,
    pub request_time_us: int,
    pub response_time_us: int,
    pub method: Seq<char>,
    pub time_taken_nanos: int,
    pub status: int,
}

impl ResultRecordView {
    /// A record never runs backwards: the response timestamp is no earlier
    /// than the request timestamp, and the elapsed time is not negative.
    pub open spec fn wf(self) -> bool {
        self.response_time_us >= self.request_time_us && self.time_taken_nanos >= 0
    }
}

impl View for ResultRecord {
    type V = ResultRecordView;

    open spec fn view(&self) -> ResultRecordView {
        ResultRecordView {
            endpoint: self.endpoint@,
            request_time_us: self.request_time_us as int,
            response_time_us: self.response_time_us as int,
            method: self.method@,
            time_taken_nanos: self.time_taken_nanos as int,
            status: self.status as int,
        }
    }
}

/// A task whose method was classified as supported, opened for execution:
/// the task's fields, the classified kind, and the request timestamp.
#[derive(Debug)]
pub struct PendingRequest {
    pub endpoint: String,
    pub method: String,
    pub body: String,
    pub kind: MethodKind,
    pub request_time_us: i64,
}

/// Relies on chrono's `Utc::now`, read as microseconds since the Unix
/// epoch via `DateTime::timestamp_micros`; the value depends on the system
/// clock, so nothing is promised of it.
#[verifier::external_body]
fn utc_now_micros() -> i64 {
    chrono::Utc::now().timestamp_micros()
}

/// Opens the execution of one task. A supported method yields a pending
/// request carrying the task's fields, its classified kind and a wall-clock
/// request timestamp; every other method fails here, before any call is
/// attempted.
pub fn begin_request(task: &Task) -> (r: Result<PendingRequest, ExecutionFailure>)
    ensures
        r is Ok <==> method_kind(task.method@) is Some,
        r matches Ok(p) ==> {
            &&& p.endpoint@ == task.endpoint@
            &&& p.method@ == task.method@
            &&& p.body@ == task.body@
            &&& method_kind(task.method@) == Some(p.kind)
        },
        r matches Err(f) ==> f@ == (ExecutionFailureView {
            endpoint: task.endpoint@,
            method: task.method@,
            kind: FailureKindView::UnsupportedMethod,
        }),
{
    match classify_method(task.method.as_str()) {
        Some(kind) => Ok(
            PendingRequest {
                endpoint: task.endpoint.clone(),
                method: task.method.clone(),
                body: task.body.clone(),
                kind,
                request_time_us: utc_now_micros(),
            },
        ),
        None => Err(
            ExecutionFailure {
                endpoint: task.endpoint.clone(),
                method: task.method.clone(),
                kind: FailureKind::UnsupportedMethod,
            },
        ),
    }
}

/// The body the call sends: the pending request's body for POST and PUT,
/// none for GET and DELETE.
pub fn body_to_send(p: &PendingRequest) -> (r: Option<&String>)
    ensures
        r is Some <==> sends_body(p.kind),
        r matches Some(b) ==> b@ == p.body@,
{
    match p.kind {
        MethodKind::Post => Some(&p.body),
        MethodKind::Put => Some(&p.body),
        _ => None,
    }
}

/// Closes a successful execution: the wall clock is read again for the
/// response timestamp — never placed before the request timestamp, so a
/// clock adjustment during the call cannot yield a backwards row — and the
/// record carries the task's endpoint and method as supplied, the measured
/// elapsed nanoseconds, and the response's status code, whatever it was.
pub fn complete_request(p: &PendingRequest, elapsed_nanos: u64, status: u16) -> (r: ResultRecord)
    ensures
        r@.endpoint == p.endpoint@,
        r@.method == p.method@,
        r@.request_time_us == p.request_time_us,
        r@.time_taken_nanos == elapsed_nanos,
        r@.status == status,
        r@.wf(),
{
    let now = utc_now_micros();
    let response_time_us = if now < p.request_time_us {
        p.request_time_us
    } else {
        now
    };
    ResultRecord {
        endpoint: p.endpoint.clone(),
        request_time_us: p.request_time_us,
        response_time_us,
        method: p.method.clone(),
        time_taken_nanos: elapsed_nanos,
        status,
    }
}

/// A transport-level failure for a pending request: the fault description
/// reported by the HTTP client, carried with the task context.
pub fn transport_failure(p: &PendingRequest, detail: String) -> (r: ExecutionFailure)
    ensures
        r@ == (ExecutionFailureView {
            endpoint: p.endpoint@,
            method: p.method@,
            kind: FailureKindView::Transport(detail@),
        }),
{
    ExecutionFailure {
        endpoint: p.endpoint.clone(),
        method: p.method.clone(),
        kind: FailureKind::Transport(detail),
    }
}

} // verus!
