use loadgen::executor::{ExecutionFailure, FailureKind, ResultRecord};
use loadgen::sink::{Sink, SinkAction, TaskOutcome};

fn record(endpoint: &str, method: &str, status: u16) -> ResultRecord {
    ResultRecord {
        endpoint: endpoint.to_string(),
        request_time_us: 10,
        response_time_us: 20,
        method: method.to_string(),
        time_taken_nanos: 1_000,
        status,
    }
}

fn unsupported(endpoint: &str, method: &str) -> ExecutionFailure {
    ExecutionFailure {
        endpoint: endpoint.to_string(),
        method: method.to_string(),
        kind: FailureKind::UnsupportedMethod,
    }
}

#[test]
fn sink_asks_one_row_per_success() {
    let mut sink = Sink::new();
    let action = sink.observe(TaskOutcome::Success(record("http://a", "GET", 200)));
    match action {
        SinkAction::WriteRow(r) => {
            assert_eq!(r.endpoint, "http://a");
            assert_eq!(r.status, 200);
        }
        SinkAction::Diagnose(_) => panic!("a success must become a row"),
    }
    assert_eq!(sink.rows_count(), 1);
    assert_eq!(sink.failures_count(), 0);
}

#[test]
fn sink_turns_failures_into_diagnostics_only() {
    let mut sink = Sink::new();
    let action = sink.observe(TaskOutcome::Failure(unsupported("http://a", "PATCH")));
    match action {
        SinkAction::WriteRow(_) => panic!("a failure must not become a row"),
        SinkAction::Diagnose(f) => {
            assert_eq!(f.endpoint, "http://a");
            assert_eq!(f.method, "PATCH");
            assert!(matches!(f.kind, FailureKind::UnsupportedMethod));
        }
    }
    assert_eq!(sink.rows_count(), 0);
    assert_eq!(sink.failures_count(), 1);
}

#[test]
fn sink_goes_on_after_a_failure() {
    let mut sink = Sink::new();
    sink.observe(TaskOutcome::Failure(unsupported("http://a", "PATCH")));
    sink.observe(TaskOutcome::Success(record("http://b", "GET", 200)));
    sink.observe(TaskOutcome::Success(record("http://c", "PUT", 201)));
    assert_eq!(sink.rows_count(), 2);
    assert_eq!(sink.failures_count(), 1);
}

#[test]
fn sink_rows_follow_completion_order() {
    // The second-submitted task finishes first: its row comes first.
    let mut sink = Sink::new();
    let mut rows: Vec<ResultRecord> = Vec::new();
    for outcome in [
        TaskOutcome::Success(record("http://second", "GET", 200)),
        TaskOutcome::Success(record("http://first", "GET", 200)),
    ] {
        if let SinkAction::WriteRow(r) = sink.observe(outcome) {
            rows.push(r);
        }
    }
    assert_eq!(rows.len(), 2);
    assert_eq!(rows[0].endpoint, "http://second");
    assert_eq!(rows[1].endpoint, "http://first");
}
