use loadgen::dispatch::Dispatcher;
use loadgen::requests::{total_tasks, RequestSpec, Task};

fn spec(endpoint: &str, method: &str, body: &str, repetition: usize) -> RequestSpec {
    RequestSpec {
        endpoint: endpoint.to_string(),
        method: method.to_string(),
        body: body.to_string(),
        repetition,
    }
}

#[test]
fn total_tasks_sums_repetitions() {
    let specs = vec![
        spec("http://a", "GET", "", 3),
        spec("http://b", "POST", "x", 0),
        spec("http://c", "PUT", "y", 2),
    ];
    assert_eq!(total_tasks(&specs), Some(5));
}

#[test]
fn total_tasks_empty_input() {
    let specs: Vec<RequestSpec> = Vec::new();
    assert_eq!(total_tasks(&specs), Some(0));
}

#[test]
fn total_tasks_overflow_is_reported() {
    let specs = vec![spec("http://a", "GET", "", usize::MAX), spec("http://b", "GET", "", 1)];
    assert_eq!(total_tasks(&specs), None);
}

#[test]
fn dispatcher_emits_every_repetition() {
    let specs = vec![spec("http://a", "GET", "", 2), spec("http://b", "POST", "x", 1)];
    let mut d = Dispatcher::new(specs, 10);
    let mut started: Vec<Task> = Vec::new();
    while let Some(t) = d.try_start() {
        started.push(t);
    }
    assert_eq!(started.len(), 3);
    assert_eq!(started[0].endpoint, "http://a");
    assert_eq!(started[0].method, "GET");
    assert_eq!(started[1].endpoint, "http://a");
    assert_eq!(started[2].endpoint, "http://b");
    assert_eq!(started[2].method, "POST");
    assert_eq!(started[2].body, "x");
    assert!(!d.is_done());
    for _ in 0..3 {
        d.note_completion();
    }
    assert!(d.is_done());
}

#[test]
fn dispatcher_window_blocks_at_capacity() {
    let specs = vec![spec("http://a", "GET", "", 3)];
    let mut d = Dispatcher::new(specs, 1);
    assert!(d.try_start().is_some());
    assert_eq!(d.in_flight_count(), 1);
    assert!(d.try_start().is_none());
    d.note_completion();
    assert_eq!(d.in_flight_count(), 0);
    assert!(d.try_start().is_some());
    assert!(d.try_start().is_none());
    d.note_completion();
    assert!(d.try_start().is_some());
    assert!(d.try_start().is_none());
    d.note_completion();
    assert!(d.is_done());
}

#[test]
fn dispatcher_skips_zero_repetition_specs() {
    let specs = vec![spec("http://a", "GET", "", 0), spec("http://b", "DELETE", "", 2)];
    let mut d = Dispatcher::new(specs, 5);
    let t = d.try_start().expect("a task should start");
    assert_eq!(t.endpoint, "http://b");
    assert_eq!(t.method, "DELETE");
}

#[test]
fn dispatcher_with_no_tasks_is_done_at_once() {
    let specs = vec![spec("http://a", "GET", "", 0)];
    let mut d = Dispatcher::new(specs, 5);
    assert!(d.is_done());
    assert!(d.try_start().is_none());
}

#[test]
fn dispatcher_window_size_is_kept() {
    let specs = vec![spec("http://a", "GET", "", 1)];
    let d = Dispatcher::new(specs, 2000);
    assert_eq!(d.window_size(), 2000);
}
