use loadgen::executor::{
    begin_request, body_to_send, classify_method, complete_request, FailureKind, MethodKind,
};
use loadgen::requests::Task;

fn task(endpoint: &str, method: &str, body: &str) -> Task {
    Task { endpoint: endpoint.to_string(), method: method.to_string(), body: body.to_string() }
}

#[test]
fn classify_accepts_supported_methods_in_any_case() {
    assert_eq!(classify_method("GET"), Some(MethodKind::Get));
    assert_eq!(classify_method("get"), Some(MethodKind::Get));
    assert_eq!(classify_method("GeT"), Some(MethodKind::Get));
    assert_eq!(classify_method("POST"), Some(MethodKind::Post));
    assert_eq!(classify_method("post"), Some(MethodKind::Post));
    assert_eq!(classify_method("PUT"), Some(MethodKind::Put));
    assert_eq!(classify_method("pUt"), Some(MethodKind::Put));
    assert_eq!(classify_method("DELETE"), Some(MethodKind::Delete));
    assert_eq!(classify_method("delete"), Some(MethodKind::Delete));
}

#[test]
fn classify_rejects_everything_else() {
    assert_eq!(classify_method("PATCH"), None);
    assert_eq!(classify_method("HEAD"), None);
    assert_eq!(classify_method(""), None);
    assert_eq!(classify_method("GETX"), None);
    assert_eq!(classify_method("GE"), None);
    assert_eq!(classify_method("DELET"), None);
}

#[test]
fn begin_request_opens_supported_methods() {
    let t = task("http://a", "get", "payload");
    let p = begin_request(&t).expect("GET is supported");
    assert_eq!(p.endpoint, "http://a");
    assert_eq!(p.method, "get");
    assert_eq!(p.body, "payload");
    assert_eq!(p.kind, MethodKind::Get);
}

#[test]
fn begin_request_fails_unsupported_method() {
    let t = task("http://a", "PATCH", "");
    let f = begin_request(&t).expect_err("PATCH is unsupported");
    assert_eq!(f.endpoint, "http://a");
    assert_eq!(f.method, "PATCH");
    assert!(matches!(f.kind, FailureKind::UnsupportedMethod));
}

#[test]
fn body_is_sent_for_post_and_put_only() {
    let post = begin_request(&task("http://a", "POST", "x")).unwrap();
    assert_eq!(body_to_send(&post), Some(&"x".to_string()));
    let put = begin_request(&task("http://a", "PUT", "y")).unwrap();
    assert_eq!(body_to_send(&put), Some(&"y".to_string()));
    let get = begin_request(&task("http://a", "GET", "z")).unwrap();
    assert_eq!(body_to_send(&get), None);
    let delete = begin_request(&task("http://a", "DELETE", "z")).unwrap();
    assert_eq!(body_to_send(&delete), None);
}

#[test]
fn complete_request_records_the_call() {
    let t = task("http://a", "Get", "");
    let p = begin_request(&t).unwrap();
    let r = complete_request(&p, 5_000, 503);
    assert_eq!(r.endpoint, "http://a");
    assert_eq!(r.method, "Get");
    assert_eq!(r.time_taken_nanos, 5_000);
    assert_eq!(r.status, 503);
    assert_eq!(r.request_time_us, p.request_time_us);
    assert!(r.response_time_us >= r.request_time_us);
}
