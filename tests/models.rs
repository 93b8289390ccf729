use wayqa::debounce::{DebounceGate, DEBOUNCE_WINDOW_MS};
use wayqa::request::{Method, Request};
use wayqa::response::{Response, ResponseCode, ResponseHeader};
use wayqa::tabs::{RequestTab, ResponseTab};
use wayqa::wayqa::{Action, InputMode, Key, Wayqa};

#[test]
fn gate_twice_within_window() {
    let mut g = DebounceGate::new(DEBOUNCE_WINDOW_MS);
    assert!(g.try_fire(5_000));
    assert!(!g.try_fire(5_400));
    assert_eq!(g.last_fired, Some(5_000));
}

#[test]
fn gate_twice_beyond_window() {
    let mut g = DebounceGate::new(DEBOUNCE_WINDOW_MS);
    assert!(g.try_fire(5_000));
    assert!(g.try_fire(6_001));
    assert_eq!(g.last_fired, Some(6_001));
}

#[test]
fn gate_at_exact_window_stays_closed() {
    let mut g = DebounceGate::new(1000);
    assert!(g.try_fire(0));
    assert!(!g.try_fire(1000));
    assert!(g.try_fire(1001));
}

#[test]
fn method_cycles_over_seven_calls() {
    let mut r = Request::new();
    let expected = [
        Method::POST,
        Method::PUT,
        Method::PATCH,
        Method::DELETE,
        Method::HEAD,
        Method::OPTIONS,
        Method::GET,
    ];
    for m in expected {
        r.change_next_method();
        assert_eq!(r.method, m);
    }
}

#[test]
fn method_names() {
    let mut r = Request::new();
    let names = ["GET", "POST", "PUT", "PATCH", "DELETE", "HEAD", "OPTIONS"];
    for name in names {
        assert_eq!(r.get_method_str(), name);
        r.change_next_method();
    }
}

#[test]
fn tab_indices_round_trip() {
    for i in 0..6 {
        assert_eq!(RequestTab::from_index(i).index(), i);
    }
    for i in 0..3 {
        assert_eq!(ResponseTab::from_index(i).index(), i);
    }
    assert_eq!(RequestTab::Response.index(), 5);
    assert_eq!(ResponseTab::Headers.index(), 2);
}

#[test]
fn status_codes() {
    assert_eq!(ResponseCode::from_status(200), ResponseCode::OK);
    assert_eq!(ResponseCode::from_status(404), ResponseCode::NOTFOUND);
    assert_eq!(ResponseCode::from_status(418), ResponseCode::NONE);
    assert_eq!(ResponseCode::GATEWAYTIMEOUT.code(), 504);
    assert_eq!(ResponseCode::NONE.code(), 0);
    assert_eq!(ResponseCode::from_status(ResponseCode::CREATED.code()), ResponseCode::CREATED);
}

fn content_type() -> ResponseHeader {
    ResponseHeader { name: String::from("content-type"), value: String::from("text/plain") }
}

#[test]
fn stub_get_exchange_installs_response() {
    let mut w = Wayqa::new();
    w.change_mode(InputMode::Request);
    assert_eq!(w.dispatch(Key::F(5), 0), Action::Execute);
    assert!(w.request_running);
    let response = Response::from_parts(
        200,
        String::from("OK"),
        vec![content_type()],
        String::from("ok"),
        None,
        12,
        1_700_000_000_000,
    );
    w.complete_execution(response);
    assert!(!w.request_running);
    let r = w.current_request.response.as_ref().unwrap();
    assert_eq!(r.status_code, 200);
    assert_eq!(r.code_status, ResponseCode::OK);
    assert_eq!(r.code_text, "OK");
    assert_eq!(r.data, "ok");
    assert_eq!(r.data_format, "text");
    assert!(r.time > 0);
    assert_eq!(r.size, 2);
    assert_eq!(r.last_executed, 1_700_000_000_000);
    assert_eq!(r.headers.len(), 1);
    assert_eq!(r.headers[0].name, "content-type");
    assert_eq!(r.headers[0].value, "text/plain");
    assert!(r.cookies.is_empty());
}

#[test]
fn declared_length_wins_over_body_length() {
    let r = Response::from_parts(201, String::from("Created"), vec![], String::from("é"), Some(40), 3, 0);
    assert_eq!(r.size, 40);
    assert_eq!(r.code_status, ResponseCode::CREATED);
    let r = Response::from_parts(500, String::from("Internal"), vec![], String::from("é€"), None, 3, 0);
    assert_eq!(r.size, 5);
    assert_eq!(r.code_status, ResponseCode::INTERNALSERVERERROR);
}

#[test]
fn non_success_status_is_a_normal_response() {
    let r = Response::from_parts(404, String::from("Not Found"), vec![content_type()], String::from("missing"), Some(7), 9, 1_700_000_000_001);
    assert_eq!(r.status_code, 404);
    assert_eq!(r.code_status, ResponseCode::NOTFOUND);
    assert_eq!(r.data, "missing");
    assert_eq!(r.headers.len(), 1);
    assert_eq!(r.size, 7);
    assert_eq!(r.last_executed, 1_700_000_000_001);
}

#[test]
fn failure_becomes_diagnostic_response() {
    let mut w = Wayqa::new();
    w.change_mode(InputMode::Request);
    w.dispatch(Key::F(5), 0);
    w.complete_execution(Response::from_failure(String::from("connection refused"), 4, 1_700_000_000_002));
    assert!(!w.request_running);
    let r = w.current_request.response.as_ref().unwrap();
    assert_eq!(r.status_code, 0);
    assert_eq!(r.code_status, ResponseCode::NONE);
    assert_eq!(r.code_text, "Error");
    assert_eq!(r.data, "connection refused");
    assert_eq!(r.data_format, "error");
    assert_eq!(r.time, 4);
    assert!(r.headers.is_empty());
    assert_eq!(r.last_executed, 1_700_000_000_002);
    assert_eq!(w.dispatch(Key::F(5), 10), Action::Execute);
}

#[test]
fn new_response_replaces_previous() {
    let mut w = Wayqa::new();
    w.complete_execution(Response::from_failure(String::from("first"), 1, 0));
    w.complete_execution(Response::from_parts(204, String::from("No Content"), vec![], String::new(), None, 1, 0));
    let r = w.current_request.response.as_ref().unwrap();
    assert_eq!(r.code_status, ResponseCode::NOCONTENT);
    assert_eq!(r.size, 0);
}
