use serde_json::Value;
use srvcs_conevolume::dependency::{Dependency, Deps};
use srvcs_conevolume::evaluate::{ask, CallResult, EvalRequest, Evaluation, Step};
use srvcs_conevolume::reply::{degraded, forward, malformed, ok};

const PI_URL: &str = "http://pi.test";
const MULTIPLY_URL: &str = "http://floatmultiply.test";
const DIVIDE_URL: &str = "http://floatdivide.test";

/// A JSON value from its text.
fn j(text: &str) -> Value {
    serde_json::from_str(text).expect("valid JSON")
}

/// A JSON object from its fields.
fn obj(fields: &[(&str, Value)]) -> Value {
    let mut map = serde_json::Map::new();
    for (key, value) in fields {
        map.insert(key.to_string(), value.clone());
    }
    Value::Object(map)
}

/// A mock dependency: `None` where it is unreachable, else its status and JSON body.
type Service = Box<dyn Fn(&Value) -> Option<(u16, Value)>>;

fn deps() -> Deps {
    Deps {
        pi_url: PI_URL.to_string(),
        floatmultiply_url: MULTIPLY_URL.to_string(),
        floatdivide_url: DIVIDE_URL.to_string(),
    }
}

/// `srvcs-pi`: a constant service, `{"result": PI}` for any body.
fn pi() -> Service {
    Box::new(|_| Some((200, obj(&[("result", Value::from(std::f64::consts::PI))]))))
}

/// `srvcs-floatmultiply`: `{a, b}` -> `{"result": a * b}`.
fn floatmultiply() -> Service {
    Box::new(|body| {
        let a = body.get("a").and_then(Value::as_f64).unwrap_or(0.0);
        let b = body.get("b").and_then(Value::as_f64).unwrap_or(0.0);
        Some((200, obj(&[("result", Value::from(a * b))])))
    })
}

/// `srvcs-floatdivide`: `{a, b}` -> `{"result": a / b}`.
fn floatdivide() -> Service {
    Box::new(|body| {
        let a = body.get("a").and_then(Value::as_f64).unwrap_or(0.0);
        let b = body.get("b").and_then(Value::as_f64).unwrap_or(1.0);
        Some((200, obj(&[("result", Value::from(a / b))])))
    })
}

fn dead() -> Service {
    Box::new(|_| None)
}

fn fixed(status: u16, body: Value) -> Service {
    Box::new(move |_| Some((status, body.clone())))
}

/// Runs one evaluation against the mocks; gives the reply's status and body and the calls made.
fn conevolume(
    pi: &Service,
    multiply: &Service,
    divide: &Service,
    radius: Value,
    height: Value,
) -> (u16, Value, Vec<(Dependency, String, Value)>) {
    let request = EvalRequest {
        radius: serde_json::to_vec(&radius).unwrap(),
        height: serde_json::to_vec(&height).unwrap(),
    };
    let (mut evaluation, mut call) = Evaluation::start(deps(), request);
    let mut calls = Vec::new();
    loop {
        let body: Value = serde_json::from_slice(&call.body).expect("calls carry JSON");
        calls.push((call.dependency, call.url.clone(), body.clone()));
        let service = match call.dependency {
            Dependency::Pi => pi,
            Dependency::FloatMultiply => multiply,
            Dependency::FloatDivide => divide,
        };
        let outcome = match service(&body) {
            None => CallResult::Unreachable,
            Some((status, answer)) => CallResult::Answered {
                status,
                body: serde_json::to_vec(&answer).unwrap(),
            },
        };
        match evaluation.resume(outcome) {
            Step::Continue(next, next_call) => {
                evaluation = next;
                call = next_call;
            }
            Step::Finished(reply) => {
                let body = serde_json::from_slice(&reply.body).unwrap_or(Value::Null);
                return (reply.status, body, calls);
            }
        }
    }
}

fn result_f64(body: &Value) -> f64 {
    body["result"].as_f64().expect("result is a JSON number")
}

// --- Correctness cases, against the computing mocks. ---

#[test]
fn conevolume_3_4_is_canonical() {
    let (status, body, _) = conevolume(&pi(), &floatmultiply(), &floatdivide(), j("3"), j("4"));
    assert_eq!(status, 200);
    assert_eq!(body["radius"], j("3"));
    assert_eq!(body["height"], j("4"));
    // (1/3) * pi * 9 * 4 = 12 * pi = 37.69911184307752
    assert!((result_f64(&body) - 37.69911184307752).abs() < 1e-9);
}

#[test]
fn conevolume_unit_cone() {
    let (status, body, _) = conevolume(&pi(), &floatmultiply(), &floatdivide(), j("1"), j("1"));
    assert_eq!(status, 200);
    assert!((result_f64(&body) - std::f64::consts::PI / 3.0).abs() < 1e-9);
}

#[test]
fn conevolume_fractional() {
    let (status, body, _) =
        conevolume(&pi(), &floatmultiply(), &floatdivide(), j("2.5"), j("6.0"));
    assert_eq!(status, 200);
    let expected = (1.0 / 3.0) * std::f64::consts::PI * 6.25 * 6.0;
    assert!((result_f64(&body) - expected).abs() < 1e-9);
}

#[test]
fn conevolume_zero_radius_is_zero() {
    let (status, body, _) = conevolume(&pi(), &floatmultiply(), &floatdivide(), j("0"), j("10"));
    assert_eq!(status, 200);
    assert!(result_f64(&body).abs() < 1e-9);
}

#[test]
fn conevolume_zero_height_is_zero() {
    let (status, body, _) = conevolume(&pi(), &floatmultiply(), &floatdivide(), j("7"), j("0"));
    assert_eq!(status, 200);
    assert!(result_f64(&body).abs() < 1e-9);
}

// --- Degraded / error paths. ---

#[test]
fn degrades_when_pi_unreachable() {
    let (status, body, _) = conevolume(&dead(), &floatmultiply(), &floatdivide(), j("3"), j("4"));
    assert_eq!(status, 503);
    assert_eq!(body["dependency"], "srvcs-pi");
}

#[test]
fn degrades_when_floatmultiply_unreachable() {
    let (status, body, _) = conevolume(&pi(), &dead(), &floatdivide(), j("3"), j("4"));
    assert_eq!(status, 503);
    assert_eq!(body["dependency"], "srvcs-floatmultiply");
}

#[test]
fn degrades_when_floatdivide_unreachable() {
    let (status, body, _) = conevolume(&pi(), &floatmultiply(), &dead(), j("3"), j("4"));
    assert_eq!(status, 503);
    assert_eq!(body["dependency"], "srvcs-floatdivide");
}

#[test]
fn forwards_422_from_floatmultiply() {
    let multiply = fixed(422, j(r#"{"error": "value is not a number"}"#));
    let (status, body, _) = conevolume(&pi(), &multiply, &floatdivide(), j(r#""nope""#), j("4"));
    assert_eq!(status, 422);
    assert_eq!(body["error"], "value is not a number");
}

#[test]
fn forwards_422_from_floatdivide() {
    let divide = fixed(422, j(r#"{"error": "bad operand"}"#));
    let (status, _, _) = conevolume(&pi(), &floatmultiply(), &divide, j("3"), j("4"));
    assert_eq!(status, 422);
}

#[test]
fn malformed_pi_result_is_500() {
    let pi = fixed(200, j(r#"{"result": "not-a-number"}"#));
    let (status, body, _) = conevolume(&pi, &floatmultiply(), &floatdivide(), j("3"), j("4"));
    assert_eq!(status, 500);
    assert_eq!(body["dependency"], "srvcs-pi");
}

#[test]
fn malformed_floatmultiply_result_is_500() {
    let multiply = fixed(200, j(r#"{"result": "not-a-number"}"#));
    let (status, body, _) = conevolume(&pi(), &multiply, &floatdivide(), j("3"), j("4"));
    assert_eq!(status, 500);
    assert_eq!(body["dependency"], "srvcs-floatmultiply");
}

// --- The composition, call by call. ---

#[test]
fn composition_makes_the_five_calls_in_order() {
    let (status, body, calls) =
        conevolume(&pi(), &floatmultiply(), &floatdivide(), j("3"), j("4"));
    assert_eq!(status, 200);
    let pi_value = std::f64::consts::PI;
    // numbers travel as JSON text, so they are compared to within rounding
    let close = |v: &Value, x: f64| (v.as_f64().expect("a number") - x).abs() < 1e-9;
    let dependencies: Vec<Dependency> = calls.iter().map(|c| c.0).collect();
    assert_eq!(
        dependencies,
        vec![
            Dependency::Pi,
            Dependency::FloatMultiply,
            Dependency::FloatMultiply,
            Dependency::FloatMultiply,
            Dependency::FloatDivide
        ]
    );
    let urls: Vec<&str> = calls.iter().map(|c| c.1.as_str()).collect();
    assert_eq!(urls, vec![PI_URL, MULTIPLY_URL, MULTIPLY_URL, MULTIPLY_URL, DIVIDE_URL]);
    assert_eq!(calls[0].2, j("{}"));
    assert_eq!(calls[1].2, j(r#"{"a": 3, "b": 3}"#));
    assert!(close(&calls[2].2["a"], pi_value) && close(&calls[2].2["b"], 9.0));
    assert!(close(&calls[3].2["a"], pi_value * 9.0));
    assert_eq!(calls[3].2["b"], j("4"));
    assert!(close(&calls[4].2["a"], pi_value * 36.0));
    assert_eq!(calls[4].2["b"], j("3"));
    assert!(close(&body["result"], pi_value * 12.0));
}

#[test]
fn first_call_is_pi_with_an_empty_body() {
    let request = EvalRequest { radius: b"3".to_vec(), height: b"4".to_vec() };
    let (_, call) = Evaluation::start(deps(), request);
    assert_eq!(call.dependency, Dependency::Pi);
    assert_eq!(call.url, PI_URL);
    assert_eq!(call.body, b"{}".to_vec());
}

#[test]
fn operands_are_passed_through_unvalidated() {
    let (status, body, calls) =
        conevolume(&pi(), &floatmultiply(), &floatdivide(), j(r#""nope""#), j("[1, 2]"));
    // the mocks read a non-number as 0: the service itself never rejects the operands
    assert_eq!(status, 200);
    assert_eq!(calls[1].2, j(r#"{"a": "nope", "b": "nope"}"#));
    assert_eq!(calls[3].2["b"], j("[1, 2]"));
    assert_eq!(body["radius"], j(r#""nope""#));
    assert_eq!(body["height"], j("[1, 2]"));
}

#[test]
fn never_more_than_five_calls() {
    let (_, _, calls) = conevolume(&pi(), &floatmultiply(), &floatdivide(), j("2"), j("5"));
    assert_eq!(calls.len(), 5);
    let (_, _, calls) = conevolume(&pi(), &dead(), &floatdivide(), j("2"), j("5"));
    assert_eq!(calls.len(), 2);
}

#[test]
fn no_call_follows_the_first_failure() {
    let (status, body, calls) = conevolume(
        &pi(),
        &floatmultiply(),
        &fixed(500, j(r#"{"error": "boom"}"#)),
        j("2"),
        j("5"),
    );
    assert_eq!(calls.len(), 5);
    assert_eq!(status, 503);
    assert_eq!(body["dependency"], "srvcs-floatdivide");
    let (status, _, calls) =
        conevolume(&fixed(200, j("{}")), &floatmultiply(), &floatdivide(), j("2"), j("5"));
    assert_eq!(status, 500);
    assert_eq!(calls.len(), 1);
}

#[test]
fn integer_results_are_read_as_doubles() {
    // pi answers an integer; the next call carries it written back as a double
    let (status, _, calls) =
        conevolume(&fixed(200, j(r#"{"result": 3}"#)), &floatmultiply(), &floatdivide(), j("2"), j("1"));
    assert_eq!(status, 200);
    let request = EvalRequest { radius: b"2".to_vec(), height: b"1".to_vec() };
    let (evaluation, _) = Evaluation::start(deps(), request);
    let step = evaluation.resume(CallResult::Answered { status: 200, body: b"{\"result\":3}".to_vec() });
    match step {
        Step::Continue(_, call) => assert_eq!(call.body, b"{\"a\":2,\"b\":2}".to_vec()),
        Step::Finished(_) => panic!("pi gave a number"),
    }
    assert_eq!(calls[2].2, j(r#"{"a": 3.0, "b": 4.0}"#));
}

#[test]
fn non_json_success_body_is_malformed() {
    let request = EvalRequest { radius: b"2".to_vec(), height: b"1".to_vec() };
    let (evaluation, _) = Evaluation::start(deps(), request);
    match evaluation.resume(CallResult::Answered { status: 200, body: b"not json".to_vec() }) {
        Step::Finished(reply) => {
            assert_eq!(reply.status, 500);
            assert_eq!(
                reply.body,
                b"{\"dependency\":\"srvcs-pi\",\"error\":\"dependency returned a malformed result\"}".to_vec()
            );
        }
        Step::Continue(..) => panic!("no number was given"),
    }
}

#[test]
fn accept_without_a_number_is_500() {
    let request = EvalRequest { radius: b"2".to_vec(), height: b"1".to_vec() };
    let (evaluation, _) = Evaluation::start(deps(), request);
    match evaluation.accept(None) {
        Step::Finished(reply) => assert_eq!(reply.status, 500),
        Step::Continue(..) => panic!("no number was given"),
    }
}

#[test]
fn accept_moves_on_with_the_number() {
    let request = EvalRequest { radius: b"2".to_vec(), height: b"7".to_vec() };
    let (evaluation, _) = Evaluation::start(deps(), request);
    match evaluation.accept(Some(b"3.5".to_vec())) {
        Step::Continue(next, call) => {
            assert_eq!(call.dependency, Dependency::FloatMultiply);
            assert_eq!(call.url, MULTIPLY_URL);
            assert_eq!(call.body, b"{\"a\":2,\"b\":2}".to_vec());
            match next.accept(Some(b"4.0".to_vec())) {
                Step::Continue(_, call) => assert_eq!(call.body, b"{\"a\":3.5,\"b\":4.0}".to_vec()),
                Step::Finished(_) => panic!("two more calls remain"),
            }
        }
        Step::Finished(_) => panic!("four more calls remain"),
    }
}

// --- Replies. ---

#[test]
fn unprocessable_body_is_forwarded_verbatim() {
    let raw = b"{\"error\":\"value is not a number\",\"field\":\"a\"}".to_vec();
    match ask(CallResult::Answered { status: 422, body: raw.clone() }, Dependency::FloatMultiply) {
        Err(reply) => {
            assert_eq!(reply.status, 422);
            assert_eq!(reply.body, raw);
        }
        Ok(_) => panic!("422 is no success"),
    }
}

#[test]
fn ask_classifies_outcomes() {
    match ask(CallResult::Answered { status: 200, body: b"{\"result\":1}".to_vec() }, Dependency::Pi) {
        Ok(body) => assert_eq!(body, b"{\"result\":1}".to_vec()),
        Err(_) => panic!("200 is success"),
    }
    for status in [201u16, 400, 404, 500, 502] {
        match ask(CallResult::Answered { status, body: b"{}".to_vec() }, Dependency::FloatDivide) {
            Err(reply) => {
                assert_eq!(reply.status, 503);
                assert_eq!(
                    reply.body,
                    b"{\"dependency\":\"srvcs-floatdivide\",\"error\":\"dependency unavailable\"}".to_vec()
                );
            }
            Ok(_) => panic!("{status} is no success"),
        }
    }
    match ask(CallResult::Unreachable, Dependency::Pi) {
        Err(reply) => assert_eq!(reply.status, 503),
        Ok(_) => panic!("unreachable is no success"),
    }
}

#[test]
fn reply_bodies_are_exact() {
    let reply = ok(b"3".to_vec(), b"4".to_vec(), b"37.69911184307752".to_vec());
    assert_eq!(reply.status, 200);
    assert_eq!(
        reply.body,
        b"{\"height\":4,\"radius\":3,\"result\":37.69911184307752}".to_vec()
    );
    let reply = degraded(Dependency::Pi);
    assert_eq!(reply.status, 503);
    assert_eq!(reply.body, b"{\"dependency\":\"srvcs-pi\",\"error\":\"dependency unavailable\"}".to_vec());
    let reply = malformed(Dependency::FloatMultiply);
    assert_eq!(reply.status, 500);
    assert_eq!(
        reply.body,
        b"{\"dependency\":\"srvcs-floatmultiply\",\"error\":\"dependency returned a malformed result\"}".to_vec()
    );
}

#[test]
fn forward_keeps_http_statuses_and_maps_others_to_502() {
    assert_eq!(forward(422, b"{}".to_vec()).status, 422);
    assert_eq!(forward(100, b"{}".to_vec()).status, 100);
    assert_eq!(forward(999, b"{}".to_vec()).status, 999);
    assert_eq!(forward(99, b"{}".to_vec()).status, 502);
    assert_eq!(forward(1000, b"{}".to_vec()).status, 502);
    assert_eq!(forward(0, b"x".to_vec()).body, b"x".to_vec());
}

#[test]
fn reply_statuses_are_documented() {
    let documented: Vec<u16> = srvcs_conevolume::openapi::evaluate_responses()
        .iter()
        .map(|r| r.status)
        .collect();
    let runs = [
        conevolume(&pi(), &floatmultiply(), &floatdivide(), j("3"), j("4")),
        conevolume(&dead(), &floatmultiply(), &floatdivide(), j("3"), j("4")),
        conevolume(&pi(), &fixed(422, j("{}")), &floatdivide(), j("3"), j("4")),
        conevolume(&pi(), &floatmultiply(), &fixed(200, j("[]")), j("3"), j("4")),
        conevolume(&pi(), &fixed(404, j("{}")), &floatdivide(), j("3"), j("4")),
    ];
    let statuses: Vec<u16> = runs.iter().map(|r| r.0).collect();
    assert_eq!(statuses, vec![200, 503, 422, 500, 503]);
    for status in statuses {
        assert!(documented.contains(&status));
    }
}
