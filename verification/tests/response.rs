use cloudflare::response::{
    classify, conclude, map_api_response, map_outcome, parse_envelope, parse_error, parse_errors,
    raw_bytes, status_is_success, ApiError, ApiFailure, ApiResult, ApiSuccess, Envelope,
    RawResponse, TransportError, TransportErrorKind,
};

/// A result with one field, read with serde_json.
#[derive(Debug, PartialEq)]
struct Identified {
    id: String,
}

impl ApiResult for Identified {
    fn from_json(payload: &[u8]) -> Option<Self> {
        let value: serde_json::Value = serde_json::from_slice(payload).ok()?;
        let id = value.as_object()?.get("id")?.as_str()?.to_string();
        Some(Identified { id })
    }
}

fn response(status: u16, body: &str) -> RawResponse {
    RawResponse { status, body: body.as_bytes().to_vec() }
}

fn error(code: i64, message: &str) -> ApiError {
    ApiError { code, message: message.to_string() }
}

#[test]
fn success_envelope_gives_the_result() {
    let outcome: Result<ApiSuccess<Identified>, ApiFailure> =
        map_api_response(response(200, r#"{"success":true,"result":{"id":"abc"},"errors":[]}"#));
    let success = outcome.expect("a success");
    assert_eq!(success.result.id, "abc");
    assert_eq!(success.result_info, None);
    assert_eq!(success.messages, None);
    assert_eq!(success.errors, Vec::new());
}

#[test]
fn reported_failure_gives_the_errors() {
    let body = r#"{"success":false,"result":null,"errors":[{"code":1003,"message":"Invalid or missing zone id"}]}"#;
    let outcome: Result<ApiSuccess<Identified>, ApiFailure> = map_api_response(response(400, body));
    assert_eq!(
        outcome,
        Err(ApiFailure::Service { status: 400, errors: vec![error(1003, "Invalid or missing zone id")] })
    );
}

#[test]
fn body_that_is_no_json_is_invalid() {
    let outcome: Result<ApiSuccess<Identified>, ApiFailure> =
        map_api_response(response(200, "<html>gateway</html>"));
    assert_eq!(
        outcome,
        Err(ApiFailure::Invalid { status: 200, body: b"<html>gateway</html>".to_vec() })
    );
}

#[test]
fn empty_body_is_invalid() {
    let outcome: Result<ApiSuccess<Vec<u8>>, ApiFailure> = map_api_response(response(200, ""));
    assert_eq!(outcome, Err(ApiFailure::Invalid { status: 200, body: Vec::new() }));
}

#[test]
fn json_that_is_no_envelope_is_invalid() {
    for body in ["[1,2]", "true", r#"{"result":{"id":"abc"}}"#, r#"{"success":"yes"}"#, r#"{"success":true,"errors":{}}"#] {
        let outcome: Result<ApiSuccess<Vec<u8>>, ApiFailure> = map_api_response(response(200, body));
        assert_eq!(outcome, Err(ApiFailure::Invalid { status: 200, body: body.as_bytes().to_vec() }));
    }
}

#[test]
fn result_of_another_shape_is_invalid() {
    let body = r#"{"success":true,"result":{"name":"abc"},"errors":[]}"#;
    let outcome: Result<ApiSuccess<Identified>, ApiFailure> = map_api_response(response(200, body));
    assert_eq!(outcome, Err(ApiFailure::Invalid { status: 200, body: body.as_bytes().to_vec() }));
}

#[test]
fn failure_reported_under_a_successful_status_is_a_service_failure() {
    let body = r#"{"success":false,"errors":[{"code":7003,"message":"no route"},{"code":7000,"message":"no route either"}]}"#;
    let outcome: Result<ApiSuccess<Identified>, ApiFailure> = map_api_response(response(200, body));
    assert_eq!(
        outcome,
        Err(ApiFailure::Service {
            status: 200,
            errors: vec![error(7003, "no route"), error(7000, "no route either")],
        })
    );
}

#[test]
fn failing_status_wins_over_the_envelope() {
    let body = r#"{"success":true,"result":{"id":"abc"},"errors":[]}"#;
    let outcome: Result<ApiSuccess<Identified>, ApiFailure> = map_api_response(response(500, body));
    assert_eq!(outcome, Err(ApiFailure::Service { status: 500, errors: Vec::new() }));
}

#[test]
fn failing_status_with_an_unreadable_body_reports_no_errors() {
    let outcome: Result<ApiSuccess<Identified>, ApiFailure> =
        map_api_response(response(502, "Bad Gateway"));
    assert_eq!(outcome, Err(ApiFailure::Service { status: 502, errors: Vec::new() }));
}

#[test]
fn failing_status_reads_errors_without_the_rest_of_the_envelope() {
    let body = r#"{"errors":[{"code":10000,"message":"Authentication error"}]}"#;
    let outcome: Result<ApiSuccess<Identified>, ApiFailure> = map_api_response(response(403, body));
    assert_eq!(
        outcome,
        Err(ApiFailure::Service { status: 403, errors: vec![error(10000, "Authentication error")] })
    );
}

#[test]
fn transport_failure_stays_a_transport_failure() {
    let timeout = TransportError { kind: TransportErrorKind::Timeout, message: "operation timed out".to_string() };
    let outcome: Result<ApiSuccess<Identified>, ApiFailure> = map_outcome(Err(timeout.clone()));
    assert_eq!(outcome, Err(ApiFailure::Transport(timeout)));
}

#[test]
fn outcome_with_a_response_is_mapped() {
    let outcome: Result<ApiSuccess<Identified>, ApiFailure> =
        map_outcome(Ok(response(200, r#"{"success":true,"result":{"id":"z"}}"#)));
    assert_eq!(outcome.expect("a success").result, Identified { id: "z".to_string() });
}

#[test]
fn metadata_comes_with_the_result_as_text() {
    let body = r#" { "success" : true, "result" : [ 1, 2 ], "result_info" : {"page":1,"count":2}, "messages" : ["ok"], "errors" : [] } "#;
    let outcome: Result<ApiSuccess<Vec<u8>>, ApiFailure> = map_api_response(response(201, body));
    assert_eq!(
        outcome,
        Ok(ApiSuccess {
            result: b"[ 1, 2 ]".to_vec(),
            result_info: Some(br#"{"page":1,"count":2}"#.to_vec()),
            messages: Some(br#"["ok"]"#.to_vec()),
            errors: Vec::new(),
        })
    );
}

#[test]
fn missing_result_reads_as_null() {
    let outcome: Result<ApiSuccess<()>, ApiFailure> =
        map_api_response(response(200, r#"{"success":true,"result_info":null}"#));
    assert_eq!(
        outcome,
        Ok(ApiSuccess { result: (), result_info: None, messages: None, errors: Vec::new() })
    );
    let outcome: Result<ApiSuccess<()>, ApiFailure> =
        map_api_response(response(200, r#"{"success":true,"result":null}"#));
    assert!(outcome.is_ok());
    let body = r#"{"success":true,"result":{"id":"abc"}}"#;
    let outcome: Result<ApiSuccess<()>, ApiFailure> = map_api_response(response(200, body));
    assert_eq!(outcome, Err(ApiFailure::Invalid { status: 200, body: body.as_bytes().to_vec() }));
}

#[test]
fn envelope_is_parsed_field_by_field() {
    let body = r#"{"errors":[{"message":"a \"quoted\" é","code":-5}],"success":false,"result":null}"#;
    assert_eq!(
        parse_envelope(body.as_bytes()),
        Some(Envelope {
            success: false,
            result: b"null".to_vec(),
            result_info: None,
            messages: None,
            errors: vec![error(-5, "a \"quoted\" \u{e9}")],
        })
    );
    assert_eq!(parse_envelope(b"{}"), None);
    assert_eq!(parse_envelope(b"{\"success\":true} trailing"), None);
}

#[test]
fn error_entries_need_code_and_message() {
    assert_eq!(parse_error(br#"{"code":1003,"message":"m"}"#), Some(error(1003, "m")));
    assert_eq!(parse_error(br#"{"code":1003,"message":"m","extra":[1]}"#), Some(error(1003, "m")));
    assert_eq!(parse_error(br#"{"code":1003}"#), None);
    assert_eq!(parse_error(br#"{"message":"m"}"#), None);
    assert_eq!(parse_error(br#"{"code":"1003","message":"m"}"#), None);
    assert_eq!(parse_error(br#"{"code":1003.5,"message":"m"}"#), None);
    assert_eq!(parse_error(br#"{"code":1003,"message":7}"#), None);
    assert_eq!(parse_error(br#"[1003,"m"]"#), None);
}

#[test]
fn error_lists_are_all_or_nothing() {
    let good = br#"{"code":1,"message":"one"}"#.to_vec();
    let bad = br#"{"code":2}"#.to_vec();
    assert_eq!(parse_errors(&vec![good.clone(), good.clone()]), Some(vec![error(1, "one"), error(1, "one")]));
    assert_eq!(parse_errors(&vec![good.clone(), bad.clone()]), None);
    assert_eq!(parse_errors(&vec![bad, good]), None);
    assert_eq!(parse_errors(&Vec::new()), Some(Vec::new()));
}

#[test]
fn literals_are_read_with_whitespace_around_them() {
    assert_eq!(<() as ApiResult>::from_json(b"null"), Some(()));
    assert_eq!(<() as ApiResult>::from_json(b" \t\r\n null \n"), Some(()));
    assert_eq!(<() as ApiResult>::from_json(b""), None);
    assert_eq!(<() as ApiResult>::from_json(b"nul"), None);
    assert_eq!(<() as ApiResult>::from_json(b"nulll"), None);
    assert_eq!(<() as ApiResult>::from_json(b"null x"), None);
    assert_eq!(<() as ApiResult>::from_json(b"null\x0c"), None);
    assert_eq!(<() as ApiResult>::from_json(b"Null"), None);
    assert_eq!(<() as ApiResult>::from_json(b"\"null\""), None);
    assert!(parse_envelope(b"{\"success\" : \n true \t}").expect("an envelope").success);
    assert!(!parse_envelope(b"{\"success\":false}").expect("an envelope").success);
    assert_eq!(parse_envelope(b"{\"success\":1}"), None);
    assert_eq!(parse_envelope(b"{\"success\":\"true\"}"), None);
    assert_eq!(parse_envelope(b"{\"success\":null}"), None);
    assert_eq!(parse_envelope(b"{\"success\":True}"), None);
}

#[test]
fn successful_statuses_are_the_two_hundreds() {
    assert!(!status_is_success(199));
    assert!(status_is_success(200));
    assert!(status_is_success(204));
    assert!(status_is_success(299));
    assert!(!status_is_success(300));
    assert!(!status_is_success(404));
    assert!(!status_is_success(0));
    assert!(!status_is_success(u16::MAX));
}

#[test]
fn classify_tells_failures_from_envelopes_to_read() {
    let ok = classify(&response(200, r#"{"success":true,"result":{"id":"abc"}}"#)).expect("an envelope");
    assert!(ok.success);
    assert_eq!(ok.result, br#"{"id":"abc"}"#.to_vec());
    assert_eq!(
        classify(&response(404, "{}")),
        Err(ApiFailure::Service { status: 404, errors: Vec::new() })
    );
    assert_eq!(classify(&response(200, "{}")), Err(ApiFailure::Invalid { status: 200, body: b"{}".to_vec() }));
}

#[test]
fn conclude_follows_the_reading_of_the_result() {
    let envelope = Envelope {
        success: true,
        result: b"7".to_vec(),
        result_info: Some(b"{}".to_vec()),
        messages: None,
        errors: vec![error(1, "warned")],
    };
    assert_eq!(
        conclude(response(200, "body"), envelope.clone(), Some(7u8)),
        Ok(ApiSuccess { result: 7u8, result_info: Some(b"{}".to_vec()), messages: None, errors: vec![error(1, "warned")] })
    );
    assert_eq!(
        conclude::<u8>(response(200, "body"), envelope, None),
        Err(ApiFailure::Invalid { status: 200, body: b"body".to_vec() })
    );
}

#[test]
fn raw_bytes_are_the_body_as_it_came() {
    assert_eq!(raw_bytes(Ok(response(404, "not json \u{1F600}"))), Ok("not json \u{1F600}".as_bytes().to_vec()));
    let failure = TransportError { kind: TransportErrorKind::Connect, message: "refused".to_string() };
    assert_eq!(raw_bytes(Err(failure.clone())), Err(failure));
}
