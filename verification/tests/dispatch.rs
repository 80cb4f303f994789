use robolt::dispatch::{extract_api_error, handle_response, status_text};
use robolt::http::HttpResponse;
use robolt::json::{parse_json, Json};
use robolt::RoboltErrorKind;

fn ok_response(status: u16, body: &str) -> Result<HttpResponse, String> {
    Ok(HttpResponse { status, headers: vec![], body: body.to_string() })
}

#[test]
fn success_body_is_decoded() {
    let r = handle_response(ok_response(200, "{\"count\": 42}"));
    let json = r.expect("2xx with valid body must decode");
    assert_eq!(json, Json::Obj(vec![("count".to_string(), Json::Int(42))]));
    assert_eq!(json.get("count"), Some(&Json::Int(42)));
}

#[test]
fn remote_error_is_surfaced() {
    let body = "{\"errors\":[{\"message\":\"The user id is invalid.\",\"code\":3}]}";
    let err = handle_response(ok_response(404, body)).err().expect("404 must fail");
    assert!(matches!(err.kind, RoboltErrorKind::Api));
    assert_eq!(err.message, "The user id is invalid.");
    assert_eq!(err.code, 3);
}

#[test]
fn remote_error_code_defaults_to_sentinel() {
    let body = "{\"errors\":[{\"message\":\"Too many requests\"}]}";
    let err = handle_response(ok_response(429, body)).err().unwrap();
    assert!(matches!(err.kind, RoboltErrorKind::Api));
    assert_eq!(err.message, "Too many requests");
    assert_eq!(err.code, -1);
}

#[test]
fn only_the_first_error_is_surfaced() {
    let body = "{\"errors\":[{\"message\":\"first\",\"code\":1},{\"message\":\"second\",\"code\":2}]}";
    let err = handle_response(ok_response(400, body)).err().unwrap();
    assert_eq!(err.message, "first");
    assert_eq!(err.code, 1);
}

#[test]
fn transport_failure_is_unknown() {
    let err = handle_response(Err("dns error: no such host".to_string())).err().unwrap();
    assert!(matches!(err.kind, RoboltErrorKind::Unknown));
    assert_eq!(err.message, "dns error: no such host");
    assert_eq!(err.code, -1);
}

#[test]
fn undecodable_success_body_is_reported() {
    let err = handle_response(ok_response(200, "not json")).err().unwrap();
    assert!(matches!(err.kind, RoboltErrorKind::Unknown));
    assert_eq!(err.message, "failed to deserialize response body");
}

#[test]
fn undecodable_error_body_keeps_status_text() {
    let err = handle_response(ok_response(404, "<html>gone</html>")).err().unwrap();
    assert!(matches!(err.kind, RoboltErrorKind::Unknown));
    assert_eq!(err.message, "404 Not Found");
}

#[test]
fn empty_error_list_keeps_status_text() {
    let err = handle_response(ok_response(404, "{\"errors\":[]}")).err().unwrap();
    assert!(matches!(err.kind, RoboltErrorKind::Unknown));
    assert_eq!(err.message, "404 Not Found");
}

#[test]
fn malformed_error_entry_keeps_status_text() {
    let body = "{\"errors\":[{\"message\":\"ok\"},{\"code\":7}]}";
    let err = handle_response(ok_response(500, body)).err().unwrap();
    assert!(matches!(err.kind, RoboltErrorKind::Unknown));
    assert_eq!(err.message, "500 Internal Server Error");
}

#[test]
fn out_of_range_error_code_keeps_status_text() {
    let body = "{\"errors\":[{\"message\":\"big\",\"code\":4000}]}";
    let err = handle_response(ok_response(400, body)).err().unwrap();
    assert!(matches!(err.kind, RoboltErrorKind::Unknown));
    assert_eq!(err.message, "400 Bad Request");
}

#[test]
fn status_text_prints_code_and_reason() {
    assert_eq!(status_text(404), "404 Not Found");
    assert_eq!(status_text(500), "500 Internal Server Error");
    assert_eq!(status_text(403), "403 Forbidden");
}

#[test]
fn extract_api_error_reads_the_envelope() {
    let json = parse_json("{\"errors\":[{\"message\":\"nope\",\"code\":-3}]}").unwrap();
    let err = extract_api_error(&json).unwrap();
    assert!(matches!(err.kind, RoboltErrorKind::Api));
    assert_eq!(err.message, "nope");
    assert_eq!(err.code, -3);
}

#[test]
fn extract_api_error_rejects_non_envelopes() {
    let json = parse_json("{\"count\": 1}").unwrap();
    assert!(extract_api_error(&json).is_none());
    let json = parse_json("{\"errors\": 5}").unwrap();
    assert!(extract_api_error(&json).is_none());
}

#[test]
fn parse_json_models_every_shape() {
    assert_eq!(parse_json("null"), Some(Json::Null));
    assert_eq!(parse_json("true"), Some(Json::Bool(true)));
    assert_eq!(parse_json("-7"), Some(Json::Int(-7)));
    assert_eq!(parse_json("1.5"), Some(Json::OtherNum));
    assert_eq!(parse_json("\"hi\""), Some(Json::Text("hi".to_string())));
    assert_eq!(parse_json("[1, null]"), Some(Json::Arr(vec![Json::Int(1), Json::Null])));
    assert_eq!(
        parse_json("{\"a\": [true]}"),
        Some(Json::Obj(vec![("a".to_string(), Json::Arr(vec![Json::Bool(true)]))]))
    );
    assert_eq!(parse_json("{broken"), None);
}
