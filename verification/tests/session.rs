use robolt::http::HttpResponse;
use robolt::session::{login, login_request, logout, Robolt};
use robolt::http::Method;
use robolt::RoboltErrorKind;

fn response(status: u16, headers: Vec<(&str, &str)>, body: &str) -> HttpResponse {
    HttpResponse {
        status,
        headers: headers.iter().map(|(k, v)| (k.to_string(), v.to_string())).collect(),
        body: body.to_string(),
    }
}

#[test]
fn fresh_session_is_unauthenticated() {
    let session = Robolt::new();
    assert!(!session.is_authenticated());
    assert!(session.cookie.is_none());
    assert!(session.xcsrf.is_none());
}

#[test]
fn login_request_shape() {
    let req = login_request("COOKIEVALUE");
    assert_eq!(req.method, Method::Post);
    assert_eq!(req.url, "https://auth.roblox.com/v2/logout");
    assert!(req.body.is_none());
    assert_eq!(req.headers.len(), 5);
    assert_eq!(req.headers[3].0, "cookie");
    assert_eq!(req.headers[3].1, ".ROBLOSECURITY=COOKIEVALUE");
    assert_eq!(req.headers[4], ("content-length".to_string(), "0".to_string()));
}

#[test]
fn authenticate_accepts_forbidden_challenge() {
    let outcome = Ok(response(403, vec![("x-csrf-token", "tok-403")], ""));
    let session = login("MYCOOKIE", outcome).expect("403 with token must authenticate");
    assert!(session.is_authenticated());
    assert_eq!(session.xcsrf.as_deref(), Some("tok-403"));
    assert_eq!(session.cookie.as_deref(), Some(".ROBLOSECURITY=MYCOOKIE"));
}

#[test]
fn authenticate_accepts_success_status() {
    let outcome = Ok(response(200, vec![("x-csrf-token", "tok-200")], ""));
    let session = login("MYCOOKIE", outcome).expect("2xx with token must authenticate");
    assert_eq!(session.xcsrf.as_deref(), Some("tok-200"));
}

#[test]
fn token_header_name_matches_case_insensitively() {
    let outcome = Ok(response(403, vec![("X-CSRF-TOKEN", "tok-upper")], ""));
    let session = login("MYCOOKIE", outcome).expect("header name case must not matter");
    assert_eq!(session.xcsrf.as_deref(), Some("tok-upper"));
}

#[test]
fn authenticate_rejects_unauthorized_status() {
    let outcome = Ok(response(401, vec![("x-csrf-token", "tok")], ""));
    let err = login("BADCOOKIE", outcome).err().expect("401 must fail");
    assert!(matches!(err.kind, RoboltErrorKind::Unknown));
    assert_eq!(err.message, "Invalid cookie");
    assert_eq!(err.code, -1);
}

#[test]
fn authenticate_rejects_server_error_status() {
    let outcome = Ok(response(500, vec![("x-csrf-token", "tok")], ""));
    let err = login("COOKIE", outcome).err().expect("500 must fail");
    assert_eq!(err.message, "Invalid cookie");
}

#[test]
fn authenticate_user_with_invalid_cookie() {
    let outcome = Ok(response(401, vec![], ""));
    assert!(login("invalid_cookie", outcome).is_err());
}

#[test]
fn authenticate_fails_without_token_header() {
    let outcome = Ok(response(403, vec![("content-type", "application/json")], ""));
    let err = login("COOKIE", outcome).err().expect("missing token must fail");
    assert!(matches!(err.kind, RoboltErrorKind::Unknown));
    assert_eq!(err.message, "No CSRF token found");
}

#[test]
fn authenticate_surfaces_transport_failure() {
    let outcome = Err("connection refused".to_string());
    let err = login("COOKIE", outcome).err().expect("transport failure must fail");
    assert!(matches!(err.kind, RoboltErrorKind::Unknown));
    assert_eq!(err.message, "connection refused");
    assert_eq!(err.code, -1);
}

#[test]
fn set_cookie_on_owned_session_matches_login() {
    let outcome = Ok(response(403, vec![("x-csrf-token", "tok")], ""));
    let session = Robolt::new().set_cookie("COOKIE".to_string(), outcome).unwrap();
    assert_eq!(session.xcsrf.as_deref(), Some("tok"));
}

#[test]
fn deauthenticate_clears_credentials() {
    let outcome = Ok(response(403, vec![("x-csrf-token", "tok")], ""));
    let authed = login("COOKIE", outcome).unwrap();
    assert!(authed.is_authenticated());
    let session = logout(authed);
    assert!(!session.is_authenticated());
    assert!(session.cookie.is_none());
    assert!(session.xcsrf.is_none());
}

#[test]
fn remove_cookie_clears_credentials() {
    let outcome = Ok(response(200, vec![("x-csrf-token", "tok")], ""));
    let authed = login("COOKIE", outcome).unwrap();
    let session = authed.remove_cookie();
    assert!(session.cookie.is_none());
    assert!(session.xcsrf.is_none());
}

#[test]
fn default_headers_identify_the_client() {
    let headers = robolt::session::default_client_headers();
    assert_eq!(headers.len(), 3);
    assert_eq!(headers[0], ("content-type".to_string(), "application/json".to_string()));
    assert_eq!(headers[1], ("accept".to_string(), "application/json".to_string()));
    assert_eq!(headers[2], ("user-agent".to_string(), "robolt/0.1.0".to_string()));
}
