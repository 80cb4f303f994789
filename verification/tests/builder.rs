use robolt::http::{HttpResponse, Method};
use robolt::routes::RobloxApi;
use robolt::session::{login, Robolt};

#[test]
fn builder_defaults_to_get_with_joined_url() {
    let session = Robolt::new();
    let req = session.request(RobloxApi::Users, "/v1/users/1").send();
    assert_eq!(req.method, Method::Get);
    assert_eq!(req.url, "https://users.roblox.com/v1/users/1");
    assert!(req.body.is_none());
    assert!(req.headers.is_empty());
}

#[test]
fn builder_method_override() {
    let session = Robolt::new();
    let req = session
        .request(RobloxApi::Friends, "/v1/users/5/unfriend")
        .method(Method::Post)
        .send();
    assert_eq!(req.method, Method::Post);
    assert_eq!(req.url, "https://friends.roblox.com/v1/users/5/unfriend");
}

#[test]
fn builder_attaches_body() {
    let session = Robolt::new();
    let req = session
        .request(RobloxApi::Users, "/v1/users")
        .method(Method::Post)
        .send_body("{\"userIds\":[1]}".to_string());
    assert_eq!(req.body.as_deref(), Some("{\"userIds\":[1]}"));
}

#[test]
fn authenticated_builder_attaches_credentials() {
    let outcome = Ok(HttpResponse {
        status: 403,
        headers: vec![("x-csrf-token".to_string(), "tok".to_string())],
        body: String::new(),
    });
    let session = login("COOKIE", outcome).unwrap();
    let req = session.request(RobloxApi::Badges, "/v1/user/badges/7").method(Method::Delete).send();
    assert_eq!(req.headers.len(), 3);
    assert_eq!(req.headers[0], ("cookie".to_string(), ".ROBLOSECURITY=COOKIE".to_string()));
    assert_eq!(req.headers[1], ("x-csrf-token".to_string(), "tok".to_string()));
    assert_eq!(req.headers[2], ("content-length".to_string(), "0".to_string()));
}

#[test]
fn authenticated_builder_with_body_omits_content_length() {
    let outcome = Ok(HttpResponse {
        status: 200,
        headers: vec![("x-csrf-token".to_string(), "tok".to_string())],
        body: String::new(),
    });
    let session = login("COOKIE", outcome).unwrap();
    let req = session
        .request(RobloxApi::Presence, "/v1/presence/users")
        .method(Method::Post)
        .send_body("{\"userIds\":[1,2]}".to_string());
    assert_eq!(req.headers.len(), 2);
    assert_eq!(req.headers[1].0, "x-csrf-token");
}

#[test]
fn request_builder_takes_a_joined_endpoint() {
    let session = Robolt::new();
    let req = session.request_builder("users.roblox.com/v1/users/1".to_string()).send();
    assert_eq!(req.url, "https://users.roblox.com/v1/users/1");
}

#[test]
fn domain_table_is_fixed() {
    assert_eq!(RobloxApi::Presence.url(), "presence.roblox.com");
    assert_eq!(RobloxApi::Users.url(), "users.roblox.com");
    assert_eq!(RobloxApi::AccountInformation.url(), "accountinformation.roblox.com");
    assert_eq!(RobloxApi::AccountSettings.url(), "accountsettings.roblox.com");
    assert_eq!(RobloxApi::Economy.url(), "economy.roblox.com");
    assert_eq!(RobloxApi::Friends.url(), "friends.roblox.com");
    assert_eq!(RobloxApi::Points.url(), "points.roblox.com");
    assert_eq!(RobloxApi::Badges.url(), "badges.roblox.com");
    assert_eq!(RobloxApi::Avatar.url(), "avatar.roblox.com");
    assert_eq!(RobloxApi::PremiumFeatures.url(), "premiumfeatures.roblox.com");
    assert_eq!(RobloxApi::Auth.url(), "auth.roblox.com");
    assert_eq!(RobloxApi::Custom("api.roblox.com").url(), "api.roblox.com");
}

#[test]
fn method_wire_names() {
    assert_eq!(Method::Get.as_str(), "GET");
    assert_eq!(Method::Post.as_str(), "POST");
    assert_eq!(Method::Put.as_str(), "PUT");
    assert_eq!(Method::Patch.as_str(), "PATCH");
    assert_eq!(Method::Delete.as_str(), "DELETE");
    assert_eq!(Method::Head.as_str(), "HEAD");
}
