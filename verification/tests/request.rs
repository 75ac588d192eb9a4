use oauth2_dcr::{
    dynamic_client_registration_impl, is_expected_registration_status, AccessToken, ClientName,
    DynamicClientRegistrationRequest, DynamicClientRegistrationUrl, HttpRequest,
    PrepareRequestError, RedirectUrl, ResponseType, Scope,
};

fn endpoint() -> DynamicClientRegistrationUrl {
    DynamicClientRegistrationUrl::new("https://server.example.com/register".to_string()).unwrap()
}

fn new_request(url: &DynamicClientRegistrationUrl) -> DynamicClientRegistrationRequest<'_> {
    dynamic_client_registration_impl(ClientName::new("My Client".to_string()), url)
}

fn body_text(req: &HttpRequest) -> String {
    String::from_utf8(req.body.clone()).unwrap()
}

fn header<'a>(req: &'a HttpRequest, name: &str) -> Option<&'a str> {
    req.headers.iter().find(|(n, _)| n == name).map(|(_, v)| v.as_str())
}

#[test]
fn new_request_sends_only_the_client_name() {
    let url = endpoint();
    let req = new_request(&url).prepare_request().unwrap();
    assert_eq!(req.method, "POST");
    assert_eq!(req.uri, "https://server.example.com/register");
    assert_eq!(body_text(&req), r#"{"client_name":"My Client"}"#);
    assert_eq!(
        req.headers,
        vec![
            ("accept".to_string(), "application/json".to_string()),
            ("content-type".to_string(), "application/json".to_string()),
        ]
    );
    assert_eq!(header(&req, "authorization"), None);
}

#[test]
fn example_request_body_follows_field_order() {
    let url = endpoint();
    let req = new_request(&url)
        .add_grant_type("authorization_code")
        .add_response_type(ResponseType::new("code".to_string()))
        .set_token_endpoint_auth_method("client_secret_basic")
        .add_redirect_uri(RedirectUrl::new("http://localhost:8080/callback".to_string()).unwrap())
        .prepare_request()
        .unwrap();
    assert_eq!(
        body_text(&req),
        r#"{"redirect_uris":["http://localhost:8080/callback"],"token_endpoint_auth_method":"client_secret_basic","grant_types":["authorization_code"],"response_types":["code"],"client_name":"My Client"}"#
    );
}

#[test]
fn every_metadata_field_is_sent() {
    let url = endpoint();
    let jwks: serde_json::Value = serde_json::from_str(r#"{"keys":[]}"#).unwrap();
    let req = new_request(&url)
        .set_redirect_uris(vec![
            RedirectUrl::new("https://a.example/cb".to_string()).unwrap(),
            RedirectUrl::new("https://b.example/cb".to_string()).unwrap(),
        ])
        .set_token_endpoint_auth_method("none")
        .set_grant_types(vec!["authorization_code".to_string(), "refresh_token".to_string()])
        .set_response_types(vec![ResponseType::new("code".to_string())])
        .set_client_name(ClientName::new("Other".to_string()))
        .set_client_uri("https://client.example")
        .set_logo_uri("https://client.example/logo.png")
        .set_scope(Scope::new("openid".to_string()))
        .set_contacts(vec!["ops@example.com".to_string()])
        .add_contact("dev@example.com")
        .set_tos_uri("https://client.example/tos")
        .set_policy_uri("https://client.example/policy")
        .set_jwks_uri("https://client.example/jwks")
        .set_jwks(jwks)
        .set_software_id("sw-1")
        .set_software_version("1.2")
        .set_software_statement("eyJ.x.y")
        .prepare_request()
        .unwrap();
    assert_eq!(
        body_text(&req),
        r#"{"redirect_uris":["https://a.example/cb","https://b.example/cb"],"token_endpoint_auth_method":"none","grant_types":["authorization_code","refresh_token"],"response_types":["code"],"client_name":"Other","client_uri":"https://client.example","logo_uri":"https://client.example/logo.png","scope":"openid","contacts":["ops@example.com","dev@example.com"],"tos_uri":"https://client.example/tos","policy_uri":"https://client.example/policy","jwks_uri":"https://client.example/jwks","jwks":{"keys":[]},"software_id":"sw-1","software_version":"1.2","software_statement":"eyJ.x.y"}"#
    );
}

#[test]
fn redirect_uris_are_sent_normalized() {
    let url = endpoint();
    let req = new_request(&url)
        .add_redirect_uri(RedirectUrl::new("HTTP://Example.COM".to_string()).unwrap())
        .prepare_request()
        .unwrap();
    assert_eq!(
        body_text(&req),
        r#"{"redirect_uris":["http://example.com/"],"client_name":"My Client"}"#
    );
}

#[test]
fn strings_are_escaped_in_the_body() {
    let url = endpoint();
    let req = dynamic_client_registration_impl(
        ClientName::new("My \"Client\"\n\\".to_string()),
        &url,
    )
    .prepare_request()
    .unwrap();
    assert_eq!(body_text(&req), "{\"client_name\":\"My \\\"Client\\\"\\n\\\\\"}");
}

#[test]
fn set_scopes_joins_with_spaces() {
    let url = endpoint();
    let req = new_request(&url)
        .set_scopes(vec![Scope::new("read".to_string()), Scope::new("write".to_string())])
        .prepare_request()
        .unwrap();
    assert_eq!(body_text(&req), r#"{"client_name":"My Client","scope":"read write"}"#);
}

#[test]
fn set_scopes_equals_set_scope_of_the_joined_text() {
    let url = endpoint();
    let a = new_request(&url)
        .set_scopes(vec![Scope::new("a".to_string()), Scope::new("b".to_string())])
        .prepare_request()
        .unwrap();
    let b = new_request(&url)
        .set_scope(Scope::new("a b".to_string()))
        .prepare_request()
        .unwrap();
    assert_eq!(a.body, b.body);
}

#[test]
fn setting_replaces_and_adding_appends() {
    let url = endpoint();
    let req = new_request(&url)
        .add_grant_type("a")
        .set_grant_types(vec!["b".to_string()])
        .add_grant_type("c")
        .set_client_uri("https://one.example")
        .set_client_uri("https://two.example")
        .prepare_request()
        .unwrap();
    assert_eq!(
        body_text(&req),
        r#"{"grant_types":["b","c"],"client_name":"My Client","client_uri":"https://two.example"}"#
    );
}

#[test]
fn empty_lists_are_left_out() {
    let url = endpoint();
    let req = new_request(&url)
        .set_contacts(Vec::new())
        .set_redirect_uris(Vec::new())
        .prepare_request()
        .unwrap();
    assert_eq!(body_text(&req), r#"{"client_name":"My Client"}"#);
}

#[test]
fn extra_params_follow_the_metadata_and_the_last_value_wins() {
    let url = endpoint();
    let req = new_request(&url)
        .add_extra_param("client_name#en", "A")
        .add_extra_param("x", "1")
        .add_extra_param("client_name#en", "B")
        .prepare_request()
        .unwrap();
    assert_eq!(
        body_text(&req),
        r#"{"client_name":"My Client","client_name#en":"B","x":"1"}"#
    );
}

#[test]
fn initial_access_token_goes_in_a_bearer_header() {
    let url = endpoint();
    let req = new_request(&url)
        .set_initial_access_token(AccessToken::new("abc.def".to_string()))
        .prepare_request()
        .unwrap();
    assert_eq!(header(&req, "authorization"), Some("Bearer abc.def"));
    assert_eq!(req.headers.len(), 3);
    assert_eq!(body_text(&req), r#"{"client_name":"My Client"}"#);
}

#[test]
fn token_with_a_newline_is_refused() {
    let url = endpoint();
    let r = new_request(&url)
        .set_initial_access_token(AccessToken::new("abc\ndef".to_string()))
        .prepare_request();
    assert!(matches!(r, Err(PrepareRequestError::AuthorizationHeader(_))));
}

#[test]
fn token_beyond_ascii_is_accepted() {
    let url = endpoint();
    let req = new_request(&url)
        .set_initial_access_token(AccessToken::new("tök\tn".to_string()))
        .prepare_request()
        .unwrap();
    assert_eq!(header(&req, "authorization"), Some("Bearer tök\tn"));
}

#[test]
fn endpoint_that_is_no_http_uri_is_refused() {
    let url = DynamicClientRegistrationUrl::new("urn:example:registration".to_string())
        .unwrap();
    let r = new_request(&url).prepare_request();
    assert!(matches!(r, Err(PrepareRequestError::InvalidUri(_))));
}

#[test]
fn assembled_request_takes_the_given_key_set_text() {
    let url = endpoint();
    let req = new_request(&url);
    let http = req.assemble_request(Some(b"{\"keys\":[1]}".to_vec())).unwrap();
    assert_eq!(body_text(&http), r#"{"client_name":"My Client","jwks":{"keys":[1]}}"#);
    let plain = req.assemble_request(None).unwrap();
    assert_eq!(body_text(&plain), r#"{"client_name":"My Client"}"#);
}

#[test]
fn registration_success_statuses() {
    assert!(is_expected_registration_status(200));
    assert!(is_expected_registration_status(201));
    assert!(!is_expected_registration_status(202));
    assert!(!is_expected_registration_status(204));
    assert!(!is_expected_registration_status(400));
}

#[test]
fn key_set_is_sent_as_serde_json_writes_it() {
    let url = endpoint();
    let jwks: serde_json::Value =
        serde_json::from_str(r#"{ "keys" : [ { "kty" : "EC", "crv" : "P-256" } ] }"#).unwrap();
    let expected = serde_json::to_string(&jwks).unwrap();
    let req = new_request(&url).set_jwks(jwks).prepare_request().unwrap();
    assert_eq!(
        body_text(&req),
        format!("{{\"client_name\":\"My Client\",\"jwks\":{expected}}}")
    );
    assert_eq!(expected, r#"{"keys":[{"crv":"P-256","kty":"EC"}]}"#);
}
