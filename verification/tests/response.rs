use oauth2_dcr::{
    registration_response_action, RegistrationResponseAction,
    AuthType, ClientId, ClientName, ClientSecret, DynamicClientRegistrationResponse,
    EmptyExtraDynamicClientRegistrationFields, RedirectUrl, ResponseType, Scope,
    StandardDynamicClientRegistrationResponse,
};

fn sample(expires_at: Option<u64>) -> StandardDynamicClientRegistrationResponse {
    DynamicClientRegistrationResponse {
        client_id: ClientId::new("s6BhdRkqt3".to_string()),
        client_secret: Some(ClientSecret::new("cf136dc3c1fc93f31185e5885805d".to_string())),
        client_id_issued_at: Some(2893256800),
        client_secret_expires_at: expires_at,
        redirect_uris: Some(vec![RedirectUrl::new("https://client.example.org/callback".to_string()).unwrap()]),
        token_endpoint_auth_method: Some("client_secret_basic".to_string()),
        grant_types: Some(vec!["authorization_code".to_string()]),
        response_types: Some(vec![ResponseType::new("code".to_string())]),
        client_name: Some(ClientName::new("My Example Client".to_string())),
        client_uri: None,
        logo_uri: Some("https://client.example.org/logo.png".to_string()),
        scopes: Some(vec![Scope::new("read".to_string()), Scope::new("write".to_string())]),
        contacts: None,
        tos_uri: None,
        policy_uri: None,
        jwks_uri: Some("https://client.example.org/my_public_keys.jwks".to_string()),
        jwks: None,
        software_id: Some("4NRB1-0XZABZI9E6-5SM3R".to_string()),
        software_version: Some("2.1".to_string()),
        software_statement: None,
        extra_fields: EmptyExtraDynamicClientRegistrationFields {},
    }
}

#[test]
fn getters_give_the_registered_values() {
    let r = sample(Some(2893276800));
    assert_eq!(r.client_id().as_str(), "s6BhdRkqt3");
    assert_eq!(r.client_secret().unwrap().secret(), "cf136dc3c1fc93f31185e5885805d");
    assert_eq!(r.client_id_issued_at(), Some(2893256800));
    assert_eq!(r.client_secret_expires_at(), Some(2893276800));
    assert_eq!(r.redirect_uris().unwrap()[0].url(), "https://client.example.org/callback");
    assert_eq!(r.token_endpoint_auth_method(), Some("client_secret_basic"));
    assert_eq!(r.grant_types(), Some(&vec!["authorization_code".to_string()]));
    assert_eq!(r.response_types().unwrap()[0].as_str(), "code");
    assert_eq!(r.client_name().unwrap().as_str(), "My Example Client");
    assert_eq!(r.client_uri(), None);
    assert_eq!(r.logo_uri(), Some("https://client.example.org/logo.png"));
    assert_eq!(r.scopes().unwrap().len(), 2);
    assert_eq!(r.contacts(), None);
    assert_eq!(r.tos_uri(), None);
    assert_eq!(r.policy_uri(), None);
    assert_eq!(r.jwks_uri(), Some("https://client.example.org/my_public_keys.jwks"));
    assert!(r.jwks().is_none());
    assert_eq!(r.software_id(), Some("4NRB1-0XZABZI9E6-5SM3R"));
    assert_eq!(r.software_version(), Some("2.1"));
    assert_eq!(r.software_statement(), None);
    let _extra: &EmptyExtraDynamicClientRegistrationFields = r.extra_fields();
}

#[test]
fn secret_never_expires_only_at_zero() {
    assert!(sample(Some(0)).client_secret_never_expires());
    assert!(!sample(Some(1)).client_secret_never_expires());
    assert!(!sample(None).client_secret_never_expires());
}

#[test]
fn jwks_value_is_kept() {
    let mut r = sample(None);
    r.jwks = Some(serde_json::from_str(r#"{"keys":[{"kty":"RSA"}]}"#).unwrap());
    assert_eq!(r.jwks().unwrap()["keys"][0]["kty"], "RSA");
}

#[test]
fn into_client_keeps_the_credentials_and_sets_no_endpoint() {
    let client = sample(Some(0)).into_client();
    assert_eq!(client.client_id.as_str(), "s6BhdRkqt3");
    assert_eq!(client.client_secret.unwrap().secret(), "cf136dc3c1fc93f31185e5885805d");
    assert_eq!(client.auth_type, AuthType::BasicAuth);
    assert!(client.auth_url.is_none());
    assert!(client.token_url.is_none());
    assert!(client.redirect_url.is_none());
    assert!(client.introspection_url.is_none());
    assert!(client.revocation_url.is_none());
    assert!(client.device_authorization_url.is_none());
}

#[test]
fn into_client_without_secret() {
    let mut r = sample(None);
    r.client_secret = None;
    assert!(r.into_client().client_secret.is_none());
}

#[test]
fn response_actions_follow_status_and_body() {
    assert_eq!(registration_response_action(200, 10), RegistrationResponseAction::ReadRegistration);
    assert_eq!(registration_response_action(201, 1), RegistrationResponseAction::ReadRegistration);
    assert_eq!(registration_response_action(201, 0), RegistrationResponseAction::EmptyResponseBody);
    assert_eq!(registration_response_action(400, 5), RegistrationResponseAction::ReadErrorResponse);
    assert_eq!(registration_response_action(204, 0), RegistrationResponseAction::EmptyErrorResponse);
}
