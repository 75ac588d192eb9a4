use oauth2_dcr::{BasicErrorResponseType, DynamicClientRegistrationErrorResponseType};

type Dcr = DynamicClientRegistrationErrorResponseType;

#[test]
fn basic_codes_are_read_by_name() {
    assert!(BasicErrorResponseType::from_str("invalid_client") == BasicErrorResponseType::InvalidClient);
    assert!(BasicErrorResponseType::from_str("invalid_grant") == BasicErrorResponseType::InvalidGrant);
    assert!(BasicErrorResponseType::from_str("invalid_request") == BasicErrorResponseType::InvalidRequest);
    assert!(BasicErrorResponseType::from_str("invalid_scope") == BasicErrorResponseType::InvalidScope);
    assert!(BasicErrorResponseType::from_str("unauthorized_client") == BasicErrorResponseType::UnauthorizedClient);
    assert!(BasicErrorResponseType::from_str("unsupported_grant_type") == BasicErrorResponseType::UnsupportedGrantType);
    assert!(BasicErrorResponseType::from_str("Invalid_Client") == BasicErrorResponseType::Extension("Invalid_Client".to_string()));
}

#[test]
fn registration_codes_are_read_by_name() {
    assert!(Dcr::from_str("invalid_redirect_uri") == Dcr::InvalidRedirectUri);
    assert!(Dcr::from_str("invalid_client_metadata") == Dcr::InvalidClientMetadata);
    assert!(Dcr::from_str("invalid_software_statement") == Dcr::InvalidSoftwareStatement);
    assert!(Dcr::from_str("unapproved_software_statement") == Dcr::UnapprovedSoftwareStatement);
    assert!(Dcr::from_str("invalid_scope") == Dcr::Basic(BasicErrorResponseType::InvalidScope));
    assert!(Dcr::from_str("server_error") == Dcr::Basic(BasicErrorResponseType::Extension("server_error".to_string())));
    assert!(Dcr::from_str("") == Dcr::Basic(BasicErrorResponseType::Extension(String::new())));
}

#[test]
fn registration_codes_are_written_by_name() {
    assert!(Dcr::InvalidRedirectUri.as_ref() == "invalid_redirect_uri");
    assert!(Dcr::InvalidClientMetadata.as_ref() == "invalid_client_metadata");
    assert!(Dcr::InvalidSoftwareStatement.as_ref() == "invalid_software_statement");
    assert!(Dcr::UnapprovedSoftwareStatement.as_ref() == "unapproved_software_statement");
    assert!(Dcr::Basic(BasicErrorResponseType::InvalidGrant).as_ref() == "invalid_grant");
    assert!(Dcr::Basic(BasicErrorResponseType::Extension("temporarily_unavailable".to_string())).as_ref() == "temporarily_unavailable");
}

#[test]
fn any_name_reads_and_writes_back_unchanged() {
    for name in [
        "invalid_client",
        "invalid_grant",
        "invalid_request",
        "invalid_scope",
        "unauthorized_client",
        "unsupported_grant_type",
        "invalid_redirect_uri",
        "invalid_client_metadata",
        "invalid_software_statement",
        "unapproved_software_statement",
        "access_denied",
        "",
        "invalid client",
    ] {
        assert!(Dcr::from_str(name).as_ref() == name);
        assert!(BasicErrorResponseType::from_str(name).as_ref() == name);
    }
}

#[test]
fn canonical_codes_write_and_read_back_unchanged() {
    let codes = vec![
        Dcr::InvalidRedirectUri,
        Dcr::InvalidClientMetadata,
        Dcr::InvalidSoftwareStatement,
        Dcr::UnapprovedSoftwareStatement,
        Dcr::Basic(BasicErrorResponseType::InvalidClient),
        Dcr::Basic(BasicErrorResponseType::UnsupportedGrantType),
        Dcr::Basic(BasicErrorResponseType::Extension("slow_down".to_string())),
    ];
    for code in codes {
        assert!(Dcr::from_str(code.as_ref()) == code);
    }
}

#[test]
fn non_canonical_extension_reads_back_as_the_standard_code() {
    let code = Dcr::Basic(BasicErrorResponseType::Extension("invalid_redirect_uri".to_string()));
    assert!(Dcr::from_str(code.as_ref()) == Dcr::InvalidRedirectUri);
    assert!(Dcr::from_str(code.as_ref()) != code);
}

#[test]
fn error_codes_compare_by_value() {
    assert!(BasicErrorResponseType::Extension("a".to_string()) == BasicErrorResponseType::Extension("a".to_string()));
    assert!(BasicErrorResponseType::Extension("a".to_string()) != BasicErrorResponseType::Extension("b".to_string()));
    assert!(Dcr::InvalidRedirectUri != Dcr::InvalidClientMetadata);
}
