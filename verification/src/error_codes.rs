use vstd::prelude::*;

use crate::text::str_eq;

verus! {

/// The value of a basic OAuth 2.0 error code.
pub enum BasicErrorCode {
    InvalidClient,
    InvalidGrant,
    InvalidRequest,
    InvalidScope,
    UnauthorizedClient,
    UnsupportedGrantType,
    Extension(Seq<char>),
}

/// The value of a dynamic client registration error code.
pub enum RegistrationErrorCode {
    InvalidRedirectUri,
    InvalidClientMetadata,
    InvalidSoftwareStatement,
    UnapprovedSoftwareStatement,
    Basic(BasicErrorCode),
}

/// Basic OAuth 2.0 error response types.
#[derive(Clone, Eq)]
pub enum BasicErrorResponseType {
    /// Client authentication failed.
    InvalidClient,
    /// The provided authorization grant or refresh token is invalid.
    InvalidGrant,
    /// The request is missing a parameter or is otherwise malformed.
    InvalidRequest,
    /// The requested scope is invalid, unknown or malformed.
    InvalidScope,
    /// The client is not authorized to use this grant type.
    UnauthorizedClient,
    /// The grant type is not supported by the authorization server.
    UnsupportedGrantType,
    /// Any other error code.
    Extension(String),
}

impl View for BasicErrorResponseType {
    type V = BasicErrorCode;

    open spec fn view(&self) -> BasicErrorCode {
        match self {
            BasicErrorResponseType::InvalidClient => BasicErrorCode::InvalidClient,
            BasicErrorResponseType::InvalidGrant => BasicErrorCode::InvalidGrant,
            BasicErrorResponseType::InvalidRequest => BasicErrorCode::InvalidRequest,
            BasicErrorResponseType::InvalidScope => BasicErrorCode::InvalidScope,
            BasicErrorResponseType::UnauthorizedClient => BasicErrorCode::UnauthorizedClient,
            BasicErrorResponseType::UnsupportedGrantType => BasicErrorCode::UnsupportedGrantType,
            BasicErrorResponseType::Extension(e) => BasicErrorCode::Extension(e@),
        }
    }
}

impl PartialEq for BasicErrorResponseType {
    fn eq(&self, other: &Self) -> (r: bool) {
        match (self, other) {
            (BasicErrorResponseType::InvalidClient, BasicErrorResponseType::InvalidClient) => true,
            (BasicErrorResponseType::InvalidGrant, BasicErrorResponseType::InvalidGrant) => true,
            (BasicErrorResponseType::InvalidRequest, BasicErrorResponseType::InvalidRequest) => true,
            (BasicErrorResponseType::InvalidScope, BasicErrorResponseType::InvalidScope) => true,
            (
                BasicErrorResponseType::UnauthorizedClient,
                BasicErrorResponseType::UnauthorizedClient,
            ) => true,
            (
                BasicErrorResponseType::UnsupportedGrantType,
                BasicErrorResponseType::UnsupportedGrantType,
            ) => true,
            (BasicErrorResponseType::Extension(a), BasicErrorResponseType::Extension(b)) => {
                str_eq(a.as_str(), b.as_str())
            },
            _ => false,
        }
    }
}

impl vstd::std_specs::cmp::PartialEqSpecImpl for BasicErrorResponseType {
    open spec fn obeys_eq_spec() -> bool {
        true
    }

    open spec fn eq_spec(&self, other: &Self) -> bool {
        self@ == other@
    }
}

/// The wire name of a basic error code.
pub open spec fn basic_code_name(c: BasicErrorCode) -> Seq<char> {
    match c {
        BasicErrorCode::InvalidClient => "invalid_client"@,
        BasicErrorCode::InvalidGrant => "invalid_grant"@,
        BasicErrorCode::InvalidRequest => "invalid_request"@,
        BasicErrorCode::InvalidScope => "invalid_scope"@,
        BasicErrorCode::UnauthorizedClient => "unauthorized_client"@,
        BasicErrorCode::UnsupportedGrantType => "unsupported_grant_type"@,
        BasicErrorCode::Extension(e) => e,
    }
}

/// The basic error code that a wire name stands for: one of the six
/// standard codes where the name is theirs, an extension otherwise.
pub open spec fn basic_code_from_name(s: Seq<char>) -> BasicErrorCode {
    if s == "invalid_client"@ {
        BasicErrorCode::InvalidClient
    } else if s == "invalid_grant"@ {
        BasicErrorCode::InvalidGrant
    } else if s == "invalid_request"@ {
        BasicErrorCode::InvalidRequest
    } else if s == "invalid_scope"@ {
        BasicErrorCode::InvalidScope
    } else if s == "unauthorized_client"@ {
        BasicErrorCode::UnauthorizedClient
    } else if s == "unsupported_grant_type"@ {
        BasicErrorCode::UnsupportedGrantType
    } else {
        BasicErrorCode::Extension(s)
    }
}

/// Whether `s` is the wire name of one of the six standard basic codes.
pub open spec fn is_standard_basic_name(s: Seq<char>) -> bool {
    s == "invalid_client"@ || s == "invalid_grant"@ || s == "invalid_request"@ || s
        == "invalid_scope"@ || s == "unauthorized_client"@ || s == "unsupported_grant_type"@
}

/// Whether `s` is the wire name of one of the four registration codes.
pub open spec fn is_registration_name(s: Seq<char>) -> bool {
    s == "invalid_redirect_uri"@ || s == "invalid_client_metadata"@ || s
        == "invalid_software_statement"@ || s == "unapproved_software_statement"@
}

/// A basic code in its one canonical form: an extension does not carry the
/// name of a standard code.
pub open spec fn basic_code_is_canonical(c: BasicErrorCode) -> bool {
    c matches BasicErrorCode::Extension(e) ==> !is_standard_basic_name(e)
}

impl BasicErrorResponseType {
    /// The error type that the wire name `s` stands for.
    pub fn from_str(s: &str) -> (r: Self)
        ensures
            r@ == basic_code_from_name(s@),
    {
        if str_eq(s, "invalid_client") {
            BasicErrorResponseType::InvalidClient
        } else if str_eq(s, "invalid_grant") {
            BasicErrorResponseType::InvalidGrant
        } else if str_eq(s, "invalid_request") {
            BasicErrorResponseType::InvalidRequest
        } else if str_eq(s, "invalid_scope") {
            BasicErrorResponseType::InvalidScope
        } else if str_eq(s, "unauthorized_client") {
            BasicErrorResponseType::UnauthorizedClient
        } else if str_eq(s, "unsupported_grant_type") {
            BasicErrorResponseType::UnsupportedGrantType
        } else {
            BasicErrorResponseType::Extension(s.to_owned())
        }
    }

    /// The wire name of this error type.
    pub fn as_ref(&self) -> (r: &str)
        ensures
            r@ == basic_code_name(self@),
    {
        match self {
            BasicErrorResponseType::InvalidClient => "invalid_client",
            BasicErrorResponseType::InvalidGrant => "invalid_grant",
            BasicErrorResponseType::InvalidRequest => "invalid_request",
            BasicErrorResponseType::InvalidScope => "invalid_scope",
            BasicErrorResponseType::UnauthorizedClient => "unauthorized_client",
            BasicErrorResponseType::UnsupportedGrantType => "unsupported_grant_type",
            BasicErrorResponseType::Extension(e) => e.as_str(),
        }
    }
}

/// Dynamic client registration error types.
#[derive(Clone, Eq)]
pub enum DynamicClientRegistrationErrorResponseType {
    /// The value of one or more redirection URIs is invalid.
    InvalidRedirectUri,
    /// The value of one of the client metadata fields is invalid and the
    /// server has rejected this request.
    InvalidClientMetadata,
    /// The software statement presented is invalid.
    InvalidSoftwareStatement,
    /// The software statement presented is not approved for use by this
    /// authorization server.
    UnapprovedSoftwareStatement,
    /// A basic error type.
    Basic(BasicErrorResponseType),
}

impl View for DynamicClientRegistrationErrorResponseType {
    type V = RegistrationErrorCode;

    open spec fn view(&self) -> RegistrationErrorCode {
        match self {
            DynamicClientRegistrationErrorResponseType::InvalidRedirectUri => {
                RegistrationErrorCode::InvalidRedirectUri
            },
            DynamicClientRegistrationErrorResponseType::InvalidClientMetadata => {
                RegistrationErrorCode::InvalidClientMetadata
            },
            DynamicClientRegistrationErrorResponseType::InvalidSoftwareStatement => {
                RegistrationErrorCode::InvalidSoftwareStatement
            },
            DynamicClientRegistrationErrorResponseType::UnapprovedSoftwareStatement => {
                RegistrationErrorCode::UnapprovedSoftwareStatement
            },
            DynamicClientRegistrationErrorResponseType::Basic(b) => RegistrationErrorCode::Basic(
                b@,
            ),
        }
    }
}

impl PartialEq for DynamicClientRegistrationErrorResponseType {
    fn eq(&self, other: &Self) -> (r: bool) {
        match (self, other) {
            (
                DynamicClientRegistrationErrorResponseType::InvalidRedirectUri,
                DynamicClientRegistrationErrorResponseType::InvalidRedirectUri,
            ) => true,
            (
                DynamicClientRegistrationErrorResponseType::InvalidClientMetadata,
                DynamicClientRegistrationErrorResponseType::InvalidClientMetadata,
            ) => true,
            (
                DynamicClientRegistrationErrorResponseType::InvalidSoftwareStatement,
                DynamicClientRegistrationErrorResponseType::InvalidSoftwareStatement,
            ) => true,
            (
                DynamicClientRegistrationErrorResponseType::UnapprovedSoftwareStatement,
                DynamicClientRegistrationErrorResponseType::UnapprovedSoftwareStatement,
            ) => true,
            (
                DynamicClientRegistrationErrorResponseType::Basic(a),
                DynamicClientRegistrationErrorResponseType::Basic(b),
            ) => a.eq(b),
            _ => false,
        }
    }
}

impl vstd::std_specs::cmp::PartialEqSpecImpl for DynamicClientRegistrationErrorResponseType {
    open spec fn obeys_eq_spec() -> bool {
        true
    }

    open spec fn eq_spec(&self, other: &Self) -> bool {
        self@ == other@
    }
}

/// The wire name of a registration error code.
pub open spec fn registration_code_name(c: RegistrationErrorCode) -> Seq<char> {
    match c {
        RegistrationErrorCode::InvalidRedirectUri => "invalid_redirect_uri"@,
        RegistrationErrorCode::InvalidClientMetadata => "invalid_client_metadata"@,
        RegistrationErrorCode::InvalidSoftwareStatement => "invalid_software_statement"@,
        RegistrationErrorCode::UnapprovedSoftwareStatement => "unapproved_software_statement"@,
        RegistrationErrorCode::Basic(b) => basic_code_name(b),
    }
}

/// The registration error code that a wire name stands for: a standard
/// basic code first, then one of the four registration codes, an extension
/// otherwise.
pub open spec fn registration_code_from_name(s: Seq<char>) -> RegistrationErrorCode {
    match basic_code_from_name(s) {
        BasicErrorCode::Extension(e) => {
            if e == "invalid_redirect_uri"@ {
                RegistrationErrorCode::InvalidRedirectUri
            } else if e == "invalid_client_metadata"@ {
                RegistrationErrorCode::InvalidClientMetadata
            } else if e == "invalid_software_statement"@ {
                RegistrationErrorCode::InvalidSoftwareStatement
            } else if e == "unapproved_software_statement"@ {
                RegistrationErrorCode::UnapprovedSoftwareStatement
            } else {
                RegistrationErrorCode::Basic(BasicErrorCode::Extension(e))
            }
        },
        b => RegistrationErrorCode::Basic(b),
    }
}

/// A registration code in its one canonical form: an extension carries the
/// name of no standard basic code and of no registration code.
pub open spec fn registration_code_is_canonical(c: RegistrationErrorCode) -> bool {
    c matches RegistrationErrorCode::Basic(BasicErrorCode::Extension(e)) ==> !is_standard_basic_name(
        e,
    ) && !is_registration_name(e)
}

impl DynamicClientRegistrationErrorResponseType {
    /// The error type that the wire name `s` stands for.
    pub fn from_str(s: &str) -> (r: Self)
        ensures
            r@ == registration_code_from_name(s@),
    {
        match BasicErrorResponseType::from_str(s) {
            BasicErrorResponseType::Extension(ext) => {
                if str_eq(ext.as_str(), "invalid_redirect_uri") {
                    DynamicClientRegistrationErrorResponseType::InvalidRedirectUri
                } else if str_eq(ext.as_str(), "invalid_client_metadata") {
                    DynamicClientRegistrationErrorResponseType::InvalidClientMetadata
                } else if str_eq(ext.as_str(), "invalid_software_statement") {
                    DynamicClientRegistrationErrorResponseType::InvalidSoftwareStatement
                } else if str_eq(ext.as_str(), "unapproved_software_statement") {
                    DynamicClientRegistrationErrorResponseType::UnapprovedSoftwareStatement
                } else {
                    DynamicClientRegistrationErrorResponseType::Basic(
                        BasicErrorResponseType::Extension(ext),
                    )
                }
            },
            basic => DynamicClientRegistrationErrorResponseType::Basic(basic),
        }
    }

    /// The wire name of this error type.
    pub fn as_ref(&self) -> (r: &str)
        ensures
            r@ == registration_code_name(self@),
    {
        match self {
            DynamicClientRegistrationErrorResponseType::InvalidRedirectUri => "invalid_redirect_uri",
            DynamicClientRegistrationErrorResponseType::InvalidClientMetadata => {
                "invalid_client_metadata"
            },
            DynamicClientRegistrationErrorResponseType::InvalidSoftwareStatement => {
                "invalid_software_statement"
            },
            DynamicClientRegistrationErrorResponseType::UnapprovedSoftwareStatement => {
                "unapproved_software_statement"
            },
            DynamicClientRegistrationErrorResponseType::Basic(basic) => basic.as_ref(),
        }
    }
}

proof fn lemma_names_distinct()
    ensures
        "invalid_client"@.len() == 14,
        "invalid_grant"@.len() == 13,
        "invalid_request"@.len() == 15,
        "invalid_scope"@.len() == 13,
        "unauthorized_client"@.len() == 19,
        "unsupported_grant_type"@.len() == 22,
        "invalid_redirect_uri"@.len() == 20,
        "invalid_client_metadata"@.len() == 23,
        "invalid_software_statement"@.len() == 26,
        "unapproved_software_statement"@.len() == 29,
        "invalid_grant"@ != "invalid_scope"@,
{
    reveal_strlit("invalid_client");
    reveal_strlit("invalid_grant");
    reveal_strlit("invalid_request");
    reveal_strlit("invalid_scope");
    reveal_strlit("unauthorized_client");
    reveal_strlit("unsupported_grant_type");
    reveal_strlit("invalid_redirect_uri");
    reveal_strlit("invalid_client_metadata");
    reveal_strlit("invalid_software_statement");
    reveal_strlit("unapproved_software_statement");
    assert("invalid_grant"@[8] != "invalid_scope"@[8]);
}

/// The wire names of the codes: each standard code reads from and writes to
/// its own name.
pub proof fn law_code_names()
    ensures
        basic_code_from_name("invalid_client"@) == BasicErrorCode::InvalidClient,
        basic_code_from_name("invalid_grant"@) == BasicErrorCode::InvalidGrant,
        basic_code_from_name("invalid_request"@) == BasicErrorCode::InvalidRequest,
        basic_code_from_name("invalid_scope"@) == BasicErrorCode::InvalidScope,
        basic_code_from_name("unauthorized_client"@) == BasicErrorCode::UnauthorizedClient,
        basic_code_from_name("unsupported_grant_type"@) == BasicErrorCode::UnsupportedGrantType,
        registration_code_from_name("invalid_redirect_uri"@) == RegistrationErrorCode::InvalidRedirectUri,
        registration_code_from_name("invalid_client_metadata"@)
            == RegistrationErrorCode::InvalidClientMetadata,
        registration_code_from_name("invalid_software_statement"@)
            == RegistrationErrorCode::InvalidSoftwareStatement,
        registration_code_from_name("unapproved_software_statement"@)
            == RegistrationErrorCode::UnapprovedSoftwareStatement,
        forall|c: BasicErrorCode| #[trigger] registration_code_from_name(basic_code_name(c))
            == RegistrationErrorCode::Basic(c) <== basic_code_is_canonical(c) && !(c matches BasicErrorCode::Extension(e) && is_registration_name(e)),
{
    lemma_names_distinct();
    assert forall|c: BasicErrorCode| basic_code_is_canonical(c) && !(c matches BasicErrorCode::Extension(e) && is_registration_name(e)) implies #[trigger] registration_code_from_name(basic_code_name(c))
        == RegistrationErrorCode::Basic(c) by {
        law_basic_code_round_trip(c);
    }
}

/// Reading a basic error code from any name and writing it back gives that
/// name again.
pub proof fn law_basic_name_round_trip(s: Seq<char>)
    ensures
        basic_code_name(basic_code_from_name(s)) == s,
{
}

/// Writing a canonical basic error code and reading the name back gives the
/// same code.
pub proof fn law_basic_code_round_trip(c: BasicErrorCode)
    requires
        basic_code_is_canonical(c),
    ensures
        basic_code_from_name(basic_code_name(c)) == c,
{
    lemma_names_distinct();
}

/// Reading a registration error code from any name and writing it back gives
/// that name again.
pub proof fn law_registration_name_round_trip(s: Seq<char>)
    ensures
        registration_code_name(registration_code_from_name(s)) == s,
{
}

/// Writing a canonical registration error code and reading the name back
/// gives the same code.
pub proof fn law_registration_code_round_trip(c: RegistrationErrorCode)
    requires
        registration_code_is_canonical(c),
    ensures
        registration_code_from_name(registration_code_name(c)) == c,
{
    lemma_names_distinct();
}

} // verus!
