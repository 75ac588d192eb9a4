use vstd::prelude::*;

use crate::request::{is_expected_registration_status, opt_text};
use crate::types::{ClientId, ClientName, ClientSecret, RedirectUrl, ResponseType, Scope};

verus! {

/// Extra fields that a registration response may carry beyond the standard
/// ones.
pub trait ExtraDynamicClientRegistrationFields {}

/// No extra fields: the extra fields of a response are dropped.
#[derive(Clone, Debug)]
pub struct EmptyExtraDynamicClientRegistrationFields {}

impl ExtraDynamicClientRegistrationFields for EmptyExtraDynamicClientRegistrationFields {}

/// The value an optional field holds, by reference.
fn opt_ref<T>(o: &Option<T>) -> (r: Option<&T>)
    ensures
        r is Some <==> o is Some,
        r matches Some(x) ==> *x == o->0,
{
    match o {
        Some(x) => Some(x),
        None => None,
    }
}

/// The text an optional text field holds.
fn opt_str(o: &Option<String>) -> (r: Option<&str>)
    ensures
        opt_text(r) == opt_text(*o),
{
    match o {
        Some(s) => Some(s.as_str()),
        None => None,
    }
}

/// Standard OAuth 2.0 dynamic client registration response.
#[derive(Clone, Debug)]
pub struct DynamicClientRegistrationResponse<EF: ExtraDynamicClientRegistrationFields> {
    pub client_id: ClientId,
    pub client_secret: Option<ClientSecret>,
    pub client_id_issued_at: Option<u64>,
    pub client_secret_expires_at: Option<u64>,
    pub redirect_uris: Option<Vec<RedirectUrl>>,
    pub token_endpoint_auth_method: Option<String>,
    pub grant_types: Option<Vec<String>>,
    pub response_types: Option<Vec<ResponseType>>,
    pub client_name: Option<ClientName>,
    pub client_uri: Option<String>,
    pub logo_uri: Option<String>,
    pub scopes: Option<Vec<Scope>>,
    pub contacts: Option<Vec<String>>,
    pub tos_uri: Option<String>,
    pub policy_uri: Option<String>,
    pub jwks_uri: Option<String>,
    pub jwks: Option<serde_json::Value>,
    pub software_id: Option<String>,
    pub software_version: Option<String>,
    pub software_statement: Option<String>,
    pub extra_fields: EF,
}

/// A registration response whose extra fields are dropped.
pub type StandardDynamicClientRegistrationResponse = DynamicClientRegistrationResponse<
    EmptyExtraDynamicClientRegistrationFields,
>;

/// What to do with the answer of the registration endpoint.
#[derive(Clone, Copy, Debug, PartialEq, Eq, Structural)]
pub enum RegistrationResponseAction {
    /// Read the body as a registration response.
    ReadRegistration,
    /// Read the body as an error response.
    ReadErrorResponse,
    /// Fail: the server answered an error with an empty body.
    EmptyErrorResponse,
    /// Fail: the server answered success with an empty body.
    EmptyResponseBody,
}

/// What to do with an answer of status `status` and a body of `body_len`
/// bytes: read a registration response on success (200 or 201), an error
/// response otherwise, and fail where the body is empty.
pub fn registration_response_action(status: u16, body_len: usize) -> (r: RegistrationResponseAction)
    ensures
        r == if status == 200 || status == 201 {
            if body_len == 0 {
                RegistrationResponseAction::EmptyResponseBody
            } else {
                RegistrationResponseAction::ReadRegistration
            }
        } else {
            if body_len == 0 {
                RegistrationResponseAction::EmptyErrorResponse
            } else {
                RegistrationResponseAction::ReadErrorResponse
            }
        },
{
    if is_expected_registration_status(status) {
        if body_len == 0 {
            RegistrationResponseAction::EmptyResponseBody
        } else {
            RegistrationResponseAction::ReadRegistration
        }
    } else {
        if body_len == 0 {
            RegistrationResponseAction::EmptyErrorResponse
        } else {
            RegistrationResponseAction::ReadErrorResponse
        }
    }
}

/// How a client authenticates to the token endpoint.
#[derive(Clone, Copy, Debug, PartialEq, Eq, Structural)]
pub enum AuthType {
    /// The client id and secret go in the request body.
    RequestBody,
    /// The client id and secret go in an HTTP Basic `Authorization` header.
    BasicAuth,
}

/// An OAuth 2.0 client: its credentials, how it authenticates, and the
/// endpoint URLs it has been given (each `None` until set).
#[derive(Clone, Debug)]
pub struct Client {
    pub client_id: ClientId,
    pub client_secret: Option<ClientSecret>,
    pub auth_url: Option<String>,
    pub auth_type: AuthType,
    pub token_url: Option<String>,
    pub redirect_url: Option<RedirectUrl>,
    pub introspection_url: Option<String>,
    pub revocation_url: Option<String>,
    pub device_authorization_url: Option<String>,
}

impl<EF: ExtraDynamicClientRegistrationFields> DynamicClientRegistrationResponse<EF> {
    /// OAuth 2.0 client identifier assigned by the authorization server.
    pub fn client_id(&self) -> (r: &ClientId)
        ensures
            *r == self.client_id,
    {
        &self.client_id
    }

    /// OAuth 2.0 client secret, if issued for a confidential client.
    pub fn client_secret(&self) -> (r: Option<&ClientSecret>)
        ensures
            r is Some <==> self.client_secret is Some,
            r matches Some(x) ==> *x == self.client_secret->0,
    {
        opt_ref(&self.client_secret)
    }

    /// Time at which the client identifier was issued, as seconds since the
    /// Unix epoch.
    pub fn client_id_issued_at(&self) -> (r: Option<u64>)
        ensures
            r == self.client_id_issued_at,
    {
        self.client_id_issued_at
    }

    /// Time at which the client secret will expire, as seconds since the
    /// Unix epoch; `0` means that it will not expire.
    pub fn client_secret_expires_at(&self) -> (r: Option<u64>)
        ensures
            r == self.client_secret_expires_at,
    {
        self.client_secret_expires_at
    }

    /// Whether the client secret will not expire: its expiry time is given
    /// and is `0`.
    pub fn client_secret_never_expires(&self) -> (r: bool)
        ensures
            r == (self.client_secret_expires_at == Some(0u64)),
    {
        match self.client_secret_expires_at {
            Some(t) => t == 0,
            None => false,
        }
    }

    /// Registered redirection URIs for redirect-based flows.
    pub fn redirect_uris(&self) -> (r: Option<&Vec<RedirectUrl>>)
        ensures
            r is Some <==> self.redirect_uris is Some,
            r matches Some(x) ==> *x == self.redirect_uris->0,
    {
        opt_ref(&self.redirect_uris)
    }

    /// Registered token endpoint authentication method.
    pub fn token_endpoint_auth_method(&self) -> (r: Option<&str>)
        ensures
            opt_text(r) == opt_text(self.token_endpoint_auth_method),
    {
        opt_str(&self.token_endpoint_auth_method)
    }

    /// Registered OAuth 2.0 grant types.
    pub fn grant_types(&self) -> (r: Option<&Vec<String>>)
        ensures
            r is Some <==> self.grant_types is Some,
            r matches Some(x) ==> *x == self.grant_types->0,
    {
        opt_ref(&self.grant_types)
    }

    /// Registered OAuth 2.0 response types.
    pub fn response_types(&self) -> (r: Option<&Vec<ResponseType>>)
        ensures
            r is Some <==> self.response_types is Some,
            r matches Some(x) ==> *x == self.response_types->0,
    {
        opt_ref(&self.response_types)
    }

    /// Registered human-readable client name.
    pub fn client_name(&self) -> (r: Option<&ClientName>)
        ensures
            r is Some <==> self.client_name is Some,
            r matches Some(x) ==> *x == self.client_name->0,
    {
        opt_ref(&self.client_name)
    }

    /// Registered URL of a web page providing information about the client.
    pub fn client_uri(&self) -> (r: Option<&str>)
        ensures
            opt_text(r) == opt_text(self.client_uri),
    {
        opt_str(&self.client_uri)
    }

    /// Registered URL of the client's logo.
    pub fn logo_uri(&self) -> (r: Option<&str>)
        ensures
            opt_text(r) == opt_text(self.logo_uri),
    {
        opt_str(&self.logo_uri)
    }

    /// Registered scope values the client may request.
    pub fn scopes(&self) -> (r: Option<&Vec<Scope>>)
        ensures
            r is Some <==> self.scopes is Some,
            r matches Some(x) ==> *x == self.scopes->0,
    {
        opt_ref(&self.scopes)
    }

    /// Registered contact addresses for people responsible for this client.
    pub fn contacts(&self) -> (r: Option<&Vec<String>>)
        ensures
            r is Some <==> self.contacts is Some,
            r matches Some(x) ==> *x == self.contacts->0,
    {
        opt_ref(&self.contacts)
    }

    /// Registered URL of the client's terms of service document.
    pub fn tos_uri(&self) -> (r: Option<&str>)
        ensures
            opt_text(r) == opt_text(self.tos_uri),
    {
        opt_str(&self.tos_uri)
    }

    /// Registered URL of the client's privacy policy document.
    pub fn policy_uri(&self) -> (r: Option<&str>)
        ensures
            opt_text(r) == opt_text(self.policy_uri),
    {
        opt_str(&self.policy_uri)
    }

    /// Registered URL of the client's JSON Web Key Set document.
    pub fn jwks_uri(&self) -> (r: Option<&str>)
        ensures
            opt_text(r) == opt_text(self.jwks_uri),
    {
        opt_str(&self.jwks_uri)
    }

    /// Registered JSON Web Key Set document value.
    pub fn jwks(&self) -> (r: Option<&serde_json::Value>)
        ensures
            r is Some <==> self.jwks is Some,
            r matches Some(x) ==> *x == self.jwks->0,
    {
        opt_ref(&self.jwks)
    }

    /// Registered software identifier for the client software.
    pub fn software_id(&self) -> (r: Option<&str>)
        ensures
            opt_text(r) == opt_text(self.software_id),
    {
        opt_str(&self.software_id)
    }

    /// Registered software version identifier for the client software.
    pub fn software_version(&self) -> (r: Option<&str>)
        ensures
            opt_text(r) == opt_text(self.software_version),
    {
        opt_str(&self.software_version)
    }

    /// Software statement returned unmodified when one was included in the
    /// registration request.
    pub fn software_statement(&self) -> (r: Option<&str>)
        ensures
            opt_text(r) == opt_text(self.software_statement),
    {
        opt_str(&self.software_statement)
    }

    /// Any extra fields returned on the response.
    pub fn extra_fields(&self) -> (r: &EF)
        ensures
            *r == self.extra_fields,
    {
        &self.extra_fields
    }

    /// Turns this response into an OAuth 2.0 client with the registered
    /// client id and secret, authenticating with HTTP Basic; its endpoint
    /// URLs are not set and must be configured before it can be used.
    pub fn into_client(self) -> (r: Client)
        ensures
            r.client_id == self.client_id,
            r.client_secret == self.client_secret,
            r.auth_type == AuthType::BasicAuth,
            r.auth_url is None,
            r.token_url is None,
            r.redirect_url is None,
            r.introspection_url is None,
            r.revocation_url is None,
            r.device_authorization_url is None,
    {
        Client {
            client_id: self.client_id,
            client_secret: self.client_secret,
            auth_url: None,
            auth_type: AuthType::BasicAuth,
            token_url: None,
            redirect_url: None,
            introspection_url: None,
            revocation_url: None,
            device_authorization_url: None,
        }
    }
}

} // verus!
