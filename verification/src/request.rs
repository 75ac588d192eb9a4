use vstd::prelude::*;

use crate::json::{
    encode_json_object, json_value, json_value_text, members_view, object_bytes, BodyValue,
    BodyValueView,
};
use crate::params::{has_name, law_merged_params_names, merge_params, merged_params, pairs_view};
use crate::text::{join_space_delimited, strings_view};
use crate::types::{
    redirect_urls_view, response_types_view, scopes_to_space_delimited, scopes_view, AccessToken, ClientName,
    DynamicClientRegistrationUrl, RedirectUrl, ResponseType, Scope,
};

verus! {

/// `http::header::InvalidHeaderValue`, the error of a header value with a
/// byte that a header may not hold.
#[verifier::external_type_specification]
#[verifier::external_body]
pub struct ExInvalidHeaderValue(http::header::InvalidHeaderValue);

/// `http::uri::InvalidUri`, the error of a text that is no URI.
#[verifier::external_type_specification]
#[verifier::external_body]
pub struct ExInvalidUri(http::uri::InvalidUri);

/// Whether a header value may hold the character `c`: a visible ASCII
/// character, a space, a tab, or any character beyond ASCII.
pub open spec fn header_value_char_ok(c: char) -> bool {
    (c as u32 >= 32 && c as u32 != 127) || c == '\t'
}

/// Whether a header value may hold the text `s`.
pub open spec fn header_value_text_ok(s: Seq<char>) -> bool {
    forall|i: int| 0 <= i < s.len() ==> #[trigger] header_value_char_ok(s[i])
}

/// Calls `http::HeaderValue::from_str` on `s` and keeps only whether it
/// succeeded. Trusted: it succeeds exactly when every byte of the text is a
/// tab or at least 32 and not 127, which for the UTF-8 bytes of `s` is
/// `header_value_text_ok`.
#[verifier::external_body]
fn check_header_value(s: &str) -> (r: Result<(), http::header::InvalidHeaderValue>)
    ensures
        r is Ok <==> header_value_text_ok(s@),
{
    match http::HeaderValue::from_str(s) {
        Ok(_) => Ok(()),
        Err(e) => Err(e),
    }
}

/// Whether `http::Uri` parses the text `s`.
pub uninterp spec fn http_uri_accepts(s: Seq<char>) -> bool;

/// Calls `http::Uri::try_from` on `s` and keeps only whether it succeeded.
/// Trusted: it succeeds exactly when `http_uri_accepts` holds of the text;
/// which texts the URI parser accepts is not stated.
#[verifier::external_body]
fn check_uri(s: &str) -> (r: Result<(), http::uri::InvalidUri>)
    ensures
        r is Ok <==> http_uri_accepts(s@),
{
    match http::Uri::try_from(s) {
        Ok(_) => Ok(()),
        Err(e) => Err(e),
    }
}

/// The text of an optional value, where it has one.
pub open spec fn opt_text<T: View<V = Seq<char>>>(o: Option<T>) -> Option<Seq<char>> {
    match o {
        Some(x) => Some(x@),
        None => None,
    }
}

/// What a registration request holds: the client metadata it will send, the
/// initial access token, the extra parameters in the order they were added,
/// and the registration endpoint.
#[verifier::ext_equal]
pub struct RegistrationRequestView {
    pub redirect_uris: Seq<Seq<char>>,
    pub token_endpoint_auth_method: Option<Seq<char>>,
    pub grant_types: Seq<Seq<char>>,
    pub response_types: Seq<Seq<char>>,
    pub client_name: Option<Seq<char>>,
    pub client_uri: Option<Seq<char>>,
    pub logo_uri: Option<Seq<char>>,
    pub scope: Option<Seq<char>>,
    pub contacts: Seq<Seq<char>>,
    pub tos_uri: Option<Seq<char>>,
    pub policy_uri: Option<Seq<char>>,
    pub jwks_uri: Option<Seq<char>>,
    pub jwks: Option<serde_json::Value>,
    pub software_id: Option<Seq<char>>,
    pub software_version: Option<Seq<char>>,
    pub software_statement: Option<Seq<char>>,
    pub initial_access_token: Option<Seq<char>>,
    pub extra_params: Seq<(Seq<char>, Seq<char>)>,
    pub registration_url: Seq<char>,
}

/// A new request: the client name and the endpoint set, nothing else.
pub open spec fn new_request_view(client_name: Seq<char>, registration_url: Seq<char>) -> RegistrationRequestView {
    RegistrationRequestView {
        redirect_uris: Seq::empty(),
        token_endpoint_auth_method: None,
        grant_types: Seq::empty(),
        response_types: Seq::empty(),
        client_name: Some(client_name),
        client_uri: None,
        logo_uri: None,
        scope: None,
        contacts: Seq::empty(),
        tos_uri: None,
        policy_uri: None,
        jwks_uri: None,
        jwks: None,
        software_id: None,
        software_version: None,
        software_statement: None,
        initial_access_token: None,
        extra_params: Seq::empty(),
        registration_url,
    }
}

/// The request to dynamically register an OAuth 2.0 client.
#[derive(Debug)]
pub struct DynamicClientRegistrationRequest<'a> {
    redirect_uris: Vec<RedirectUrl>,
    token_endpoint_auth_method: Option<String>,
    grant_types: Vec<String>,
    response_types: Vec<ResponseType>,
    client_name: Option<ClientName>,
    client_uri: Option<String>,
    logo_uri: Option<String>,
    scope: Option<Scope>,
    contacts: Vec<String>,
    tos_uri: Option<String>,
    policy_uri: Option<String>,
    jwks_uri: Option<String>,
    jwks: Option<serde_json::Value>,
    software_id: Option<String>,
    software_version: Option<String>,
    software_statement: Option<String>,
    initial_access_token: Option<AccessToken>,
    extra_params: Vec<(String, String)>,
    dynamic_client_registration_url: &'a DynamicClientRegistrationUrl,
}

impl<'a> View for DynamicClientRegistrationRequest<'a> {
    type V = RegistrationRequestView;

    closed spec fn view(&self) -> RegistrationRequestView {
        RegistrationRequestView {
            redirect_uris: redirect_urls_view(self.redirect_uris@),
            token_endpoint_auth_method: opt_text(self.token_endpoint_auth_method),
            grant_types: strings_view(self.grant_types@),
            response_types: response_types_view(self.response_types@),
            client_name: opt_text(self.client_name),
            client_uri: opt_text(self.client_uri),
            logo_uri: opt_text(self.logo_uri),
            scope: opt_text(self.scope),
            contacts: strings_view(self.contacts@),
            tos_uri: opt_text(self.tos_uri),
            policy_uri: opt_text(self.policy_uri),
            jwks_uri: opt_text(self.jwks_uri),
            jwks: self.jwks,
            software_id: opt_text(self.software_id),
            software_version: opt_text(self.software_version),
            software_statement: opt_text(self.software_statement),
            initial_access_token: opt_text(self.initial_access_token),
            extra_params: pairs_view(self.extra_params@),
            registration_url: self.dynamic_client_registration_url.url_text(),
        }
    }
}

/// Creates a request to dynamically register a client named `client_name`
/// at the endpoint `dynamic_client_registration_url`.
pub fn dynamic_client_registration_impl<'a>(
    client_name: ClientName,
    dynamic_client_registration_url: &'a DynamicClientRegistrationUrl,
) -> (r: DynamicClientRegistrationRequest<'a>)
    ensures
        r@ == new_request_view(client_name@, dynamic_client_registration_url.url_text()),
{
    let r = DynamicClientRegistrationRequest {
        redirect_uris: Vec::new(),
        token_endpoint_auth_method: None,
        grant_types: Vec::new(),
        response_types: Vec::new(),
        client_name: Some(client_name),
        client_uri: None,
        logo_uri: None,
        scope: None,
        contacts: Vec::new(),
        tos_uri: None,
        policy_uri: None,
        jwks_uri: None,
        jwks: None,
        software_id: None,
        software_version: None,
        software_statement: None,
        initial_access_token: None,
        extra_params: Vec::new(),
        dynamic_client_registration_url,
    };
    assert(r@ =~= new_request_view(client_name@, dynamic_client_registration_url.url_text()));
    r
}

impl<'a> DynamicClientRegistrationRequest<'a> {
    /// Sets the redirection URIs for redirect-based flows.
    pub fn set_redirect_uris(self, redirect_uris: Vec<RedirectUrl>) -> (r: Self)
        ensures
            r@ == (RegistrationRequestView { redirect_uris: redirect_urls_view(redirect_uris@), ..self@ }),
    {
        let mut s = self;
        s.redirect_uris = redirect_uris;
        s
    }

    /// Appends a redirection URI.
    pub fn add_redirect_uri(self, redirect_uri: RedirectUrl) -> (r: Self)
        ensures
            r@ == (RegistrationRequestView {
                redirect_uris: self@.redirect_uris.push(redirect_uri.url_text()),
                ..self@
            }),
    {
        let mut s = self;
        let ghost old_uris = s.redirect_uris@;
        s.redirect_uris.push(redirect_uri);
        assert(redirect_urls_view(s.redirect_uris@) =~= redirect_urls_view(old_uris).push(
            s.redirect_uris@.last().url_text(),
        ));
        s
    }

    /// Sets the requested token endpoint authentication method, such as
    /// `none`, `client_secret_post` or `client_secret_basic`.
    pub fn set_token_endpoint_auth_method(self, method: &str) -> (r: Self)
        ensures
            r@ == (RegistrationRequestView { token_endpoint_auth_method: Some(method@), ..self@ }),
    {
        let mut s = self;
        s.token_endpoint_auth_method = Some(method.to_owned());
        s
    }

    /// Sets the OAuth 2.0 grant types the client may use.
    pub fn set_grant_types(self, grant_types: Vec<String>) -> (r: Self)
        ensures
            r@ == (RegistrationRequestView { grant_types: strings_view(grant_types@), ..self@ }),
    {
        let mut s = self;
        s.grant_types = grant_types;
        s
    }

    /// Appends an OAuth 2.0 grant type.
    pub fn add_grant_type(self, grant_type: &str) -> (r: Self)
        ensures
            r@ == (RegistrationRequestView { grant_types: self@.grant_types.push(grant_type@), ..self@ }),
    {
        let mut s = self;
        let ghost old_types = s.grant_types@;
        s.grant_types.push(grant_type.to_owned());
        assert(strings_view(s.grant_types@) =~= strings_view(old_types).push(grant_type@));
        s
    }

    /// Sets the OAuth 2.0 response types the client may use.
    pub fn set_response_types(self, response_types: Vec<ResponseType>) -> (r: Self)
        ensures
            r@ == (RegistrationRequestView {
                response_types: response_types_view(response_types@),
                ..self@
            }),
    {
        let mut s = self;
        s.response_types = response_types;
        s
    }

    /// Appends an OAuth 2.0 response type.
    pub fn add_response_type(self, response_type: ResponseType) -> (r: Self)
        ensures
            r@ == (RegistrationRequestView {
                response_types: self@.response_types.push(response_type@),
                ..self@
            }),
    {
        let mut s = self;
        let ghost old_types = s.response_types@;
        s.response_types.push(response_type);
        assert(response_types_view(s.response_types@) =~= response_types_view(old_types).push(
            s.response_types@.last()@,
        ));
        s
    }

    /// Sets the human-readable client name.
    pub fn set_client_name(self, client_name: ClientName) -> (r: Self)
        ensures
            r@ == (RegistrationRequestView { client_name: Some(client_name@), ..self@ }),
    {
        let mut s = self;
        s.client_name = Some(client_name);
        s
    }

    /// Sets the URL of a web page providing information about the client.
    pub fn set_client_uri(self, client_uri: &str) -> (r: Self)
        ensures
            r@ == (RegistrationRequestView { client_uri: Some(client_uri@), ..self@ }),
    {
        let mut s = self;
        s.client_uri = Some(client_uri.to_owned());
        s
    }

    /// Sets the URL of the client's logo.
    pub fn set_logo_uri(self, logo_uri: &str) -> (r: Self)
        ensures
            r@ == (RegistrationRequestView { logo_uri: Some(logo_uri@), ..self@ }),
    {
        let mut s = self;
        s.logo_uri = Some(logo_uri.to_owned());
        s
    }

    /// Sets the space-separated scope values the client may request.
    pub fn set_scope(self, scope: Scope) -> (r: Self)
        ensures
            r@ == (RegistrationRequestView { scope: Some(scope@), ..self@ }),
    {
        let mut s = self;
        s.scope = Some(scope);
        s
    }

    /// Sets the scope values the client may request, joined with spaces.
    pub fn set_scopes(self, scopes: Vec<Scope>) -> (r: Self)
        ensures
            r@ == (RegistrationRequestView {
                scope: Some(join_space_delimited(scopes_view(scopes@))),
                ..self@
            }),
    {
        let joined = scopes_to_space_delimited(&scopes);
        let mut s = self;
        s.scope = Some(Scope::new(joined));
        s
    }

    /// Sets contact addresses for people responsible for this client.
    pub fn set_contacts(self, contacts: Vec<String>) -> (r: Self)
        ensures
            r@ == (RegistrationRequestView { contacts: strings_view(contacts@), ..self@ }),
    {
        let mut s = self;
        s.contacts = contacts;
        s
    }

    /// Appends a contact address.
    pub fn add_contact(self, contact: &str) -> (r: Self)
        ensures
            r@ == (RegistrationRequestView { contacts: self@.contacts.push(contact@), ..self@ }),
    {
        let mut s = self;
        let ghost old_contacts = s.contacts@;
        s.contacts.push(contact.to_owned());
        assert(strings_view(s.contacts@) =~= strings_view(old_contacts).push(contact@));
        s
    }

    /// Sets the URL of the client's terms of service document.
    pub fn set_tos_uri(self, tos_uri: &str) -> (r: Self)
        ensures
            r@ == (RegistrationRequestView { tos_uri: Some(tos_uri@), ..self@ }),
    {
        let mut s = self;
        s.tos_uri = Some(tos_uri.to_owned());
        s
    }

    /// Sets the URL of the client's privacy policy document.
    pub fn set_policy_uri(self, policy_uri: &str) -> (r: Self)
        ensures
            r@ == (RegistrationRequestView { policy_uri: Some(policy_uri@), ..self@ }),
    {
        let mut s = self;
        s.policy_uri = Some(policy_uri.to_owned());
        s
    }

    /// Sets the URL of the client's JSON Web Key Set document.
    pub fn set_jwks_uri(self, jwks_uri: &str) -> (r: Self)
        ensures
            r@ == (RegistrationRequestView { jwks_uri: Some(jwks_uri@), ..self@ }),
    {
        let mut s = self;
        s.jwks_uri = Some(jwks_uri.to_owned());
        s
    }

    /// Sets the client's JSON Web Key Set document value.
    ///
    /// The `"jwks_uri"` and `"jwks"` parameters must not both be present in
    /// the same request.
    pub fn set_jwks(self, jwks: serde_json::Value) -> (r: Self)
        ensures
            r@ == (RegistrationRequestView { jwks: Some(jwks), ..self@ }),
    {
        let mut s = self;
        s.jwks = Some(jwks);
        s
    }

    /// Sets the software identifier for the client software.
    pub fn set_software_id(self, software_id: &str) -> (r: Self)
        ensures
            r@ == (RegistrationRequestView { software_id: Some(software_id@), ..self@ }),
    {
        let mut s = self;
        s.software_id = Some(software_id.to_owned());
        s
    }

    /// Sets the software version identifier for the client software.
    pub fn set_software_version(self, software_version: &str) -> (r: Self)
        ensures
            r@ == (RegistrationRequestView { software_version: Some(software_version@), ..self@ }),
    {
        let mut s = self;
        s.software_version = Some(software_version.to_owned());
        s
    }

    /// Sets the signed software statement JWT.
    pub fn set_software_statement(self, software_statement: &str) -> (r: Self)
        ensures
            r@ == (RegistrationRequestView {
                software_statement: Some(software_statement@),
                ..self@
            }),
    {
        let mut s = self;
        s.software_statement = Some(software_statement.to_owned());
        s
    }

    /// Sets the initial access token used to authorize protected
    /// registration requests.
    pub fn set_initial_access_token(self, initial_access_token: AccessToken) -> (r: Self)
        ensures
            r@ == (RegistrationRequestView {
                initial_access_token: Some(initial_access_token@),
                ..self@
            }),
    {
        let mut s = self;
        s.initial_access_token = Some(initial_access_token);
        s
    }

    /// Appends an extra parameter to the registration request, for
    /// extensions and for locale-specific metadata such as `client_name#en`.
    /// Where `name` is added more than once, the value added last is sent.
    pub fn add_extra_param(self, name: &str, value: &str) -> (r: Self)
        ensures
            r@ == (RegistrationRequestView {
                extra_params: self@.extra_params.push((name@, value@)),
                ..self@
            }),
    {
        let mut s = self;
        let ghost old_params = s.extra_params@;
        s.extra_params.push((name.to_owned(), value.to_owned()));
        assert(pairs_view(s.extra_params@) =~= pairs_view(old_params).push((name@, value@)));
        s
    }
}

/// A text member of the registration body, where the value is set.
pub open spec fn text_member(name: Seq<char>, v: Option<Seq<char>>) -> Seq<(Seq<char>, BodyValueView)> {
    match v {
        Some(t) => seq![(name, BodyValueView::Str(t))],
        None => Seq::empty(),
    }
}

/// An array member of the registration body, where the list is not empty.
pub open spec fn list_member(name: Seq<char>, l: Seq<Seq<char>>) -> Seq<(Seq<char>, BodyValueView)> {
    if l.len() == 0 {
        Seq::empty()
    } else {
        seq![(name, BodyValueView::StrList(l))]
    }
}

/// A member of the registration body holding JSON text already written,
/// where there is some.
pub open spec fn raw_member(name: Seq<char>, v: Option<Seq<u8>>) -> Seq<(Seq<char>, BodyValueView)> {
    match v {
        Some(b) => seq![(name, BodyValueView::Raw(b))],
        None => Seq::empty(),
    }
}

/// The extra parameters as text members: one per name, the value given
/// last.
pub open spec fn extra_members(ps: Seq<(Seq<char>, Seq<char>)>) -> Seq<(Seq<char>, BodyValueView)> {
    merged_params(ps).map_values(|p: (Seq<char>, Seq<char>)| (p.0, BodyValueView::Str(p.1)))
}

/// The parts of the registration body, in order, each holding the member
/// of one metadata field (or none), the last the extra parameters.
pub open spec fn body_parts(m: RegistrationRequestView, jwks_json: Option<Seq<u8>>) -> Seq<
    Seq<(Seq<char>, BodyValueView)>,
> {
    seq![
        list_member("redirect_uris"@, m.redirect_uris),
        text_member("token_endpoint_auth_method"@, m.token_endpoint_auth_method),
        list_member("grant_types"@, m.grant_types),
        list_member("response_types"@, m.response_types),
        text_member("client_name"@, m.client_name),
        text_member("client_uri"@, m.client_uri),
        text_member("logo_uri"@, m.logo_uri),
        text_member("scope"@, m.scope),
        list_member("contacts"@, m.contacts),
        text_member("tos_uri"@, m.tos_uri),
        text_member("policy_uri"@, m.policy_uri),
        text_member("jwks_uri"@, m.jwks_uri),
        raw_member("jwks"@, jwks_json),
        text_member("software_id"@, m.software_id),
        text_member("software_version"@, m.software_version),
        text_member("software_statement"@, m.software_statement),
        extra_members(m.extra_params),
    ]
}

proof fn lemma_flatten_alt_contains<A>(ps: Seq<Seq<A>>, k: int, i: int)
    requires
        0 <= k < ps.len(),
        0 <= i < ps[k].len(),
    ensures
        ps.flatten_alt().contains(ps[k][i]),
    decreases ps.len(),
{
    let init = ps.drop_last();
    if k < ps.len() - 1 {
        lemma_flatten_alt_contains(init, k, i);
        let j = choose|j: int| 0 <= j < init.flatten_alt().len() && init.flatten_alt()[j] == ps[k][i];
        assert(ps.flatten_alt()[j] == ps[k][i]);
    } else {
        assert(ps.flatten_alt()[init.flatten_alt().len() + i] == ps[k][i]);
    }
}

/// The members of the registration body, in order: each metadata field that
/// is set (a list only where it is not empty), `jwks` as the JSON text
/// `jwks_json`, then the extra parameters.
pub open spec fn body_members(m: RegistrationRequestView, jwks_json: Option<Seq<u8>>) -> Seq<
    (Seq<char>, BodyValueView),
> {
    body_parts(m, jwks_json).flatten_alt()
}

/// What is set is sent: every member of every part of the body (the member
/// of each metadata field that is set, of each list that is not empty, of
/// the key set, and of each extra parameter with the value it was given
/// last) is in the registration body.
pub proof fn law_metadata_is_sent(m: RegistrationRequestView, jwks_json: Option<Seq<u8>>)
    ensures
        forall|k: int, i: int|
            0 <= k < body_parts(m, jwks_json).len() && 0 <= i < body_parts(m, jwks_json)[k].len()
                ==> body_members(m, jwks_json).contains(#[trigger] body_parts(m, jwks_json)[k][i]),
        forall|p: (Seq<char>, Seq<char>)| #[trigger] merged_params(m.extra_params).contains(p)
            ==> body_members(m, jwks_json).contains((p.0, BodyValueView::Str(p.1))),
{
    let ps = body_parts(m, jwks_json);
    assert forall|k: int, i: int| 0 <= k < ps.len() && 0 <= i < ps[k].len() implies body_members(
        m,
        jwks_json,
    ).contains(#[trigger] ps[k][i]) by {
        lemma_flatten_alt_contains(ps, k, i);
    }
    assert forall|p: (Seq<char>, Seq<char>)| #[trigger] merged_params(m.extra_params).contains(p)
        implies body_members(m, jwks_json).contains((p.0, BodyValueView::Str(p.1))) by {
        let mp = merged_params(m.extra_params);
        let i = choose|i: int| 0 <= i < mp.len() && mp[i] == p;
        assert(ps[16][i] == (p.0, BodyValueView::Str(p.1)));
        lemma_flatten_alt_contains(ps, 16, i);
    }
}

/// Each metadata field is sent on its own terms: whatever the other fields
/// hold, a text field that is set is in the body with its whole value, a
/// list that is not empty is in the body as the whole list, and so is the
/// key set's text where there is one.
pub proof fn law_set_fields_are_sent(m: RegistrationRequestView, jwks_json: Option<Seq<u8>>)
    ensures
        m.redirect_uris.len() > 0 ==> body_members(m, jwks_json).contains(
            ("redirect_uris"@, BodyValueView::StrList(m.redirect_uris)),
        ),
        m.token_endpoint_auth_method is Some ==> body_members(m, jwks_json).contains(
            ("token_endpoint_auth_method"@, BodyValueView::Str(m.token_endpoint_auth_method->0)),
        ),
        m.grant_types.len() > 0 ==> body_members(m, jwks_json).contains(
            ("grant_types"@, BodyValueView::StrList(m.grant_types)),
        ),
        m.response_types.len() > 0 ==> body_members(m, jwks_json).contains(
            ("response_types"@, BodyValueView::StrList(m.response_types)),
        ),
        m.client_name is Some ==> body_members(m, jwks_json).contains(
            ("client_name"@, BodyValueView::Str(m.client_name->0)),
        ),
        m.client_uri is Some ==> body_members(m, jwks_json).contains(
            ("client_uri"@, BodyValueView::Str(m.client_uri->0)),
        ),
        m.logo_uri is Some ==> body_members(m, jwks_json).contains(
            ("logo_uri"@, BodyValueView::Str(m.logo_uri->0)),
        ),
        m.scope is Some ==> body_members(m, jwks_json).contains(
            ("scope"@, BodyValueView::Str(m.scope->0)),
        ),
        m.contacts.len() > 0 ==> body_members(m, jwks_json).contains(
            ("contacts"@, BodyValueView::StrList(m.contacts)),
        ),
        m.tos_uri is Some ==> body_members(m, jwks_json).contains(
            ("tos_uri"@, BodyValueView::Str(m.tos_uri->0)),
        ),
        m.policy_uri is Some ==> body_members(m, jwks_json).contains(
            ("policy_uri"@, BodyValueView::Str(m.policy_uri->0)),
        ),
        m.jwks_uri is Some ==> body_members(m, jwks_json).contains(
            ("jwks_uri"@, BodyValueView::Str(m.jwks_uri->0)),
        ),
        jwks_json is Some ==> body_members(m, jwks_json).contains(
            ("jwks"@, BodyValueView::Raw(jwks_json->0)),
        ),
        m.software_id is Some ==> body_members(m, jwks_json).contains(
            ("software_id"@, BodyValueView::Str(m.software_id->0)),
        ),
        m.software_version is Some ==> body_members(m, jwks_json).contains(
            ("software_version"@, BodyValueView::Str(m.software_version->0)),
        ),
        m.software_statement is Some ==> body_members(m, jwks_json).contains(
            ("software_statement"@, BodyValueView::Str(m.software_statement->0)),
        ),
{
    let ps = body_parts(m, jwks_json);
    law_metadata_is_sent(m, jwks_json);
    assert(m.redirect_uris.len() > 0 ==> ps[0][0] == ("redirect_uris"@, BodyValueView::StrList(m.redirect_uris)));
    assert(m.token_endpoint_auth_method is Some ==> ps[1][0] == ("token_endpoint_auth_method"@, BodyValueView::Str(m.token_endpoint_auth_method->0)));
    assert(m.grant_types.len() > 0 ==> ps[2][0] == ("grant_types"@, BodyValueView::StrList(m.grant_types)));
    assert(m.response_types.len() > 0 ==> ps[3][0] == ("response_types"@, BodyValueView::StrList(m.response_types)));
    assert(m.client_name is Some ==> ps[4][0] == ("client_name"@, BodyValueView::Str(m.client_name->0)));
    assert(m.client_uri is Some ==> ps[5][0] == ("client_uri"@, BodyValueView::Str(m.client_uri->0)));
    assert(m.logo_uri is Some ==> ps[6][0] == ("logo_uri"@, BodyValueView::Str(m.logo_uri->0)));
    assert(m.scope is Some ==> ps[7][0] == ("scope"@, BodyValueView::Str(m.scope->0)));
    assert(m.contacts.len() > 0 ==> ps[8][0] == ("contacts"@, BodyValueView::StrList(m.contacts)));
    assert(m.tos_uri is Some ==> ps[9][0] == ("tos_uri"@, BodyValueView::Str(m.tos_uri->0)));
    assert(m.policy_uri is Some ==> ps[10][0] == ("policy_uri"@, BodyValueView::Str(m.policy_uri->0)));
    assert(m.jwks_uri is Some ==> ps[11][0] == ("jwks_uri"@, BodyValueView::Str(m.jwks_uri->0)));
    assert(jwks_json is Some ==> ps[12][0] == ("jwks"@, BodyValueView::Raw(jwks_json->0)));
    assert(m.software_id is Some ==> ps[13][0] == ("software_id"@, BodyValueView::Str(m.software_id->0)));
    assert(m.software_version is Some ==> ps[14][0] == ("software_version"@, BodyValueView::Str(m.software_version->0)));
    assert(m.software_statement is Some ==> ps[15][0] == ("software_statement"@, BodyValueView::Str(m.software_statement->0)));
}

/// Nothing else is sent: every member of the body is the member of a
/// metadata field that is set (with its value), of a list that is not
/// empty, of the key set's text, or of an extra parameter with the value it
/// was given last.
pub proof fn law_only_set_fields_are_sent(m: RegistrationRequestView, jwks_json: Option<Seq<u8>>)
    ensures
        forall|x: (Seq<char>, BodyValueView)| #[trigger] body_members(m, jwks_json).contains(x) ==> {
                ||| (m.redirect_uris.len() > 0 && x == ("redirect_uris"@, BodyValueView::StrList(m.redirect_uris)))
                ||| (m.token_endpoint_auth_method is Some && x == ("token_endpoint_auth_method"@, BodyValueView::Str(m.token_endpoint_auth_method->0)))
                ||| (m.grant_types.len() > 0 && x == ("grant_types"@, BodyValueView::StrList(m.grant_types)))
                ||| (m.response_types.len() > 0 && x == ("response_types"@, BodyValueView::StrList(m.response_types)))
                ||| (m.client_name is Some && x == ("client_name"@, BodyValueView::Str(m.client_name->0)))
                ||| (m.client_uri is Some && x == ("client_uri"@, BodyValueView::Str(m.client_uri->0)))
                ||| (m.logo_uri is Some && x == ("logo_uri"@, BodyValueView::Str(m.logo_uri->0)))
                ||| (m.scope is Some && x == ("scope"@, BodyValueView::Str(m.scope->0)))
                ||| (m.contacts.len() > 0 && x == ("contacts"@, BodyValueView::StrList(m.contacts)))
                ||| (m.tos_uri is Some && x == ("tos_uri"@, BodyValueView::Str(m.tos_uri->0)))
                ||| (m.policy_uri is Some && x == ("policy_uri"@, BodyValueView::Str(m.policy_uri->0)))
                ||| (m.jwks_uri is Some && x == ("jwks_uri"@, BodyValueView::Str(m.jwks_uri->0)))
                ||| (jwks_json is Some && x == ("jwks"@, BodyValueView::Raw(jwks_json->0)))
                ||| (m.software_id is Some && x == ("software_id"@, BodyValueView::Str(m.software_id->0)))
                ||| (m.software_version is Some && x == ("software_version"@, BodyValueView::Str(m.software_version->0)))
                ||| (m.software_statement is Some && x == ("software_statement"@, BodyValueView::Str(m.software_statement->0)))
                ||| (exists|p: (Seq<char>, Seq<char>)| #[trigger] merged_params(m.extra_params).contains(p) && x == (p.0, BodyValueView::Str(p.1)))
        },
{
    let ps = body_parts(m, jwks_json);
    assert forall|x: (Seq<char>, BodyValueView)| #[trigger] body_members(m, jwks_json).contains(x) implies {
            ||| (m.redirect_uris.len() > 0 && x == ("redirect_uris"@, BodyValueView::StrList(m.redirect_uris)))
            ||| (m.token_endpoint_auth_method is Some && x == ("token_endpoint_auth_method"@, BodyValueView::Str(m.token_endpoint_auth_method->0)))
            ||| (m.grant_types.len() > 0 && x == ("grant_types"@, BodyValueView::StrList(m.grant_types)))
            ||| (m.response_types.len() > 0 && x == ("response_types"@, BodyValueView::StrList(m.response_types)))
            ||| (m.client_name is Some && x == ("client_name"@, BodyValueView::Str(m.client_name->0)))
            ||| (m.client_uri is Some && x == ("client_uri"@, BodyValueView::Str(m.client_uri->0)))
            ||| (m.logo_uri is Some && x == ("logo_uri"@, BodyValueView::Str(m.logo_uri->0)))
            ||| (m.scope is Some && x == ("scope"@, BodyValueView::Str(m.scope->0)))
            ||| (m.contacts.len() > 0 && x == ("contacts"@, BodyValueView::StrList(m.contacts)))
            ||| (m.tos_uri is Some && x == ("tos_uri"@, BodyValueView::Str(m.tos_uri->0)))
            ||| (m.policy_uri is Some && x == ("policy_uri"@, BodyValueView::Str(m.policy_uri->0)))
            ||| (m.jwks_uri is Some && x == ("jwks_uri"@, BodyValueView::Str(m.jwks_uri->0)))
            ||| (jwks_json is Some && x == ("jwks"@, BodyValueView::Raw(jwks_json->0)))
            ||| (m.software_id is Some && x == ("software_id"@, BodyValueView::Str(m.software_id->0)))
            ||| (m.software_version is Some && x == ("software_version"@, BodyValueView::Str(m.software_version->0)))
            ||| (m.software_statement is Some && x == ("software_statement"@, BodyValueView::Str(m.software_statement->0)))
            ||| (exists|p: (Seq<char>, Seq<char>)| #[trigger] merged_params(m.extra_params).contains(p) && x == (p.0, BodyValueView::Str(p.1)))
    } by {
        lemma_flatten_alt_member(ps, x);
        let (k, i) = choose|k: int, i: int| 0 <= k < ps.len() && 0 <= i < ps[k].len() && ps[k][i] == x;
        if k == 16 {
            let mp = merged_params(m.extra_params);
            assert(ps[16][i] == (mp[i].0, BodyValueView::Str(mp[i].1)));
            assert(mp.contains(mp[i]));
        } else if k == 0 {
            assert(ps[0].len() == 1);
        } else if k == 1 {
            assert(ps[1].len() == 1);
        } else if k == 2 {
            assert(ps[2].len() == 1);
        } else if k == 3 {
            assert(ps[3].len() == 1);
        } else if k == 4 {
            assert(ps[4].len() == 1);
        } else if k == 5 {
            assert(ps[5].len() == 1);
        } else if k == 6 {
            assert(ps[6].len() == 1);
        } else if k == 7 {
            assert(ps[7].len() == 1);
        } else if k == 8 {
            assert(ps[8].len() == 1);
        } else if k == 9 {
            assert(ps[9].len() == 1);
        } else if k == 10 {
            assert(ps[10].len() == 1);
        } else if k == 11 {
            assert(ps[11].len() == 1);
        } else if k == 12 {
            assert(ps[12].len() == 1);
        } else if k == 13 {
            assert(ps[13].len() == 1);
        } else if k == 14 {
            assert(ps[14].len() == 1);
        } else if k == 15 {
            assert(ps[15].len() == 1);
        }
    }
}

/// Every element of a flattened sequence of sequences comes from one of them.
proof fn lemma_flatten_alt_member<A>(ps: Seq<Seq<A>>, x: A)
    requires
        ps.flatten_alt().contains(x),
    ensures
        exists|k: int, i: int| 0 <= k < ps.len() && 0 <= i < ps[k].len() && ps[k][i] == x,
    decreases ps.len(),
{
    if ps.len() > 0 {
        let init = ps.drop_last();
        let f = init.flatten_alt();
        let j = choose|j: int| 0 <= j < ps.flatten_alt().len() && ps.flatten_alt()[j] == x;
        if j < f.len() {
            assert(f[j] == x);
            lemma_flatten_alt_member(init, x);
            let (k, i) = choose|k: int, i: int| 0 <= k < init.len() && 0 <= i < init[k].len() && init[k][i] == x;
            assert(ps[k][i] == x);
        } else {
            assert(ps[ps.len() - 1][j - f.len()] == x);
        }
    }
}

/// The names of the metadata fields, in the order the body sends them.
pub open spec fn field_names() -> Seq<Seq<char>> {
    seq![
        "redirect_uris"@,
        "token_endpoint_auth_method"@,
        "grant_types"@,
        "response_types"@,
        "client_name"@,
        "client_uri"@,
        "logo_uri"@,
        "scope"@,
        "contacts"@,
        "tos_uri"@,
        "policy_uri"@,
        "jwks_uri"@,
        "jwks"@,
        "software_id"@,
        "software_version"@,
        "software_statement"@,
    ]
}

/// The place of a member name in the body's order: its place among the
/// metadata fields, or after all of them for any other name.
pub open spec fn field_rank(name: Seq<char>) -> int {
    if field_names().contains(name) {
        field_names().index_of(name)
    } else {
        16
    }
}

proof fn lemma_field_name_facts()
    ensures
        "redirect_uris"@.len() == 13 && "redirect_uris"@[0] == 'r',
        "token_endpoint_auth_method"@.len() == 26 && "token_endpoint_auth_method"@[0] == 't',
        "grant_types"@.len() == 11 && "grant_types"@[0] == 'g',
        "response_types"@.len() == 14 && "response_types"@[0] == 'r',
        "client_name"@.len() == 11 && "client_name"@[0] == 'c',
        "client_uri"@.len() == 10 && "client_uri"@[0] == 'c',
        "logo_uri"@.len() == 8 && "logo_uri"@[0] == 'l',
        "scope"@.len() == 5 && "scope"@[0] == 's',
        "contacts"@.len() == 8 && "contacts"@[0] == 'c',
        "tos_uri"@.len() == 7 && "tos_uri"@[0] == 't',
        "policy_uri"@.len() == 10 && "policy_uri"@[0] == 'p',
        "jwks_uri"@.len() == 8 && "jwks_uri"@[0] == 'j',
        "jwks"@.len() == 4 && "jwks"@[0] == 'j',
        "software_id"@.len() == 11 && "software_id"@[0] == 's',
        "software_version"@.len() == 16 && "software_version"@[0] == 's',
        "software_statement"@.len() == 18 && "software_statement"@[0] == 's',
{
    reveal_strlit("redirect_uris");
    reveal_strlit("token_endpoint_auth_method");
    reveal_strlit("grant_types");
    reveal_strlit("response_types");
    reveal_strlit("client_name");
    reveal_strlit("client_uri");
    reveal_strlit("logo_uri");
    reveal_strlit("scope");
    reveal_strlit("contacts");
    reveal_strlit("tos_uri");
    reveal_strlit("policy_uri");
    reveal_strlit("jwks_uri");
    reveal_strlit("jwks");
    reveal_strlit("software_id");
    reveal_strlit("software_version");
    reveal_strlit("software_statement");
}

proof fn lemma_field_rank(k: int)
    requires
        0 <= k < 16,
    ensures
        field_rank(field_names()[k]) == k,
{
    lemma_field_name_facts();
    let ns = field_names();
    assert(ns.contains(ns[k]));
    assert forall|i: int, j: int| 0 <= i < j < ns.len() implies ns[i] != ns[j] by {
        if ns[i] == ns[j] {
            assert(ns[i].len() == ns[j].len());
            assert(ns[i][0] == ns[j][0]);
        }
    }
    let w = ns.index_of(ns[k]);
    assert(0 <= w < ns.len() && ns[w] == ns[k]);
}

/// The part of a flattened sequence of sequences that its element `i`
/// comes from.
spec fn part_of<A>(ps: Seq<Seq<A>>, i: int) -> int
    decreases ps.len(),
{
    if ps.len() == 0 {
        0
    } else if i < ps.drop_last().flatten_alt().len() {
        part_of(ps.drop_last(), i)
    } else {
        ps.len() - 1
    }
}

proof fn lemma_part_of<A>(ps: Seq<Seq<A>>, i: int)
    requires
        0 <= i < ps.flatten_alt().len(),
    ensures
        0 <= part_of(ps, i) < ps.len(),
        exists|o: int| 0 <= o < ps[part_of(ps, i)].len() && ps[part_of(ps, i)][o] == ps.flatten_alt()[i],
    decreases ps.len(),
{
    let init = ps.drop_last();
    let f = init.flatten_alt();
    if i < f.len() {
        lemma_part_of(init, i);
        let k = part_of(init, i);
        let o = choose|o: int| 0 <= o < init[k].len() && init[k][o] == f[i];
        assert(ps[k][o] == ps.flatten_alt()[i]);
    } else {
        assert(ps[ps.len() - 1][i - f.len()] == ps.flatten_alt()[i]);
    }
}

proof fn lemma_part_of_monotone<A>(ps: Seq<Seq<A>>, i: int, j: int)
    requires
        0 <= i < j < ps.flatten_alt().len(),
    ensures
        part_of(ps, i) <= part_of(ps, j),
    decreases ps.len(),
{
    let init = ps.drop_last();
    let f = init.flatten_alt();
    if j < f.len() {
        lemma_part_of_monotone(init, i, j);
    } else if i < f.len() {
        lemma_part_of(init, i);
    }
}

/// The body sends its members in the order of the metadata fields, the
/// extra parameters last, for a request whose extra parameters use no
/// metadata field's name.
pub proof fn law_body_in_field_order(m: RegistrationRequestView, jwks_json: Option<Seq<u8>>)
    requires
        forall|i: int| 0 <= i < m.extra_params.len() ==> !field_names().contains(
            #[trigger] m.extra_params[i].0,
        ),
    ensures
        forall|a: int, b: int|
            0 <= a < b < body_members(m, jwks_json).len() ==> field_rank(
                #[trigger] body_members(m, jwks_json)[a].0,
            ) <= field_rank(#[trigger] body_members(m, jwks_json)[b].0),
{
    let ps = body_parts(m, jwks_json);
    let body = body_members(m, jwks_json);
    law_merged_params_names(m.extra_params);
    assert forall|k: int, o: int| 0 <= k < ps.len() && 0 <= o < ps[k].len() implies field_rank(
        #[trigger] ps[k][o].0,
    ) == k by {
        if k < 16 {
            assert(ps[k][o].0 == field_names()[k]);
            lemma_field_rank(k);
        } else {
            let mp = merged_params(m.extra_params);
            assert(ps[16][o].0 == mp[o].0);
            assert(has_name(mp, mp[o].0));
            let i = choose|i: int| 0 <= i < m.extra_params.len() && #[trigger] m.extra_params[i].0
                == mp[o].0;
            assert(!field_names().contains(m.extra_params[i].0));
        }
    }
    assert forall|a: int, b: int| 0 <= a < b < body.len() implies field_rank(#[trigger] body[a].0)
        <= field_rank(#[trigger] body[b].0) by {
        lemma_part_of(ps, a);
        lemma_part_of(ps, b);
        lemma_part_of_monotone(ps, a, b);
        let ka = part_of(ps, a);
        let kb = part_of(ps, b);
        let oa = choose|o: int| 0 <= o < ps[ka].len() && ps[ka][o] == body[a];
        let ob = choose|o: int| 0 <= o < ps[kb].len() && ps[kb][o] == body[b];
        assert(field_rank(ps[ka][oa].0) == ka);
        assert(field_rank(ps[kb][ob].0) == kb);
    }
}

/// A request with a key set sends it as the text `serde_json` writes for it.
pub proof fn law_key_set_sent(m: RegistrationRequestView)
    ensures
        m.jwks is Some ==> body_members(m, key_set_text(m.jwks)).contains(
            ("jwks"@, BodyValueView::Raw(json_value_text(m.jwks->0))),
        ),
{
    law_set_fields_are_sent(m, key_set_text(m.jwks));
}

/// The bytes of an optional byte vector, where there is one.
pub open spec fn opt_bytes(o: Option<Vec<u8>>) -> Option<Seq<u8>> {
    match o {
        Some(b) => Some(b@),
        None => None,
    }
}

/// The member list of one body part.
type Members = Vec<(String, BodyValue)>;

fn text_part(name: &str, v: Option<&str>) -> (r: Members)
    ensures
        members_view(r@) == text_member(name@, opt_text(v)),
{
    let mut r: Members = Vec::new();
    match v {
        Some(t) => {
            r.push((name.to_owned(), BodyValue::Str(t.to_owned())));
        },
        None => {},
    }
    assert(members_view(r@) =~= text_member(name@, opt_text(v)));
    r
}

fn list_part(name: &str, items: Vec<String>) -> (r: Members)
    ensures
        members_view(r@) == list_member(name@, strings_view(items@)),
{
    let ghost l = strings_view(items@);
    let mut r: Members = Vec::new();
    if items.len() > 0 {
        r.push((name.to_owned(), BodyValue::StrList(items)));
    }
    assert(members_view(r@) =~= list_member(name@, l));
    r
}

fn raw_part(name: &str, v: Option<Vec<u8>>) -> (r: Members)
    ensures
        members_view(r@) == raw_member(name@, opt_bytes(v)),
{
    let ghost vb = opt_bytes(v);
    let mut r: Members = Vec::new();
    match v {
        Some(b) => {
            r.push((name.to_owned(), BodyValue::Raw(b)));
        },
        None => {},
    }
    assert(members_view(r@) =~= raw_member(name@, vb));
    r
}

fn extra_part(params: &Vec<(String, String)>) -> (r: Members)
    ensures
        members_view(r@) == extra_members(pairs_view(params@)),
{
    let merged = merge_params(params);
    let ghost ex = extra_members(pairs_view(params@));
    let mut r: Members = Vec::new();
    let n = merged.len();
    let mut i: usize = 0;
    while i < n
        invariant
            n == merged@.len(),
            i <= n,
            ex == extra_members(pairs_view(params@)),
            pairs_view(merged@) == merged_params(pairs_view(params@)),
            members_view(r@) == ex.take(i as int),
        decreases n - i,
    {
        let ghost prev = members_view(r@);
        r.push((merged[i].0.clone(), BodyValue::Str(merged[i].1.clone())));
        assert(ex[i as int] == (pairs_view(merged@)[i as int].0, BodyValueView::Str(
            pairs_view(merged@)[i as int].1,
        )));
        assert(members_view(r@) =~= prev.push(ex[i as int]));
        assert(ex.take(i + 1) =~= ex.take(i as int).push(ex[i as int]));
        i = i + 1;
    }
    assert(ex.take(n as int) =~= ex);
    r
}

/// The member list of each part of a sequence of parts.
pub open spec fn parts_view(v: Seq<Members>) -> Seq<Seq<(Seq<char>, BodyValueView)>> {
    v.map_values(|p: Members| members_view(p@))
}

/// The parts written one after another.
fn flatten_parts(parts: Vec<Members>) -> (r: Members)
    ensures
        members_view(r@) == parts_view(parts@).flatten_alt(),
{
    let ghost ps = parts_view(parts@);
    let mut rest = parts;
    let mut r: Members = Vec::new();
    let ghost mut k: int = 0;
    assert(ps.take(0) =~= Seq::<Seq<(Seq<char>, BodyValueView)>>::empty());
    assert(parts_view(rest@) =~= ps.skip(0));
    while rest.len() > 0
        invariant
            0 <= k <= ps.len(),
            parts_view(rest@) == ps.skip(k),
            members_view(r@) == ps.take(k).flatten_alt(),
        decreases rest@.len(),
    {
        let ghost before = members_view(r@);
        let ghost old_rest = rest@;
        assert(parts_view(old_rest).len() == old_rest.len());
        assert(k < ps.len());
        let mut part = rest.remove(0);
        assert(members_view(part@) == ps[k]) by {
            assert(parts_view(old_rest)[0] == members_view(old_rest[0]@));
            assert(parts_view(old_rest)[0] == ps.skip(k)[0]);
        }
        r.append(&mut part);
        assert(members_view(r@) =~= before + ps[k]);
        assert(ps.take(k + 1).drop_last() =~= ps.take(k));
        assert(rest@ =~= old_rest.subrange(1, old_rest.len() as int));
        assert forall|j: int| 0 <= j < rest@.len() implies parts_view(rest@)[j] == ps.skip(k + 1)[j] by {
            assert(parts_view(rest@)[j] == members_view(old_rest[j + 1]@));
            assert(parts_view(old_rest)[j + 1] == members_view(old_rest[j + 1]@));
            assert(parts_view(old_rest)[j + 1] == ps.skip(k)[j + 1]);
        }
        assert(parts_view(rest@) =~= ps.skip(k + 1));
        proof {
            k = k + 1;
        }
    }
    assert(ps.take(k) =~= ps);
    r
}

fn redirect_url_texts(v: &Vec<RedirectUrl>) -> (r: Vec<String>)
    ensures
        strings_view(r@) == redirect_urls_view(v@),
{
    let mut r: Vec<String> = Vec::new();
    let n = v.len();
    let mut i: usize = 0;
    while i < n
        invariant
            n == v@.len(),
            i <= n,
            strings_view(r@) == redirect_urls_view(v@).take(i as int),
        decreases n - i,
    {
        let ghost before = r@;
        r.push(v[i].url().to_owned());
        assert(strings_view(r@) =~= strings_view(before).push(v@[i as int].url_text()));
        assert(strings_view(r@) =~= redirect_urls_view(v@).take(i + 1));
        i = i + 1;
    }
    assert(redirect_urls_view(v@).take(n as int) =~= redirect_urls_view(v@));
    r
}

fn response_type_texts(v: &Vec<ResponseType>) -> (r: Vec<String>)
    ensures
        strings_view(r@) == response_types_view(v@),
{
    let mut r: Vec<String> = Vec::new();
    let n = v.len();
    let mut i: usize = 0;
    while i < n
        invariant
            n == v@.len(),
            i <= n,
            strings_view(r@) == response_types_view(v@).take(i as int),
        decreases n - i,
    {
        let ghost before = r@;
        r.push(v[i].as_str().to_owned());
        assert(strings_view(r@) =~= strings_view(before).push(v@[i as int]@));
        assert(strings_view(r@) =~= response_types_view(v@).take(i + 1));
        i = i + 1;
    }
    assert(response_types_view(v@).take(n as int) =~= response_types_view(v@));
    r
}

fn clone_texts(v: &Vec<String>) -> (r: Vec<String>)
    ensures
        strings_view(r@) == strings_view(v@),
{
    let mut r: Vec<String> = Vec::new();
    let n = v.len();
    let mut i: usize = 0;
    while i < n
        invariant
            n == v@.len(),
            i <= n,
            strings_view(r@) == strings_view(v@).take(i as int),
        decreases n - i,
    {
        let ghost before = r@;
        r.push(v[i].clone());
        assert(strings_view(r@) =~= strings_view(before).push(v@[i as int]@));
        assert(strings_view(r@) =~= strings_view(v@).take(i + 1));
        i = i + 1;
    }
    assert(strings_view(v@).take(n as int) =~= strings_view(v@));
    r
}

fn opt_as_str(o: &Option<String>) -> (r: Option<&str>)
    ensures
        opt_text(r) == opt_text(*o),
{
    match o {
        Some(s) => Some(s.as_str()),
        None => None,
    }
}

/// An HTTP request, as plain values: method, URI, headers in order, body.
#[derive(Clone, Debug)]
pub struct HttpRequest {
    pub method: String,
    pub uri: String,
    pub headers: Vec<(String, String)>,
    pub body: Vec<u8>,
}

/// What an HTTP request holds.
#[verifier::ext_equal]
pub struct HttpRequestView {
    pub method: Seq<char>,
    pub uri: Seq<char>,
    pub headers: Seq<(Seq<char>, Seq<char>)>,
    pub body: Seq<u8>,
}

impl View for HttpRequest {
    type V = HttpRequestView;

    open spec fn view(&self) -> HttpRequestView {
        HttpRequestView {
            method: self.method@,
            uri: self.uri@,
            headers: pairs_view(self.headers@),
            body: self.body@,
        }
    }
}

/// Why a registration request could not be turned into an HTTP request.
#[derive(Debug)]
pub enum PrepareRequestError {
    /// The initial access token cannot stand in an `Authorization` header.
    AuthorizationHeader(http::header::InvalidHeaderValue),
    /// The registration endpoint is no URI that an HTTP request can carry.
    InvalidUri(http::uri::InvalidUri),
}

/// What preparing a registration request comes to.
pub enum PrepareOutcome {
    Ready(HttpRequestView),
    InvalidAuthorizationHeader,
    InvalidUri,
}

/// What a result of preparing a request comes to.
pub open spec fn outcome_of(r: Result<HttpRequest, PrepareRequestError>) -> PrepareOutcome {
    match r {
        Ok(req) => PrepareOutcome::Ready(req@),
        Err(PrepareRequestError::AuthorizationHeader(_)) => PrepareOutcome::InvalidAuthorizationHeader,
        Err(PrepareRequestError::InvalidUri(_)) => PrepareOutcome::InvalidUri,
    }
}

/// The `Authorization` header value that carries the token `token`.
pub open spec fn bearer_value(token: Seq<char>) -> Seq<char> {
    "Bearer "@ + token
}

/// The headers of a registration request: JSON accepted, JSON sent, and the
/// initial access token as a bearer token where there is one.
pub open spec fn request_headers(token: Option<Seq<char>>) -> Seq<(Seq<char>, Seq<char>)> {
    seq![("accept"@, "application/json"@), ("content-type"@, "application/json"@)] + match token {
        Some(t) => seq![("authorization"@, bearer_value(t))],
        None => Seq::empty(),
    }
}

/// What the request `m` comes to, with `jwks_json` as the JSON text of its
/// key set: the token fails where it cannot stand in a header; else the
/// endpoint fails where it is no HTTP URI; else a `POST` of the body to the
/// endpoint.
pub open spec fn prepared_request(m: RegistrationRequestView, jwks_json: Option<Seq<u8>>) -> PrepareOutcome {
    let members = body_members(m, jwks_json);
    if m.initial_access_token is Some && !header_value_text_ok(
        bearer_value(m.initial_access_token->0),
    ) {
        PrepareOutcome::InvalidAuthorizationHeader
    } else if !http_uri_accepts(m.registration_url) {
        PrepareOutcome::InvalidUri
    } else {
        PrepareOutcome::Ready(
            HttpRequestView {
                method: "POST"@,
                uri: m.registration_url,
                headers: request_headers(m.initial_access_token),
                body: object_bytes(members),
            },
        )
    }
}

/// A prepared registration request carries an `Authorization` header exactly
/// when the request has an initial access token, and then carries the token
/// as a bearer token; it always sends and accepts JSON.
pub proof fn law_prepared_request_headers(m: RegistrationRequestView, jwks_json: Option<Seq<u8>>)
    ensures
        prepared_request(m, jwks_json) matches PrepareOutcome::Ready(req) ==> {
            &&& (has_name(req.headers, "authorization"@) <==> m.initial_access_token is Some)
            &&& (m.initial_access_token matches Some(t) ==> req.headers.contains(
                ("authorization"@, bearer_value(t)),
            ))
            &&& req.headers.contains(("accept"@, "application/json"@))
            &&& req.headers.contains(("content-type"@, "application/json"@))
        },
{
    reveal_strlit("authorization");
    reveal_strlit("accept");
    reveal_strlit("content-type");
    if let PrepareOutcome::Ready(req) = prepared_request(m, jwks_json) {
        let hs = req.headers;
        assert(hs[0] == ("accept"@, "application/json"@));
        assert(hs[1] == ("content-type"@, "application/json"@));
        assert("authorization"@.len() == 13);
        if m.initial_access_token is Some {
            assert(hs[2].0 == "authorization"@);
        } else {
            assert(hs.len() == 2);
            assert forall|i: int| 0 <= i < hs.len() implies #[trigger] hs[i].0 != "authorization"@ by {
                if i == 0 {
                    assert(hs[i].0.len() == 6);
                } else {
                    assert(hs[i].0.len() == 12);
                }
            }
        }
    }
}

/// Preparing a request fails only for the reasons it names: it refuses the
/// token exactly when "Bearer " and the token cannot stand in a header;
/// otherwise it refuses the endpoint exactly when it is no HTTP URI; and
/// otherwise it is a `POST` of the JSON body to the endpoint, sending and
/// accepting JSON, with the token (if any) as "Bearer " and the token.
pub proof fn law_prepared_request_outcome(m: RegistrationRequestView, jwks_json: Option<Seq<u8>>)
    ensures
        (prepared_request(m, jwks_json) is InvalidAuthorizationHeader) <==> (m.initial_access_token
            is Some && !header_value_text_ok("Bearer "@ + m.initial_access_token->0)),
        (prepared_request(m, jwks_json) is InvalidUri) <==> (!(m.initial_access_token is Some
            && !header_value_text_ok("Bearer "@ + m.initial_access_token->0)) && !http_uri_accepts(
            m.registration_url,
        )),
        prepared_request(m, jwks_json) matches PrepareOutcome::Ready(req) ==> {
            &&& req.method == "POST"@
            &&& req.uri == m.registration_url
            &&& req.body == object_bytes(body_members(m, jwks_json))
            &&& req.headers == seq![
                ("accept"@, "application/json"@),
                ("content-type"@, "application/json"@),
            ] + match m.initial_access_token {
                Some(t) => seq![("authorization"@, "Bearer "@ + t)],
                None => Seq::empty(),
            }
        },
{
}

/// A new request holds the client name exactly as given and the endpoint,
/// and nothing else: its body is the client name alone.
pub proof fn law_new_request(client_name: Seq<char>, registration_url: Seq<char>)
    ensures
        ({
            let m = new_request_view(client_name, registration_url);
            &&& m.client_name == Some(client_name)
            &&& m.registration_url == registration_url
            &&& m.redirect_uris.len() == 0 && m.grant_types.len() == 0 && m.response_types.len() == 0
                && m.contacts.len() == 0 && m.extra_params.len() == 0
            &&& m.token_endpoint_auth_method is None && m.client_uri is None && m.logo_uri is None
                && m.scope is None && m.tos_uri is None && m.policy_uri is None && m.jwks_uri is None
                && m.jwks is None && m.software_id is None && m.software_version is None
                && m.software_statement is None && m.initial_access_token is None
            &&& body_members(m, None) == seq![("client_name"@, BodyValueView::Str(client_name))]
        }),
{
    let m = new_request_view(client_name, registration_url);
    let ps = body_parts(m, None);
    assert(merged_params(m.extra_params) =~= Seq::<(Seq<char>, Seq<char>)>::empty());
    assert(extra_members(m.extra_params) =~= Seq::<(Seq<char>, BodyValueView)>::empty());
    assert forall|k: int| 0 <= k < ps.len() && k != 4 implies #[trigger] ps[k].len() == 0 by {}
    lemma_flatten_alt_single(ps, 4);
}

/// Flattening sequences all empty but one gives that one.
proof fn lemma_flatten_alt_single<A>(ps: Seq<Seq<A>>, k: int)
    requires
        0 <= k < ps.len(),
        forall|i: int| 0 <= i < ps.len() && i != k ==> #[trigger] ps[i].len() == 0,
    ensures
        ps.flatten_alt() == ps[k],
    decreases ps.len(),
{
    let init = ps.drop_last();
    if k < ps.len() - 1 {
        assert forall|i: int| 0 <= i < init.len() && i != k implies #[trigger] init[i].len() == 0 by {
            assert(init[i] == ps[i]);
        }
        lemma_flatten_alt_single(init, k);
        assert(ps[ps.len() - 1].len() == 0);
        assert(ps.flatten_alt() =~= init.flatten_alt());
    } else {
        lemma_flatten_alt_empty(init);
        assert(ps.flatten_alt() =~= ps[k]);
    }
}

/// Flattening sequences that are all empty gives the empty sequence.
proof fn lemma_flatten_alt_empty<A>(ps: Seq<Seq<A>>)
    requires
        forall|i: int| 0 <= i < ps.len() ==> #[trigger] ps[i].len() == 0,
    ensures
        ps.flatten_alt().len() == 0,
    decreases ps.len(),
{
    if ps.len() > 0 {
        let init = ps.drop_last();
        assert forall|i: int| 0 <= i < init.len() implies #[trigger] init[i].len() == 0 by {
            assert(init[i] == ps[i]);
        }
        lemma_flatten_alt_empty(init);
        assert(ps[ps.len() - 1].len() == 0);
    }
}

/// Whether a registration response with this HTTP status is a success: 200
/// (OK) or 201 (Created).
pub fn is_expected_registration_status(status: u16) -> (r: bool)
    ensures
        r == (status == 200 || status == 201),
{
    status == 200 || status == 201
}

impl<'a> DynamicClientRegistrationRequest<'a> {
    /// The members of the registration body, with `jwks_json` as the JSON
    /// text of the key set.
    pub fn registration_body_members(&self, jwks_json: Option<Vec<u8>>) -> (r: Vec<(String, BodyValue)>)
        ensures
            members_view(r@) == body_members(self@, opt_bytes(jwks_json)),
    {
        let ghost jb = opt_bytes(jwks_json);
        let name = match &self.client_name {
            Some(n) => Some(n.as_str()),
            None => None,
        };
        let scope = match &self.scope {
            Some(s) => Some(s.as_str()),
            None => None,
        };
        let parts: Vec<Members> = vec![
            list_part("redirect_uris", redirect_url_texts(&self.redirect_uris)),
            text_part("token_endpoint_auth_method", opt_as_str(&self.token_endpoint_auth_method)),
            list_part("grant_types", clone_texts(&self.grant_types)),
            list_part("response_types", response_type_texts(&self.response_types)),
            text_part("client_name", name),
            text_part("client_uri", opt_as_str(&self.client_uri)),
            text_part("logo_uri", opt_as_str(&self.logo_uri)),
            text_part("scope", scope),
            list_part("contacts", clone_texts(&self.contacts)),
            text_part("tos_uri", opt_as_str(&self.tos_uri)),
            text_part("policy_uri", opt_as_str(&self.policy_uri)),
            text_part("jwks_uri", opt_as_str(&self.jwks_uri)),
            raw_part("jwks", jwks_json),
            text_part("software_id", opt_as_str(&self.software_id)),
            text_part("software_version", opt_as_str(&self.software_version)),
            text_part("software_statement", opt_as_str(&self.software_statement)),
            extra_part(&self.extra_params),
        ];
        assert(parts_view(parts@) =~= body_parts(self@, jb));
        flatten_parts(parts)
    }

    /// Turns the request into an HTTP request, with `jwks_json` as the JSON
    /// text of the key set.
    pub fn assemble_request(&self, jwks_json: Option<Vec<u8>>) -> (r: Result<HttpRequest, PrepareRequestError>)
        ensures
            outcome_of(r) == prepared_request(self@, opt_bytes(jwks_json)),
    {
        let ghost jb = opt_bytes(jwks_json);
        let members = self.registration_body_members(jwks_json);
        let body = encode_json_object(&members);
        let mut headers: Vec<(String, String)> = Vec::new();
        headers.push(("accept".to_owned(), "application/json".to_owned()));
        headers.push(("content-type".to_owned(), "application/json".to_owned()));
        match &self.initial_access_token {
            Some(token) => {
                let mut value: String = "Bearer ".to_owned();
                value.append(token.secret().as_str());
                match check_header_value(value.as_str()) {
                    Ok(()) => {},
                    Err(e) => {
                        return Err(PrepareRequestError::AuthorizationHeader(e));
                    },
                }
                headers.push(("authorization".to_owned(), value));
            },
            None => {},
        }
        assert(pairs_view(headers@) =~= request_headers(self@.initial_access_token));
        let uri: String = self.dynamic_client_registration_url.url().to_owned();
        match check_uri(uri.as_str()) {
            Ok(()) => {},
            Err(e) => {
                return Err(PrepareRequestError::InvalidUri(e));
            },
        }
        let req = HttpRequest { method: "POST".to_owned(), uri, headers, body };
        assert(req@ =~= prepared_request(self@, jb)->Ready_0);
        Ok(req)
    }

    /// Turns the request into an HTTP request: a `POST` of the JSON body to
    /// the registration endpoint, with the key set written by `serde_json`.
    pub fn prepare_request(self) -> (r: Result<HttpRequest, PrepareRequestError>)
        ensures
            outcome_of(r) == prepared_request(self@, key_set_text(self@.jwks)),
    {
        let jwks_json = match &self.jwks {
            Some(v) => Some(json_value(v)),
            None => None,
        };
        self.assemble_request(jwks_json)
    }
}

/// The JSON text of a key set, where there is one.
pub open spec fn key_set_text(jwks: Option<serde_json::Value>) -> Option<Seq<u8>> {
    match jwks {
        Some(v) => Some(json_value_text(v)),
        None => None,
    }
}

} // verus!
