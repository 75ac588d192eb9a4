use vstd::prelude::*;

use crate::text::{
    join_space_delimited, join_with_spaces, split_at_spaces, split_space_delimited, strings_view,
};

verus! {

/// `url::ParseError`, the error of a URL that does not parse.
#[verifier::external_type_specification]
#[verifier::external_body]
pub struct ExUrlParseError(url::ParseError);

/// The serialization that `url::Url::parse` gives the URL `input`, or `None`
/// where it refuses the input.
pub uninterp spec fn url_serialization(input: Seq<char>) -> Option<Seq<char>>;

/// Calls `url::Url::parse` on `input` and turns the parsed URL into its
/// serialization (`String::from(Url)`). Trusted: the result is `Ok` exactly
/// when the parse succeeds, and then holds the serialization, both as named
/// by `url_serialization`; what the parser accepts and how it normalises is
/// not stated.
#[verifier::external_body]
fn parse_url(input: &str) -> (r: Result<String, url::ParseError>)
    ensures
        r is Ok <==> url_serialization(input@) is Some,
        r matches Ok(s) ==> url_serialization(input@) == Some(s@),
{
    match url::Url::parse(input) {
        Ok(u) => Ok(String::from(u)),
        Err(e) => Err(e),
    }
}

/// OAuth 2.0 client identifier.
#[derive(Clone, Debug, PartialEq, Eq)]
pub struct ClientId(String);

impl View for ClientId {
    type V = Seq<char>;

    closed spec fn view(&self) -> Seq<char> {
        self.0@
    }
}

impl ClientId {
    /// Wraps a client identifier.
    pub fn new(s: String) -> (r: Self)
        ensures
            r@ == s@,
    {
        ClientId(s)
    }

    /// The client identifier.
    pub fn as_str(&self) -> (r: &str)
        ensures
            r@ == self@,
    {
        self.0.as_str()
    }
}

/// OAuth 2.0 client secret.
#[derive(Clone, Debug, PartialEq, Eq)]
pub struct ClientSecret(String);

impl View for ClientSecret {
    type V = Seq<char>;

    closed spec fn view(&self) -> Seq<char> {
        self.0@
    }
}

impl ClientSecret {
    /// Wraps a client secret.
    pub fn new(s: String) -> (r: Self)
        ensures
            r@ == s@,
    {
        ClientSecret(s)
    }

    /// The secret itself.
    pub fn secret(&self) -> (r: &String)
        ensures
            r@ == self@,
    {
        &self.0
    }
}

/// OAuth 2.0 access token, here the initial access token of a protected
/// registration.
#[derive(Clone, Debug, PartialEq, Eq)]
pub struct AccessToken(String);

impl View for AccessToken {
    type V = Seq<char>;

    closed spec fn view(&self) -> Seq<char> {
        self.0@
    }
}

impl AccessToken {
    /// Wraps an access token.
    pub fn new(s: String) -> (r: Self)
        ensures
            r@ == s@,
    {
        AccessToken(s)
    }

    /// The token itself.
    pub fn secret(&self) -> (r: &String)
        ensures
            r@ == self@,
    {
        &self.0
    }
}

/// Human-readable name of a client.
#[derive(Clone, Debug, PartialEq, Eq)]
pub struct ClientName(String);

impl View for ClientName {
    type V = Seq<char>;

    closed spec fn view(&self) -> Seq<char> {
        self.0@
    }
}

impl ClientName {
    /// Wraps a client name.
    pub fn new(s: String) -> (r: Self)
        ensures
            r@ == s@,
    {
        ClientName(s)
    }

    /// The name.
    pub fn as_str(&self) -> (r: &str)
        ensures
            r@ == self@,
    {
        self.0.as_str()
    }
}

/// OAuth 2.0 authorization response type (such as `code`).
#[derive(Clone, Debug, PartialEq, Eq)]
pub struct ResponseType(String);

impl View for ResponseType {
    type V = Seq<char>;

    closed spec fn view(&self) -> Seq<char> {
        self.0@
    }
}

impl ResponseType {
    /// Wraps a response type.
    pub fn new(s: String) -> (r: Self)
        ensures
            r@ == s@,
    {
        ResponseType(s)
    }

    /// The response type.
    pub fn as_str(&self) -> (r: &str)
        ensures
            r@ == self@,
    {
        self.0.as_str()
    }
}

/// An OAuth 2.0 scope value (or several, separated by spaces).
#[derive(Clone, Debug, PartialEq, Eq)]
pub struct Scope(String);

impl View for Scope {
    type V = Seq<char>;

    closed spec fn view(&self) -> Seq<char> {
        self.0@
    }
}

impl Scope {
    /// Wraps a scope value.
    pub fn new(s: String) -> (r: Self)
        ensures
            r@ == s@,
    {
        Scope(s)
    }

    /// The scope value.
    pub fn as_str(&self) -> (r: &str)
        ensures
            r@ == self@,
    {
        self.0.as_str()
    }
}

/// The text of each scope of a sequence.
pub open spec fn scopes_view(v: Seq<Scope>) -> Seq<Seq<char>> {
    v.map_values(|s: Scope| s@)
}

/// The scopes of a space-delimited scope text, one per piece as
/// `str::split(' ')` cuts it.
pub fn scopes_from_space_delimited(s: &str) -> (r: Vec<Scope>)
    ensures
        scopes_view(r@) == split_space_delimited(s@),
{
    let pieces = split_at_spaces(s);
    let mut r: Vec<Scope> = Vec::new();
    let n = pieces.len();
    let mut i: usize = 0;
    while i < n
        invariant
            n == pieces@.len(),
            i <= n,
            scopes_view(r@) == strings_view(pieces@).take(i as int),
        decreases n - i,
    {
        let ghost before = r@;
        r.push(Scope::new(pieces[i].clone()));
        assert(scopes_view(r@) =~= scopes_view(before).push(pieces@[i as int]@));
        assert(scopes_view(r@) =~= strings_view(pieces@).take(i + 1));
        i = i + 1;
    }
    assert(strings_view(pieces@).take(n as int) =~= strings_view(pieces@));
    r
}

/// The scopes joined with single spaces.
pub fn scopes_to_space_delimited(scopes: &Vec<Scope>) -> (r: String)
    ensures
        r@ == join_space_delimited(scopes_view(scopes@)),
{
    let mut texts: Vec<String> = Vec::new();
    let n = scopes.len();
    let mut i: usize = 0;
    while i < n
        invariant
            n == scopes@.len(),
            i <= n,
            strings_view(texts@) == scopes_view(scopes@).take(i as int),
        decreases n - i,
    {
        let ghost before = texts@;
        texts.push(scopes[i].as_str().to_owned());
        assert(strings_view(texts@) =~= strings_view(before).push(scopes@[i as int]@));
        assert(strings_view(texts@) =~= scopes_view(scopes@).take(i + 1));
        i = i + 1;
    }
    assert(scopes_view(scopes@).take(n as int) =~= scopes_view(scopes@));
    join_with_spaces(&texts)
}

/// The text of each response type of a sequence.
pub open spec fn response_types_view(v: Seq<ResponseType>) -> Seq<Seq<char>> {
    v.map_values(|t: ResponseType| t@)
}

/// Redirection URL of a client: the text it was made from and the
/// serialization of the parsed URL.
#[derive(Clone, Debug, PartialEq, Eq)]
pub struct RedirectUrl {
    url: String,
    input: String,
}

impl RedirectUrl {
    /// The serialization of the parsed URL.
    pub closed spec fn url_text(&self) -> Seq<char> {
        self.url@
    }

    /// The text the URL was made from.
    pub closed spec fn input_text(&self) -> Seq<char> {
        self.input@
    }

    /// Parses `url`; fails where it is no URL.
    pub fn new(url: String) -> (r: Result<Self, url::ParseError>)
        ensures
            r is Ok <==> url_serialization(url@) is Some,
            r matches Ok(u) ==> Some(u.url_text()) == url_serialization(url@) && u.input_text()
                == url@,
    {
        match parse_url(url.as_str()) {
            Ok(parsed) => Ok(RedirectUrl { url: parsed, input: url }),
            Err(e) => Err(e),
        }
    }

    /// The serialization of the parsed URL.
    pub fn url(&self) -> (r: &str)
        ensures
            r@ == self.url_text(),
    {
        self.url.as_str()
    }

    /// The text the URL was made from.
    pub fn as_str(&self) -> (r: &str)
        ensures
            r@ == self.input_text(),
    {
        self.input.as_str()
    }
}

/// The serialization of each URL of a sequence.
pub open spec fn redirect_urls_view(v: Seq<RedirectUrl>) -> Seq<Seq<char>> {
    v.map_values(|u: RedirectUrl| u.url_text())
}

/// URL of the client registration endpoint of an authorization server.
#[derive(Clone, Debug, PartialEq, Eq)]
pub struct DynamicClientRegistrationUrl {
    url: String,
    input: String,
}

impl DynamicClientRegistrationUrl {
    /// The serialization of the parsed URL.
    pub closed spec fn url_text(&self) -> Seq<char> {
        self.url@
    }

    /// The text the URL was made from.
    pub closed spec fn input_text(&self) -> Seq<char> {
        self.input@
    }

    /// Parses `url`; fails where it is no URL.
    pub fn new(url: String) -> (r: Result<Self, url::ParseError>)
        ensures
            r is Ok <==> url_serialization(url@) is Some,
            r matches Ok(u) ==> Some(u.url_text()) == url_serialization(url@) && u.input_text()
                == url@,
    {
        match parse_url(url.as_str()) {
            Ok(parsed) => Ok(DynamicClientRegistrationUrl { url: parsed, input: url }),
            Err(e) => Err(e),
        }
    }

    /// The serialization of the parsed URL.
    pub fn url(&self) -> (r: &str)
        ensures
            r@ == self.url_text(),
    {
        self.url.as_str()
    }

    /// The text the URL was made from.
    pub fn as_str(&self) -> (r: &str)
        ensures
            r@ == self.input_text(),
    {
        self.input.as_str()
    }
}

} // verus!
