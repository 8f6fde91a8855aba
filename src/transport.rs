//! The outside pieces the client is built from: base64 encoding and the
//! reqwest transport. Each item here is trusted; its doc comment names the
//! outside function it relies on.
use std::time::Duration;
use vstd::prelude::*;
use vstd::string::StringSliceAdditionalSpecFns;

use base64::engine::general_purpose::STANDARD;
use base64::Engine;
use reqwest::header::{HeaderMap, HeaderValue, InvalidHeaderValue, AUTHORIZATION};

verus! {

#[verifier::external_type_specification]
#[verifier::external_body]
pub struct ExClient(reqwest::Client);

#[verifier::external_type_specification]
#[verifier::external_body]
pub struct ExClientBuilder(reqwest::ClientBuilder);

#[verifier::external_type_specification]
#[verifier::external_body]
pub struct ExRequestError(reqwest::Error);

#[verifier::external_type_specification]
#[verifier::external_body]
#[verifier::reject_recursive_types(T)]
pub struct ExHeaderMap<T>(HeaderMap<T>);

#[verifier::external_type_specification]
#[verifier::external_body]
pub struct ExHeaderValue(HeaderValue);

#[verifier::external_type_specification]
#[verifier::external_body]
pub struct ExInvalidHeaderValue(InvalidHeaderValue);

/// The text that the standard base64 engine (RFC 4648 alphabet, with `=`
/// padding) produces for the given bytes.
pub uninterp spec fn base64_of(bytes: Seq<u8>) -> Seq<char>;

/// A character of the standard base64 alphabet, or the padding character.
pub open spec fn is_base64_char(c: char) -> bool {
    ||| 'A' <= c <= 'Z'
    ||| 'a' <= c <= 'z'
    ||| '0' <= c <= '9'
    ||| c == '+'
    ||| c == '/'
    ||| c == '='
}

/// A byte that may stand in an HTTP header value: visible ASCII, any
/// byte of 128 or above, or a tab.
pub open spec fn is_header_byte(b: u8) -> bool {
    b >= 32 && b != 127 || b == 9
}

/// Relies on `base64::engine::general_purpose::STANDARD.encode`: the result
/// depends on the bytes alone, is made of the standard alphabet and `=`, and
/// with padding holds four characters for each started group of three bytes.
#[verifier::external_body]
pub(crate) fn encode_base64(bytes: &[u8]) -> (r: String)
    ensures
        r@ == base64_of(bytes@),
        r@.len() == 4 * ((bytes@.len() + 2) / 3),
        forall|i: int| 0 <= i < r@.len() ==> is_base64_char(#[trigger] r@[i]),
{
    STANDARD.encode(bytes)
}

/// The view of an optional string.
pub open spec fn opt_view(o: Option<String>) -> Option<Seq<char>> {
    match o {
        Some(s) => Some(s@),
        None => None,
    }
}

/// What this library configures a transport to send with every request:
/// the Authorization value, the user agent, and the request timeout. It is
/// recorded beside each configuring call.
#[derive(Debug)]
pub struct TransportSettings {
    authorization: Option<String>,
    user_agent: Option<String>,
    timeout: Option<Duration>,
}

impl TransportSettings {
    pub closed spec fn spec_authorization(&self) -> Option<Seq<char>> {
        opt_view(self.authorization)
    }

    pub closed spec fn spec_user_agent(&self) -> Option<Seq<char>> {
        opt_view(self.user_agent)
    }

    pub closed spec fn spec_timeout(&self) -> Option<Duration> {
        self.timeout
    }

    pub fn authorization(&self) -> (r: Option<&str>)
        ensures
            match r {
                Some(s) => self.spec_authorization() == Some(s@),
                None => self.spec_authorization() is None,
            },
    {
        match &self.authorization {
            Some(s) => Some(s.as_str()),
            None => None,
        }
    }

    pub fn user_agent(&self) -> (r: Option<&str>)
        ensures
            match r {
                Some(s) => self.spec_user_agent() == Some(s@),
                None => self.spec_user_agent() is None,
            },
    {
        match &self.user_agent {
            Some(s) => Some(s.as_str()),
            None => None,
        }
    }

    pub fn timeout(&self) -> (r: Option<Duration>)
        ensures
            r == self.spec_timeout(),
    {
        self.timeout
    }
}

impl Clone for TransportSettings {
    fn clone(&self) -> (r: Self)
        ensures
            r.spec_authorization() == self.spec_authorization(),
            r.spec_user_agent() == self.spec_user_agent(),
            r.spec_timeout() == self.spec_timeout(),
    {
        let authorization = match &self.authorization {
            Some(s) => Some(s.clone()),
            None => None,
        };
        let user_agent = match &self.user_agent {
            Some(s) => Some(s.clone()),
            None => None,
        };
        TransportSettings { authorization, user_agent, timeout: self.timeout }
    }
}

/// Whether two settings records say the same.
pub open spec fn same_settings(a: TransportSettings, b: TransportSettings) -> bool {
    &&& a.spec_authorization() == b.spec_authorization()
    &&& a.spec_user_agent() == b.spec_user_agent()
    &&& a.spec_timeout() == b.spec_timeout()
}

/// A header value, with the text it was made from.
pub struct HeaderText {
    value: HeaderValue,
    text: String,
}

impl HeaderText {
    pub closed spec fn spec_text(&self) -> Seq<char> {
        self.text@
    }
}

/// A header map that holds at most an Authorization value.
pub struct Headers {
    map: HeaderMap<HeaderValue>,
    authorization: Option<String>,
}

impl Headers {
    pub closed spec fn spec_authorization(&self) -> Option<Seq<char>> {
        opt_view(self.authorization)
    }
}

/// A transport being configured, with the settings given to it so far.
pub struct TransportBuilder {
    builder: reqwest::ClientBuilder,
    settings: TransportSettings,
}

impl TransportBuilder {
    pub closed spec fn spec_settings(&self) -> TransportSettings {
        self.settings
    }
}

/// A finished transport, with the settings it was built with.
#[derive(Debug)]
pub struct Transport {
    client: reqwest::Client,
    settings: TransportSettings,
}

impl Transport {
    pub closed spec fn spec_settings(&self) -> TransportSettings {
        self.settings
    }

    pub closed spec fn spec_client(&self) -> reqwest::Client {
        self.client
    }

    /// The underlying client, for issuing requests.
    pub fn client(&self) -> (r: reqwest::Client)
        ensures
            r == self.spec_client(),
    {
        self.client.clone()
    }

    /// The settings the transport was built with.
    pub fn settings(&self) -> (r: &TransportSettings)
        ensures
            *r == self.spec_settings(),
    {
        &self.settings
    }
}

impl Clone for Transport {
    fn clone(&self) -> (r: Self)
        ensures
            r.spec_client() == self.spec_client(),
            same_settings(r.spec_settings(), self.spec_settings()),
    {
        Transport { client: self.client.clone(), settings: self.settings.clone() }
    }
}

/// Relies on `reqwest::header::HeaderValue::from_str`: it fails exactly when
/// some byte of the text may not stand in a header value.
#[verifier::external_body]
pub(crate) fn header_value(text: &str) -> (r: Result<HeaderText, InvalidHeaderValue>)
    ensures
        r is Ok <==> forall|i: int|
            0 <= i < text.spec_bytes().len() ==> is_header_byte(#[trigger] text.spec_bytes()[i]),
        r matches Ok(v) ==> v.spec_text() == text@,
{
    HeaderValue::from_str(text).map(|value| HeaderText { value, text: text.to_string() })
}

/// Relies on `reqwest::header::HeaderMap::new`: an empty header map.
#[verifier::external_body]
pub(crate) fn empty_headers() -> (r: Headers)
    ensures
        r.spec_authorization() is None,
{
    Headers { map: HeaderMap::new(), authorization: None }
}

/// Relies on `reqwest::header::HeaderMap::insert`, keyed by `Authorization`:
/// the value replaces any earlier one.
#[verifier::external_body]
pub(crate) fn set_authorization(headers: &mut Headers, value: HeaderText)
    ensures
        final(headers).spec_authorization() == Some(value.spec_text()),
{
    headers.map.insert(AUTHORIZATION, value.value);
    headers.authorization = Some(value.text);
}

/// Relies on `reqwest::Client::builder`: a fresh configuration, which sets
/// no Authorization value, no user agent and no timeout.
#[verifier::external_body]
pub(crate) fn transport_builder() -> (r: TransportBuilder)
    ensures
        r.spec_settings().spec_authorization() is None,
        r.spec_settings().spec_user_agent() is None,
        r.spec_settings().spec_timeout() is None,
{
    let settings = TransportSettings { authorization: None, user_agent: None, timeout: None };
    TransportBuilder { builder: reqwest::Client::builder(), settings }
}

/// Relies on `reqwest::ClientBuilder::user_agent`: the value becomes the
/// user agent sent with every request (an invalid one makes `build` fail).
#[verifier::external_body]
pub(crate) fn with_user_agent(b: TransportBuilder, agent: &str) -> (r: TransportBuilder)
    ensures
        r.spec_settings().spec_authorization() == b.spec_settings().spec_authorization(),
        r.spec_settings().spec_user_agent() == Some(agent@),
        r.spec_settings().spec_timeout() == b.spec_settings().spec_timeout(),
{
    let settings = TransportSettings { user_agent: Some(agent.to_string()), ..b.settings };
    TransportBuilder { builder: b.builder.user_agent(agent), settings }
}

/// Relies on `reqwest::ClientBuilder::timeout`: the timeout applied to each
/// request.
#[verifier::external_body]
pub(crate) fn with_timeout(b: TransportBuilder, timeout: Duration) -> (r: TransportBuilder)
    ensures
        r.spec_settings().spec_authorization() == b.spec_settings().spec_authorization(),
        r.spec_settings().spec_user_agent() == b.spec_settings().spec_user_agent(),
        r.spec_settings().spec_timeout() == Some(timeout),
{
    let settings = TransportSettings { timeout: Some(timeout), ..b.settings };
    TransportBuilder { builder: b.builder.timeout(timeout), settings }
}

/// Relies on `reqwest::ClientBuilder::default_headers`: each header of the
/// map is sent with every request, replacing an earlier default.
#[verifier::external_body]
pub(crate) fn with_default_headers(b: TransportBuilder, headers: Headers) -> (r: TransportBuilder)
    requires
        headers.spec_authorization() is Some,
    ensures
        r.spec_settings().spec_authorization() == headers.spec_authorization(),
        r.spec_settings().spec_user_agent() == b.spec_settings().spec_user_agent(),
        r.spec_settings().spec_timeout() == b.spec_settings().spec_timeout(),
{
    let settings = TransportSettings { authorization: headers.authorization, ..b.settings };
    TransportBuilder { builder: b.builder.default_headers(headers.map), settings }
}

/// Relies on `reqwest::ClientBuilder::build`: the finished transport, built
/// with the configured settings, or the error met while setting it up.
#[verifier::external_body]
pub(crate) fn finish_transport(b: TransportBuilder) -> (r: Result<Transport, reqwest::Error>)
    ensures
        r matches Ok(t) ==> same_settings(t.spec_settings(), b.spec_settings()),
{
    let settings = b.settings;
    b.builder.build().map(|client| Transport { client, settings })
}

/// Relies on `reqwest::Client`'s derived `Clone`: the client is one `Arc`
/// handle, so a clone is the same handle.
pub assume_specification[ <reqwest::Client as Clone>::clone ](c: &reqwest::Client) -> (r: reqwest::Client)
    ensures
        r == *c,
;

} // verus!
