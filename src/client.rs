//! The client and the builder that configures it.
use std::time::Duration;
use vstd::prelude::*;
use vstd::string::*;
use vstd::utf8::encode_utf8;

use crate::api::pages::PagesApi;
use crate::error::{BuildError, ConfigurationError};
use crate::text::has_prefix;
use crate::transport::{
    base64_of, empty_headers, encode_base64, finish_transport, header_value, is_base64_char,
    is_header_byte, set_authorization, transport_builder, with_default_headers, Transport,
    same_settings, opt_view, TransportSettings, with_timeout, with_user_agent,
};

verus! {

broadcast use vstd::string::is_ascii_spec_bytes;

/// Whether a host already names its scheme.
pub open spec fn has_scheme(host: Seq<char>) -> bool {
    "http://"@.is_prefix_of(host) || "https://"@.is_prefix_of(host)
}

/// The base URL of a host: the host itself when it names its scheme,
/// else the host under `https://`.
pub open spec fn normalized_base_url(host: Seq<char>) -> Seq<char> {
    if has_scheme(host) {
        host
    } else {
        "https://"@ + host
    }
}

/// The Basic authorization header value for a pair of credentials: the
/// base64 of `identity:secret` in UTF-8.
pub open spec fn basic_authorization(identity: Seq<char>, secret: Seq<char>) -> Seq<char> {
    "Basic "@ + base64_of(encode_utf8(identity + ":"@ + secret))
}

/// The user agent the client identifies itself with.
pub open spec fn client_user_agent() -> Seq<char> {
    "c8e-rs/0.1.0"@
}

/// Whether a status code is in the success range.
pub open spec fn is_success_status(status: u16) -> bool {
    200 <= status < 300
}

/// The base URL for a configured host.
pub fn base_url_for(host: &str) -> (r: String)
    ensures
        r@ == normalized_base_url(host@),
        !has_scheme(host@) ==> r@ == "https://"@ + host@,
        has_scheme(host@) ==> r@ == host@,
{
    if has_prefix(host, "http://") || has_prefix(host, "https://") {
        String::from_str(host)
    } else {
        let mut url = String::from_str("https://");
        url.append(host);
        url
    }
}

/// The Basic authorization header value for an identity and a secret.
pub fn authorization_value(identity: &str, secret: &str) -> (r: String)
    ensures
        r@ == basic_authorization(identity@, secret@),
        forall|i: int|
            0 <= i < encode_utf8(r@).len() ==> is_header_byte(#[trigger] encode_utf8(r@)[i]),
{
    let mut credentials = String::from_str(identity);
    credentials.append(":");
    credentials.append(secret);
    let encoded = encode_base64(credentials.as_str().as_bytes());
    let mut value = String::from_str("Basic ");
    value.append(encoded.as_str());
    let s = value.as_str();
    proof {
        reveal_strlit("Basic ");
        assert forall|i: int| 0 <= i < s@.len() implies '\0' <= #[trigger] s@[i] <= '\u{7f}'
            && (s@[i] as u8) >= 32 && (s@[i] as u8) != 127 by {
            if i >= 6 {
                assert(s@[i] == encoded@[i - 6]);
                assert(is_base64_char(encoded@[i - 6]));
            }
        }
        assert(vstd::string::is_ascii(s));
        assert(s.spec_bytes() =~= Seq::new(s@.len(), |i| s@.index(i) as u8));
    }
    value
}

/// Whether a response status reports success.
pub fn is_success(status: u16) -> (r: bool)
    ensures
        r == is_success_status(status),
{
    200 <= status && status < 300
}

/// Main client of the API: a base URL and an authenticated transport,
/// both fixed when it is built.
#[derive(Debug, Clone)]
pub struct C8e {
    base_url: String,
    http_client: Transport,
    authorization: String,
    user_agent: String,
    timeout: Option<Duration>,
}

/// Settings gathered before a client is built.
#[derive(Debug)]
pub struct ConfluenceBuilder {
    domain: Option<String>,
    email: Option<String>,
    token: Option<String>,
    timeout: Option<Duration>,
}

impl Default for ConfluenceBuilder {
    fn default() -> (r: Self)
        ensures
            r.spec_domain() is None,
            r.spec_email() is None,
            r.spec_token() is None,
            r.spec_timeout() is None,
    {
        ConfluenceBuilder { domain: None, email: None, token: None, timeout: None }
    }
}

/// The first setting that keeps a builder from producing a client, if any.
pub open spec fn configuration_problem(b: ConfluenceBuilder) -> Option<ConfigurationError> {
    if b.spec_domain() is None {
        Some(ConfigurationError::MissingDomain)
    } else if b.spec_domain()->0.len() == 0 {
        Some(ConfigurationError::EmptyDomain)
    } else if b.spec_email() is None {
        Some(ConfigurationError::MissingEmail)
    } else if b.spec_email()->0.len() == 0 {
        Some(ConfigurationError::EmptyEmail)
    } else if b.spec_token() is None {
        Some(ConfigurationError::MissingToken)
    } else if b.spec_token()->0.len() == 0 {
        Some(ConfigurationError::EmptyToken)
    } else {
        None
    }
}

impl ConfluenceBuilder {
    pub closed spec fn spec_domain(&self) -> Option<Seq<char>> {
        opt_view(self.domain)
    }

    pub closed spec fn spec_email(&self) -> Option<Seq<char>> {
        opt_view(self.email)
    }

    pub closed spec fn spec_token(&self) -> Option<Seq<char>> {
        opt_view(self.token)
    }

    pub closed spec fn spec_timeout(&self) -> Option<Duration> {
        self.timeout
    }

    /// Sets the host, with or without a scheme.
    pub fn domain(self, domain: &str) -> (r: Self)
        ensures
            r.spec_domain() == Some(domain@),
            r.spec_email() == self.spec_email(),
            r.spec_token() == self.spec_token(),
            r.spec_timeout() == self.spec_timeout(),
    {
        ConfluenceBuilder { domain: Some(String::from_str(domain)), ..self }
    }

    /// Sets the credentials: an identity (the account's email) and its API token.
    pub fn auth(self, email: &str, token: &str) -> (r: Self)
        ensures
            r.spec_domain() == self.spec_domain(),
            r.spec_email() == Some(email@),
            r.spec_token() == Some(token@),
            r.spec_timeout() == self.spec_timeout(),
    {
        ConfluenceBuilder {
            email: Some(String::from_str(email)),
            token: Some(String::from_str(token)),
            ..self
        }
    }

    /// Sets the timeout applied to each request.
    pub fn timeout(self, timeout: Duration) -> (r: Self)
        ensures
            r.spec_domain() == self.spec_domain(),
            r.spec_email() == self.spec_email(),
            r.spec_token() == self.spec_token(),
            r.spec_timeout() == Some(timeout),
    {
        ConfluenceBuilder { timeout: Some(timeout), ..self }
    }

    /// Checks the settings and builds the client. The settings decide
    /// whether a configuration error comes; past them, only setting up the
    /// transport can fail.
    pub fn build(self) -> (r: Result<C8e, BuildError>)
        ensures
            configuration_problem(self) matches Some(p) ==> r matches Err(
                BuildError::Configuration(q),
            ) && q == p,
            configuration_problem(self) is None ==> match r {
                Ok(c) => {
                    &&& c.spec_base_url() == normalized_base_url(self.spec_domain()->0)
                    &&& c.spec_authorization() == basic_authorization(
                        self.spec_email()->0,
                        self.spec_token()->0,
                    )
                    &&& c.spec_user_agent() == client_user_agent()
                    &&& c.spec_timeout() == self.spec_timeout()
                    &&& c.well_formed()
                },
                Err(e) => e is Request,
            },
    {
        let ConfluenceBuilder { domain, email, token, timeout } = self;
        let domain = match domain {
            Some(d) => d,
            None => return Err(BuildError::Configuration(ConfigurationError::MissingDomain)),
        };
        if domain.as_str().is_empty() {
            return Err(BuildError::Configuration(ConfigurationError::EmptyDomain));
        }
        let email = match email {
            Some(e) => e,
            None => return Err(BuildError::Configuration(ConfigurationError::MissingEmail)),
        };
        if email.as_str().is_empty() {
            return Err(BuildError::Configuration(ConfigurationError::EmptyEmail));
        }
        let token = match token {
            Some(t) => t,
            None => return Err(BuildError::Configuration(ConfigurationError::MissingToken)),
        };
        if token.as_str().is_empty() {
            return Err(BuildError::Configuration(ConfigurationError::EmptyToken));
        }
        let authorization = authorization_value(email.as_str(), token.as_str());
        let user_agent = String::from_str("c8e-rs/0.1.0");
        let mut builder = transport_builder();
        builder = with_user_agent(builder, user_agent.as_str());
        if let Some(t) = timeout {
            builder = with_timeout(builder, t);
        }
        let value = match header_value(authorization.as_str()) {
            Ok(v) => v,
            Err(_) => return Err(BuildError::InvalidHeader),
        };
        let mut headers = empty_headers();
        set_authorization(&mut headers, value);
        builder = with_default_headers(builder, headers);
        let http_client = match finish_transport(builder) {
            Ok(c) => c,
            Err(e) => return Err(BuildError::Request(e)),
        };
        let base_url = base_url_for(domain.as_str());
        Ok(C8e { base_url, http_client, authorization, user_agent, timeout })
    }
}

/// Whether `p` was handed out by `c`: it carries the client's base URL and
/// its transport.
pub open spec fn issued_by(p: PagesApi, c: C8e) -> bool {
    &&& p.spec_base_url() == c.spec_base_url()
    &&& p.spec_transport().spec_client() == c.spec_transport().spec_client()
    &&& same_settings(p.spec_transport().spec_settings(), c.spec_transport().spec_settings())
}

impl C8e {
    /// The transport was configured with exactly the Authorization value,
    /// user agent and timeout that the client reports.
    pub open spec fn well_formed(&self) -> bool {
        &&& self.spec_transport().spec_settings().spec_authorization() == Some(
            self.spec_authorization(),
        )
        &&& self.spec_transport().spec_settings().spec_user_agent() == Some(self.spec_user_agent())
        &&& self.spec_transport().spec_settings().spec_timeout() == self.spec_timeout()
    }

    pub closed spec fn spec_base_url(&self) -> Seq<char> {
        self.base_url@
    }

    pub closed spec fn spec_transport(&self) -> Transport {
        self.http_client
    }

    /// The Authorization header value, as the client keeps it; `build`
    /// states that the transport was configured with the same value.
    pub closed spec fn spec_authorization(&self) -> Seq<char> {
        self.authorization@
    }

    /// The user agent, as the client keeps it; `build` states that the
    /// transport was configured with the same value.
    pub closed spec fn spec_user_agent(&self) -> Seq<char> {
        self.user_agent@
    }

    /// The request timeout, if one was set, as the client keeps it; `build`
    /// states that the transport was configured with the same value.
    pub closed spec fn spec_timeout(&self) -> Option<Duration> {
        self.timeout
    }

    /// Starts a builder with the host already set.
    pub fn new(domain: &str) -> (r: ConfluenceBuilder)
        ensures
            r.spec_domain() == Some(domain@),
            r.spec_email() is None,
            r.spec_token() is None,
            r.spec_timeout() is None,
    {
        ConfluenceBuilder::default().domain(domain)
    }

    pub fn base_url(&self) -> (r: &str)
        ensures
            r@ == self.spec_base_url(),
    {
        self.base_url.as_str()
    }

    pub fn authorization(&self) -> (r: &str)
        ensures
            r@ == self.spec_authorization(),
    {
        self.authorization.as_str()
    }

    pub fn user_agent(&self) -> (r: &str)
        ensures
            r@ == self.spec_user_agent(),
    {
        self.user_agent.as_str()
    }

    pub fn timeout(&self) -> (r: Option<Duration>)
        ensures
            r == self.spec_timeout(),
    {
        self.timeout
    }

    /// The settings the transport was built with.
    pub fn transport_settings(&self) -> (r: &TransportSettings)
        ensures
            *r == self.spec_transport().spec_settings(),
    {
        self.http_client.settings()
    }

    /// A handle on the transport, for issuing requests.
    pub fn transport(&self) -> (r: reqwest::Client)
        ensures
            r == self.spec_transport().spec_client(),
    {
        self.http_client.client()
    }

    /// The address the connectivity check requests: the page listing,
    /// limited to one entry.
    pub fn ping_url(&self) -> (r: String)
        ensures
            r@ == self.spec_base_url() + "/wiki/api/v2/pages?limit=1"@,
    {
        let mut url = self.base_url.clone();
        url.append("/wiki/api/v2/pages?limit=1");
        url
    }

    /// What the connectivity check reports for the response status it got:
    /// success for a 2xx status, failure for any other.
    pub fn ping_result(status: u16) -> (r: bool)
        ensures
            r == is_success_status(status),
    {
        is_success(status)
    }

    /// The pages resource, bound to this client's base URL and transport.
    pub fn pages(&self) -> (r: PagesApi)
        ensures
            issued_by(r, *self),
    {
        PagesApi::new(self.base_url.clone(), self.http_client.clone())
    }
}

/// Pages resources obtained from one client send their requests through
/// the same transport, and so with the same Authorization header and user
/// agent, to the same base URL.
pub proof fn lemma_pages_share_transport(c: C8e, p1: PagesApi, p2: PagesApi)
    requires
        c.well_formed(),
        issued_by(p1, c),
        issued_by(p2, c),
    ensures
        p1.spec_transport().spec_client() == p2.spec_transport().spec_client(),
        p1.spec_transport().spec_settings().spec_authorization()
            == p2.spec_transport().spec_settings().spec_authorization(),
        p1.spec_transport().spec_settings().spec_user_agent()
            == p2.spec_transport().spec_settings().spec_user_agent(),
        p1.spec_transport().spec_settings().spec_authorization() == Some(c.spec_authorization()),
        p1.spec_transport().spec_settings().spec_user_agent() == Some(c.spec_user_agent()),
        p1.spec_base_url() == p2.spec_base_url(),
{
}

/// Building with no host, or an empty one, fails with a configuration error.
pub proof fn lemma_host_required(b: ConfluenceBuilder)
    requires
        b.spec_domain() is None || b.spec_domain()->0.len() == 0,
    ensures
        configuration_problem(b) is Some,
{
}

/// Building without both credentials, or with an empty one, fails with a
/// configuration error.
pub proof fn lemma_credentials_required(b: ConfluenceBuilder)
    requires
        b.spec_email() is None || b.spec_token() is None || b.spec_email()->0.len() == 0
            || b.spec_token()->0.len() == 0,
    ensures
        configuration_problem(b) is Some,
{
}

} // verus!
