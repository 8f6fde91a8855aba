//! The pages resource: one document fetched by its identifier.
use vstd::prelude::*;
use vstd::string::*;

use crate::text::has_prefix;
use crate::transport::{Transport, TransportSettings};

verus! {

/// A document as the API returns it.
#[derive(Debug)]
pub struct Page {
    pub id: String,
    pub status: String,
    pub title: String,
    /// Present only when a body format was asked for.
    pub body: Option<Body>,
}

/// The requested representations of a page's content.
#[derive(Debug)]
pub struct Body {
    pub storage: Option<Storage>,
}

/// Page content in one representation.
#[derive(Debug)]
pub struct Storage {
    pub representation: String,
    pub value: String,
}

/// The view of an optional borrowed string.
pub open spec fn opt_chars(o: Option<&str>) -> Option<Seq<char>> {
    match o {
        Some(s) => Some(s@),
        None => None,
    }
}

/// A query string as it is appended: it keeps a leading `?` of its own,
/// and gets one otherwise.
pub open spec fn query_suffix(q: Seq<char>) -> Seq<char> {
    if "?"@.is_prefix_of(q) {
        q
    } else {
        "?"@ + q
    }
}

/// The address of the page `id` under `base`, with the query if one is given.
pub open spec fn page_url_of(base: Seq<char>, id: Seq<char>, query: Option<Seq<char>>) -> Seq<char> {
    let path = base + "/wiki/api/v2/pages/"@ + id;
    match query {
        Some(q) => path + query_suffix(q),
        None => path,
    }
}

/// Access to pages through the transport and base URL of a client.
pub struct PagesApi {
    base_url: String,
    http_client: Transport,
}

impl PagesApi {
    /// The base URL requests go to.
    pub closed spec fn spec_base_url(&self) -> Seq<char> {
        self.base_url@
    }

    /// The transport requests go through.
    pub closed spec fn spec_transport(&self) -> Transport {
        self.http_client
    }

    pub fn new(base_url: String, http_client: Transport) -> (r: Self)
        ensures
            r.spec_base_url() == base_url@,
            r.spec_transport() == http_client,
    {
        PagesApi { base_url, http_client }
    }

    pub fn base_url(&self) -> (r: &str)
        ensures
            r@ == self.spec_base_url(),
    {
        self.base_url.as_str()
    }

    /// The settings the transport was built with.
    pub fn transport_settings(&self) -> (r: &TransportSettings)
        ensures
            *r == self.spec_transport().spec_settings(),
    {
        self.http_client.settings()
    }

    /// A handle on the transport, for issuing the request.
    pub fn transport(&self) -> (r: reqwest::Client)
        ensures
            r == self.spec_transport().spec_client(),
    {
        self.http_client.client()
    }

    /// The address that fetching page `id` requests, with `query_params`
    /// appended as one query component.
    pub fn page_url(&self, id: &str, query_params: Option<&str>) -> (r: String)
        ensures
            r@ == page_url_of(self.spec_base_url(), id@, opt_chars(query_params)),
    {
        let mut url = self.base_url.clone();
        url.append("/wiki/api/v2/pages/");
        url.append(id);
        if let Some(params) = query_params {
            if !has_prefix(params, "?") {
                url.append("?");
            }
            url.append(params);
        }
        url
    }
}

/// A query string gets exactly one `?` in front of it: the address is the
/// same whether or not the caller wrote the `?`.
pub proof fn lemma_query_mark_once(base: Seq<char>, id: Seq<char>, q: Seq<char>)
    requires
        !"?"@.is_prefix_of(q),
    ensures
        page_url_of(base, id, Some("?"@ + q)) == page_url_of(base, id, Some(q)),
        page_url_of(base, id, Some(q)) == page_url_of(base, id, None) + "?"@ + q,
{
    assert(("?"@ + q).subrange(0, "?"@.len() as int) =~= "?"@);
    assert(page_url_of(base, id, Some(q)) =~= page_url_of(base, id, None) + "?"@ + q);
}

} // verus!
