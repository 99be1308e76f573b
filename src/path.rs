//! One request being built against a domain.
use vstd::prelude::*;

use crate::domain::Domain;
use crate::error::Error;
use crate::headers::{pairs_view, Headers};
use crate::method::Method;
use crate::query_builder::{key_value, with_entry};
use crate::request_information::{
    full_url, to_full_url, with_segment, InfoView, RequestInformation,
};
use crate::response::Response;
use crate::text::UrlText;

verus! {

/// What a `Path` holds.
pub struct PathView {
    pub method: Method,
    pub info: InfoView,
}

/// The path's information once a body has been placed: a GET request folds
/// the encoded body into its own query.
pub open spec fn info_with_body(info: InfoView, method: Method, body: Option<String>) -> InfoView {
    match body {
        Some(b) => if method == Method::Get {
            InfoView { url: info.url, query: with_entry(info.query, b@), headers: info.headers }
        } else {
            info
        },
        None => info,
    }
}

/// What is sent as the payload: never anything for a GET request, else the
/// encoded body if there is one.
pub open spec fn payload_for(method: Method, body: Option<String>) -> Option<String> {
    if method == Method::Get {
        None
    } else {
        body
    }
}

/// The outcome of a request as the caller sees it: the body where the status
/// is 200, else an error that carries the status and the body.
pub open spec fn classified(response: core::result::Result<Response, Error>) -> core::result::Result<String, Error> {
    match response {
        Ok(r) => if r.status == 200 {
            Ok(r.body)
        } else {
            Err(Error::RequestNotOk { status: r.status, body: r.body })
        },
        Err(e) => Err(e),
    }
}

/// Everything the transport needs to send one request.
#[derive(Debug, Clone)]
pub struct OutboundRequest {
    pub method: Method,
    pub url: String,
    /// The domain's headers, then the path's.
    pub headers: Vec<(String, String)>,
    pub payload: Option<String>,
}

/// A request being built: made by a `Domain`, grown by its builder methods,
/// and consumed when it is turned into an `OutboundRequest`.
#[derive(Debug, Clone)]
pub struct Path {
    method: Method,
    info: RequestInformation,
}

impl View for Path {
    type V = PathView;

    closed spec fn view(&self) -> PathView {
        PathView { method: self.method, info: self.info@ }
    }
}

impl Path {
    /// A request of `method` with nothing added yet.
    pub open spec fn is_fresh(&self, method: Method) -> bool {
        &&& self@.method == method
        &&& self@.info.url == Seq::<char>::empty()
        &&& self@.info.query == Seq::<char>::empty()
        &&& self@.info.headers == Seq::<(Seq<char>, Seq<char>)>::empty()
    }

    pub(crate) fn new(method: Method) -> (r: Self)
        ensures
            r.is_fresh(method),
    {
        Path { method, info: RequestInformation::new(String::new()) }
    }

    /// The method of the request.
    pub fn method(&self) -> (r: Method)
        ensures
            r == self@.method,
    {
        self.method
    }

    /// Appends `/` and the text of `next` to the path.
    pub fn push<T: UrlText + ?Sized>(self, next: &T) -> (r: Self)
        ensures
            r@.method == self@.method,
            r@.info.url == with_segment(self@.info.url, next.text()),
            r@.info.query == self@.info.query,
            r@.info.headers == self@.info.headers,
    {
        let mut s = self;
        s.info.push_path_part(next);
        s
    }

    /// Appends the text of `next` to the path, with no `/` before it.
    pub fn push_partial<T: UrlText + ?Sized>(self, next: &T) -> (r: Self)
        ensures
            r@.method == self@.method,
            r@.info.url == self@.info.url + next.text(),
            r@.info.query == self@.info.query,
            r@.info.headers == self@.info.headers,
    {
        let mut s = self;
        s.info.push_path_part_partial(next);
        s
    }

    /// Adds `key=value` to the path's query.
    pub fn query<T: UrlText + ?Sized>(self, key: &str, value: &T) -> (r: Self)
        ensures
            r@.method == self@.method,
            r@.info.url == self@.info.url,
            r@.info.query == with_entry(self@.info.query, key_value(key@, value.text())),
            r@.info.headers == self@.info.headers,
    {
        let mut s = self;
        s.info.add_query_param(key, value);
        s
    }

    /// Adds a header to this request, after the domain's.
    pub fn header<T: UrlText + ?Sized>(&mut self, key: &str, value: &T)
        ensures
            final(self)@.method == old(self)@.method,
            final(self)@.info.url == old(self)@.info.url,
            final(self)@.info.query == old(self)@.info.query,
            final(self)@.info.headers == old(self)@.info.headers.push((key@, value.text())),
    {
        self.info.add_header(key, value);
    }

    /// The full URL of this request against `domain`, as things stand.
    pub fn render(&self, domain: &Domain) -> (r: String)
        ensures
            r@ == full_url(domain@, self@.info),
    {
        to_full_url(domain.info(), &self.info)
    }

    /// Turns this request into what the transport sends. `body` is the body
    /// already encoded: for a GET request as a query string
    /// (`Method::sends_body_in_query`), which is added to the query and never
    /// sent as a payload; for any other method as the payload text.
    pub fn into_request(self, domain: &Domain, body: Option<String>) -> (r: OutboundRequest)
        ensures
            r.method == self@.method,
            r.url@ == full_url(domain@, info_with_body(self@.info, self@.method, body)),
            pairs_view(r.headers@) == domain@.headers + self@.info.headers,
            r.payload == payload_for(self@.method, body),
    {
        let mut info = self.info;
        let mut payload: Option<String> = None;
        match body {
            Some(b) => {
                if self.method.sends_body_in_query() {
                    info.add_query_blob(b.as_str());
                } else {
                    payload = Some(b);
                }
            },
            None => {},
        }
        let url = to_full_url(domain.info(), &info);
        let headers = merged_headers(domain.info().headers(), info.headers());
        OutboundRequest { method: self.method, url, headers, payload }
    }
}

fn append_headers(out: &mut Vec<(String, String)>, headers: &Headers)
    ensures
        pairs_view(final(out)@) == pairs_view(old(out)@) + headers@,
{
    let entries = headers.entries();
    let mut i: usize = 0;
    while i < entries.len()
        invariant
            i <= entries@.len(),
            pairs_view(out@) == pairs_view(old(out)@) + pairs_view(entries@.subrange(0, i as int)),
        decreases entries@.len() - i,
    {
        let name = entries[i].0.clone();
        let value = entries[i].1.clone();
        proof {
            let before = out@;
            assert(pairs_view(before.push((name, value))) =~= pairs_view(before).push((name@, value@)));
            assert(pairs_view(entries@.subrange(0, i + 1)) =~= pairs_view(entries@.subrange(0, i as int)).push((name@, value@)));
        }
        out.push((name, value));
        i = i + 1;
    }
    assert(entries@.subrange(0, i as int) =~= entries@);
}

/// The headers of a request: the domain's first, then the path's. A name set
/// on both is sent twice.
fn merged_headers(domain: &Headers, path: &Headers) -> (r: Vec<(String, String)>)
    ensures
        pairs_view(r@) == domain@ + path@,
{
    let mut out: Vec<(String, String)> = Vec::new();
    assert(pairs_view(out@) =~= Seq::<(Seq<char>, Seq<char>)>::empty());
    append_headers(&mut out, domain);
    append_headers(&mut out, path);
    assert(pairs_view(out@) =~= domain@ + path@);
    out
}

/// The text of a response whose status is 200; any other status becomes
/// `Error::RequestNotOk`, and an earlier error passes through.
pub fn string_or_error(response: core::result::Result<Response, Error>) -> (r: core::result::Result<String, Error>)
    ensures
        r == classified(response),
{
    match response {
        Ok(r) => if r.status == 200 {
            Ok(r.body)
        } else {
            Err(Error::new_request_not_ok(r))
        },
        Err(e) => Err(e),
    }
}

/// Writing out the same request twice, with nothing done to it or to its
/// domain in between, gives the same text both times.
pub proof fn lemma_render_repeatable(domain: Domain, path: Path, first: Seq<char>, second: Seq<char>)
    requires
        first == full_url(domain@, path@.info),
        second == full_url(domain@, path@.info),
    ensures
        first == second,
{
}

} // verus!
