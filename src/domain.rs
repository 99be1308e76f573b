//! The base of an API: its address, and the query and headers that every
//! request to it carries.
use vstd::prelude::*;
use vstd::string::*;

use crate::method::Method;
use crate::path::Path;
use crate::query_builder::{key_value, with_entry};
use crate::request_information::{full_url, trim_trailing_slashes, InfoView, RequestInformation};
use crate::text::UrlText;

verus! {

/// `s` without one `/` at its end, if it ends in one.
pub open spec fn strip_one_slash(s: Seq<char>) -> Seq<char> {
    if s.len() > 0 && s.last() == '/' {
        s.drop_last()
    } else {
        s
    }
}

/// The base address of an API, with the query parameters and headers that
/// every request to it carries.
///
/// A `Path` made from a domain reads the domain's query and headers when it is
/// written out or prepared, so what is added here later applies to it too.
#[derive(Debug, Clone)]
pub struct Domain {
    info: RequestInformation,
}

impl View for Domain {
    type V = InfoView;

    closed spec fn view(&self) -> InfoView {
        self.info@
    }
}

impl Domain {
    /// A domain at `domain`, with one trailing `/` taken off.
    pub fn new(domain: &str) -> (r: Self)
        ensures
            r@.url == strip_one_slash(domain@),
            r@.query == Seq::<char>::empty(),
            r@.headers == Seq::<(Seq<char>, Seq<char>)>::empty(),
    {
        let n = domain.unicode_len();
        let base = if n > 0 && domain.get_char(n - 1) == '/' {
            domain.substring_char(0, n - 1)
        } else {
            domain
        };
        proof {
            if n > 0 && domain@.last() == '/' {
                assert(base@ =~= domain@.drop_last());
            }
        }
        Domain { info: RequestInformation::new(String::from_str(base)) }
    }

    /// Adds `key=value` to the query of every request made from this domain.
    pub fn query<T: UrlText + ?Sized>(&mut self, key: &str, value: &T)
        ensures
            final(self)@.url == old(self)@.url,
            final(self)@.query == with_entry(old(self)@.query, key_value(key@, value.text())),
            final(self)@.headers == old(self)@.headers,
    {
        self.info.add_query_param(key, value);
    }

    /// Adds a header to every request made from this domain.
    pub fn header<T: UrlText + ?Sized>(&mut self, key: &str, value: &T)
        ensures
            final(self)@.url == old(self)@.url,
            final(self)@.query == old(self)@.query,
            final(self)@.headers == old(self)@.headers.push((key@, value.text())),
    {
        self.info.add_header(key, value);
    }

    /// A new GET request.
    pub fn get(&self) -> (r: Path)
        ensures
            r.is_fresh(Method::Get),
    {
        self.new_path(Method::Get)
    }

    /// A new POST request.
    pub fn post(&self) -> (r: Path)
        ensures
            r.is_fresh(Method::Post),
    {
        self.new_path(Method::Post)
    }

    /// A new PUT request.
    pub fn put(&self) -> (r: Path)
        ensures
            r.is_fresh(Method::Put),
    {
        self.new_path(Method::Put)
    }

    /// A new DELETE request.
    pub fn delete(&self) -> (r: Path)
        ensures
            r.is_fresh(Method::Delete),
    {
        self.new_path(Method::Delete)
    }

    /// A new PATCH request.
    pub fn patch(&self) -> (r: Path)
        ensures
            r.is_fresh(Method::Patch),
    {
        self.new_path(Method::Patch)
    }

    fn new_path(&self, method: Method) -> (r: Path)
        ensures
            r.is_fresh(method),
    {
        Path::new(method)
    }

    /// The information that every request made from this domain starts from.
    pub fn info(&self) -> (r: &RequestInformation)
        ensures
            r@ == self@,
    {
        &self.info
    }
}

/// `s` does not end in two `/`.
pub open spec fn at_most_one_trailing_slash(s: Seq<char>) -> bool {
    !(s.len() >= 2 && s[s.len() - 1] == '/' && s[s.len() - 2] == '/')
}

/// A domain made from a base URL that ends in at most one `/` has no `/` at
/// the end of its URL, and a request made from it with nothing added writes
/// out as exactly that URL.
pub proof fn lemma_new_domain_has_no_trailing_slash(base: Seq<char>, domain: InfoView, path: InfoView)
    requires
        at_most_one_trailing_slash(base),
        domain.url == strip_one_slash(base),
        domain.query == Seq::<char>::empty(),
        path.url == Seq::<char>::empty(),
        path.query == Seq::<char>::empty(),
    ensures
        domain.url.len() == 0 || domain.url.last() != '/',
        full_url(domain, path) == domain.url,
        full_url(domain, path).len() == 0 || full_url(domain, path).last() != '/',
{
    assert(domain.url.len() == 0 || domain.url.last() != '/');
    assert(trim_trailing_slashes(domain.url) == domain.url);
    assert(full_url(domain, path) =~= domain.url);
}

} // verus!
