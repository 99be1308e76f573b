//! A URL fragment with its query and headers: what a domain or a path adds
//! to a request.
use vstd::prelude::*;
use vstd::string::*;

use crate::headers::Headers;
use crate::query_builder::{key_value, with_entry, QueryBuilder};
use crate::text::UrlText;

verus! {

/// What a `RequestInformation` holds.
pub struct InfoView {
    pub url: Seq<char>,
    pub query: Seq<char>,
    pub headers: Seq<(Seq<char>, Seq<char>)>,
}

/// `s` without the `/` characters at its end.
pub open spec fn trim_trailing_slashes(s: Seq<char>) -> Seq<char>
    decreases s.len(),
{
    if s.len() > 0 && s.last() == '/' {
        trim_trailing_slashes(s.drop_last())
    } else {
        s
    }
}

/// What follows the path in a full URL: the domain's query first, then the
/// path's, with a `?` before the first of them and a `&` between them.
pub open spec fn query_suffix(domain_query: Seq<char>, path_query: Seq<char>) -> Seq<char> {
    if domain_query.len() > 0 {
        if path_query.len() > 0 {
            seq!['?'] + domain_query + seq!['&'] + path_query
        } else {
            seq!['?'] + domain_query
        }
    } else if path_query.len() > 0 {
        seq!['?'] + path_query
    } else {
        Seq::empty()
    }
}

/// The address of a request: the domain's URL without trailing `/`, the
/// path's fragment, then the queries.
pub open spec fn full_url(domain: InfoView, path: InfoView) -> Seq<char> {
    trim_trailing_slashes(domain.url) + path.url + query_suffix(domain.query, path.query)
}

/// A URL fragment with one more segment after a `/`.
pub open spec fn with_segment(url: Seq<char>, segment: Seq<char>) -> Seq<char> {
    url + seq!['/'] + segment
}

/// URL bits, query parameters and headers: what makes up a request.
#[derive(Debug, Clone)]
pub struct RequestInformation {
    url: String,
    query: QueryBuilder,
    headers: Headers,
}

impl View for RequestInformation {
    type V = InfoView;

    closed spec fn view(&self) -> InfoView {
        InfoView { url: self.url@, query: self.query@, headers: self.headers@ }
    }
}

impl RequestInformation {
    /// A fragment `url` with no query and no headers.
    pub fn new(url: String) -> (r: Self)
        ensures
            r@.url == url@,
            r@.query == Seq::<char>::empty(),
            r@.headers == Seq::<(Seq<char>, Seq<char>)>::empty(),
    {
        RequestInformation { url, query: QueryBuilder::new(), headers: Headers::new() }
    }

    /// Appends `/` and the text of `part` to the URL fragment.
    pub fn push_path_part<T: UrlText + ?Sized>(&mut self, part: &T)
        ensures
            final(self)@.url == with_segment(old(self)@.url, part.text()),
            final(self)@.query == old(self)@.query,
            final(self)@.headers == old(self)@.headers,
    {
        proof {
            reveal_strlit("/");
        }
        self.url.append("/");
        let part_text = part.to_text();
        self.url.append(part_text.as_str());
        assert(self.url@ =~= with_segment(old(self)@.url, part.text()));
    }

    /// Appends the text of `part` to the URL fragment, with no `/` before it.
    pub fn push_path_part_partial<T: UrlText + ?Sized>(&mut self, part: &T)
        ensures
            final(self)@.url == old(self)@.url + part.text(),
            final(self)@.query == old(self)@.query,
            final(self)@.headers == old(self)@.headers,
    {
        let part_text = part.to_text();
        self.url.append(part_text.as_str());
    }

    /// Adds `key=value` to the query.
    pub fn add_query_param<T: UrlText + ?Sized>(&mut self, key: &str, value: &T)
        ensures
            final(self)@.url == old(self)@.url,
            final(self)@.query == with_entry(old(self)@.query, key_value(key@, value.text())),
            final(self)@.headers == old(self)@.headers,
    {
        self.query.add(key, value);
    }

    /// Adds a query string encoded as a whole to the query.
    pub fn add_query_blob(&mut self, blob: &str)
        ensures
            final(self)@.url == old(self)@.url,
            final(self)@.query == with_entry(old(self)@.query, blob@),
            final(self)@.headers == old(self)@.headers,
    {
        self.query.add_blob(blob);
    }

    /// Adds a header after those already there.
    pub fn add_header<T: UrlText + ?Sized>(&mut self, key: &str, value: &T)
        ensures
            final(self)@.url == old(self)@.url,
            final(self)@.query == old(self)@.query,
            final(self)@.headers == old(self)@.headers.push((key@, value.text())),
    {
        self.headers.add(key, value);
    }

    /// The headers, in insertion order.
    pub fn headers(&self) -> (r: &Headers)
        ensures
            r@ == self@.headers,
    {
        &self.headers
    }
}

/// The length of `s` once the `/` characters at its end are taken off.
fn trimmed_len(s: &str) -> (k: usize)
    ensures
        k <= s@.len(),
        s@.subrange(0, k as int) == trim_trailing_slashes(s@),
{
    let mut k = s.unicode_len();
    assert(s@.subrange(0, k as int) =~= s@);
    while k > 0 && s.get_char(k - 1) == '/'
        invariant
            k <= s@.len(),
            trim_trailing_slashes(s@.subrange(0, k as int)) == trim_trailing_slashes(s@),
        decreases k,
    {
        assert(s@.subrange(0, k as int).drop_last() =~= s@.subrange(0, k - 1));
        k = k - 1;
    }
    k
}

/// Writes the full URL of a request from the domain's information and the
/// path's: see `full_url`.
pub fn to_full_url(domain: &RequestInformation, parts: &RequestInformation) -> (r: String)
    ensures
        r@ == full_url(domain@, parts@),
{
    let base = domain.url.as_str();
    let k = trimmed_len(base);
    let mut text = String::from_str(base.substring_char(0, k));
    text.append(parts.url.as_str());
    proof {
        reveal_strlit("?");
        reveal_strlit("&");
    }
    if !domain.query.is_empty() {
        text.append("?");
        text.append(domain.query.as_str());
        if !parts.query.is_empty() {
            text.append("&");
            text.append(parts.query.as_str());
        }
    } else if !parts.query.is_empty() {
        text.append("?");
        text.append(parts.query.as_str());
    }
    assert(text@ =~= full_url(domain@, parts@));
    text
}

/// Each segment with a `/` in front of it.
pub open spec fn slash_prefixed(segments: Seq<Seq<char>>) -> Seq<Seq<char>> {
    segments.map_values(|segment: Seq<char>| seq!['/'] + segment)
}

/// The segments in order, each after one `/`.
pub open spec fn segments_path(segments: Seq<Seq<char>>) -> Seq<char> {
    slash_prefixed(segments).flatten()
}

/// Pushing segments one by one onto an empty fragment gives the segments in
/// the order of the calls, each after exactly one `/`.
pub proof fn lemma_segments_joined(segments: Seq<Seq<char>>, segment: Seq<char>)
    ensures
        segments_path(Seq::empty()) == Seq::<char>::empty(),
        with_segment(segments_path(segments), segment) == segments_path(segments.push(segment)),
{
    assert(slash_prefixed(Seq::empty()) =~= Seq::<Seq<char>>::empty());
    assert(slash_prefixed(segments.push(segment)) =~= slash_prefixed(segments).push(
        seq!['/'] + segment,
    ));
    slash_prefixed(segments).lemma_flatten_push(seq!['/'] + segment);
    assert(with_segment(segments_path(segments), segment) =~= segments_path(segments) + (seq![
        '/',
    ] + segment));
}

} // verus!
