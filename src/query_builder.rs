//! The query string of a URL, built up one entry at a time.
use vstd::prelude::*;
use vstd::string::*;

use crate::text::UrlText;

verus! {

/// The text `key=value`.
pub open spec fn key_value(key: Seq<char>, value: Seq<char>) -> Seq<char> {
    key + seq!['='] + value
}

/// A query string with one more entry: the entry alone where the query is
/// empty, else after a `&`.
pub open spec fn with_entry(query: Seq<char>, entry: Seq<char>) -> Seq<char> {
    if query.len() == 0 {
        entry
    } else {
        query + seq!['&'] + entry
    }
}

/// Accumulates `key=value` entries of a query string, joined by `&`.
///
/// What it holds never starts with `?`: that is added where the whole URL is
/// written.
#[derive(Debug, Clone)]
pub struct QueryBuilder {
    contents: String,
}

impl View for QueryBuilder {
    type V = Seq<char>;

    closed spec fn view(&self) -> Seq<char> {
        self.contents@
    }
}

impl QueryBuilder {
    /// An empty query.
    pub fn new() -> (r: Self)
        ensures
            r@ == Seq::<char>::empty(),
    {
        QueryBuilder { contents: String::new() }
    }

    /// True if no entry, or only empty text, has been added.
    pub fn is_empty(&self) -> (r: bool)
        ensures
            r == (self@.len() == 0),
    {
        self.contents.as_str().unicode_len() == 0
    }

    /// Appends `entry`, after a `&` where the query already holds text.
    fn push_entry(&mut self, entry: &str)
        ensures
            final(self)@ == with_entry(old(self)@, entry@),
    {
        if !self.is_empty() {
            proof {
                reveal_strlit("&");
            }
            self.contents.append("&");
        }
        self.contents.append(entry);
        assert(self@ =~= with_entry(old(self)@, entry@));
    }

    /// Appends `key=value` as one entry.
    pub fn add<T: UrlText + ?Sized>(&mut self, key: &str, value: &T)
        ensures
            final(self)@ == with_entry(old(self)@, key_value(key@, value.text())),
    {
        let mut entry = String::from_str(key);
        proof {
            reveal_strlit("=");
        }
        entry.append("=");
        let value_text = value.to_text();
        entry.append(value_text.as_str());
        assert(entry@ =~= key_value(key@, value.text()));
        self.push_entry(entry.as_str());
    }

    /// Appends a query string that was encoded as a whole (a record
    /// flattened into `field=value&field=value`), as one entry.
    pub fn add_blob(&mut self, blob: &str)
        ensures
            final(self)@ == with_entry(old(self)@, blob@),
    {
        self.push_entry(blob);
    }

    /// The query as text, without a leading separator.
    pub fn to_string(&self) -> (r: String)
        ensures
            r@ == self@,
    {
        self.contents.clone()
    }

    /// The query as text, without a leading separator.
    pub fn as_str(&self) -> (r: &str)
        ensures
            r@ == self@,
    {
        self.contents.as_str()
    }
}

/// Entries joined by `&`, with nothing before the first.
pub open spec fn ampersand_joined(entries: Seq<Seq<char>>) -> Seq<char> {
    if entries.len() == 0 {
        Seq::empty()
    } else {
        entries[0] + entries.drop_first().map_values(|e: Seq<char>| seq!['&'] + e).flatten()
    }
}

/// The `key=value` entries of a list of parameters.
pub open spec fn param_entries(params: Seq<(Seq<char>, Seq<char>)>) -> Seq<Seq<char>> {
    params.map_values(|p: (Seq<char>, Seq<char>)| key_value(p.0, p.1))
}

/// Adding parameters one by one to an empty query gives their `key=value`
/// entries joined by `&` in the order of the calls, starting with the first
/// key and no separator in front of it.
pub proof fn lemma_params_joined(
    params: Seq<(Seq<char>, Seq<char>)>,
    key: Seq<char>,
    value: Seq<char>,
)
    ensures
        ampersand_joined(param_entries(Seq::empty())) == Seq::<char>::empty(),
        with_entry(ampersand_joined(param_entries(params)), key_value(key, value))
            == ampersand_joined(param_entries(params.push((key, value)))),
        params.len() > 0 ==> ampersand_joined(param_entries(params)).subrange(
            0,
            params[0].0.len() as int,
        ) == params[0].0,
{
    let f = |e: Seq<char>| seq!['&'] + e;
    let entry = key_value(key, value);
    let old_entries = param_entries(params);
    let new_entries = param_entries(params.push((key, value)));
    assert(param_entries(Seq::empty()) =~= Seq::<Seq<char>>::empty());
    assert(new_entries =~= old_entries.push(entry));
    if params.len() == 0 {
        assert(new_entries.drop_first() =~= Seq::<Seq<char>>::empty());
        assert(new_entries.drop_first().map_values(f) =~= Seq::<Seq<char>>::empty());
        assert(ampersand_joined(new_entries) =~= entry);
    } else {
        let tail = old_entries.drop_first().map_values(f);
        assert(new_entries.drop_first().map_values(f) =~= tail.push(f(entry)));
        tail.lemma_flatten_push(f(entry));
        assert(old_entries[0].len() > 0);
        assert(ampersand_joined(old_entries).len() > 0);
        assert(with_entry(ampersand_joined(old_entries), entry) =~= ampersand_joined(new_entries));
        assert(ampersand_joined(old_entries).subrange(0, params[0].0.len() as int) =~= params[0].0);
    }
}

} // verus!
