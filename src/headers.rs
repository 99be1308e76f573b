//! The headers of a request, in the order they were added.
use vstd::prelude::*;
use vstd::string::*;

use crate::text::UrlText;

verus! {

/// The text of each name and value of a list of header pairs.
pub open spec fn pairs_view(pairs: Seq<(String, String)>) -> Seq<(Seq<char>, Seq<char>)> {
    pairs.map_values(|p: (String, String)| (p.0@, p.1@))
}

/// Header names and values in insertion order. A name may occur more than
/// once: every pair is kept and sent.
#[derive(Debug, Clone)]
pub struct Headers {
    entries: Vec<(String, String)>,
}

impl View for Headers {
    type V = Seq<(Seq<char>, Seq<char>)>;

    closed spec fn view(&self) -> Seq<(Seq<char>, Seq<char>)> {
        pairs_view(self.entries@)
    }
}

impl Headers {
    /// No headers.
    pub fn new() -> (r: Self)
        ensures
            r@ == Seq::<(Seq<char>, Seq<char>)>::empty(),
    {
        let r = Headers { entries: Vec::new() };
        assert(r@ =~= Seq::<(Seq<char>, Seq<char>)>::empty());
        r
    }

    /// Stores the header after those already there.
    pub fn add<T: UrlText + ?Sized>(&mut self, key: &str, value: &T)
        ensures
            final(self)@ == old(self)@.push((key@, value.text())),
    {
        let pair = (String::from_str(key), value.to_text());
        self.entries.push(pair);
        assert(self@ =~= old(self)@.push((key@, value.text())));
    }

    /// All name/value pairs, in insertion order.
    pub fn entries(&self) -> (r: &Vec<(String, String)>)
        ensures
            pairs_view(r@) == self@,
    {
        &self.entries
    }
}

} // verus!
