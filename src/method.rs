//! The HTTP verbs.
use vstd::prelude::*;

verus! {

/// Which type of request is being made.
#[derive(Debug, Clone, Copy, PartialEq, Eq, Structural)]
pub enum Method {
    Get,
    Post,
    Put,
    Delete,
    Head,
    Options,
    Connect,
    Patch,
    Trace,
}


impl Method {
    /// The verb as it is written on the wire.
    pub open spec fn token_spec(self) -> Seq<char> {
        match self {
            Method::Get => seq!['G', 'E', 'T'],
            Method::Post => seq!['P', 'O', 'S', 'T'],
            Method::Put => seq!['P', 'U', 'T'],
            Method::Delete => seq!['D', 'E', 'L', 'E', 'T', 'E'],
            Method::Head => seq!['H', 'E', 'A', 'D'],
            Method::Options => seq!['O', 'P', 'T', 'I', 'O', 'N', 'S'],
            Method::Connect => seq!['C', 'O', 'N', 'N', 'E', 'C', 'T'],
            Method::Patch => seq!['P', 'A', 'T', 'C', 'H'],
            Method::Trace => seq!['T', 'R', 'A', 'C', 'E'],
        }
    }

    /// The verb as it is written on the wire.
    pub fn token(&self) -> (r: &'static str)
        ensures
            r@ == self.token_spec(),
    {
        match self {
            Method::Get => {
                proof {
                    reveal_strlit("GET");
                }
                "GET"
            },
            Method::Post => {
                proof {
                    reveal_strlit("POST");
                }
                "POST"
            },
            Method::Put => {
                proof {
                    reveal_strlit("PUT");
                }
                "PUT"
            },
            Method::Delete => {
                proof {
                    reveal_strlit("DELETE");
                }
                "DELETE"
            },
            Method::Head => {
                proof {
                    reveal_strlit("HEAD");
                }
                "HEAD"
            },
            Method::Options => {
                proof {
                    reveal_strlit("OPTIONS");
                }
                "OPTIONS"
            },
            Method::Connect => {
                proof {
                    reveal_strlit("CONNECT");
                }
                "CONNECT"
            },
            Method::Patch => {
                proof {
                    reveal_strlit("PATCH");
                }
                "PATCH"
            },
            Method::Trace => {
                proof {
                    reveal_strlit("TRACE");
                }
                "TRACE"
            },
        }
    }

    /// A body given to a request of this method is folded into the query
    /// string rather than sent as a payload.
    pub fn sends_body_in_query(&self) -> (r: bool)
        ensures
            r == (*self == Method::Get),
    {
        match self {
            Method::Get => true,
            _ => false,
        }
    }
}

} // verus!
