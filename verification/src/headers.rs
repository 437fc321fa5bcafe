//! A plain model of response metadata: named header entries with
//! case-insensitive lookup, the one capability the engine asks of a
//! transport's responses.

use vstd::prelude::*;

use crate::text::name_matches;

verus! {

/// One response header: a name and its value.
pub struct Header {
    pub name: String,
    pub value: String,
}

/// The headers of one response, in the order the transport handed them over.
pub struct Headers {
    pub entries: Vec<Header>,
}

/// The value of the first entry whose name equals `name` up to ASCII case,
/// if any.
pub open spec fn first_match(entries: Seq<Header>, name: Seq<char>) -> Option<Seq<char>>
    decreases entries.len(),
{
    if entries.len() == 0 {
        None
    } else if name_matches(entries[0].name@, name) {
        Some(entries[0].value@)
    } else {
        first_match(entries.drop_first(), name)
    }
}

impl View for Headers {
    type V = Seq<Header>;

    open spec fn view(&self) -> Seq<Header> {
        self.entries@
    }
}

impl Headers {
    /// A header listing with no entries.
    pub fn new() -> (r: Headers)
        ensures
            r@ =~= Seq::<Header>::empty(),
    {
        Headers { entries: Vec::new() }
    }

    /// Appends an entry.
    pub fn push(&mut self, name: String, value: String)
        ensures
            final(self)@ =~= old(self)@.push((Header { name, value })),
    {
        self.entries.push(Header { name, value });
    }

    /// Looks `name` up, ignoring ASCII case, and hands back the value of the
    /// first entry that carries it.
    pub fn get(&self, name: &str) -> (r: Option<&String>)
        ensures
            r is Some <==> first_match(self@, name@) is Some,
            r matches Some(v) ==> first_match(self@, name@) == Some(v@),
    {
        let n = self.entries.len();
        let mut i: usize = 0;
        proof {
            assert(self@.skip(0) =~= self@);
        }
        while i < n
            invariant
                n == self.entries.len(),
                i <= n,
                first_match(self@, name@) == first_match(self@.skip(i as int), name@),
            decreases n - i,
        {
            proof {
                assert(self@.skip(i as int).drop_first() =~= self@.skip(i + 1));
            }
            if crate::text::eq_ignore_ascii_case(self.entries[i].name.as_str(), name) {
                return Some(&self.entries[i].value);
            }
            i = i + 1;
        }
        proof {
            assert(self@.skip(n as int) =~= Seq::<Header>::empty());
        }
        None
    }
}

} // verus!
