//! The coding agent that the program is a plugin of.

use vstd::prelude::*;
use crate::text::{cat2, cat3, chars_of};

verus! {

/// The coding agent that the program is a plugin of: the name that its files
/// go by, the name of the product, and the name of its family of models.
pub struct Agent {
    pub id: String,
    pub product: String,
    pub family: String,
}

impl Agent {
    /// A path in the agent's hidden directory.
    pub open spec fn dot(self, rest: Seq<char>) -> Seq<char> {
        "."@ + self.id@ + rest
    }

    /// A path in the agent's hidden directory; the directory itself where
    /// `rest` is empty.
    pub fn hidden(&self, rest: &str) -> (r: String)
        ensures
            r@ == self.dot(rest@),
    {
        cat3(".", self.id.as_str(), rest)
    }
}

/// A letter from `A` to `Z` in small, any other character as it is.
pub open spec fn small(c: char) -> char {
    if 'A' <= c && c <= 'Z' {
        ((c as u8) + 32) as u8 as char
    } else {
        c
    }
}

/// The text with small letters in place of those from `A` to `Z`.
pub open spec fn in_small(s: Seq<char>) -> Seq<char> {
    Seq::new(s.len(), |i: int| small(s[i]))
}

fn small_letters(s: &str) -> (r: String)
    ensures
        r@ == in_small(s@),
{
    let v = chars_of(s);
    let mut out = String::new();
    let mut i: usize = 0;
    while i < v.len()
        invariant
            i <= v@.len(),
            v@ == s@,
            out@ == in_small(s@).take(i as int),
        decreases v@.len() - i,
    {
        let c = v[i];
        let d = if 'A' <= c && c <= 'Z' {
            (c as u8 + 32) as char
        } else {
            c
        };
        proof {
            assert(in_small(s@).take(i + 1) =~= in_small(s@).take(i as int).push(small(c)));
        }
        out.push(d);
        i = i + 1;
    }
    assert(in_small(s@).take(i as int) =~= in_small(s@));
    out
}

/// The agent of a family of models: its files go by the name of the family in
/// small letters, and the product is the one for code.
pub fn agent_of(family: &str) -> (r: Agent)
    ensures
        r.family@ == family@,
        r.id@ == in_small(family@),
        r.product@ == family@ + " Code"@,
{
    Agent {
        id: small_letters(family),
        product: cat2(family, " Code"),
        family: family.to_owned(),
    }
}

} // verus!
