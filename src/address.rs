use vstd::prelude::*;
use vstd::string::*;

verus! {

/// Length of a Stellar strkey.
pub const STRKEY_LEN: usize = 56;

/// An account or contract identity, held as its Stellar strkey text.
#[derive(Debug, PartialEq, Eq)]
pub struct Address {
    pub key: String,
}

impl View for Address {
    type V = Seq<char>;

    open spec fn view(&self) -> Seq<char> {
        self.key@
    }
}

impl Clone for Address {
    fn clone(&self) -> (r: Self)
        ensures
            r == *self,
    {
        Address { key: self.key.clone() }
    }
}

/// A character of the RFC 4648 base32 alphabet.
pub open spec fn is_base32_char(c: char) -> bool {
    ('A' <= c && c <= 'Z') || ('2' <= c && c <= '7')
}

/// A well-formed strkey: 56 base32 characters, the first naming an account
/// (`G`) or a contract (`C`).
pub open spec fn is_strkey(s: Seq<char>) -> bool {
    &&& s.len() == STRKEY_LEN
    &&& (s[0] == 'G' || s[0] == 'C')
    &&& forall|i: int| 0 <= i < s.len() ==> is_base32_char(#[trigger] s[i])
}

impl Address {
    pub fn new(key: String) -> (r: Address)
        ensures
            r@ == key@,
    {
        Address { key }
    }

    /// Whether two addresses name the same identity.
    pub fn same_as(&self, other: &Address) -> (r: bool)
        ensures
            r == (self@ == other@),
    {
        self.key == other.key
    }

    /// Whether the address is a well-formed strkey.
    pub fn is_well_formed(&self) -> (r: bool)
        ensures
            r == is_strkey(self@),
    {
        let s = self.key.as_str();
        let n = s.unicode_len();
        if n != STRKEY_LEN {
            return false;
        }
        let first = s.get_char(0);
        if first != 'G' && first != 'C' {
            return false;
        }
        let mut i: usize = 0;
        while i < n
            invariant
                n == s@.len(),
                s@ == self@,
                i <= n,
                forall|j: int| 0 <= j < i ==> is_base32_char(#[trigger] s@[j]),
            decreases n - i,
        {
            let c = s.get_char(i);
            if !(('A' <= c && c <= 'Z') || ('2' <= c && c <= '7')) {
                return false;
            }
            i = i + 1;
        }
        true
    }
}

} // verus!
