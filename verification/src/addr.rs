//! Addresses and the byte order in which the host lists them.

use vstd::prelude::*;
use vstd::utf8::decode_utf8;
use vstd::utf8::encode_utf8;
use vstd::utf8::encode_utf8_decode_utf8;

verus! {

/// An account or contract address in the form in which the host validated it.
#[derive(Debug, PartialEq, Eq, Hash)]
pub struct Addr(pub String);

impl View for Addr {
    type V = Seq<char>;

    open spec fn view(&self) -> Seq<char> {
        self.0@
    }
}

/// Strict lexicographic order of two byte strings, looking only at the
/// positions from `i` on.
pub open spec fn lex_lt_from(a: Seq<u8>, b: Seq<u8>, i: int) -> bool
    decreases b.len() - i,
{
    if i < 0 || i >= b.len() {
        false
    } else if i >= a.len() {
        true
    } else if a[i] != b[i] {
        a[i] < b[i]
    } else {
        lex_lt_from(a, b, i + 1)
    }
}

/// Strict lexicographic order of two byte strings.
pub open spec fn lex_lt(a: Seq<u8>, b: Seq<u8>) -> bool {
    lex_lt_from(a, b, 0)
}

/// The order of addresses: that of their UTF-8 bytes, which is the order in
/// which a key-value store of the host walks them.
pub open spec fn addr_lt(a: Seq<char>, b: Seq<char>) -> bool {
    lex_lt(encode_utf8(a), encode_utf8(b))
}

pub proof fn lemma_lex_lt_irreflexive(a: Seq<u8>, i: int)
    ensures
        !lex_lt_from(a, a, i),
    decreases a.len() - i,
{
    if 0 <= i < a.len() {
        lemma_lex_lt_irreflexive(a, i + 1);
    }
}

pub proof fn lemma_lex_lt_transitive(a: Seq<u8>, b: Seq<u8>, c: Seq<u8>, i: int)
    requires
        lex_lt_from(a, b, i),
        lex_lt_from(b, c, i),
    ensures
        lex_lt_from(a, c, i),
    decreases c.len() - i,
{
    if i < a.len() && a[i] == b[i] && b[i] == c[i] {
        lemma_lex_lt_transitive(a, b, c, i + 1);
    }
}

/// Two byte strings of which neither comes before the other agree from `i` on.
pub proof fn lemma_lex_lt_total(a: Seq<u8>, b: Seq<u8>, i: int)
    requires
        0 <= i <= a.len(),
        i <= b.len(),
        !lex_lt_from(a, b, i),
        !lex_lt_from(b, a, i),
    ensures
        a.len() == b.len(),
        forall|j: int| i <= j < a.len() ==> a[j] == b[j],
    decreases a.len() - i,
{
    if i < a.len() && i < b.len() {
        lemma_lex_lt_total(a, b, i + 1);
    }
}

/// Addresses are ordered strictly and totally: exactly one of `a < b`,
/// `a == b`, `b < a` holds.
pub proof fn lemma_addr_order(a: Seq<char>, b: Seq<char>)
    ensures
        !(addr_lt(a, b) && addr_lt(b, a)),
        !addr_lt(a, a),
        a != b ==> addr_lt(a, b) || addr_lt(b, a),
{
    let x = encode_utf8(a);
    let y = encode_utf8(b);
    lemma_lex_lt_irreflexive(x, 0);
    if lex_lt(x, y) && lex_lt(y, x) {
        lemma_lex_lt_transitive(x, y, x, 0);
    }
    if !lex_lt(x, y) && !lex_lt(y, x) {
        lemma_lex_lt_total(x, y, 0);
        assert(x =~= y);
        encode_utf8_decode_utf8(a);
        encode_utf8_decode_utf8(b);
        assert(a == decode_utf8(x));
    }
}

pub proof fn lemma_addr_lt_transitive(a: Seq<char>, b: Seq<char>, c: Seq<char>)
    requires
        addr_lt(a, b),
        addr_lt(b, c),
    ensures
        addr_lt(a, c),
{
    lemma_lex_lt_transitive(encode_utf8(a), encode_utf8(b), encode_utf8(c), 0);
}

impl Addr {
    /// Wraps a string that the host has already validated.
    pub fn unchecked(s: &str) -> (r: Addr)
        ensures
            r@ == s@,
    {
        Addr(String::from_str(s))
    }

    pub fn as_str(&self) -> (r: &str)
        ensures
            r@ == self@,
    {
        self.0.as_str()
    }

    pub fn into_string(self) -> (r: String)
        ensures
            r@ == self@,
    {
        self.0
    }

    /// Whether two addresses are the same.
    pub fn same(&self, other: &Addr) -> (r: bool)
        ensures
            r == (self@ == other@),
    {
        self.0 == other.0
    }

    /// Whether this address comes strictly before `other`.
    pub fn lt(&self, other: &Addr) -> (r: bool)
        ensures
            r == addr_lt(self@, other@),
    {
        let a = self.0.as_str().as_bytes();
        let b = other.0.as_str().as_bytes();
        let mut i: usize = 0;
        while i < a.len() && i < b.len()
            invariant
                i <= a.len(),
                i <= b.len(),
                a@ == encode_utf8(self@),
                b@ == encode_utf8(other@),
                lex_lt(a@, b@) == lex_lt_from(a@, b@, i as int),
            decreases a.len() - i,
        {
            if a[i] != b[i] {
                return a[i] < b[i];
            }
            i = i + 1;
        }
        i < b.len()
    }
}

impl Clone for Addr {
    fn clone(&self) -> (r: Addr)
        ensures
            r@ == self@,
    {
        Addr(self.0.clone())
    }
}

} // verus!
