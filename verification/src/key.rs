//! The key type of the binding: an exact sequence of bytes, ordered byte by
//! byte as the storage engine orders its keys.

use db_key::Key;
use std::cmp::Ordering;
use vstd::prelude::*;
use vstd::slice::slice_to_vec;
use vstd::std_specs::cmp::{PartialEqSpec, PartialOrdSpec};

verus! {

/// `a` and `b` hold the same bytes at every position below `n`.
pub open spec fn agree_below(a: Seq<u8>, b: Seq<u8>, n: int) -> bool {
    &&& 0 <= n <= a.len()
    &&& n <= b.len()
    &&& forall|j: int| 0 <= j < n ==> a[j] == b[j]
}

/// After `n` equal bytes, `a` either ends while `b` goes on, or holds the
/// smaller byte.
pub open spec fn less_at(a: Seq<u8>, b: Seq<u8>, n: int) -> bool {
    &&& agree_below(a, b, n)
    &&& n < b.len()
    &&& (n == a.len() || a[n] < b[n])
}

/// Byte-lexicographic order: unsigned bytes, and a proper prefix sorts first.
pub open spec fn lex_less(a: Seq<u8>, b: Seq<u8>) -> bool {
    exists|n: int| less_at(a, b, n)
}

/// How two byte sequences stand to each other.
#[derive(Clone, Copy, Debug, PartialEq, Eq, Structural)]
pub enum KeyOrder {
    /// The first sorts before the second.
    Less,
    /// Both hold the same bytes.
    Equal,
    /// The first sorts after the second.
    Greater,
}

/// The place of `a` relative to `b` in byte-lexicographic order.
pub open spec fn lex_order(a: Seq<u8>, b: Seq<u8>) -> KeyOrder {
    if a == b {
        KeyOrder::Equal
    } else if lex_less(a, b) {
        KeyOrder::Less
    } else {
        KeyOrder::Greater
    }
}

/// No sequence sorts before itself.
pub proof fn lemma_lex_less_irreflexive(a: Seq<u8>)
    ensures
        !lex_less(a, a),
{
}

/// Of two sequences at most one sorts before the other.
pub proof fn lemma_lex_less_asymmetric(a: Seq<u8>, b: Seq<u8>)
    requires
        lex_less(a, b),
    ensures
        !lex_less(b, a),
        a != b,
{
    let n = choose|n: int| less_at(a, b, n);
    if lex_less(b, a) {
        let m = choose|m: int| less_at(b, a, m);
        if m < n {
            assert(a[m] == b[m]);
        } else if n < m {
            assert(b[n] == a[n]);
        }
    }
}

/// Two sequences that agree on their first `n` bytes and differ somewhere
/// are ordered one way or the other.
proof fn lemma_differ_after(a: Seq<u8>, b: Seq<u8>, n: int)
    requires
        agree_below(a, b, n),
        a != b,
    ensures
        lex_less(a, b) || lex_less(b, a),
    decreases a.len() - n,
{
    if n == a.len() {
        if n == b.len() {
            assert(a =~= b);
        } else {
            assert(less_at(a, b, n));
        }
    } else if n == b.len() {
        assert(less_at(b, a, n));
    } else if a[n] < b[n] {
        assert(less_at(a, b, n));
    } else if b[n] < a[n] {
        assert(less_at(b, a, n));
    } else {
        lemma_differ_after(a, b, n + 1);
    }
}

/// Any two sequences are equal or ordered: the order is total.
pub proof fn lemma_lex_less_total(a: Seq<u8>, b: Seq<u8>)
    ensures
        a == b || lex_less(a, b) || lex_less(b, a),
{
    if a != b {
        lemma_differ_after(a, b, 0);
    }
}

/// The order is transitive.
pub proof fn lemma_lex_less_transitive(a: Seq<u8>, b: Seq<u8>, c: Seq<u8>)
    requires
        lex_less(a, b),
        lex_less(b, c),
    ensures
        lex_less(a, c),
{
    let n = choose|n: int| less_at(a, b, n);
    let m = choose|m: int| less_at(b, c, m);
    if n <= m {
        assert(less_at(a, c, n));
    } else {
        assert(less_at(a, c, m));
    }
}

/// Compares two byte strings in byte-lexicographic order.
pub fn compare_bytes(a: &[u8], b: &[u8]) -> (r: KeyOrder)
    ensures
        r == lex_order(a@, b@),
{
    let mut i: usize = 0;
    while i < a.len() && i < b.len()
        invariant
            agree_below(a@, b@, i as int),
        decreases a.len() - i,
    {
        if a[i] < b[i] {
            proof {
                assert(less_at(a@, b@, i as int));
                lemma_lex_less_asymmetric(a@, b@);
            }
            return KeyOrder::Less;
        }
        if a[i] > b[i] {
            proof {
                assert(less_at(b@, a@, i as int));
                lemma_lex_less_asymmetric(b@, a@);
            }
            return KeyOrder::Greater;
        }
        i = i + 1;
    }
    if i < b.len() {
        proof {
            assert(less_at(a@, b@, i as int));
            lemma_lex_less_asymmetric(a@, b@);
        }
        KeyOrder::Less
    } else if i < a.len() {
        proof {
            assert(less_at(b@, a@, i as int));
            lemma_lex_less_asymmetric(b@, a@);
        }
        KeyOrder::Greater
    } else {
        assert(a@ =~= b@);
        KeyOrder::Equal
    }
}

/// A key of the store: exactly the bytes it was made from.
#[derive(Debug, Eq, Ord)]
pub struct BytesKey(Vec<u8>);

impl View for BytesKey {
    type V = Seq<u8>;

    closed spec fn view(&self) -> Seq<u8> {
        self.0@
    }
}

impl PartialEq for BytesKey {
    fn eq(&self, other: &Self) -> (r: bool) {
        match compare_bytes(self.0.as_slice(), other.0.as_slice()) {
            KeyOrder::Equal => true,
            _ => false,
        }
    }
}

impl vstd::std_specs::cmp::PartialEqSpecImpl for BytesKey {
    open spec fn obeys_eq_spec() -> bool {
        true
    }

    open spec fn eq_spec(&self, other: &Self) -> bool {
        self@ == other@
    }
}

impl PartialOrd for BytesKey {
    fn partial_cmp(&self, other: &Self) -> (r: Option<Ordering>) {
        match compare_bytes(self.0.as_slice(), other.0.as_slice()) {
            KeyOrder::Less => Some(Ordering::Less),
            KeyOrder::Equal => Some(Ordering::Equal),
            KeyOrder::Greater => Some(Ordering::Greater),
        }
    }
}

impl vstd::std_specs::cmp::PartialOrdSpecImpl for BytesKey {
    open spec fn obeys_partial_cmp_spec() -> bool {
        true
    }

    open spec fn partial_cmp_spec(&self, other: &Self) -> Option<Ordering> {
        match lex_order(self@, other@) {
            KeyOrder::Less => Some(Ordering::Less),
            KeyOrder::Equal => Some(Ordering::Equal),
            KeyOrder::Greater => Some(Ordering::Greater),
        }
    }
}

impl Clone for BytesKey {
    fn clone(&self) -> (k: Self)
        ensures
            k@ == self@,
    {
        BytesKey(slice_to_vec(self.0.as_slice()))
    }
}

impl BytesKey {
    /// Copies `key` into a new key. Every byte string is a key: nothing is
    /// checked, folded or normalised.
    pub fn from_u8(key: &[u8]) -> (k: Self)
        ensures
            k@ == key@,
    {
        BytesKey(slice_to_vec(key))
    }

    /// Shows the key's bytes to `f` without copying them, and returns what
    /// `f` makes of them.
    pub fn as_slice<T, F: Fn(&[u8]) -> T>(&self, f: F) -> (r: T)
        requires
            forall|s: &[u8]| s@ == self@ ==> #[trigger] f.requires((s,)),
        ensures
            exists|s: &[u8]| s@ == self@ && #[trigger] f.ensures((s,), r),
    {
        f(self.0.as_slice())
    }
}

/// The engine makes and reads its keys through this trait.
impl Key for BytesKey {
    fn from_u8(key: &[u8]) -> (k: Self)
        ensures
            k@ == key@,
    {
        BytesKey::from_u8(key)
    }

    fn as_slice<T, F: Fn(&[u8]) -> T>(&self, f: F) -> (r: T)
        requires
            forall|s: &[u8]| s@ == self@ ==> #[trigger] f.requires((s,)),
        ensures
            exists|s: &[u8]| s@ == self@ && #[trigger] f.ensures((s,), r),
    {
        BytesKey::as_slice(self, f)
    }
}

/// Reading back a key made from the bytes `b` shows `b` again, whatever the
/// bytes are: the reader `f` is run on exactly those bytes.
pub proof fn lemma_round_trip<T, F: Fn(&[u8]) -> T>(b: &[u8], k: BytesKey, f: F, r: T)
    requires
        call_ensures(BytesKey::from_u8, (b,), k),
        call_ensures(BytesKey::as_slice::<T, F>, (&k, f), r),
    ensures
        k@ == b@,
        exists|s: &[u8]| s@ == b@ && #[trigger] f.ensures((s,), r),
{
}

/// Keys compare as their bytes do: one key is less than another exactly when
/// its bytes come first in byte-lexicographic order, and two keys are equal
/// exactly when they hold the same bytes.
pub proof fn lemma_order_preservation(a: BytesKey, b: BytesKey)
    ensures
        lex_less(a@, b@) <==> a.partial_cmp_spec(&b) == Some(Ordering::Less),
        a@ == b@ <==> a.partial_cmp_spec(&b) == Some(Ordering::Equal),
        lex_less(b@, a@) <==> a.partial_cmp_spec(&b) == Some(Ordering::Greater),
        a@ == b@ <==> a.eq_spec(&b),
{
    lemma_lex_less_total(a@, b@);
    if lex_less(a@, b@) {
        lemma_lex_less_asymmetric(a@, b@);
    }
    if lex_less(b@, a@) {
        lemma_lex_less_asymmetric(b@, a@);
    }
}

} // verus!
