//! Public keys by their compressed encoding, and the canonical order in
//! which keys are aggregated.

use vstd::prelude::*;
use vstd::slice::slice_to_vec;

use crate::errors::Error;
use secp::Point;

verus! {

/// Length of the compressed encoding of a public key: a parity byte, `0x02`
/// or `0x03`, and the big-endian x coordinate.
pub const PUBLIC_KEY_SIZE: usize = 33;

/// Whether `encoding` is accepted by the curve library as the encoding of a
/// point of secp256k1 other than the point at infinity.
pub uninterp spec fn is_point_encoding(encoding: Seq<u8>) -> bool;

/// `secp::Point::from_slice`, asked only whether it accepts `bytes`. The
/// answer is a function of the bytes alone; nothing more is claimed of it.
#[verifier::external_body]
fn point_from_slice_is_ok(bytes: &[u8]) -> (ok: bool)
    ensures
        ok == is_point_encoding(bytes@),
{
    Point::from_slice(bytes).is_ok()
}

/// The x-only form of a compressed key: the x coordinate without the parity
/// byte.
pub open spec fn xonly(key: Seq<u8>) -> Seq<u8>
    recommends
        key.len() == PUBLIC_KEY_SIZE,
{
    key.subrange(1, PUBLIC_KEY_SIZE as int)
}

/// Strict lexicographic order on byte strings: the first byte that differs
/// decides, and a proper prefix comes first.
pub open spec fn lex_lt(a: Seq<u8>, b: Seq<u8>) -> bool
    decreases a.len(),
{
    if b.len() == 0 {
        false
    } else if a.len() == 0 {
        true
    } else if a[0] != b[0] {
        a[0] < b[0]
    } else {
        lex_lt(a.drop_first(), b.drop_first())
    }
}

/// Two keys in the canonical order of aggregation: ascending by their
/// encodings.
pub open spec fn sorted_pair(a: Seq<u8>, b: Seq<u8>) -> Seq<Seq<u8>> {
    if lex_lt(b, a) {
        seq![b, a]
    } else {
        seq![a, b]
    }
}

/// No byte string is both before and after another.
pub proof fn lemma_lex_lt_asymmetric(a: Seq<u8>, b: Seq<u8>)
    requires
        lex_lt(a, b),
    ensures
        !lex_lt(b, a),
    decreases a.len(),
{
    if a.len() > 0 && b.len() > 0 && a[0] == b[0] {
        lemma_lex_lt_asymmetric(a.drop_first(), b.drop_first());
    }
}

/// Two byte strings of which neither is before the other are equal.
pub proof fn lemma_lex_lt_total(a: Seq<u8>, b: Seq<u8>)
    requires
        !lex_lt(a, b),
        !lex_lt(b, a),
    ensures
        a == b,
    decreases a.len(),
{
    if a.len() > 0 && b.len() > 0 {
        lemma_lex_lt_total(a.drop_first(), b.drop_first());
        assert(b =~= seq![b[0]] + b.drop_first());
    }
}

/// The canonical order of two keys does not depend on the order in which
/// they are given.
pub proof fn lemma_sorted_pair_symmetric(a: Seq<u8>, b: Seq<u8>)
    ensures
        sorted_pair(a, b) == sorted_pair(b, a),
{
    if lex_lt(b, a) {
        lemma_lex_lt_asymmetric(b, a);
    } else if !lex_lt(a, b) {
        lemma_lex_lt_total(a, b);
    }
}

/// Whether `a` comes strictly before `b` in lexicographic order.
pub fn bytes_lt(a: &[u8], b: &[u8]) -> (before: bool)
    ensures
        before == lex_lt(a@, b@),
{
    let mut i: usize = 0;
    assert(a@.skip(0) =~= a@ && b@.skip(0) =~= b@);
    while i < a.len() && i < b.len()
        invariant
            i <= a@.len(),
            i <= b@.len(),
            lex_lt(a@, b@) == lex_lt(a@.skip(i as int), b@.skip(i as int)),
        decreases a@.len() - i,
    {
        let x: u8 = a[i];
        let y: u8 = b[i];
        if x != y {
            return x < y;
        }
        assert(a@.skip(i as int).drop_first() =~= a@.skip(i as int + 1));
        assert(b@.skip(i as int).drop_first() =~= b@.skip(i as int + 1));
        i = i + 1;
    }
    i < b.len()
}

/// A public key: the compressed encoding of a point of the curve.
#[derive(Debug)]
pub struct PublicKey {
    pub(crate) bytes: Vec<u8>,
}

impl View for PublicKey {
    type V = Seq<u8>;

    closed spec fn view(&self) -> Seq<u8> {
        self.bytes@
    }
}

impl PublicKey {
    /// What holds of every key: it is 33 bytes long and encodes a point.
    #[verifier::type_invariant]
    pub open spec fn inv(self) -> bool {
        &&& self@.len() == PUBLIC_KEY_SIZE
        &&& is_point_encoding(self@)
    }

    /// Reads a key from its compressed encoding.
    ///
    /// Fails with [`Error::Validation`] unless `bytes` is 33 bytes long and
    /// encodes a point.
    pub fn from_bytes(bytes: &[u8]) -> (key: Result<PublicKey, Error>)
        ensures
            key is Ok <==> bytes@.len() == PUBLIC_KEY_SIZE && is_point_encoding(bytes@),
            key matches Ok(k) ==> k@ == bytes@ && k.inv(),
            key matches Err(e) ==> e == Error::Validation,
    {
        if bytes.len() != PUBLIC_KEY_SIZE || !point_from_slice_is_ok(bytes) {
            return Err(Error::Validation);
        }
        Ok(PublicKey { bytes: slice_to_vec(bytes) })
    }

    /// The compressed encoding of the key.
    pub fn serialize(&self) -> (bytes: Vec<u8>)
        ensures
            bytes@ == self@,
            bytes@.len() == PUBLIC_KEY_SIZE,
    {
        proof {
            use_type_invariant(self);
        }
        slice_to_vec(self.bytes.as_slice())
    }

    /// The x-only encoding of the key: its x coordinate.
    pub fn serialize_xonly(&self) -> (bytes: Vec<u8>)
        ensures
            bytes@ == xonly(self@),
            bytes@.len() == PUBLIC_KEY_SIZE - 1,
    {
        proof {
            use_type_invariant(self);
        }
        let mut bytes: Vec<u8> = Vec::new();
        let mut i: usize = 1;
        while i < PUBLIC_KEY_SIZE
            invariant
                1 <= i <= PUBLIC_KEY_SIZE,
                self.bytes@.len() == PUBLIC_KEY_SIZE,
                bytes@ == self.bytes@.subrange(1, i as int),
            decreases PUBLIC_KEY_SIZE - i,
        {
            bytes.push(self.bytes[i]);
            i = i + 1;
        }
        bytes
    }

    /// Whether this key and `other` are the same key.
    pub fn same_key(&self, other: &PublicKey) -> (same: bool)
        ensures
            same == (self@ == other@),
    {
        let different = self.precedes(other) || other.precedes(self);
        proof {
            if !different {
                lemma_lex_lt_total(self@, other@);
            } else if self@ == other@ {
                if lex_lt(self@, other@) {
                    lemma_lex_lt_asymmetric(self@, other@);
                }
            }
        }
        !different
    }

    /// Whether this key comes strictly before `other` in the canonical
    /// order.
    pub fn precedes(&self, other: &PublicKey) -> (before: bool)
        ensures
            before == lex_lt(self@, other@),
    {
        bytes_lt(self.bytes.as_slice(), other.bytes.as_slice())
    }
}

/// Puts two keys in the canonical order of aggregation: ascending by their
/// encodings, the first argument first where the encodings are equal.
pub fn canonical_order<'a>(a: &'a PublicKey, b: &'a PublicKey) -> (pair: (
    &'a PublicKey,
    &'a PublicKey,
))
    ensures
        seq![pair.0@, pair.1@] == sorted_pair(a@, b@),
        (pair.0 == a && pair.1 == b) || (pair.0 == b && pair.1 == a),
{
    if b.precedes(a) {
        (b, a)
    } else {
        (a, b)
    }
}

impl Clone for PublicKey {
    fn clone(&self) -> (copy: Self)
        ensures
            copy@ == self@,
    {
        proof {
            use_type_invariant(self);
        }
        PublicKey { bytes: slice_to_vec(self.bytes.as_slice()) }
    }
}

} // verus!
