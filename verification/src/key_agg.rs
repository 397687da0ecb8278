//! Aggregation of the two parties' keys into one joint key, and the tweak
//! that binds the joint key to a commitment root.

use vstd::prelude::*;

use crate::errors::Error;
use crate::keys::{canonical_order, lemma_sorted_pair_symmetric, sorted_pair, PublicKey};
use musig2::errors::{KeyAggError, TweakError};
use musig2::KeyAggContext;
use secp::Point;

verus! {

/// Length of a commitment root.
pub const MERKLE_ROOT_SIZE: usize = 32;

/// A key aggregation context of the signing library. What it holds is
/// spoken of through [`key_agg_pubkey`].
#[verifier::external_type_specification]
#[verifier::external_body]
pub struct ExKeyAggContext(musig2::KeyAggContext);

/// The signing library's error for keys that aggregate to the point at
/// infinity.
#[verifier::external_type_specification]
#[verifier::external_body]
pub struct ExKeyAggError(musig2::errors::KeyAggError);

/// The signing library's error for a tweak that cannot be applied.
#[verifier::external_type_specification]
#[verifier::external_body]
pub struct ExTweakError(musig2::errors::TweakError);

/// The aggregated key that a context holds, in compressed encoding: the
/// key under which its signers sign together, tweaks included.
pub uninterp spec fn key_agg_pubkey(ctx: KeyAggContext) -> Seq<u8>;

/// The compressed encoding of the key that the signing library aggregates
/// from `keys`, taken in this order; `None` where it refuses them.
pub uninterp spec fn musig_key_agg(keys: Seq<Seq<u8>>) -> Option<Seq<u8>>;

/// The compressed encoding of the key that the signing library derives from
/// the aggregated key `pubkey` by the taproot tweak for `merkle_root`;
/// `None` where it refuses the tweak.
pub uninterp spec fn musig_taproot_tweak(pubkey: Seq<u8>, merkle_root: Seq<u8>) -> Option<Seq<u8>>;

/// `musig2::KeyAggContext::new` on two keys in the given order. The
/// aggregated key of the context is a function of the ordered keys; the call
/// fails exactly where that function has no value, which the library
/// documents as the keys summing to the point at infinity.
#[verifier::external_body]
fn key_agg_context_new(first: &PublicKey, second: &PublicKey) -> (ctx: Result<
    KeyAggContext,
    KeyAggError,
>)
    requires
        first.inv(),
        second.inv(),
    ensures
        ctx is Ok <==> musig_key_agg(seq![first@, second@]) is Some,
        ctx matches Ok(c) ==> musig_key_agg(seq![first@, second@]) == Some(key_agg_pubkey(c)),
{
    let a = Point::from_slice(&first.bytes).expect("a public key encodes a point");
    let b = Point::from_slice(&second.bytes).expect("a public key encodes a point");
    KeyAggContext::new([a, b])
}

/// `musig2::KeyAggContext::aggregated_pubkey`, as a `secp::Point` in
/// compressed encoding: the key that the context holds. A point serializes
/// to 33 bytes that parse back to it.
#[verifier::external_body]
pub(crate) fn key_agg_context_pubkey(ctx: &KeyAggContext) -> (key: PublicKey)
    ensures
        key@ == key_agg_pubkey(*ctx),
        key.inv(),
{
    let point: Point = ctx.aggregated_pubkey();
    PublicKey { bytes: point.serialize().to_vec() }
}

/// `musig2::KeyAggContext::with_taproot_tweak` on a copy of `ctx`. The key
/// of the tweaked context is a function of the key that `ctx` holds and of
/// the root; the call fails exactly where that function has no value, which
/// the library documents as a tweak hash outside the curve order or a
/// tweaked key at infinity.
#[verifier::external_body]
fn key_agg_context_taproot_tweak(ctx: &KeyAggContext, merkle_root: &[u8]) -> (tweaked: Result<
    KeyAggContext,
    TweakError,
>)
    requires
        merkle_root@.len() == MERKLE_ROOT_SIZE,
    ensures
        tweaked is Ok <==> musig_taproot_tweak(key_agg_pubkey(*ctx), merkle_root@) is Some,
        tweaked matches Ok(t) ==> musig_taproot_tweak(key_agg_pubkey(*ctx), merkle_root@) == Some(
            key_agg_pubkey(t),
        ),
{
    let root: [u8; 32] = merkle_root.try_into().expect("a root has 32 bytes");
    ctx.clone().with_taproot_tweak(&root)
}

/// `Clone::clone` of `musig2::KeyAggContext`, which the signing library
/// derives field by field: the copy holds the key that the context holds.
pub assume_specification[ <KeyAggContext as Clone>::clone ](ctx: &KeyAggContext) -> (copy:
    KeyAggContext)
    ensures
        key_agg_pubkey(copy) == key_agg_pubkey(*ctx),
;

/// The joint key of two parties: the aggregate of their keys in canonical
/// order, or `None` where the keys cannot be aggregated. Two parties with
/// one and the same key have no joint key.
pub open spec fn joint_key_spec(a: Seq<u8>, b: Seq<u8>) -> Option<Seq<u8>> {
    if a == b {
        None
    } else {
        musig_key_agg(sorted_pair(a, b))
    }
}

/// Aggregates the keys of the market maker and of the winner into the
/// context of their joint key. The keys are put in canonical order first,
/// so both parties arrive at the same joint key.
///
/// Fails with [`Error::Setup`] if the two keys are the same key, and where
/// the signing library cannot aggregate them.
pub fn aggregate(market_maker: &PublicKey, winner: &PublicKey) -> (ctx: Result<
    KeyAggContext,
    Error,
>)
    ensures
        ctx is Ok <==> joint_key_spec(market_maker@, winner@) is Some,
        ctx matches Ok(c) ==> joint_key_spec(market_maker@, winner@) == Some(key_agg_pubkey(c)),
        ctx matches Err(e) ==> e == Error::Setup,
{
    if market_maker.same_key(winner) {
        return Err(Error::Setup);
    }
    let (first, second) = canonical_order(market_maker, winner);
    proof {
        use_type_invariant(first);
        use_type_invariant(second);
    }
    match key_agg_context_new(first, second) {
        Ok(c) => Ok(c),
        Err(_) => Err(Error::Setup),
    }
}

/// Derives from the context of a joint key the context of the key tweaked
/// by `merkle_root`, the root of the commitment tree.
///
/// Fails with [`Error::Validation`] unless the root is 32 bytes long, and
/// with [`Error::Setup`] where the tweak cannot be applied.
pub fn tweak(ctx: &KeyAggContext, merkle_root: &[u8]) -> (tweaked: Result<KeyAggContext, Error>)
    ensures
        tweaked is Ok <==> merkle_root@.len() == MERKLE_ROOT_SIZE && musig_taproot_tweak(
            key_agg_pubkey(*ctx),
            merkle_root@,
        ) is Some,
        tweaked matches Ok(t) ==> musig_taproot_tweak(key_agg_pubkey(*ctx), merkle_root@) == Some(
            key_agg_pubkey(t),
        ),
        tweaked matches Err(e) ==> e == (if merkle_root@.len() == MERKLE_ROOT_SIZE {
            Error::Setup
        } else {
            Error::Validation
        }),
{
    if merkle_root.len() != MERKLE_ROOT_SIZE {
        return Err(Error::Validation);
    }
    match key_agg_context_taproot_tweak(ctx, merkle_root) {
        Ok(t) => Ok(t),
        Err(_) => Err(Error::Setup),
    }
}

/// The joint key of two parties is the same whichever of them is named
/// first.
pub proof fn lemma_joint_key_order_independent(a: Seq<u8>, b: Seq<u8>)
    ensures
        joint_key_spec(a, b) == joint_key_spec(b, a),
{
    lemma_sorted_pair_symmetric(a, b);
}

} // verus!
