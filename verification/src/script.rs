//! Bitcoin Script as bytes: the push encodings, and the three leaf scripts
//! and the locking script of a payout contract.

use vstd::prelude::*;

use crate::errors::Error;
use crate::hashlock::HASH_SIZE;

verus! {

/// Pushes the next byte's worth of length-prefixed data.
pub const OP_PUSHDATA1: u8 = 0x4c;

/// Pushes data prefixed by a two-byte little-endian length.
pub const OP_PUSHDATA2: u8 = 0x4d;

/// Pushes data prefixed by a four-byte little-endian length.
pub const OP_PUSHDATA4: u8 = 0x4e;

/// Pushes the number 1; also the version marker of a segwit v1 output.
pub const OP_PUSHNUM_1: u8 = 0x51;

/// Drops the top stack item.
pub const OP_DROP: u8 = 0x75;

/// Fails unless the two top stack items are equal.
pub const OP_EQUALVERIFY: u8 = 0x88;

/// Replaces the top stack item by its SHA-256 digest.
pub const OP_SHA256: u8 = 0xa8;

/// Checks a signature against a public key.
pub const OP_CHECKSIG: u8 = 0xac;

/// Fails unless the input is older than the relative locktime on the stack.
pub const OP_CSV: u8 = 0xb2;

/// Length of an x-only public key.
pub const XONLY_KEY_SIZE: usize = 32;

/// Length of the locking script of a taproot output.
pub const P2TR_SCRIPT_SIZE: usize = 34;

/// The base-256 digits of `n`, least significant first, without leading
/// zero digits: empty for zero.
pub open spec fn le_magnitude(n: nat) -> Seq<u8>
    decreases n,
{
    if n == 0 {
        Seq::empty()
    } else {
        seq![(n % 256) as u8] + le_magnitude(n / 256)
    }
}

/// The number that little-endian base-256 digits stand for.
pub open spec fn le_value(digits: Seq<u8>) -> nat
    decreases digits.len(),
{
    if digits.len() == 0 {
        0
    } else {
        digits[0] as nat + 256 * le_value(digits.drop_first())
    }
}

/// A non-negative number in script number format: its little-endian
/// magnitude, followed by a zero byte where the top bit of the last digit
/// would otherwise read as a minus sign.
pub open spec fn script_num(n: nat) -> Seq<u8> {
    let digits = le_magnitude(n);
    if digits.len() > 0 && digits.last() >= 0x80 {
        digits.push(0u8)
    } else {
        digits
    }
}

/// The opcode bytes that announce a data push of `len` bytes.
pub open spec fn push_header(len: nat) -> Seq<u8> {
    if len < 0x4c {
        seq![len as u8]
    } else if len < 0x100 {
        seq![OP_PUSHDATA1, len as u8]
    } else if len < 0x10000 {
        seq![OP_PUSHDATA2, (len % 0x100) as u8, (len / 0x100) as u8]
    } else {
        seq![
            OP_PUSHDATA4,
            (len % 0x100) as u8,
            ((len / 0x100) % 0x100) as u8,
            ((len / 0x10000) % 0x100) as u8,
            (len / 0x1000000) as u8,
        ]
    }
}

/// The instruction that pushes `data` onto the stack.
pub open spec fn push_slice_spec(data: Seq<u8>) -> Seq<u8>
    recommends
        data.len() < 0x1_0000_0000,
{
    push_header(data.len()) + data
}

/// The instruction that pushes the non-negative number `n` onto the stack:
/// a dedicated opcode for 0 to 16, a push of its script number otherwise.
pub open spec fn push_int_spec(n: nat) -> Seq<u8> {
    if n == 0 {
        seq![0u8]
    } else if n <= 16 {
        seq![(0x50 + n) as u8]
    } else {
        push_slice_spec(script_num(n))
    }
}

/// The script by which the winner claims the payout once `block_delta`
/// blocks have passed, by revealing the ticket preimage.
pub open spec fn win_script_spec(
    block_delta: u16,
    ticket_hash: Seq<u8>,
    winner_key: Seq<u8>,
) -> Seq<u8> {
    push_int_spec(block_delta as nat) + seq![OP_CSV, OP_DROP, OP_SHA256] + push_slice_spec(
        ticket_hash,
    ) + seq![OP_EQUALVERIFY] + push_slice_spec(winner_key) + seq![OP_CHECKSIG]
}

/// The script by which the market maker takes the payout back once twice
/// `block_delta` blocks have passed.
pub open spec fn reclaim_script_spec(block_delta: u16, market_maker_key: Seq<u8>) -> Seq<u8> {
    push_int_spec(2 * (block_delta as nat)) + seq![OP_CSV, OP_DROP] + push_slice_spec(
        market_maker_key,
    ) + seq![OP_CHECKSIG]
}

/// The script by which the market maker takes the payout at once, by
/// revealing the payout preimage bought from the winner.
pub open spec fn sellback_script_spec(payout_hash: Seq<u8>, market_maker_key: Seq<u8>) -> Seq<u8> {
    seq![OP_SHA256] + push_slice_spec(payout_hash) + seq![OP_EQUALVERIFY] + push_slice_spec(
        market_maker_key,
    ) + seq![OP_CHECKSIG]
}

/// The locking script of a taproot output: the version 1 marker and a push
/// of the x-only output key.
pub open spec fn p2tr_script_spec(output_key: Seq<u8>) -> Seq<u8> {
    seq![OP_PUSHNUM_1] + push_slice_spec(output_key)
}

/// A number below 2^32 has at most four digits, and its last digit is not
/// zero.
pub proof fn lemma_le_magnitude_shape(n: nat)
    requires
        n <= u32::MAX,
    ensures
        le_magnitude(n).len() <= 4,
        n > 0 ==> 0 < le_magnitude(n).len() && le_magnitude(n).last() != 0,
{
    reveal_with_fuel(le_magnitude, 6);
}

/// Digits read back give the number they were made from.
pub proof fn lemma_le_value_of_magnitude(n: nat)
    ensures
        le_value(le_magnitude(n)) == n,
    decreases n,
{
    if n > 0 {
        let rest = le_magnitude(n / 256);
        lemma_le_value_of_magnitude(n / 256);
        assert(le_magnitude(n).drop_first() =~= rest);
    }
}

/// A zero digit at the top does not change the number.
pub proof fn lemma_le_value_push_zero(digits: Seq<u8>)
    ensures
        le_value(digits.push(0u8)) == le_value(digits),
    decreases digits.len(),
{
    let padded = digits.push(0u8);
    if digits.len() == 0 {
        assert(le_value(padded.drop_first()) == 0);
    } else {
        lemma_le_value_push_zero(digits.drop_first());
        assert(padded.drop_first() =~= digits.drop_first().push(0u8));
    }
}

/// A script number reads back as the number it encodes, so different
/// numbers have different script numbers.
pub proof fn lemma_script_num_value(n: nat)
    ensures
        le_value(script_num(n)) == n,
{
    lemma_le_value_of_magnitude(n);
    lemma_le_value_push_zero(le_magnitude(n));
}

/// The push of a number below 2^32 takes between one and six bytes.
pub proof fn lemma_push_int_len(n: nat)
    requires
        n <= u32::MAX,
    ensures
        1 <= push_int_spec(n).len() <= 6,
        n <= 16 ==> push_int_spec(n).len() == 1,
        16 < n ==> push_int_spec(n).len() == script_num(n).len() + 1,
        16 < n ==> push_int_spec(n)[0] == script_num(n).len(),
        16 < n ==> push_int_spec(n).subrange(1, push_int_spec(n).len() as int) == script_num(n),
{
    lemma_le_magnitude_shape(n);
}

/// Different numbers are pushed by different instructions.
pub proof fn lemma_push_int_injective(a: nat, b: nat)
    requires
        a <= u32::MAX,
        b <= u32::MAX,
        push_int_spec(a) == push_int_spec(b),
    ensures
        a == b,
{
    lemma_push_int_len(a);
    lemma_push_int_len(b);
    if a > 16 && b > 16 {
        lemma_script_num_value(a);
        lemma_script_num_value(b);
    } else if a <= 16 && b <= 16 {
        assert(a > 0 ==> push_int_spec(a)[0] == 0x50 + a);
        assert(b > 0 ==> push_int_spec(b)[0] == 0x50 + b);
    }
}

/// The lengths of the three leaf scripts, for hashes and keys of 32 bytes:
/// the block delta alone decides them, no two of the scripts are equally
/// long, and none reaches 253 bytes.
pub proof fn lemma_leaf_script_lens(
    block_delta: u16,
    ticket_hash: Seq<u8>,
    payout_hash: Seq<u8>,
    winner_key: Seq<u8>,
    market_maker_key: Seq<u8>,
)
    requires
        ticket_hash.len() == HASH_SIZE,
        payout_hash.len() == HASH_SIZE,
        winner_key.len() == XONLY_KEY_SIZE,
        market_maker_key.len() == XONLY_KEY_SIZE,
    ensures
        win_script_spec(block_delta, ticket_hash, winner_key).len() == push_int_spec(
            block_delta as nat,
        ).len() + 71,
        reclaim_script_spec(block_delta, market_maker_key).len() == push_int_spec(
            2 * (block_delta as nat),
        ).len() + 36,
        sellback_script_spec(payout_hash, market_maker_key).len() == 69,
        72 <= win_script_spec(block_delta, ticket_hash, winner_key).len() <= 77,
        37 <= reclaim_script_spec(block_delta, market_maker_key).len() <= 42,
{
    lemma_push_int_len(block_delta as nat);
    lemma_push_int_len(2 * (block_delta as nat));
}

/// A different block delta gives a different win script and a different
/// reclaim script.
pub proof fn lemma_block_delta_decides_timelocks(
    a: u16,
    b: u16,
    ticket_hash: Seq<u8>,
    winner_key: Seq<u8>,
    market_maker_key: Seq<u8>,
)
    requires
        a != b,
    ensures
        win_script_spec(a, ticket_hash, winner_key) != win_script_spec(b, ticket_hash, winner_key),
        reclaim_script_spec(a, market_maker_key) != reclaim_script_spec(b, market_maker_key),
{
    let win_tail = seq![OP_CSV, OP_DROP, OP_SHA256] + push_slice_spec(ticket_hash)
        + seq![OP_EQUALVERIFY] + push_slice_spec(winner_key) + seq![OP_CHECKSIG];
    let reclaim_tail = seq![OP_CSV, OP_DROP] + push_slice_spec(market_maker_key)
        + seq![OP_CHECKSIG];
    assert(win_script_spec(a, ticket_hash, winner_key) =~= push_int_spec(a as nat) + win_tail);
    assert(win_script_spec(b, ticket_hash, winner_key) =~= push_int_spec(b as nat) + win_tail);
    assert(reclaim_script_spec(a, market_maker_key) =~= push_int_spec(2 * (a as nat))
        + reclaim_tail);
    assert(reclaim_script_spec(b, market_maker_key) =~= push_int_spec(2 * (b as nat))
        + reclaim_tail);
    if push_int_spec(a as nat) + win_tail == push_int_spec(b as nat) + win_tail {
        lemma_same_tail(push_int_spec(a as nat), push_int_spec(b as nat), win_tail);
        lemma_push_int_injective(a as nat, b as nat);
    }
    if push_int_spec(2 * (a as nat)) + reclaim_tail == push_int_spec(2 * (b as nat))
        + reclaim_tail {
        lemma_same_tail(
            push_int_spec(2 * (a as nat)),
            push_int_spec(2 * (b as nat)),
            reclaim_tail,
        );
        lemma_push_int_injective(2 * (a as nat), 2 * (b as nat));
    }
}

/// Byte strings that are equal after the same tail is appended are equal.
pub proof fn lemma_same_tail(a: Seq<u8>, b: Seq<u8>, tail: Seq<u8>)
    requires
        a + tail == b + tail,
    ensures
        a == b,
{
    assert((a + tail).subrange(0, a.len() as int) =~= a);
    assert((b + tail).subrange(0, b.len() as int) =~= b);
}

/// Appends one opcode to a script.
pub fn push_opcode(script: &mut Vec<u8>, opcode: u8)
    ensures
        final(script)@ == old(script)@.push(opcode),
{
    script.push(opcode);
}

/// Appends the instruction that pushes `data` onto the stack.
pub fn push_slice(script: &mut Vec<u8>, data: &[u8])
    requires
        data@.len() < 0x1_0000_0000,
    ensures
        final(script)@ == old(script)@ + push_slice_spec(data@),
{
    let len: usize = data.len();
    if len < 0x4c {
        script.push(len as u8);
    } else if len < 0x100 {
        script.push(OP_PUSHDATA1);
        script.push(len as u8);
    } else if len < 0x10000 {
        script.push(OP_PUSHDATA2);
        script.push((len % 0x100) as u8);
        script.push((len / 0x100) as u8);
    } else {
        script.push(OP_PUSHDATA4);
        script.push((len % 0x100) as u8);
        script.push(((len / 0x100) % 0x100) as u8);
        script.push(((len / 0x10000) % 0x100) as u8);
        script.push((len / 0x1000000) as u8);
    }
    script.extend_from_slice(data);
}

/// The script number of `n`.
pub fn script_num_bytes(n: u32) -> (digits: Vec<u8>)
    ensures
        digits@ == script_num(n as nat),
        digits@.len() <= 5,
{
    let mut digits: Vec<u8> = Vec::new();
    let mut rest: u32 = n;
    while rest > 0
        invariant
            le_magnitude(n as nat) == digits@ + le_magnitude(rest as nat),
            digits@.len() <= 4,
            digits@.len() == 1 ==> rest <= 0xff_ffff,
            digits@.len() == 2 ==> rest <= 0xffff,
            digits@.len() == 3 ==> rest <= 0xff,
            digits@.len() == 4 ==> rest == 0,
        decreases rest,
    {
        let digit: u8 = (rest % 256) as u8;
        digits.push(digit);
        rest = rest / 256;
    }
    let count: usize = digits.len();
    if count > 0 && digits[count - 1] >= 0x80 {
        digits.push(0u8);
    }
    digits
}

/// Appends the instruction that pushes the number `n` onto the stack.
pub fn push_int(script: &mut Vec<u8>, n: u32)
    ensures
        final(script)@ == old(script)@ + push_int_spec(n as nat),
{
    if n == 0 {
        script.push(0u8);
    } else if n <= 16 {
        script.push(0x50 + n as u8);
    } else {
        let digits: Vec<u8> = script_num_bytes(n);
        push_slice(script, digits.as_slice());
    }
}

/// Builds the script by which the winner claims the payout: after
/// `block_delta` blocks, with the preimage of `ticket_hash` and a signature
/// under the x-only key `winner_key`.
///
/// Fails with [`Error::Validation`] unless the hash and the key are 32 bytes
/// long.
pub fn win_script(block_delta: u16, ticket_hash: &[u8], winner_key: &[u8]) -> (script: Result<
    Vec<u8>,
    Error,
>)
    ensures
        script is Ok <==> ticket_hash@.len() == HASH_SIZE && winner_key@.len() == XONLY_KEY_SIZE,
        script matches Ok(bytes) ==> bytes@ == win_script_spec(
            block_delta,
            ticket_hash@,
            winner_key@,
        ),
        script matches Err(e) ==> e == Error::Validation,
{
    if ticket_hash.len() != HASH_SIZE || winner_key.len() != XONLY_KEY_SIZE {
        return Err(Error::Validation);
    }
    let mut script: Vec<u8> = Vec::new();
    push_int(&mut script, block_delta as u32);
    push_opcode(&mut script, OP_CSV);
    push_opcode(&mut script, OP_DROP);
    push_opcode(&mut script, OP_SHA256);
    push_slice(&mut script, ticket_hash);
    push_opcode(&mut script, OP_EQUALVERIFY);
    push_slice(&mut script, winner_key);
    push_opcode(&mut script, OP_CHECKSIG);
    Ok(script)
}

/// Builds the script by which the market maker takes the payout back: after
/// twice `block_delta` blocks, with a signature under the x-only key
/// `market_maker_key`.
///
/// Fails with [`Error::Validation`] unless the key is 32 bytes long.
pub fn reclaim_script(block_delta: u16, market_maker_key: &[u8]) -> (script: Result<
    Vec<u8>,
    Error,
>)
    ensures
        script is Ok <==> market_maker_key@.len() == XONLY_KEY_SIZE,
        script matches Ok(bytes) ==> bytes@ == reclaim_script_spec(block_delta, market_maker_key@),
        script matches Err(e) ==> e == Error::Validation,
{
    if market_maker_key.len() != XONLY_KEY_SIZE {
        return Err(Error::Validation);
    }
    let mut script: Vec<u8> = Vec::new();
    push_int(&mut script, 2 * (block_delta as u32));
    push_opcode(&mut script, OP_CSV);
    push_opcode(&mut script, OP_DROP);
    push_slice(&mut script, market_maker_key);
    push_opcode(&mut script, OP_CHECKSIG);
    Ok(script)
}

/// Builds the script by which the market maker takes the payout at once:
/// with the preimage of `payout_hash` and a signature under the x-only key
/// `market_maker_key`.
///
/// Fails with [`Error::Validation`] unless the hash and the key are 32 bytes
/// long.
pub fn sellback_script(payout_hash: &[u8], market_maker_key: &[u8]) -> (script: Result<
    Vec<u8>,
    Error,
>)
    ensures
        script is Ok <==> payout_hash@.len() == HASH_SIZE && market_maker_key@.len()
            == XONLY_KEY_SIZE,
        script matches Ok(bytes) ==> bytes@ == sellback_script_spec(
            payout_hash@,
            market_maker_key@,
        ),
        script matches Err(e) ==> e == Error::Validation,
{
    if payout_hash.len() != HASH_SIZE || market_maker_key.len() != XONLY_KEY_SIZE {
        return Err(Error::Validation);
    }
    let mut script: Vec<u8> = Vec::new();
    push_opcode(&mut script, OP_SHA256);
    push_slice(&mut script, payout_hash);
    push_opcode(&mut script, OP_EQUALVERIFY);
    push_slice(&mut script, market_maker_key);
    push_opcode(&mut script, OP_CHECKSIG);
    Ok(script)
}

/// Builds the locking script of the taproot output with the x-only key
/// `output_key`.
///
/// Fails with [`Error::Validation`] unless the key is 32 bytes long.
pub fn p2tr_script(output_key: &[u8]) -> (script: Result<Vec<u8>, Error>)
    ensures
        script is Ok <==> output_key@.len() == XONLY_KEY_SIZE,
        script matches Ok(bytes) ==> bytes@ == p2tr_script_spec(output_key@),
        script matches Err(e) ==> e == Error::Validation,
{
    if output_key.len() != XONLY_KEY_SIZE {
        return Err(Error::Validation);
    }
    let mut script: Vec<u8> = Vec::new();
    push_opcode(&mut script, OP_PUSHNUM_1);
    push_slice(&mut script, output_key);
    Ok(script)
}

} // verus!
