//! Deterministic encoding of external values into field elements.
//!
//! Hash-like values arrive as hex text; their bytes are absorbed into the
//! field under a domain tag. Embedding coordinates arrive already quantized
//! to fixed-point integers (the quantization scale is a boundary concern of
//! the caller) and are mapped to canonical representatives, rejecting any
//! value over the configured bit width.

use vstd::prelude::*;
use vstd::arithmetic::div_mod::{
    lemma_add_mod_noop, lemma_mod_equivalence, lemma_mod_sub_multiples_vanish,
    lemma_mul_mod_noop_left, lemma_mul_mod_noop_right, lemma_small_mod,
};
use vstd::arithmetic::power::{lemma_pow0, lemma_pow1, lemma_pow_adds, pow};
use crate::field::{fe_fold, fe_fold_spec, is_fe, FIELD_MODULUS};
use crate::hexstr::{bytes_of_hex, hex_decode, valid_hex};
use crate::ZkError;

verus! {

/// Domain-separation tag that starts a hash-string encoding fold.
pub const HASH_TAG: u64 = 0x68;

/// Quantized embedding coordinates must fit this many bits (signed).
pub const EMBEDDING_WIDTH_BITS: u64 = 31;

/// Largest magnitude of a quantized embedding coordinate.
pub const EMBEDDING_MAGNITUDE_BOUND: i64 = 0x8000_0000;

/// Absorb a byte string into the field, starting from `acc`.
pub open spec fn fold_bytes_spec(acc: u64, b: Seq<u8>) -> u64
    decreases b.len(),
{
    if b.len() == 0 {
        acc
    } else {
        fold_bytes_spec(fe_fold_spec(acc, 256, b[0] as u64), b.drop_first())
    }
}

/// The absorbing fold keeps the accumulator canonical.
pub proof fn lemma_fold_bytes_spec_fe(acc: u64, b: Seq<u8>)
    requires
        is_fe(acc),
    ensures
        is_fe(fold_bytes_spec(acc, b)),
    decreases b.len(),
{
    if b.len() > 0 {
        crate::field::lemma_fe_fold_spec_fe(acc, 256, b[0] as u64);
        lemma_fold_bytes_spec_fe(fe_fold_spec(acc, 256, b[0] as u64), b.drop_first());
    }
}

/// The big-endian integer a byte string denotes.
pub open spec fn be_val(b: Seq<u8>) -> int
    decreases b.len(),
{
    if b.len() == 0 {
        0
    } else {
        be_val(b.drop_last()) * 256 + b.last()
    }
}

/// Folding one more byte at the back is one more absorbing step.
proof fn lemma_fold_snoc(acc: u64, c: Seq<u8>, x: u8)
    ensures
        fold_bytes_spec(acc, c.push(x)) == fe_fold_spec(fold_bytes_spec(acc, c), 256, x as u64),
    decreases c.len(),
{
    if c.len() == 0 {
        assert(c.push(x)[0] == x);
        assert(c.push(x).drop_first() =~= Seq::<u8>::empty());
        assert(fold_bytes_spec(acc, c.push(x))
            == fold_bytes_spec(fe_fold_spec(acc, 256, x as u64), Seq::<u8>::empty()));
    } else {
        assert(c.push(x)[0] == c[0]);
        assert(c.push(x).drop_first() =~= c.drop_first().push(x));
        assert(fold_bytes_spec(acc, c.push(x))
            == fold_bytes_spec(fe_fold_spec(acc, 256, c[0] as u64), c.drop_first().push(x)));
        assert(fold_bytes_spec(acc, c)
            == fold_bytes_spec(fe_fold_spec(acc, 256, c[0] as u64), c.drop_first()));
        lemma_fold_snoc(fe_fold_spec(acc, 256, c[0] as u64), c.drop_first(), x);
    }
}

/// The absorbing fold in closed form: the accumulator shifted past the
/// string, plus the string's big-endian value, reduced into the field.
proof fn lemma_fold_closed_form(acc: u64, b: Seq<u8>)
    requires
        is_fe(acc),
    ensures
        fold_bytes_spec(acc, b)
            == (acc * pow(256, b.len()) + be_val(b)) % (FIELD_MODULUS as int),
    decreases b.len(),
{
    let m = FIELD_MODULUS as int;
    if b.len() == 0 {
        lemma_pow0(256);
        lemma_small_mod(acc as nat, FIELD_MODULUS as nat);
    } else {
        let c = b.drop_last();
        let x = b.last();
        assert(c.push(x) =~= b);
        lemma_fold_snoc(acc, c, x);
        lemma_fold_closed_form(acc, c);
        let shifted = acc * pow(256, c.len());
        let full = shifted + be_val(c);
        lemma_mul_mod_noop_left(full, 256, m);
        lemma_add_mod_noop(full * 256, x as int, m);
        lemma_small_mod(x as nat, FIELD_MODULUS as nat);
        assert((full % m) * 256 % m == full * 256 % m);
        assert((full % m * 256 + x) % m == (full * 256 + x) % m) by {
            lemma_add_mod_noop(full % m * 256, x as int, m);
            lemma_small_mod(x as nat, FIELD_MODULUS as nat);
        }
        lemma_pow_adds(256, c.len(), 1);
        lemma_pow1(256);
        assert(full * 256 == acc * (pow(256, c.len()) * 256) + be_val(c) * 256)
            by (nonlinear_arith)
            requires
                full == acc * pow(256, c.len()) + be_val(c),
        ;
        assert(full * 256 + x == acc * pow(256, b.len()) + be_val(b));
    }
}

/// A power of two is never a multiple of the field modulus: its residue
/// stays strictly between zero and the modulus.
proof fn lemma_pow2_mod_in_range(e: nat)
    ensures
        1 <= pow(2, e) % (FIELD_MODULUS as int) < FIELD_MODULUS as int,
    decreases e,
{
    reveal(pow);
    let m = FIELD_MODULUS as int;
    if e == 0 {
        lemma_small_mod(1, FIELD_MODULUS as nat);
    } else {
        lemma_pow2_mod_in_range((e - 1) as nat);
        let r = pow(2, (e - 1) as nat) % m;
        assert(pow(2, e) == 2 * pow(2, (e - 1) as nat));
        lemma_mul_mod_noop_right(2, pow(2, (e - 1) as nat), m);
        assert(pow(2, e) % m == (2 * r) % m);
        if 2 * r < m {
            lemma_small_mod((2 * r) as nat, FIELD_MODULUS as nat);
        } else {
            lemma_mod_sub_multiples_vanish(2 * r, m);
            lemma_small_mod((2 * r - m) as nat, FIELD_MODULUS as nat);
            assert(2 * r != m);
        }
    }
}

/// Changing one byte of a string shifts its big-endian value by the byte
/// difference at that position's weight.
proof fn lemma_be_val_byte_diff(b1: Seq<u8>, b2: Seq<u8>, j: int)
    requires
        b1.len() == b2.len(),
        0 <= j < b1.len(),
        forall|i: int| 0 <= i < b1.len() && i != j ==> b1[i] == b2[i],
    ensures
        be_val(b2) - be_val(b1)
            == (b2[j] - b1[j]) * pow(256, (b1.len() - 1 - j) as nat),
    decreases b1.len(),
{
    if j == b1.len() - 1 {
        assert(b1.drop_last() =~= b2.drop_last());
        lemma_pow0(256);
    } else {
        assert forall|i: int| 0 <= i < b1.drop_last().len() && i != j
            implies b1.drop_last()[i] == b2.drop_last()[i] by {}
        lemma_be_val_byte_diff(b1.drop_last(), b2.drop_last(), j);
        let d = b2[j] - b1[j];
        let w = pow(256, (b1.len() - 2 - j) as nat);
        lemma_pow_adds(256, (b1.len() - 2 - j) as nat, 1);
        lemma_pow1(256);
        assert(b1.last() == b2.last());
        assert((d * w) * 256 == d * (w * 256)) by (nonlinear_arith);
        assert(be_val(b2) - be_val(b1) == (be_val(b2.drop_last()) - be_val(b1.drop_last())) * 256)
            by (nonlinear_arith)
            requires
                be_val(b2) == be_val(b2.drop_last()) * 256 + b2.last(),
                be_val(b1) == be_val(b1.drop_last()) * 256 + b1.last(),
                b1.last() == b2.last(),
        ;
    }
}

/// Flipping any single bit of a byte string changes the field element the
/// hash encoding absorbs it to.
pub proof fn law_bit_flip_changes_digest(b1: Seq<u8>, b2: Seq<u8>, j: int, k: u64)
    requires
        b1.len() == b2.len(),
        0 <= j < b1.len(),
        k < 8,
        forall|i: int| 0 <= i < b1.len() && i != j ==> b1[i] == b2[i],
        b2[j] == b1[j] ^ (1u8 << k),
    ensures
        fold_bytes_spec(HASH_TAG, b1) != fold_bytes_spec(HASH_TAG, b2),
{
    let m = FIELD_MODULUS as int;
    let x = b1[j];
    let y = b2[j];
    assert(y != x && (y == x + (1u8 << k) || x == y + (1u8 << k))) by (bit_vector)
        requires
            y == x ^ (1u8 << k),
            k < 8,
    ;
    assert((k == 0 ==> 1u8 << k == 1) && (k == 1 ==> 1u8 << k == 2) && (k == 2 ==> 1u8 << k == 4)
        && (k == 3 ==> 1u8 << k == 8) && (k == 4 ==> 1u8 << k == 16) && (k == 5 ==> 1u8 << k == 32)
        && (k == 6 ==> 1u8 << k == 64) && (k == 7 ==> 1u8 << k == 128)) by (bit_vector);
    vstd::arithmetic::power2::lemma2_to64();
    assert(pow(2, k as nat) == vstd::arithmetic::power2::pow2(k as nat)) by {
        vstd::arithmetic::power2::lemma_pow2(k as nat);
    }
    assert((1u8 << k) as int == pow(2, k as nat));
    lemma_be_val_byte_diff(b1, b2, j);
    let weight = pow(256, (b1.len() - 1 - j) as nat);
    let delta = (y - x) * weight;
    assert(pow(256, (b1.len() - 1 - j) as nat) == pow(2, (8 * (b1.len() - 1 - j)) as nat)) by {
        assert(pow(2, 8) == 256) by {
            vstd::arithmetic::power2::lemma_pow2(8);
        }
        vstd::arithmetic::power::lemma_pow_multiplies(2, 8, (b1.len() - 1 - j) as nat);
    }
    lemma_fold_closed_form(HASH_TAG, b1);
    lemma_fold_closed_form(HASH_TAG, b2);
    let shifted = (HASH_TAG as int) * pow(256, b1.len());
    if fold_bytes_spec(HASH_TAG, b1) == fold_bytes_spec(HASH_TAG, b2) {
        lemma_mod_equivalence(shifted + be_val(b1), shifted + be_val(b2), m);
        assert((be_val(b1) - be_val(b2)) % m == 0);
        lemma_mod_equivalence(be_val(b1), be_val(b2), m);
        assert((be_val(b2) - be_val(b1)) % m == 0);
        let e = (k + 8 * (b1.len() - 1 - j)) as nat;
        lemma_pow_adds(2, k as nat, (8 * (b1.len() - 1 - j)) as nat);
        lemma_pow2_mod_in_range(e);
        if y == x + (1u8 << k) {
            assert(be_val(b2) - be_val(b1) == pow(2, e)) by (nonlinear_arith)
                requires
                    be_val(b2) - be_val(b1) == (y - x) * weight,
                    y - x == pow(2, k as nat),
                    weight == pow(2, (8 * (b1.len() - 1 - j)) as nat),
                    pow(2, e) == pow(2, k as nat) * pow(2, (8 * (b1.len() - 1 - j)) as nat),
            ;
            assert(false);
        } else {
            assert(be_val(b1) - be_val(b2) == pow(2, e)) by (nonlinear_arith)
                requires
                    be_val(b2) - be_val(b1) == (y - x) * weight,
                    x - y == pow(2, k as nat),
                    weight == pow(2, (8 * (b1.len() - 1 - j)) as nat),
                    pow(2, e) == pow(2, k as nat) * pow(2, (8 * (b1.len() - 1 - j)) as nat),
            ;
            assert(false);
        }
    }
}

/// The field element a well-formed hex hash string denotes.
pub open spec fn encode_hash_val(s: Seq<char>) -> u64
    recommends
        valid_hex(s),
{
    fold_bytes_spec(HASH_TAG, bytes_of_hex(s))
}

/// Absorb a byte string into the field, starting from `acc`.
pub fn fold_bytes(acc: u64, b: &Vec<u8>) -> (r: u64)
    requires
        is_fe(acc),
    ensures
        r == fold_bytes_spec(acc, b@),
        is_fe(r),
{
    let mut cur = acc;
    let mut i: usize = 0;
    proof {
        assert(b@.skip(0) =~= b@);
    }
    while i < b.len()
        invariant
            i <= b.len(),
            is_fe(cur),
            fold_bytes_spec(cur, b@.skip(i as int)) == fold_bytes_spec(acc, b@),
        decreases b.len() - i,
    {
        proof {
            assert(b@.skip(i as int).drop_first() =~= b@.skip(i as int + 1));
            assert(b@.skip(i as int)[0] == b@[i as int]);
        }
        cur = fe_fold(cur, 256, b[i] as u64);
        i = i + 1;
    }
    proof {
        assert(b@.skip(b@.len() as int) =~= Seq::<u8>::empty());
    }
    cur
}

/// Encode a hex hash string as a field element; rejects text that is not
/// well-formed hex.
pub fn encode_hash_string(s: &str) -> (r: Result<u64, ZkError>)
    ensures
        r is Ok <==> valid_hex(s@),
        r is Err ==> r == Err::<u64, ZkError>(ZkError::EncodingError),
        r is Ok ==> r.unwrap() == encode_hash_val(s@) && is_fe(r.unwrap()),
{
    match hex_decode(s) {
        Some(bytes) => Ok(fold_bytes(HASH_TAG, &bytes)),
        None => Err(ZkError::EncodingError),
    }
}

/// Whether a quantized coordinate fits the configured bit width.
pub open spec fn within_width(v: i64) -> bool {
    -(EMBEDDING_MAGNITUDE_BOUND as int) < v < EMBEDDING_MAGNITUDE_BOUND as int
}

/// The canonical field representative of a signed quantized coordinate:
/// non-negative values map to themselves, negative ones to their additive
/// inverse in the field.
pub open spec fn encode_signed_spec(v: i64) -> u64
    recommends
        within_width(v),
{
    if v >= 0 {
        v as u64
    } else {
        (FIELD_MODULUS - (-(v as int))) as u64
    }
}

/// Encode one quantized embedding coordinate.
pub fn encode_signed(v: i64) -> (r: Result<u64, ZkError>)
    ensures
        r is Ok <==> within_width(v),
        r is Err ==> r == Err::<u64, ZkError>(ZkError::EncodingError),
        r is Ok ==> r.unwrap() == encode_signed_spec(v) && is_fe(r.unwrap()),
{
    if v > -EMBEDDING_MAGNITUDE_BOUND && v < EMBEDDING_MAGNITUDE_BOUND {
        if v >= 0 {
            Ok(v as u64)
        } else {
            Ok(FIELD_MODULUS - ((-v) as u64))
        }
    } else {
        Err(ZkError::EncodingError)
    }
}

/// The encoded embedding of a row of quantized coordinates.
pub open spec fn encode_embedding_seq(q: Seq<i64>) -> Seq<u64> {
    Seq::new(q.len(), |i: int| encode_signed_spec(q[i]))
}

/// Encode a quantized embedding vector; rejects any coordinate over the
/// configured width.
pub fn encode_embedding(q: &Vec<i64>) -> (r: Result<Vec<u64>, ZkError>)
    ensures
        r is Ok <==> (forall|i: int| 0 <= i < q@.len() ==> within_width(#[trigger] q@[i])),
        r is Err ==> r == Err::<Vec<u64>, ZkError>(ZkError::EncodingError),
        r is Ok ==> r.unwrap()@ == encode_embedding_seq(q@),
{
    let mut out: Vec<u64> = Vec::new();
    let mut i: usize = 0;
    while i < q.len()
        invariant
            i <= q.len(),
            forall|k: int| 0 <= k < i ==> within_width(#[trigger] q@[k]),
            out@ == encode_embedding_seq(q@).take(i as int),
        decreases q.len() - i,
    {
        match encode_signed(q[i]) {
            Ok(e) => {
                out.push(e);
                proof {
                    assert(out@ =~= encode_embedding_seq(q@).take(i as int + 1));
                }
            },
            Err(e) => {
                return Err(e);
            },
        }
        i = i + 1;
    }
    proof {
        assert(encode_embedding_seq(q@).take(q@.len() as int) =~= encode_embedding_seq(q@));
    }
    Ok(out)
}

} // verus!
