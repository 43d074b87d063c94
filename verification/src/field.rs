//! The scalar field of the constraint system.
//!
//! Field elements are integers modulo the Mersenne prime `2^61 - 1`. The
//! choice of field is a documented, pluggable parameter of the scheme: every
//! contract in the crate is stated over `FIELD_MODULUS`, so swapping the
//! modulus re-verifies the whole pipeline against the new choice.

use vstd::prelude::*;
use vstd::arithmetic::div_mod::{lemma_mod_sub_multiples_vanish, lemma_small_mod};

verus! {

/// The field modulus: the Mersenne prime `2^61 - 1`.
pub const FIELD_MODULUS: u64 = 0x1FFF_FFFF_FFFF_FFFF;

/// A canonical field representative: a machine word below the modulus.
pub open spec fn is_fe(v: u64) -> bool {
    v < FIELD_MODULUS
}

/// Field addition, as mathematics.
pub open spec fn fe_add_spec(a: u64, b: u64) -> u64 {
    ((a + b) % (FIELD_MODULUS as int)) as u64
}

/// Field addition on canonical representatives.
pub fn fe_add(a: u64, b: u64) -> (r: u64)
    requires
        is_fe(a),
        is_fe(b),
    ensures
        is_fe(r),
        r == fe_add_spec(a, b),
{
    let s: u64 = a + b;
    if s >= FIELD_MODULUS {
        proof {
            lemma_mod_sub_multiples_vanish(s as int, FIELD_MODULUS as int);
            lemma_small_mod((s - FIELD_MODULUS) as nat, FIELD_MODULUS as nat);
        }
        s - FIELD_MODULUS
    } else {
        proof {
            lemma_small_mod(s as nat, FIELD_MODULUS as nat);
        }
        s
    }
}

/// The base of the absorbing fold used for digests and string encodings.
pub const FOLD_BASE: u64 = 0xFFFF_FFFB;

/// One absorbing step: `(acc * base + x) mod FIELD_MODULUS`.
pub open spec fn fe_fold_spec(acc: u64, base: u64, x: u64) -> u64 {
    ((acc * base + x) % (FIELD_MODULUS as int)) as u64
}

/// The result of an absorbing step is a canonical representative.
pub proof fn lemma_fe_fold_spec_fe(acc: u64, base: u64, x: u64)
    ensures
        is_fe(fe_fold_spec(acc, base, x)),
{
    vstd::arithmetic::div_mod::lemma_mod_bound(
        acc * base + x,
        FIELD_MODULUS as int,
    );
}

/// One absorbing step of the digest fold.
pub fn fe_fold(acc: u64, base: u64, x: u64) -> (r: u64)
    requires
        is_fe(acc),
        base <= 0x1_0000_0000,
    ensures
        is_fe(r),
        r == fe_fold_spec(acc, base, x),
{
    proof {
        assert(acc * base <= 0x2000_0000_0000_0000 * 0x1_0000_0000) by (nonlinear_arith)
            requires
                acc <= 0x2000_0000_0000_0000,
                base <= 0x1_0000_0000,
        ;
    }
    let wide: u128 = (acc as u128) * (base as u128) + (x as u128);
    let r: u128 = wide % (FIELD_MODULUS as u128);
    proof {
        vstd::arithmetic::div_mod::lemma_mod_bound(wide as int, FIELD_MODULUS as int);
    }
    r as u64
}

} // verus!
