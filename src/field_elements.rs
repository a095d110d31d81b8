use vstd::prelude::*;

use crate::curve::{fr_modulus, fr_value, scalar_from_u128, scalar_neg, Scalar};

verus! {

/// The canonical field element for a signed integer: its magnitude reduced modulo the
/// field order, negated in the field when the integer is negative.
pub open spec fn encode_int(c: int) -> int {
    if c < 0 {
        (fr_modulus() - (-c) % fr_modulus()) % fr_modulus()
    } else {
        c % fr_modulus()
    }
}

/// Every encoded coefficient is a canonical representative, and encoding a nonzero
/// integer and its negation gives field elements that sum to the field order.
pub proof fn lemma_encode_negation(c: Seq<i64>, d: Seq<i64>)
    requires
        c.len() == d.len(),
        forall|i: int| 0 <= i < c.len() ==> d[i] as int == -(c[i] as int),
    ensures
        forall|i: int|
            0 <= i < c.len() ==> {
                &&& 0 <= #[trigger] encode_int(c[i] as int) < fr_modulus()
                &&& c[i] != 0 ==> encode_int(c[i] as int) == fr_modulus() - encode_int(d[i] as int)
            },
{
    assert forall|i: int| 0 <= i < c.len() implies {
        &&& 0 <= #[trigger] encode_int(c[i] as int) < fr_modulus()
        &&& c[i] != 0 ==> encode_int(c[i] as int) == fr_modulus() - encode_int(d[i] as int)
    } by {
        lemma_encode_small(c[i] as int);
        lemma_encode_small(d[i] as int);
    }
}

/// For an integer of magnitude below the field order the encoding is the integer itself
/// or the field order minus its magnitude.
proof fn lemma_encode_small(c: int)
    requires
        -0x1_0000_0000_0000_0000 < c < 0x1_0000_0000_0000_0000,
    ensures
        c >= 0 ==> encode_int(c) == c,
        c < 0 ==> encode_int(c) == fr_modulus() + c,
{
    let m = fr_modulus();
    if c >= 0 {
        vstd::arithmetic::div_mod::lemma_small_mod(c as nat, m as nat);
    } else {
        vstd::arithmetic::div_mod::lemma_small_mod((-c) as nat, m as nat);
        vstd::arithmetic::div_mod::lemma_small_mod((m + c) as nat, m as nat);
    }
}

/// Converts signed integers to elements of the BN254 scalar field, keeping their order:
/// the magnitude is lifted into the field and negated there when the integer is negative.
pub fn to_field_elements(constraint: &[i64]) -> (res: Vec<Scalar>)
    ensures
        res@.len() == constraint@.len(),
        forall|i: int|
            0 <= i < res@.len() ==> fr_value(#[trigger] res@[i]) == encode_int(constraint@[i] as int),
{
    let mut res: Vec<Scalar> = Vec::new();
    let mut k: usize = 0;
    while k < constraint.len()
        invariant
            k <= constraint@.len(),
            res@.len() == k,
            forall|i: int|
                0 <= i < k ==> fr_value(#[trigger] res@[i]) == encode_int(constraint@[i] as int),
        decreases constraint@.len() - k,
    {
        let entry = constraint[k];
        let magnitude: u128 = if entry < 0 {
            (0i128 - entry as i128) as u128
        } else {
            entry as u128
        };
        let abs_as_fe = scalar_from_u128(magnitude);
        if entry < 0 {
            proof {
                vstd::arithmetic::div_mod::lemma_small_mod(magnitude as nat, fr_modulus() as nat);
            }
            let negated = scalar_neg(&abs_as_fe);
            res.push(negated);
        } else {
            res.push(abs_as_fe);
        }
        k = k + 1;
    }
    res
}

} // verus!
