use vstd::prelude::*;

use ark_bn254::{Bn254, Fr, G1Projective, G2Projective};
use ark_ec::pairing::{Pairing, PairingOutput};
use ark_ec::PrimeGroup;
use ark_ff::Zero;

verus! {

/// An element of the scalar field of BN254.
#[verifier::external_body]
pub struct Scalar(pub Fr);

/// A point of the BN254 group G1, in projective coordinates. Points are made only from the
/// generator and the identity by the group operations, so each one lies in the group.
#[verifier::external_body]
pub struct G1Point(G1Projective);

/// A point of the BN254 group G2, in projective coordinates. Points are made only from the
/// generator and the identity by the group operations, so each one lies in the group.
#[verifier::external_body]
pub struct G2Point(G2Projective);

/// An element of the target group of the BN254 pairing.
#[verifier::external_body]
pub struct Gt(pub PairingOutput<Bn254>);

impl Clone for Scalar {
    fn clone(&self) -> (r: Self)
        ensures
            r == *self,
    {
        *self
    }
}

impl Copy for Scalar {}

impl Clone for G1Point {
    fn clone(&self) -> (r: Self)
        ensures
            r == *self,
    {
        *self
    }
}

impl Copy for G1Point {}

impl Clone for G2Point {
    fn clone(&self) -> (r: Self)
        ensures
            r == *self,
    {
        *self
    }
}

impl Copy for G2Point {}

impl Clone for Gt {
    fn clone(&self) -> (r: Self)
        ensures
            r == *self,
    {
        *self
    }
}

impl Copy for Gt {}

/// The order of the scalar field of BN254.
pub open spec fn fr_modulus() -> int {
    0x30644e72e131a029b85045b68181585dint * 0x1_0000_0000_0000_0000 * 0x1_0000_0000_0000_0000
        + 0x2833e84879b9709143e1f593f0000001int
}

/// The canonical integer in `[0, fr_modulus())` that a field element stands for.
pub uninterp spec fn fr_value(x: Scalar) -> int;

/// Relies on `From<u128>` for ark_ff's `Fp`: the integer reduced modulo the field order.
#[verifier::external_body]
pub(crate) fn scalar_from_u128(n: u128) -> (r: Scalar)
    ensures
        fr_value(r) == n as int % fr_modulus(),
{
    Scalar(Fr::from(n))
}

/// Relies on `Neg` for ark_ff's `Fp`: the additive inverse, zero staying zero.
#[verifier::external_body]
pub(crate) fn scalar_neg(x: &Scalar) -> (r: Scalar)
    ensures
        0 <= fr_value(*x) < fr_modulus() ==> fr_value(r) == (fr_modulus() - fr_value(*x))
            % fr_modulus(),
{
    Scalar(-x.0)
}

/// The sum of two G1 points, as ark_ec's `Add` computes it.
pub uninterp spec fn g1_add(a: G1Point, b: G1Point) -> G1Point;

/// The sum of two G2 points, as ark_ec's `Add` computes it.
pub uninterp spec fn g2_add(a: G2Point, b: G2Point) -> G2Point;

/// A G1 point multiplied by a scalar, as ark_ec's `Mul` computes it.
pub uninterp spec fn g1_scale(p: G1Point, s: int) -> G1Point;

/// A G2 point multiplied by a scalar, as ark_ec's `Mul` computes it.
pub uninterp spec fn g2_scale(p: G2Point, s: int) -> G2Point;

/// The BN254 pairing of a G1 point with a G2 point.
pub uninterp spec fn bn254_pairing(p: G1Point, q: G2Point) -> Gt;

/// Relies on `Add<&Projective>` of ark_ec's short Weierstrass group: a function of the two points.
#[verifier::external_body]
fn add_g1(a: &G1Point, b: &G1Point) -> (r: G1Point)
    ensures
        r == g1_add(*a, *b),
{
    G1Point(a.0 + &b.0)
}

/// Relies on `Add<&Projective>` of ark_ec's short Weierstrass group: a function of the two points.
#[verifier::external_body]
fn add_g2(a: &G2Point, b: &G2Point) -> (r: G2Point)
    ensures
        r == g2_add(*a, *b),
{
    G2Point(a.0 + &b.0)
}

/// Relies on `Mul<Fr>` of ark_ec's short Weierstrass group, which reads the scalar's
/// canonical integer (`into_bigint`).
#[verifier::external_body]
fn scale_g1(p: &G1Point, s: &Scalar) -> (r: G1Point)
    ensures
        r == g1_scale(*p, fr_value(*s)),
{
    G1Point(p.0 * s.0)
}

/// Relies on `Mul<Fr>` of ark_ec's short Weierstrass group, which reads the scalar's
/// canonical integer (`into_bigint`).
#[verifier::external_body]
fn scale_g2(p: &G2Point, s: &Scalar) -> (r: G2Point)
    ensures
        r == g2_scale(*p, fr_value(*s)),
{
    G2Point(p.0 * s.0)
}

/// The point at infinity of G1 that `Zero::zero` builds; the argument is always 1.
pub uninterp spec fn g1_identity_point(tag: int) -> G1Point;

/// The point at infinity of G2 that `Zero::zero` builds; the argument is always 1.
pub uninterp spec fn g2_identity_point(tag: int) -> G2Point;

/// BN254's fixed generator of G1 as `PrimeGroup::generator` builds it; the argument is always 1.
pub uninterp spec fn g1_generator_point(tag: int) -> G1Point;

/// BN254's fixed generator of G2 as `PrimeGroup::generator` builds it; the argument is always 1.
pub uninterp spec fn g2_generator_point(tag: int) -> G2Point;

/// Relies on `Zero::zero` of ark_ec's short Weierstrass group: a constant, the point at infinity.
#[verifier::external_body]
fn zero_g1() -> (r: G1Point)
    ensures
        r == g1_identity_point(1),
{
    G1Point(G1Projective::zero())
}

/// Relies on `Zero::zero` of ark_ec's short Weierstrass group: a constant, the point at infinity.
#[verifier::external_body]
fn zero_g2() -> (r: G2Point)
    ensures
        r == g2_identity_point(1),
{
    G2Point(G2Projective::zero())
}

/// Relies on `PrimeGroup::generator` of ark_ec: a constant, BN254's fixed G1 generator.
#[verifier::external_body]
pub(crate) fn generator_g1() -> (r: G1Point)
    ensures
        r == g1_generator_point(1),
{
    G1Point(G1Projective::generator())
}

/// Relies on `PrimeGroup::generator` of ark_ec: a constant, BN254's fixed G2 generator.
#[verifier::external_body]
pub(crate) fn generator_g2() -> (r: G2Point)
    ensures
        r == g2_generator_point(1),
{
    G2Point(G2Projective::generator())
}

/// Encrypts a scalar into G1: the fixed generator multiplied by it.
pub fn encrypt_g1(s: &Scalar) -> (r: G1Point)
    ensures
        r == g1_scale(g1_generator_point(1), fr_value(*s)),
{
    generator_g1().scale(s)
}

/// Encrypts a scalar into G2: the fixed generator multiplied by it.
pub fn encrypt_g2(s: &Scalar) -> (r: G2Point)
    ensures
        r == g2_scale(g2_generator_point(1), fr_value(*s)),
{
    generator_g2().scale(s)
}

/// Relies on `Pairing::pairing` of ark_ec's BN model: a function of the two points.
#[verifier::external_body]
pub(crate) fn pair(p: &G1Point, q: &G2Point) -> (r: Gt)
    ensures
        r == bn254_pairing(*p, *q),
{
    Gt(Bn254::pairing(p.0, q.0))
}

/// Relies on the derived `PartialEq` of ark_ec's `PairingOutput`, whose field elements are
/// kept in reduced form: equal exactly when the elements are equal.
#[verifier::external_body]
pub(crate) fn gt_eq(a: &Gt, b: &Gt) -> (r: bool)
    ensures
        r == (*a == *b),
{
    a.0 == b.0
}

/// A group in which encrypted values live: points can be added and scaled by field elements.
pub trait EcGroup: Sized + Copy {
    spec fn spec_add(a: Self, b: Self) -> Self;

    spec fn spec_scale(p: Self, s: int) -> Self;

    /// The identity of the group, as ark_ec builds it.
    spec fn spec_identity() -> Self;

    /// The identity of the group.
    fn identity() -> (r: Self)
        ensures
            r == Self::spec_identity(),
    ;

    fn add_point(&self, other: &Self) -> (r: Self)
        ensures
            r == Self::spec_add(*self, *other),
    ;

    fn scale(&self, s: &Scalar) -> (r: Self)
        ensures
            r == Self::spec_scale(*self, fr_value(*s)),
    ;
}

impl EcGroup for G1Point {
    open spec fn spec_add(a: Self, b: Self) -> Self {
        g1_add(a, b)
    }

    open spec fn spec_scale(p: Self, s: int) -> Self {
        g1_scale(p, s)
    }

    open spec fn spec_identity() -> Self {
        g1_identity_point(1)
    }

    fn identity() -> Self {
        zero_g1()
    }

    fn add_point(&self, other: &Self) -> (r: Self) {
        add_g1(self, other)
    }

    fn scale(&self, s: &Scalar) -> (r: Self) {
        scale_g1(self, s)
    }
}

impl EcGroup for G2Point {
    open spec fn spec_add(a: Self, b: Self) -> Self {
        g2_add(a, b)
    }

    open spec fn spec_scale(p: Self, s: int) -> Self {
        g2_scale(p, s)
    }

    open spec fn spec_identity() -> Self {
        g2_identity_point(1)
    }

    fn identity() -> Self {
        zero_g2()
    }

    fn add_point(&self, other: &Self) -> (r: Self) {
        add_g2(self, other)
    }

    fn scale(&self, s: &Scalar) -> (r: Self) {
        scale_g2(self, s)
    }
}

} // verus!
