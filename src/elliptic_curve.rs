use vstd::prelude::*;

use crate::curve::{
    bn254_pairing, fr_value, g1_generator_point, g1_identity_point, g2_generator_point,
    g2_identity_point, generator_g1, generator_g2, gt_eq, pair, EcGroup, G1Point,
    G2Point, Gt,
};
use crate::data_structures::{rows_have_width, R1csError, R1CS};
use crate::field_elements::{encode_int, to_field_elements};

verus! {

/// The weighted sum `acc + Σ encode(coeffs[i]) · pts[i]` over the nonzero coefficients,
/// added up in index order.
pub open spec fn row_sum<G: EcGroup>(acc: G, coeffs: Seq<i64>, pts: Seq<G>) -> G
    decreases coeffs.len(),
{
    if coeffs.len() == 0 {
        acc
    } else {
        let i = coeffs.len() - 1;
        let prev = row_sum(acc, coeffs.drop_last(), pts);
        if coeffs[i] == 0 {
            prev
        } else {
            G::spec_add(prev, G::spec_scale(pts[i], encode_int(coeffs[i] as int)))
        }
    }
}

/// The encrypted linear combination of every row of `m` with `pts`, starting from `zero`.
pub open spec fn matrix_sums<G: EcGroup>(zero: G, m: Seq<Vec<i64>>, pts: Seq<G>) -> Seq<G> {
    Seq::new(m.len(), |k: int| row_sum(zero, m[k]@, pts))
}

/// The pairing of corresponding entries.
pub open spec fn pairings(a: Seq<G1Point>, b: Seq<G2Point>) -> Seq<Gt> {
    Seq::new(a.len(), |i: int| bn254_pairing(a[i], b[i]))
}

/// Pairing two vectors entry by entry keeps their length and their order, and pairs two
/// empty vectors into an empty one.
pub proof fn lemma_pairings_shape(a: Seq<G1Point>, b: Seq<G2Point>)
    ensures
        pairings(a, b).len() == a.len(),
        forall|i: int|
            0 <= i < a.len() ==> #[trigger] pairings(a, b)[i] == bn254_pairing(a[i], b[i]),
        a.len() == 0 ==> pairings(a, b) == Seq::<Gt>::empty(),
{
    if a.len() == 0 {
        assert(pairings(a, b) =~= Seq::<Gt>::empty());
    }
}

/// The two vectors have equal length and `e(a_g1[i], g2) == e(g1, a_g2[i])` at every index.
pub open spec fn discrete_logs_match(
    a_g1: Seq<G1Point>,
    a_g2: Seq<G2Point>,
    g1: G1Point,
    g2: G2Point,
) -> bool {
    &&& a_g1.len() == a_g2.len()
    &&& forall|i: int|
        0 <= i < a_g1.len() ==> bn254_pairing(a_g1[i], g2) == bn254_pairing(g1, a_g2[i])
}

/// The fixed points that the verification equation is evaluated with.
pub struct Basis {
    pub g1: G1Point,
    pub g2: G2Point,
    pub zero1: G1Point,
    pub zero2: G2Point,
}

impl Basis {
    /// BN254's fixed generators of G1 and G2 and the identities of the two groups.
    pub open spec fn spec_standard() -> Basis {
        Basis {
            g1: g1_generator_point(1),
            g2: g2_generator_point(1),
            zero1: g1_identity_point(1),
            zero2: g2_identity_point(1),
        }
    }

    /// The generators of BN254's G1 and G2 and their identities.
    pub fn standard() -> (res: Basis)
        ensures
            res == Basis::spec_standard(),
    {
        Basis {
            g1: generator_g1(),
            g2: generator_g2(),
            zero1: G1Point::identity(),
            zero2: G2Point::identity(),
        }
    }
}

/// Constraint `k` holds under the pairing: `e(L_k·a G1, R_k·a G2) == e(O_k·a G1, G2)`.
pub open spec fn constraints_hold(
    r1cs: R1CS,
    a_g1: Seq<G1Point>,
    a_g2: Seq<G2Point>,
    b: Basis,
) -> bool {
    pairings(matrix_sums(b.zero1, r1cs.l@, a_g1), matrix_sums(b.zero2, r1cs.r@, a_g2))
        == pairings(
        matrix_sums(b.zero1, r1cs.o@, a_g1),
        Seq::new(r1cs.o@.len(), |i: int| b.g2),
    )
}

/// What the satisfaction check gives for a constraint system and an encrypted witness.
pub open spec fn r1cs_outcome(
    r1cs: R1CS,
    a_g1: Seq<G1Point>,
    a_g2: Seq<G2Point>,
    b: Basis,
) -> Result<bool, R1csError> {
    if !r1cs.well_formed() {
        Err(R1csError::MalformedConstraintSystem)
    } else if a_g1.len() != a_g2.len() || !rows_have_width(r1cs.l@, a_g1.len() as int) {
        Err(R1csError::DimensionMismatch)
    } else {
        Ok(discrete_logs_match(a_g1, a_g2, b.g1, b.g2) && constraints_hold(r1cs, a_g1, a_g2, b))
    }
}

/// The encrypted linear combination of one row, starting from `zero`.
fn combine_row<Ecg: EcGroup>(zero: &Ecg, row: &Vec<i64>, encrypted_witness: &[Ecg]) -> (res: Ecg)
    requires
        row@.len() == encrypted_witness@.len(),
    ensures
        res == row_sum(*zero, row@, encrypted_witness@),
{
    let coeff_as_fe = to_field_elements(row.as_slice());
    let mut acc: Ecg = *zero;
    let mut i: usize = 0;
    while i < row.len()
        invariant
            i <= row@.len(),
            row@.len() == encrypted_witness@.len(),
            coeff_as_fe@.len() == row@.len(),
            forall|j: int|
                0 <= j < coeff_as_fe@.len() ==> fr_value(#[trigger] coeff_as_fe@[j]) == encode_int(
                    row@[j] as int,
                ),
            acc == row_sum(*zero, row@.take(i as int), encrypted_witness@),
        decreases row@.len() - i,
    {
        assert(row@.take(i + 1).drop_last() =~= row@.take(i as int));
        if row[i] != 0 {
            let term = encrypted_witness[i].scale(&coeff_as_fe[i]);
            acc = acc.add_point(&term);
        }
        i = i + 1;
    }
    assert(row@.take(i as int) =~= row@);
    acc
}

/// Computes `M·a` in the group: one weighted sum of the encrypted witness per row,
/// starting from `zero`.
pub fn ec_dot_pdt_from<Ecg: EcGroup>(
    zero: &Ecg,
    constraint_matrix: &[Vec<i64>],
    encrypted_witness: &[Ecg],
) -> (res: Result<Vec<Ecg>, R1csError>)
    ensures
        res is Err <==> !rows_have_width(constraint_matrix@, encrypted_witness@.len() as int),
        res is Err ==> res->Err_0 == R1csError::DimensionMismatch,
        res is Ok ==> res->Ok_0@ == matrix_sums(*zero, constraint_matrix@, encrypted_witness@),
{
    let mut k: usize = 0;
    while k < constraint_matrix.len()
        invariant
            k <= constraint_matrix@.len(),
            rows_have_width(constraint_matrix@.take(k as int), encrypted_witness@.len() as int),
        decreases constraint_matrix@.len() - k,
    {
        if constraint_matrix[k].len() != encrypted_witness.len() {
            assert(!rows_have_width(constraint_matrix@, encrypted_witness@.len() as int));
            return Err(R1csError::DimensionMismatch);
        }
        assert(constraint_matrix@.take(k + 1) =~= constraint_matrix@.take(k as int).push(
            constraint_matrix@[k as int],
        ));
        k = k + 1;
    }
    assert(constraint_matrix@.take(k as int) =~= constraint_matrix@);
    let mut res: Vec<Ecg> = Vec::new();
    let mut k: usize = 0;
    while k < constraint_matrix.len()
        invariant
            k <= constraint_matrix@.len(),
            rows_have_width(constraint_matrix@, encrypted_witness@.len() as int),
            res@ =~= matrix_sums(*zero, constraint_matrix@, encrypted_witness@).take(k as int),
        decreases constraint_matrix@.len() - k,
    {
        let sum = combine_row(zero, &constraint_matrix[k], encrypted_witness);
        res.push(sum);
        k = k + 1;
    }
    Ok(res)
}

/// Computes `M·a` in the group, with the encrypted witness `a`: one weighted sum per row,
/// in row order, each starting from the group's identity.
pub fn ec_dot_pdt<Ecg: EcGroup>(constraint_matrix: &[Vec<i64>], encrypted_witness: &[Ecg]) -> (res:
    Result<Vec<Ecg>, R1csError>)
    ensures
        res is Err <==> !rows_have_width(constraint_matrix@, encrypted_witness@.len() as int),
        res is Err ==> res->Err_0 == R1csError::DimensionMismatch,
        res is Ok ==> res->Ok_0@ == matrix_sums(
            Ecg::spec_identity(),
            constraint_matrix@,
            encrypted_witness@,
        ),
{
    let zero = Ecg::identity();
    ec_dot_pdt_from(&zero, constraint_matrix, encrypted_witness)
}

/// Pairs corresponding entries of a G1 vector and a G2 vector, keeping their order.
pub fn hadamard_pairing(ec_a_g1: &[G1Point], ec_a_g2: &[G2Point]) -> (res: Result<
    Vec<Gt>,
    R1csError,
>)
    ensures
        res is Err <==> ec_a_g1@.len() != ec_a_g2@.len(),
        res is Err ==> res->Err_0 == R1csError::DimensionMismatch,
        res is Ok ==> res->Ok_0@ == pairings(ec_a_g1@, ec_a_g2@),
{
    if ec_a_g1.len() != ec_a_g2.len() {
        return Err(R1csError::DimensionMismatch);
    }
    let mut res: Vec<Gt> = Vec::new();
    let mut i: usize = 0;
    while i < ec_a_g1.len()
        invariant
            i <= ec_a_g1@.len(),
            ec_a_g1@.len() == ec_a_g2@.len(),
            res@ =~= pairings(ec_a_g1@, ec_a_g2@).take(i as int),
        decreases ec_a_g1@.len() - i,
    {
        res.push(pair(&ec_a_g1[i], &ec_a_g2[i]));
        i = i + 1;
    }
    Ok(res)
}

/// Checks, without the scalars, that two encrypted vectors hold the same scalars:
/// `e(a_g1[i], g2) == e(g1, a_g2[i])` at every index.
pub fn check_equality_discrete_logs_under(
    a_g1: &[G1Point],
    a_g2: &[G2Point],
    g1: &G1Point,
    g2: &G2Point,
) -> (res: bool)
    ensures
        res == discrete_logs_match(a_g1@, a_g2@, *g1, *g2),
{
    if a_g1.len() != a_g2.len() {
        return false;
    }
    let mut i: usize = 0;
    while i < a_g1.len()
        invariant
            i <= a_g1@.len(),
            a_g1@.len() == a_g2@.len(),
            forall|j: int|
                0 <= j < i ==> bn254_pairing(a_g1@[j], *g2) == bn254_pairing(*g1, a_g2@[j]),
        decreases a_g1@.len() - i,
    {
        let lhs = pair(&a_g1[i], g2);
        let rhs = pair(g1, &a_g2[i]);
        if !gt_eq(&lhs, &rhs) {
            return false;
        }
        i = i + 1;
    }
    true
}

/// Checks that two encrypted vectors, one in G1 and one in G2, hold the same scalars,
/// by pairing each entry with the other group's generator.
pub fn check_equality_discrete_logs(a_g1: &[G1Point], a_g2: &[G2Point]) -> (res: bool)
    ensures
        res == discrete_logs_match(a_g1@, a_g2@, g1_generator_point(1), g2_generator_point(1)),
        a_g1@.len() != a_g2@.len() ==> !res,
{
    let b = Basis::standard();
    check_equality_discrete_logs_under(a_g1, a_g2, &b.g1, &b.g2)
}

/// Compares two vectors of target-group elements entry by entry.
fn gt_vec_eq(a: &Vec<Gt>, b: &Vec<Gt>) -> (res: bool)
    ensures
        res == (a@ == b@),
{
    if a.len() != b.len() {
        return false;
    }
    let mut i: usize = 0;
    while i < a.len()
        invariant
            i <= a@.len(),
            a@.len() == b@.len(),
            a@.take(i as int) == b@.take(i as int),
        decreases a@.len() - i,
    {
        if !gt_eq(&a[i], &b[i]) {
            assert(a@[i as int] != b@[i as int]);
            return false;
        }
        assert(a@.take(i + 1) =~= a@.take(i as int).push(a@[i as int]));
        assert(b@.take(i + 1) =~= b@.take(i as int).push(b@[i as int]));
        i = i + 1;
    }
    assert(a@.take(i as int) =~= a@);
    assert(b@.take(i as int) =~= b@);
    true
}

/// Checks that an encrypted witness satisfies a constraint system under `b`: the shapes
/// agree, both copies hold the same scalars, and `e(L·a G1, R·a G2) == e(O·a G1, G2)`
/// holds for every constraint.
pub fn check_r1cs_with(r1cs: &R1CS, a_g1: &[G1Point], a_g2: &[G2Point], b: &Basis) -> (res:
    Result<bool, R1csError>)
    ensures
        res == r1cs_outcome(*r1cs, a_g1@, a_g2@, *b),
{
    if r1cs.validate().is_err() {
        return Err(R1csError::MalformedConstraintSystem);
    }
    if a_g1.len() != a_g2.len() {
        return Err(R1csError::DimensionMismatch);
    }
    if r1cs.l.len() > 0 && r1cs.l[0].len() != a_g1.len() {
        assert(r1cs.l@[0]@.len() != a_g1@.len());
        return Err(R1csError::DimensionMismatch);
    }
    if !check_equality_discrete_logs_under(a_g1, a_g2, &b.g1, &b.g2) {
        return Ok(false);
    }
    let l_a_g1 = ec_dot_pdt_from(&b.zero1, r1cs.l.as_slice(), a_g1);
    let r_a_g2 = ec_dot_pdt_from(&b.zero2, r1cs.r.as_slice(), a_g2);
    let o_a_g1 = ec_dot_pdt_from(&b.zero1, r1cs.o.as_slice(), a_g1);
    match (l_a_g1, r_a_g2, o_a_g1) {
        (Ok(l_a_g1), Ok(r_a_g2), Ok(o_a_g1)) => {
            let mut g2_only: Vec<G2Point> = Vec::new();
            let mut i: usize = 0;
            while i < o_a_g1.len()
                invariant
                    i <= o_a_g1@.len(),
                    g2_only@ =~= Seq::new(i as nat, |j: int| b.g2),
                decreases o_a_g1@.len() - i,
            {
                g2_only.push(b.g2);
                i = i + 1;
            }
            let lhs_g12 = hadamard_pairing(l_a_g1.as_slice(), r_a_g2.as_slice());
            let rhs_g12 = hadamard_pairing(o_a_g1.as_slice(), g2_only.as_slice());
            match (lhs_g12, rhs_g12) {
                (Ok(lhs_g12), Ok(rhs_g12)) => Ok(gt_vec_eq(&lhs_g12, &rhs_g12)),
                _ => Err(R1csError::DimensionMismatch),
            }
        },
        _ => Err(R1csError::DimensionMismatch),
    }
}

/// Checks that an encrypted witness satisfies a constraint system, with BN254's generators:
/// the shapes agree, both copies hold the same scalars, and the pairing equation holds for
/// every constraint.
pub fn check_r1cs(r1cs: &R1CS, a_g1: &[G1Point], a_g2: &[G2Point]) -> (res: Result<
    bool,
    R1csError,
>)
    ensures
        res == r1cs_outcome(*r1cs, a_g1@, a_g2@, Basis::spec_standard()),
{
    let b = Basis::standard();
    check_r1cs_with(r1cs, a_g1, a_g2, &b)
}

} // verus!
