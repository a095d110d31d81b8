use almost_zk::{
    build_r1cs, build_witness, check_equality_discrete_logs, check_r1cs, ec_dot_pdt,
    encrypt_g1, encrypt_g2, hadamard_pairing, to_field_elements, Basis, G1Point, G2Point,
    R1csError, Witness, R1CS,
};
use ark_bn254::{Bn254, Fr, G1Projective, G2Projective};
use ark_ec::pairing::Pairing;
use ark_ec::PrimeGroup;
use ark_ff::{BigInteger, PrimeField};

fn enc_g1(a: &[i64]) -> Vec<G1Point> {
    to_field_elements(a).iter().map(encrypt_g1).collect()
}

fn enc_g2(a: &[i64]) -> Vec<G2Point> {
    to_field_elements(a).iter().map(encrypt_g2).collect()
}

/// The pairing of a G1 point with the G2 generator, compared through ark directly.
fn g1_pairs_as(p: &G1Point, expected: G1Projective) -> bool {
    let g2 = Basis::standard().g2;
    let got = hadamard_pairing(&[*p], &[g2]).unwrap();
    got[0].0 == Bn254::pairing(expected, G2Projective::generator())
}

/// The pairing of the G1 generator with a G2 point, compared through ark directly.
fn g2_pairs_as(q: &G2Point, expected: G2Projective) -> bool {
    let g1 = Basis::standard().g1;
    let got = hadamard_pairing(&[g1], &[*q]).unwrap();
    got[0].0 == Bn254::pairing(G1Projective::generator(), expected)
}

fn fr_of(v: i64) -> Fr {
    if v < 0 {
        -Fr::from(v.unsigned_abs())
    } else {
        Fr::from(v as u64)
    }
}

#[test]
fn encode_small_values() {
    let fe = to_field_elements(&[0, 1, 7, -1, -7]);
    assert_eq!(fe.len(), 5);
    assert_eq!(fe[0].0, Fr::from(0u64));
    assert_eq!(fe[1].0, Fr::from(1u64));
    assert_eq!(fe[2].0, Fr::from(7u64));
    assert_eq!(fe[3].0, Fr::from(0u64) - Fr::from(1u64));
    assert_eq!(fe[4].0 + Fr::from(7u64), Fr::from(0u64));
}

#[test]
fn encode_negative_is_modulus_minus_magnitude() {
    let fe = to_field_elements(&[-1]);
    let mut expected = Fr::MODULUS;
    expected.sub_with_borrow(&Fr::from(1u64).into_bigint());
    assert_eq!(fe[0].0.into_bigint(), expected);
}

#[test]
fn encode_extremes() {
    let fe = to_field_elements(&[i64::MIN, i64::MAX]);
    let magnitude = Fr::from(1u128 << 63);
    assert_eq!(fe[0].0, -magnitude);
    assert_eq!(fe[1].0, Fr::from(i64::MAX as u64));
}

#[test]
fn encode_negation_consistency() {
    let c: Vec<i64> = vec![3, -12, 1, 0, 9_000_000_000, -5];
    let d: Vec<i64> = c.iter().map(|v| -v).collect();
    let fc = to_field_elements(&c);
    let fd = to_field_elements(&d);
    for i in 0..c.len() {
        assert_eq!(fc[i].0 + fd[i].0, Fr::from(0u64));
        assert!(fc[i].0.into_bigint() < Fr::MODULUS);
    }
}

#[test]
fn encode_empty() {
    assert!(to_field_elements(&[]).is_empty());
}

#[test]
fn linear_combination_matches_plaintext_dot_product() {
    let a: Vec<i64> = vec![1, 197, 3, 2, 9, 54, 4, 144];
    let m: Vec<Vec<i64>> = vec![
        vec![0, 0, 1, 0, 0, 0, 0, 0],
        vec![5, -1, 0, 0, 0, 1, 0, 1],
        vec![0, 0, 0, 0, 0, 0, 0, 0],
        vec![-3, 2, 7, 0, 0, 0, 0, -1],
    ];
    let a_g1 = enc_g1(&a);
    let out = ec_dot_pdt(&m, &a_g1).unwrap();
    assert_eq!(out.len(), m.len());
    for (row, point) in m.iter().zip(out.iter()) {
        let dot: i64 = row.iter().zip(a.iter()).map(|(c, w)| c * w).sum();
        assert!(g1_pairs_as(point, G1Projective::generator() * fr_of(dot)));
    }
    let a_g2 = enc_g2(&a);
    let out2 = ec_dot_pdt(&m, &a_g2).unwrap();
    assert!(g2_pairs_as(&out2[1], G2Projective::generator() * Fr::from(6u64)));
    assert!(g2_pairs_as(&out2[2], G2Projective::generator() * Fr::from(0u64)));
    assert!(g2_pairs_as(&out2[3], G2Projective::generator() * fr_of(-3 + 394 + 21 - 144)));
    assert!(!g2_pairs_as(&out2[3], G2Projective::generator() * fr_of(269)));
}

#[test]
fn linear_combination_dimension_mismatch() {
    let a_g1 = enc_g1(&[1, 2, 3]);
    let m: Vec<Vec<i64>> = vec![vec![1, 2, 3], vec![1, 2]];
    assert!(matches!(ec_dot_pdt(&m, &a_g1), Err(R1csError::DimensionMismatch)));
}

#[test]
fn linear_combination_of_no_rows() {
    let a_g1 = enc_g1(&[1, 2, 3]);
    let m: Vec<Vec<i64>> = vec![];
    assert!(ec_dot_pdt(&m, &a_g1).unwrap().is_empty());
}

#[test]
fn hadamard_pairing_of_empty_vectors() {
    assert!(hadamard_pairing(&[], &[]).unwrap().is_empty());
}

#[test]
fn hadamard_pairing_keeps_order() {
    let g1 = enc_g1(&[2, 3, 5]);
    let g2 = enc_g2(&[7, 11, 13]);
    let out = hadamard_pairing(&g1, &g2).unwrap();
    assert_eq!(out.len(), 3);
    let base = Bn254::pairing(G1Projective::generator(), G2Projective::generator());
    assert_eq!(out[0].0, base * Fr::from(14u64));
    assert_eq!(out[1].0, base * Fr::from(33u64));
    assert_eq!(out[2].0, base * Fr::from(65u64));
}

#[test]
fn hadamard_pairing_dimension_mismatch() {
    let g1 = enc_g1(&[2, 3]);
    let g2 = enc_g2(&[7]);
    assert!(matches!(hadamard_pairing(&g1, &g2), Err(R1csError::DimensionMismatch)));
}

#[test]
fn discrete_logs_equal_for_same_witness() {
    let a: Vec<i64> = vec![1, 197, 3, 2, 9, 54, 4, 144];
    assert!(check_equality_discrete_logs(&enc_g1(&a), &enc_g2(&a)));
    assert!(check_equality_discrete_logs(&[], &[]));
}

#[test]
fn discrete_logs_differ_after_corruption() {
    let a: Vec<i64> = vec![1, 197, 3, 2, 9, 54, 4, 144];
    let mut b = a.clone();
    b[6] = 5;
    assert!(!check_equality_discrete_logs(&enc_g1(&a), &enc_g2(&b)));
}

#[test]
fn discrete_logs_differ_on_length() {
    let a: Vec<i64> = vec![1, 2, 3];
    assert!(!check_equality_discrete_logs(&enc_g1(&a), &enc_g2(&a[..2])));
}

#[test]
fn example_witness_values() {
    let w = build_witness(3, 2);
    assert_eq!(w.a, vec![1, 101, 3, 2, 9, 54, 4, 48]);
}

#[test]
fn witness_with_v4_of_144_is_rejected() {
    // 4xy^2 is 48 for x = 3, y = 2, so this vector breaks the fourth constraint.
    let r1cs = build_r1cs();
    let a: Vec<i64> = vec![1, 197, 3, 2, 9, 54, 4, 144];
    assert_eq!(check_r1cs(&r1cs, &enc_g1(&a), &enc_g2(&a)), Ok(false));
}

#[test]
fn example_system_is_well_formed() {
    let r1cs = build_r1cs();
    assert!(r1cs.validate().is_ok());
    assert_eq!(r1cs.l.len(), 5);
    assert_eq!(r1cs.o[4], vec![5, -1, 0, 0, 0, 1, 0, 1]);
}

#[test]
fn end_to_end_satisfied() {
    let r1cs = build_r1cs();
    let w = build_witness(3, 2);
    let a_g1 = enc_g1(&w.a);
    let a_g2 = enc_g2(&w.a);
    assert!(check_equality_discrete_logs(&a_g1, &a_g2));
    assert_eq!(check_r1cs(&r1cs, &a_g1, &a_g2), Ok(true));
}

#[test]
fn end_to_end_satisfied_by_parts() {
    let r1cs = build_r1cs();
    let w = build_witness(3, 2);
    let a_g1 = enc_g1(&w.a);
    let a_g2 = enc_g2(&w.a);
    let l = ec_dot_pdt(&r1cs.l, &a_g1).unwrap();
    let r = ec_dot_pdt(&r1cs.r, &a_g2).unwrap();
    let o = ec_dot_pdt(&r1cs.o, &a_g1).unwrap();
    let g2_only = vec![Basis::standard().g2; o.len()];
    let lhs = hadamard_pairing(&l, &r).unwrap();
    let rhs = hadamard_pairing(&o, &g2_only).unwrap();
    for i in 0..lhs.len() {
        assert_eq!(lhs[i].0, rhs[i].0);
    }
}

#[test]
fn end_to_end_other_inputs() {
    let r1cs = build_r1cs();
    let w = build_witness(-4, 7);
    let a_g1 = enc_g1(&w.a);
    let a_g2 = enc_g2(&w.a);
    assert_eq!(check_r1cs(&r1cs, &a_g1, &a_g2), Ok(true));
}

#[test]
fn end_to_end_mutated_witness_fails() {
    let r1cs = build_r1cs();
    let mut w = build_witness(3, 2);
    w.a[1] = 198;
    let a_g1 = enc_g1(&w.a);
    let a_g2 = enc_g2(&w.a);
    assert!(check_equality_discrete_logs(&a_g1, &a_g2));
    assert_eq!(check_r1cs(&r1cs, &a_g1, &a_g2), Ok(false));
}

#[test]
fn end_to_end_each_mutation_fails() {
    let r1cs = build_r1cs();
    let w = build_witness(3, 2);
    for i in 0..w.a.len() {
        let mut a = w.a.clone();
        a[i] += 1;
        let a_g1 = enc_g1(&a);
        let a_g2 = enc_g2(&a);
        assert_eq!(check_r1cs(&r1cs, &a_g1, &a_g2), Ok(false));
    }
}

#[test]
fn end_to_end_mismatched_copies_fail() {
    let r1cs = build_r1cs();
    let w = build_witness(3, 2);
    let mut other = w.a.clone();
    other[2] = 4;
    let a_g1 = enc_g1(&w.a);
    let a_g2 = enc_g2(&other);
    assert_eq!(check_r1cs(&r1cs, &a_g1, &a_g2), Ok(false));
}

#[test]
fn malformed_constraint_system_is_refused() {
    let good = build_r1cs();
    let mut l = good.l.clone();
    l[2] = vec![0, 0, 0, 1, 0, 0, 0];
    let bad = R1CS::new(l, good.r.clone(), good.o.clone());
    assert_eq!(bad.validate(), Err(R1csError::MalformedConstraintSystem));
    let w = build_witness(3, 2);
    let a_g1 = enc_g1(&w.a);
    let a_g2 = enc_g2(&w.a);
    assert_eq!(
        check_r1cs(&bad, &a_g1, &a_g2),
        Err(R1csError::MalformedConstraintSystem)
    );
    let short_o = R1CS::new(good.l.clone(), good.r.clone(), good.o[..4].to_vec());
    assert_eq!(short_o.validate(), Err(R1csError::MalformedConstraintSystem));
}

#[test]
fn witness_of_wrong_length_is_refused() {
    let r1cs = build_r1cs();
    let w = Witness::new(vec![1, 197, 3, 2, 9, 54, 4]);
    let a_g1 = enc_g1(&w.a);
    let a_g2 = enc_g2(&w.a);
    assert_eq!(check_r1cs(&r1cs, &a_g1, &a_g2), Err(R1csError::DimensionMismatch));
    let full = build_witness(3, 2);
    assert_eq!(
        check_r1cs(&r1cs, &enc_g1(&full.a), &a_g2),
        Err(R1csError::DimensionMismatch)
    );
}

#[test]
fn empty_system_is_satisfied() {
    let r1cs = R1CS::new(vec![], vec![], vec![]);
    assert_eq!(r1cs.validate(), Ok(()));
    let a_g1 = enc_g1(&[1]);
    let a_g2 = enc_g2(&[1]);
    assert_eq!(check_r1cs(&r1cs, &a_g1, &a_g2), Ok(true));
}

#[test]
fn standard_basis_uses_generators() {
    let b = Basis::standard();
    assert!(g1_pairs_as(&b.g1, G1Projective::generator()));
    assert!(g2_pairs_as(&b.g2, G2Projective::generator()));
    assert!(g1_pairs_as(&b.zero1, G1Projective::generator() * Fr::from(0u64)));
    assert!(g2_pairs_as(&b.zero2, G2Projective::generator() * Fr::from(0u64)));
}

#[test]
fn encryption_multiplies_the_generator() {
    let s = to_field_elements(&[-9, 12]);
    assert!(g1_pairs_as(&encrypt_g1(&s[0]), G1Projective::generator() * -Fr::from(9u64)));
    assert!(g2_pairs_as(&encrypt_g2(&s[1]), G2Projective::generator() * Fr::from(12u64)));
    assert!(!g1_pairs_as(&encrypt_g1(&s[1]), G1Projective::generator()));
}
