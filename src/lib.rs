pub mod curve;
pub mod data_structures;
pub mod elliptic_curve;
pub mod example;
pub mod field_elements;

pub use curve::{encrypt_g1, encrypt_g2, EcGroup, G1Point, G2Point, Gt, Scalar};
pub use data_structures::{R1csError, Witness, R1CS};
pub use elliptic_curve::{
    check_equality_discrete_logs, check_equality_discrete_logs_under, check_r1cs,
    check_r1cs_with, ec_dot_pdt, ec_dot_pdt_from, hadamard_pairing, Basis,
};
pub use example::{build_r1cs, build_witness};
pub use field_elements::to_field_elements;
