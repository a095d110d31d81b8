use vstd::prelude::*;

use crate::data_structures::{Witness, R1CS};

verus! {

/// The witness `[1, z, x, y, v1, v2, v3, v4]` of `z = 2x³ + 4xy² − xy + 5`, with
/// `v1 = x·x`, `v2 = 2·v1·x`, `v3 = y·y`, `v4 = 4·x·v3`.
pub open spec fn witness_values(x: int, y: int) -> Seq<int> {
    let v1 = x * x;
    let v2 = 2 * v1 * x;
    let v3 = y * y;
    let v4 = 4 * x * v3;
    seq![1, v2 + v4 - x * y + 5, x, y, v1, v2, v3, v4]
}

/// Every intermediate value of the witness computation fits in an `i64`.
pub open spec fn witness_fits(x: int, y: int) -> bool {
    let v1 = x * x;
    let v3 = y * y;
    let fits = |v: int| i64::MIN <= v <= i64::MAX;
    &&& fits(v1)
    &&& fits(2 * v1)
    &&& fits(2 * v1 * x)
    &&& fits(v3)
    &&& fits(4 * x)
    &&& fits(4 * x * v3)
    &&& fits(x * y)
    &&& fits(2 * v1 * x + 4 * x * v3)
    &&& fits(2 * v1 * x + 4 * x * v3 - x * y)
    &&& fits(2 * v1 * x + 4 * x * v3 - x * y + 5)
}

/// The constraint system of `z = 2x³ + 4xy² − xy + 5` over `[1, z, x, y, v1, v2, v3, v4]`:
/// `v1 = x·x`, `v2 = 2v1·x`, `v3 = y·y`, `v4 = 4x·v3`, `5 − z + v2 + v4 = x·y`.
pub fn build_r1cs() -> (res: R1CS)
    ensures
        res.well_formed(),
        res.num_constraints() == 5,
        res.width() == 8,
        res.l@.map_values(|row: Vec<i64>| row@) == seq![
            seq![0i64, 0, 1, 0, 0, 0, 0, 0],
            seq![0i64, 0, 0, 0, 2, 0, 0, 0],
            seq![0i64, 0, 0, 1, 0, 0, 0, 0],
            seq![0i64, 0, 4, 0, 0, 0, 0, 0],
            seq![0i64, 0, 1, 0, 0, 0, 0, 0],
        ],
        res.r@.map_values(|row: Vec<i64>| row@) == seq![
            seq![0i64, 0, 1, 0, 0, 0, 0, 0],
            seq![0i64, 0, 1, 0, 0, 0, 0, 0],
            seq![0i64, 0, 0, 1, 0, 0, 0, 0],
            seq![0i64, 0, 0, 0, 0, 0, 1, 0],
            seq![0i64, 0, 0, 1, 0, 0, 0, 0],
        ],
        res.o@.map_values(|row: Vec<i64>| row@) == seq![
            seq![0i64, 0, 0, 0, 1, 0, 0, 0],
            seq![0i64, 0, 0, 0, 0, 1, 0, 0],
            seq![0i64, 0, 0, 0, 0, 0, 1, 0],
            seq![0i64, 0, 0, 0, 0, 0, 0, 1],
            seq![5i64, -1i64, 0, 0, 0, 1, 0, 1],
        ],
{
    let l = vec![
        vec![0, 0, 1, 0, 0, 0, 0, 0],
        vec![0, 0, 0, 0, 2, 0, 0, 0],
        vec![0, 0, 0, 1, 0, 0, 0, 0],
        vec![0, 0, 4, 0, 0, 0, 0, 0],
        vec![0, 0, 1, 0, 0, 0, 0, 0],
    ];
    let r = vec![
        vec![0, 0, 1, 0, 0, 0, 0, 0],
        vec![0, 0, 1, 0, 0, 0, 0, 0],
        vec![0, 0, 0, 1, 0, 0, 0, 0],
        vec![0, 0, 0, 0, 0, 0, 1, 0],
        vec![0, 0, 0, 1, 0, 0, 0, 0],
    ];
    let o = vec![
        vec![0, 0, 0, 0, 1, 0, 0, 0],
        vec![0, 0, 0, 0, 0, 1, 0, 0],
        vec![0, 0, 0, 0, 0, 0, 1, 0],
        vec![0, 0, 0, 0, 0, 0, 0, 1],
        vec![5, -1, 0, 0, 0, 1, 0, 1],
    ];
    let res = R1CS::new(l, r, o);
    assert(res.l@.map_values(|row: Vec<i64>| row@) =~= seq![
        seq![0i64, 0, 1, 0, 0, 0, 0, 0],
        seq![0i64, 0, 0, 0, 2, 0, 0, 0],
        seq![0i64, 0, 0, 1, 0, 0, 0, 0],
        seq![0i64, 0, 4, 0, 0, 0, 0, 0],
        seq![0i64, 0, 1, 0, 0, 0, 0, 0],
    ]);
    assert(res.r@.map_values(|row: Vec<i64>| row@) =~= seq![
        seq![0i64, 0, 1, 0, 0, 0, 0, 0],
        seq![0i64, 0, 1, 0, 0, 0, 0, 0],
        seq![0i64, 0, 0, 1, 0, 0, 0, 0],
        seq![0i64, 0, 0, 0, 0, 0, 1, 0],
        seq![0i64, 0, 0, 1, 0, 0, 0, 0],
    ]);
    assert(res.o@.map_values(|row: Vec<i64>| row@) =~= seq![
        seq![0i64, 0, 0, 0, 1, 0, 0, 0],
        seq![0i64, 0, 0, 0, 0, 1, 0, 0],
        seq![0i64, 0, 0, 0, 0, 0, 1, 0],
        seq![0i64, 0, 0, 0, 0, 0, 0, 1],
        seq![5i64, -1i64, 0, 0, 0, 1, 0, 1],
    ]);
    res
}

/// The witness of `z = 2x³ + 4xy² − xy + 5` for the given `x` and `y`.
pub fn build_witness(x: i64, y: i64) -> (res: Witness)
    requires
        witness_fits(x as int, y as int),
    ensures
        res.a@.map_values(|v: i64| v as int) == witness_values(x as int, y as int),
{
    let v1 = x * x;
    let v2 = 2 * v1 * x;
    let v3 = y * y;
    let v4 = 4 * x * v3;
    let z = v2 + v4 - (x * y) + 5;
    let res = Witness::new(vec![1, z, x, y, v1, v2, v3, v4]);
    assert(res.a@.map_values(|v: i64| v as int) =~= witness_values(x as int, y as int));
    res
}

} // verus!
