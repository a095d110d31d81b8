use vstd::prelude::*;

verus! {

/// Why a verification input was refused.
#[derive(Debug, Clone, Copy, PartialEq, Eq, Structural)]
pub enum R1csError {
    /// Vector or matrix lengths disagree.
    DimensionMismatch,
    /// The three matrices of a constraint system disagree in row count or row length.
    MalformedConstraintSystem,
}

/// Every row of `m` has `width` entries.
pub open spec fn rows_have_width(m: Seq<Vec<i64>>, width: int) -> bool {
    forall|k: int| 0 <= k < m.len() ==> #[trigger] m[k]@.len() == width
}

/// A rank-1 constraint system: constraint `k` asks `(l[k]·a) * (r[k]·a) == o[k]·a`.
#[derive(Debug, Clone)]
pub struct R1CS {
    pub l: Vec<Vec<i64>>,
    pub r: Vec<Vec<i64>>,
    pub o: Vec<Vec<i64>>,
}

/// An assignment of the variables of a constraint system, conventionally starting with 1.
#[derive(Debug, Clone)]
pub struct Witness {
    pub a: Vec<i64>,
}

impl R1CS {
    /// The number of constraints.
    pub open spec fn num_constraints(&self) -> int {
        self.l@.len() as int
    }

    /// The row length of the first constraint, zero when there is none.
    pub open spec fn width(&self) -> int {
        if self.l@.len() > 0 {
            self.l@[0]@.len() as int
        } else {
            0
        }
    }

    /// All three matrices have the same number of rows, and all rows the same length.
    pub open spec fn well_formed(&self) -> bool {
        &&& self.r@.len() == self.l@.len()
        &&& self.o@.len() == self.l@.len()
        &&& rows_have_width(self.l@, self.width())
        &&& rows_have_width(self.r@, self.width())
        &&& rows_have_width(self.o@, self.width())
    }

    /// Creates a constraint system from its three matrices, as given.
    pub fn new(l: Vec<Vec<i64>>, r: Vec<Vec<i64>>, o: Vec<Vec<i64>>) -> (res: Self)
        ensures
            res.l@ == l@,
            res.r@ == r@,
            res.o@ == o@,
    {
        Self { l, r, o }
    }

    /// Checks the shape of the three matrices.
    pub fn validate(&self) -> (res: Result<(), R1csError>)
        ensures
            res is Ok <==> self.well_formed(),
            res is Err ==> res == Err::<(), R1csError>(R1csError::MalformedConstraintSystem),
    {
        if self.r.len() != self.l.len() || self.o.len() != self.l.len() {
            return Err(R1csError::MalformedConstraintSystem);
        }
        let width: usize = if self.l.len() > 0 {
            self.l[0].len()
        } else {
            0
        };
        let mut k: usize = 0;
        while k < self.l.len()
            invariant
                self.r@.len() == self.l@.len(),
                self.o@.len() == self.l@.len(),
                width == self.width(),
                k <= self.l@.len(),
                rows_have_width(self.l@.take(k as int), width as int),
                rows_have_width(self.r@.take(k as int), width as int),
                rows_have_width(self.o@.take(k as int), width as int),
            decreases self.l@.len() - k,
        {
            if self.l[k].len() != width || self.r[k].len() != width || self.o[k].len() != width {
                return Err(R1csError::MalformedConstraintSystem);
            }
            assert(self.l@.take(k + 1) =~= self.l@.take(k as int).push(self.l@[k as int]));
            assert(self.r@.take(k + 1) =~= self.r@.take(k as int).push(self.r@[k as int]));
            assert(self.o@.take(k + 1) =~= self.o@.take(k as int).push(self.o@[k as int]));
            k = k + 1;
        }
        assert(self.l@.take(k as int) =~= self.l@);
        assert(self.r@.take(k as int) =~= self.r@);
        assert(self.o@.take(k as int) =~= self.o@);
        Ok(())
    }
}

impl Witness {
    /// Creates a witness from its values, as given.
    pub fn new(a: Vec<i64>) -> (res: Self)
        ensures
            res.a@ == a@,
    {
        Self { a }
    }
}

} // verus!
