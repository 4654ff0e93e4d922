//! Matrices at the host boundary.
//!
//! A matrix crosses the boundary as a flat sequence of `N * N` components in
//! column-major order: column `i` occupies offsets `[i * N, i * N + N)`.
//! Components are double-precision numbers carried as their IEEE-754 binary64
//! bit patterns; this layer checks shape and builds canonical values, and never
//! computes on the numbers themselves.
use vstd::prelude::*;

verus! {

/// Bit pattern of the double-precision number `+0.0`.
pub const F64_ZERO: u64 = 0;

/// Bit pattern of the double-precision number `1.0`.
pub const F64_ONE: u64 = 0x3FF0_0000_0000_0000;

/// Why a matrix could not be built.
#[derive(Debug, Clone, Copy, PartialEq, Eq, Structural)]
pub enum MatrixError {
    /// The backing sequence does not hold exactly `N * N` components.
    ParameterLengthMismatch { expected: usize, found: usize },
}

/// A 2x2 matrix, stored column-major.
#[derive(Debug, Clone)]
pub struct Matrix2 {
    /// The four components, column-major.
    pub data: Vec<u64>,
}

/// A 3x3 matrix, stored column-major.
#[derive(Debug, Clone)]
pub struct Matrix3 {
    /// The nine components, column-major.
    pub data: Vec<u64>,
}

/// A 4x4 matrix, stored column-major.
#[derive(Debug, Clone)]
pub struct Matrix4 {
    /// The sixteen components, column-major.
    pub data: Vec<u64>,
}

/// The identity of size 2, column-major.
pub open spec fn identity2() -> Seq<u64> {
    seq![F64_ONE, F64_ZERO, F64_ZERO, F64_ONE]
}

/// The identity of size 3, column-major.
pub open spec fn identity3() -> Seq<u64> {
    seq![F64_ONE, F64_ZERO, F64_ZERO, F64_ZERO, F64_ONE, F64_ZERO, F64_ZERO, F64_ZERO, F64_ONE]
}

/// The identity of size 4, column-major.
pub open spec fn identity4() -> Seq<u64> {
    seq![
        F64_ONE, F64_ZERO, F64_ZERO, F64_ZERO,
        F64_ZERO, F64_ONE, F64_ZERO, F64_ZERO,
        F64_ZERO, F64_ZERO, F64_ONE, F64_ZERO,
        F64_ZERO, F64_ZERO, F64_ZERO, F64_ONE,
    ]
}

impl Matrix2 {
    /// The backing sequence holds exactly four components.
    pub open spec fn wf(&self) -> bool {
        self.data@.len() == 4
    }

    /// Builds a matrix from four column-major components; without data, the
    /// identity.
    pub fn new(data: Option<Vec<u64>>) -> (r: Result<Self, MatrixError>)
        ensures
            match data {
                None => r matches Ok(m) && m.data@ == identity2(),
                Some(d) => if d@.len() == 4 {
                    r matches Ok(m) && m.data@ == d@
                } else {
                    r == Err::<Self, _>(MatrixError::ParameterLengthMismatch { expected: 4, found: d@.len() as usize })
                },
            },
            r matches Ok(m) ==> m.wf(),
    {
        match data {
            None => Ok(Self::identity()),
            Some(d) => {
                if d.len() == 4 {
                    Ok(Matrix2 { data: d })
                } else {
                    Err(MatrixError::ParameterLengthMismatch { expected: 4, found: d.len() })
                }
            },
        }
    }

    /// The canonical identity matrix.
    pub fn identity() -> (r: Self)
        ensures
            r.data@ == identity2(),
            r.wf(),
    {
        Matrix2 { data: vec![F64_ONE, F64_ZERO, F64_ZERO, F64_ONE] }
    }
}

impl Matrix3 {
    /// The backing sequence holds exactly nine components.
    pub open spec fn wf(&self) -> bool {
        self.data@.len() == 9
    }

    /// Builds a matrix from nine column-major components; without data, the
    /// identity.
    pub fn new(data: Option<Vec<u64>>) -> (r: Result<Self, MatrixError>)
        ensures
            match data {
                None => r matches Ok(m) && m.data@ == identity3(),
                Some(d) => if d@.len() == 9 {
                    r matches Ok(m) && m.data@ == d@
                } else {
                    r == Err::<Self, _>(MatrixError::ParameterLengthMismatch { expected: 9, found: d@.len() as usize })
                },
            },
            r matches Ok(m) ==> m.wf(),
    {
        match data {
            None => Ok(Self::identity()),
            Some(d) => {
                if d.len() == 9 {
                    Ok(Matrix3 { data: d })
                } else {
                    Err(MatrixError::ParameterLengthMismatch { expected: 9, found: d.len() })
                }
            },
        }
    }

    /// The canonical identity matrix.
    pub fn identity() -> (r: Self)
        ensures
            r.data@ == identity3(),
            r.wf(),
    {
        let r = Matrix3 {
            data: vec![
                F64_ONE, F64_ZERO, F64_ZERO,
                F64_ZERO, F64_ONE, F64_ZERO,
                F64_ZERO, F64_ZERO, F64_ONE,
            ],
        };
        assert(r.data@ =~= identity3());
        r
    }
}

impl Matrix4 {
    /// The backing sequence holds exactly sixteen components.
    pub open spec fn wf(&self) -> bool {
        self.data@.len() == 16
    }

    /// Builds a matrix from sixteen column-major components; without data, the
    /// all-zero matrix.
    pub fn new(data: Option<Vec<u64>>) -> (r: Result<Self, MatrixError>)
        ensures
            match data {
                None => r matches Ok(m) && m.data@ == Seq::new(16, |i: int| F64_ZERO),
                Some(d) => if d@.len() == 16 {
                    r matches Ok(m) && m.data@ == d@
                } else {
                    r == Err::<Self, _>(MatrixError::ParameterLengthMismatch { expected: 16, found: d@.len() as usize })
                },
            },
            r matches Ok(m) ==> m.wf(),
    {
        match data {
            None => {
                let m = Matrix4 { data: vec![F64_ZERO; 16] };
                assert(m.data@ =~= Seq::new(16, |i: int| F64_ZERO));
                Ok(m)
            },
            Some(d) => {
                if d.len() == 16 {
                    Ok(Matrix4 { data: d })
                } else {
                    Err(MatrixError::ParameterLengthMismatch { expected: 16, found: d.len() })
                }
            },
        }
    }

    /// The canonical identity matrix.
    pub fn identity() -> (r: Self)
        ensures
            r.data@ == identity4(),
            r.wf(),
    {
        let r = Matrix4 {
            data: vec![
                F64_ONE, F64_ZERO, F64_ZERO, F64_ZERO,
                F64_ZERO, F64_ONE, F64_ZERO, F64_ZERO,
                F64_ZERO, F64_ZERO, F64_ONE, F64_ZERO,
                F64_ZERO, F64_ZERO, F64_ZERO, F64_ONE,
            ],
        };
        assert(r.data@ =~= identity4());
        r
    }
}

} // verus!
