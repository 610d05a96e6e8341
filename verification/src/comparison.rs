//! Comparison operators over column values.

use vstd::prelude::*;

verus! {

/// A comparison a filter applies between two columns.
#[derive(Clone, Copy, Debug, PartialEq, Eq, Hash, Structural)]
pub enum Operator {
    /// Less than
    Lt,
    /// Less than or equal to
    LtEq,
    /// Greater than
    Gt,
    /// Greater than or equal to
    GtEq,
    /// Equal
    Eq,
    /// Not equal
    Neq,
}

/// What the operator means on ordered values.
pub open spec fn spec_compare(op: Operator, a: int, b: int) -> bool {
    match op {
        Operator::Lt => a < b,
        Operator::LtEq => a <= b,
        Operator::Gt => a > b,
        Operator::GtEq => a >= b,
        Operator::Eq => a == b,
        Operator::Neq => a != b,
    }
}

impl Operator {
    /// Apply the comparison to two signed values.
    pub fn compare_i64(self, a: i64, b: i64) -> (r: bool)
        ensures
            r == spec_compare(self, a as int, b as int),
    {
        match self {
            Operator::Lt => a < b,
            Operator::LtEq => a <= b,
            Operator::Gt => a > b,
            Operator::GtEq => a >= b,
            Operator::Eq => a == b,
            Operator::Neq => a != b,
        }
    }

    /// Apply the comparison to two unsigned values.
    pub fn compare_u64(self, a: u64, b: u64) -> (r: bool)
        ensures
            r == spec_compare(self, a as int, b as int),
    {
        match self {
            Operator::Lt => a < b,
            Operator::LtEq => a <= b,
            Operator::Gt => a > b,
            Operator::GtEq => a >= b,
            Operator::Eq => a == b,
            Operator::Neq => a != b,
        }
    }
}

} // verus!
