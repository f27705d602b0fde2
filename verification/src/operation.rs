//! The operators of the calculator and the arithmetic they leave to the host.

use vstd::prelude::*;
use crate::binary64::{is_negligible, negligible, ZERO};

verus! {

/// The binary operator that waits for its second operand.
#[derive(Debug, Clone, Copy, PartialEq, Eq, Structural)]
pub enum Operation {
    Add,
    Subtract,
    Multiply,
    Divide,
    /// No operator is waiting.
    Nothing,
}

/// One floating-point computation on binary64 patterns, stated and not yet
/// carried out. `Value` needs no computation at all.
#[derive(Debug, Clone, Copy, PartialEq, Eq, Structural)]
pub enum Arithmetic {
    Value(u64),
    Sum(u64, u64),
    Difference(u64, u64),
    Product(u64, u64),
    Quotient(u64, u64),
}

impl Operation {
    /// What the operator makes of the accumulator and the second operand. A
    /// division by an operand whose magnitude is below the machine epsilon is
    /// not carried out: its result is defined to be zero. Without an operator
    /// the operand passes through.
    pub open spec fn applied(self, accumulator: u64, operand: u64) -> Arithmetic {
        match self {
            Operation::Add => Arithmetic::Sum(accumulator, operand),
            Operation::Subtract => Arithmetic::Difference(accumulator, operand),
            Operation::Multiply => Arithmetic::Product(accumulator, operand),
            Operation::Divide => if negligible(operand) {
                Arithmetic::Value(ZERO)
            } else {
                Arithmetic::Quotient(accumulator, operand)
            },
            Operation::Nothing => Arithmetic::Value(operand),
        }
    }

    /// States the computation that the operator asks for.
    pub fn apply(self, accumulator: u64, operand: u64) -> (work: Arithmetic)
        ensures
            work == self.applied(accumulator, operand),
    {
        match self {
            Operation::Add => Arithmetic::Sum(accumulator, operand),
            Operation::Subtract => Arithmetic::Difference(accumulator, operand),
            Operation::Multiply => Arithmetic::Product(accumulator, operand),
            Operation::Divide => {
                if is_negligible(operand) {
                    Arithmetic::Value(ZERO)
                } else {
                    Arithmetic::Quotient(accumulator, operand)
                }
            },
            Operation::Nothing => Arithmetic::Value(operand),
        }
    }
}

} // verus!
