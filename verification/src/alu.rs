//! The arithmetic-logic unit: a pure byte function over the selected
//! operation and the two resolved operands.
//!
//! `Or`, `And` and `Xor` are bitwise; `Not` complements the left operand
//! alone. `Add` wraps modulo 256 and never faults. `Sub` does not wrap:
//! a left operand below the right one is a fault. The shifts fault on a
//! shift amount of 8 or more, and `Mod` and `Div` on a zero right
//! operand.
use crate::Fault;
use crate::decoder::AluOperation;
use vstd::prelude::*;

verus! {

/// When an operation faults instead of producing a byte.
pub open spec fn spec_alu_fault(op: AluOperation, left: u8, right: u8) -> bool {
    match op {
        AluOperation::Sub => left < right,
        AluOperation::LeftShift => right >= 8,
        AluOperation::RightShift => right >= 8,
        AluOperation::Mod => right == 0,
        AluOperation::Div => right == 0,
        _ => false,
    }
}

/// The byte an operation produces when it does not fault.
pub open spec fn spec_alu_value(op: AluOperation, left: u8, right: u8) -> u8
    recommends
        !spec_alu_fault(op, left, right),
{
    match op {
        AluOperation::Or => left | right,
        AluOperation::And => left & right,
        AluOperation::Add => ((left + right) % 256) as u8,
        AluOperation::Sub => (left - right) as u8,
        AluOperation::Not => !left,
        AluOperation::Xor => left ^ right,
        AluOperation::LeftShift => left << right,
        AluOperation::RightShift => left >> right,
        AluOperation::Mod => (left as int % right as int) as u8,
        AluOperation::Div => (left as int / right as int) as u8,
    }
}

/// What a run of the unit yields: nothing when no operation is
/// selected, otherwise the operation's byte or its fault.
pub open spec fn spec_alu(op: Option<AluOperation>, left: u8, right: u8) -> Result<
    Option<u8>,
    Fault,
> {
    match op {
        None => Ok(None),
        Some(o) => if spec_alu_fault(o, left, right) {
            Err(Fault::Arithmetic)
        } else {
            Ok(Some(spec_alu_value(o, left, right)))
        },
    }
}

/// Run the unit on the selected operation, if any, and the two resolved
/// operand bytes.
pub fn execute(op: &Option<AluOperation>, left: u8, right: u8) -> (r: Result<Option<u8>, Fault>)
    ensures
        r == spec_alu(*op, left, right),
{
    match op {
        None => Ok(None),
        Some(operation) => match operation {
            AluOperation::Or => Ok(Some(left | right)),
            AluOperation::And => Ok(Some(left & right)),
            AluOperation::Add => {
                let wide: u16 = left as u16 + right as u16;
                Ok(Some((wide % 256) as u8))
            },
            AluOperation::Sub => if left < right {
                Err(Fault::Arithmetic)
            } else {
                Ok(Some(left - right))
            },
            AluOperation::Not => Ok(Some(!left)),
            AluOperation::Xor => Ok(Some(left ^ right)),
            AluOperation::LeftShift => if right >= 8 {
                Err(Fault::Arithmetic)
            } else {
                Ok(Some(left << right))
            },
            AluOperation::RightShift => if right >= 8 {
                Err(Fault::Arithmetic)
            } else {
                Ok(Some(left >> right))
            },
            AluOperation::Mod => if right == 0 {
                Err(Fault::Arithmetic)
            } else {
                Ok(Some(left % right))
            },
            AluOperation::Div => if right == 0 {
                Err(Fault::Arithmetic)
            } else {
                Ok(Some(left / right))
            },
        },
    }
}

} // verus!
