//! The branch unit. It evaluates one of six relations on the two
//! resolved operands as unsigned bytes and, when the relation holds,
//! redirects the program counter to the destination byte. When it does
//! not hold, the unit itself advances the program counter by one
//! instruction width, because the cycle loop leaves the counter alone
//! for every control-flow instruction.
use crate::decoder::Condition;
use crate::{Machine, MachineModel, PC, spec_pc_step};
use vstd::prelude::*;

verus! {

/// Whether a relation holds of two unsigned bytes.
pub open spec fn spec_compare(cond: Condition, left: u8, right: u8) -> bool {
    match cond {
        Condition::Equal => left == right,
        Condition::NotEqual => left != right,
        Condition::Less => left < right,
        Condition::Greater => left > right,
        Condition::LessEqual => left <= right,
        Condition::GreaterEqual => left >= right,
    }
}

/// The model after the branch unit runs: untouched without a condition;
/// with one, the program counter becomes the destination when the
/// relation holds and advances by 4 (wrapping) when it does not.
pub open spec fn spec_branch(
    cond: Option<Condition>,
    left: u8,
    right: u8,
    dest: u8,
    m: MachineModel,
) -> MachineModel
    recommends
        m.wf(),
{
    match cond {
        None => m,
        Some(c) => if spec_compare(c, left, right) {
            m.with_reg(PC, dest)
        } else {
            m.with_reg(PC, spec_pc_step(m.regs[PC as int]))
        },
    }
}

/// Evaluate one relation on two unsigned bytes.
pub fn compare(cond: &Condition, left: u8, right: u8) -> (r: bool)
    ensures
        r == spec_compare(*cond, left, right),
{
    match cond {
        Condition::Equal => left == right,
        Condition::NotEqual => left != right,
        Condition::Less => left < right,
        Condition::Greater => left > right,
        Condition::LessEqual => left <= right,
        Condition::GreaterEqual => left >= right,
    }
}

/// Run the branch unit: test the condition, if one is present, and set
/// or advance the program counter accordingly.
pub fn try_branch(
    maybe_cond: &Option<Condition>,
    left: u8,
    right: u8,
    dest: u8,
    machine: &mut Machine,
)
    requires
        old(machine).wf(),
    ensures
        final(machine).wf(),
        final(machine).model() == spec_branch(*maybe_cond, left, right, dest, old(machine).model()),
{
    match maybe_cond {
        Some(cond) => {
            let cond_met = compare(cond, left, right);
            if cond_met {
                machine.registers.set(PC, dest);
            } else {
                let pc = machine.registers.get(PC);
                machine.registers.set(PC, pc.wrapping_add(4));
            }
            proof {
                assert(machine.model() =~= spec_branch(
                    *maybe_cond,
                    left,
                    right,
                    dest,
                    old(machine).model(),
                ));
            }
        },
        None => {
            proof {
                assert(machine.model() =~= old(machine).model());
            }
        },
    }
}

/// Branch correctness: under any of the six relations the program
/// counter is redirected to the destination exactly when the relation
/// holds of the operands, and otherwise advances by one instruction
/// width; nothing else of the machine changes.
pub proof fn lemma_branch_correctness(
    cond: Condition,
    left: u8,
    right: u8,
    dest: u8,
    m: MachineModel,
)
    requires
        m.wf(),
    ensures
        spec_compare(cond, left, right) ==> spec_branch(Some(cond), left, right, dest, m).regs[PC
            as int] == dest,
        !spec_compare(cond, left, right) ==> spec_branch(Some(cond), left, right, dest, m).regs[PC
            as int] == spec_pc_step(m.regs[PC as int]),
        spec_branch(Some(cond), left, right, dest, m).memory == m.memory,
        spec_branch(Some(cond), left, right, dest, m).prom == m.prom,
        spec_branch(Some(cond), left, right, dest, m).stack == m.stack,
{
}

} // verus!
