//! The execution engine: it consumes one set of control signals,
//! resolves the two operands, dispatches to the arithmetic, memory,
//! branch and call units, and writes the produced byte back.
//!
//! The engine itself never touches the console. An operand that names
//! the I/O register resolves to the matching input argument, which the
//! outer loop reads beforehand ([`needs_input`] says when); a missing
//! input byte is the input fault. A result destined for the I/O
//! register is handed back as the `Ok(Some(..))` value for the outer
//! loop to print.
//!
//! Any fault leaves the machine exactly as it was: a fault ends the run,
//! so no partial effect of the faulting instruction can ever be seen.
use crate::decoder::InstFlags;
use crate::{Fault, IO, Machine, MachineModel, alu, branch, fun, mem};
use vstd::prelude::*;

verus! {

/// Whether resolving an operand asks for one line of console input:
/// it does when it is not immediate and names the I/O register.
pub open spec fn spec_needs_input(operand: (u8, bool)) -> bool {
    !operand.1 && operand.0 == IO
}

/// What an operand pair resolves to: its literal byte when immediate;
/// the supplied input byte when it names the I/O register (the input
/// fault when none was supplied); otherwise the named register's
/// current value, a fault when no register has that index.
pub open spec fn spec_resolve(operand: (u8, bool), m: MachineModel, input: Option<u8>) -> Result<
    u8,
    Fault,
> {
    if operand.1 {
        Ok(operand.0)
    } else if operand.0 == IO {
        match input {
            Some(v) => Ok(v),
            None => Err(Fault::Input),
        }
    } else if operand.0 < 8 {
        Ok(m.regs[operand.0 as int])
    } else {
        Err(Fault::RegisterOutOfRange)
    }
}

/// The byte an instruction produces, if any: the program-storage or
/// data-storage byte at the addressed cell for the two loads, otherwise
/// whatever the arithmetic unit yields.
pub open spec fn spec_output(f: InstFlags, m: MachineModel, left: u8, right: u8) -> Result<
    Option<u8>,
    Fault,
>
    recommends
        m.wf(),
{
    if f.prom_loading {
        Ok(Some(m.prom[mem::spec_address(m)]))
    } else if f.ram_loading {
        Ok(Some(m.memory[mem::spec_address(m)]))
    } else {
        alu::spec_alu(f.alu_op, left, right)
    }
}

/// One run of the engine: the machine afterwards, and either the byte
/// to print (when the destination is the I/O register) or the fault
/// that ended the run. On a fault the machine is returned unchanged.
///
/// A return runs the call unit alone. Every other instruction resolves
/// both operands, computes its output, and then — only when it carries
/// a destination — branches, calls, and writes the output back to a
/// register or to the console. A store writes its output to the
/// addressed data-storage cell whether or not a destination is present:
/// stores decode without one, and could otherwise never take effect.
pub open spec fn spec_execute(
    f: InstFlags,
    m: MachineModel,
    left_input: Option<u8>,
    right_input: Option<u8>,
) -> (MachineModel, Result<Option<u8>, Fault>)
    recommends
        m.wf(),
{
    if f.ret {
        match fun::spec_ret(m) {
            Ok(m2) => (m2, Ok(None)),
            Err(e) => (m, Err(e)),
        }
    } else {
        match spec_resolve(f.left, m, left_input) {
            Err(e) => (m, Err(e)),
            Ok(left) => match spec_resolve(f.right, m, right_input) {
                Err(e) => (m, Err(e)),
                Ok(right) => match spec_output(f, m, left, right) {
                    Err(e) => (m, Err(e)),
                    Ok(out) => match f.dest {
                        Some(dest) => if f.call && m.stack.len() >= 256 {
                            (m, Err(Fault::Stack))
                        } else if out is Some && !f.save && dest != IO && dest >= 8 {
                            (m, Err(Fault::RegisterOutOfRange))
                        } else {
                            let m1 = branch::spec_branch(f.cond, left, right, dest, m);
                            let m2 = if f.call {
                                fun::spec_call(dest, m1)->Ok_0
                            } else {
                                m1
                            };
                            match out {
                                Some(val) => if f.save {
                                    (mem::spec_save(m2, val), Ok(None))
                                } else if dest == IO {
                                    (m2, Ok(Some(val)))
                                } else {
                                    (m2.with_reg(dest, val), Ok(None))
                                },
                                None => (m2, Ok(None)),
                            }
                        },
                        None => match out {
                            Some(val) => if f.save {
                                (mem::spec_save(m, val), Ok(None))
                            } else {
                                (m, Ok(None))
                            },
                            None => (m, Ok(None)),
                        },
                    },
                },
            },
        }
    }
}

/// Whether each operand of this instruction will ask for one line of
/// console input, left then right. The outer loop calls this before
/// [`execute`] to know how many lines to read.
pub fn needs_input(flags: &InstFlags) -> (r: (bool, bool))
    ensures
        r.0 == spec_needs_input(flags.left),
        r.1 == spec_needs_input(flags.right),
{
    (!flags.left.1 && flags.left.0 == IO, !flags.right.1 && flags.right.0 == IO)
}

/// Run one decoded instruction against the machine. `left_input` and
/// `right_input` carry the console bytes for operands that name the I/O
/// register; `Ok(Some(..))` is a byte for the outer loop to print.
///
/// Each operand is tested against its own register index when deciding
/// whether it draws on console input.
pub fn execute(
    flags: &InstFlags,
    machine: &mut Machine,
    left_input: Option<u8>,
    right_input: Option<u8>,
) -> (r: Result<Option<u8>, Fault>)
    requires
        old(machine).wf(),
    ensures
        final(machine).wf(),
        final(machine).model() == spec_execute(
            *flags,
            old(machine).model(),
            left_input,
            right_input,
        ).0,
        r == spec_execute(*flags, old(machine).model(), left_input, right_input).1,
{
    if flags.ret {
        return match fun::ret(machine) {
            Ok(()) => Ok(None),
            Err(e) => Err(e),
        };
    }
    let left = if flags.left.1 {
        flags.left.0
    } else if flags.left.0 == IO {
        match left_input {
            Some(v) => v,
            None => {
                return Err(Fault::Input);
            },
        }
    } else if flags.left.0 < 8 {
        machine.registers.get(flags.left.0)
    } else {
        return Err(Fault::RegisterOutOfRange);
    };
    let right = if flags.right.1 {
        flags.right.0
    } else if flags.right.0 == IO {
        match right_input {
            Some(v) => v,
            None => {
                return Err(Fault::Input);
            },
        }
    } else if flags.right.0 < 8 {
        machine.registers.get(flags.right.0)
    } else {
        return Err(Fault::RegisterOutOfRange);
    };

    let output = if flags.prom_loading {
        Some(mem::prom_load(machine))
    } else if flags.ram_loading {
        Some(mem::load(machine))
    } else {
        match alu::execute(&flags.alu_op, left, right) {
            Ok(o) => o,
            Err(e) => {
                return Err(e);
            },
        }
    };

    match flags.dest {
        Some(dest) => {
            if flags.call && machine.stack.len() == 256 {
                return Err(Fault::Stack);
            }
            if output.is_some() && !flags.save && dest != IO && dest >= 8 {
                return Err(Fault::RegisterOutOfRange);
            }
            branch::try_branch(&flags.cond, left, right, dest, machine);
            if flags.call {
                match fun::call(dest, machine) {
                    Ok(()) => (),
                    Err(e) => {
                        return Err(e);
                    },
                }
            }
            match output {
                Some(val) => if flags.save {
                    mem::save(val, machine);
                    Ok(None)
                } else if dest == IO {
                    Ok(Some(val))
                } else {
                    machine.registers.set(dest, val);
                    Ok(None)
                },
                None => Ok(None),
            }
        },
        None => match output {
            Some(val) => if flags.save {
                mem::save(val, machine);
                Ok(None)
            } else {
                Ok(None)
            },
            None => Ok(None),
        },
    }
}

/// Immediate resolution: with the immediate bit for a side set in the
/// opcode, that side resolves to its literal operand byte — whatever
/// the registers hold and whether or not console input is available.
pub proof fn lemma_immediate_resolution(
    opcode: u8,
    arg1: u8,
    arg2: u8,
    arg3: u8,
    m: MachineModel,
    left_input: Option<u8>,
    right_input: Option<u8>,
)
    ensures
        opcode & 0x80 == 0x80 ==> spec_resolve(
            crate::decoder::spec_decode(opcode, arg1, arg2, arg3).left,
            m,
            left_input,
        ) == Ok::<u8, Fault>(arg1),
        opcode & 0x40 == 0x40 ==> spec_resolve(
            crate::decoder::spec_decode(opcode, arg1, arg2, arg3).right,
            m,
            right_input,
        ) == Ok::<u8, Fault>(arg2),
{
}

} // verus!
