//! The call unit. A call pushes the current program counter — the
//! address of the call instruction itself — onto the call stack and
//! jumps to the destination; a return pops the stack back into the
//! program counter, and the cycle loop's normal advance then steps past
//! the call instruction. A call on a full stack and a return on an
//! empty one are faults, never silent wraparounds.
use crate::{Fault, Machine, MachineModel, PC};
use vstd::prelude::*;

verus! {

/// The model after a call to `addr`, or the overflow fault when 256
/// return addresses are already pending.
pub open spec fn spec_call(addr: u8, m: MachineModel) -> Result<MachineModel, Fault>
    recommends
        m.wf(),
{
    if m.stack.len() < 256 {
        Ok(MachineModel { stack: m.stack.push(m.regs[PC as int]), ..m }.with_reg(PC, addr))
    } else {
        Err(Fault::Stack)
    }
}

/// The model after a return, or the underflow fault when no call is
/// pending.
pub open spec fn spec_ret(m: MachineModel) -> Result<MachineModel, Fault>
    recommends
        m.wf(),
{
    if m.stack.len() > 0 {
        Ok(MachineModel { stack: m.stack.drop_last(), ..m }.with_reg(PC, m.stack.last()))
    } else {
        Err(Fault::Stack)
    }
}

/// Call: push the current program counter and jump to `addr`. On a full
/// stack this is the overflow fault and the machine is unchanged.
pub fn call(addr: u8, machine: &mut Machine) -> (r: Result<(), Fault>)
    requires
        old(machine).wf(),
    ensures
        final(machine).wf(),
        match spec_call(addr, old(machine).model()) {
            Ok(m2) => r == Ok::<(), Fault>(()) && final(machine).model() == m2,
            Err(f) => r == Err::<(), Fault>(f) && final(machine).model() == old(machine).model(),
        },
{
    let pc = machine.registers.get(PC);
    match machine.stack.push(pc) {
        Ok(()) => {
            machine.registers.set(PC, addr);
            proof {
                assert(machine.model() =~= spec_call(addr, old(machine).model())->Ok_0);
            }
            Ok(())
        },
        Err(f) => {
            proof {
                assert(machine.model() =~= old(machine).model());
            }
            Err(f)
        },
    }
}

/// Return: pop the most recent return address into the program counter.
/// On an empty stack this is the underflow fault and the machine is
/// unchanged.
pub fn ret(machine: &mut Machine) -> (r: Result<(), Fault>)
    requires
        old(machine).wf(),
    ensures
        final(machine).wf(),
        match spec_ret(old(machine).model()) {
            Ok(m2) => r == Ok::<(), Fault>(()) && final(machine).model() == m2,
            Err(f) => r == Err::<(), Fault>(f) && final(machine).model() == old(machine).model(),
        },
{
    match machine.stack.pop() {
        Ok(addr) => {
            machine.registers.set(PC, addr);
            proof {
                assert(machine.model() =~= spec_ret(old(machine).model())->Ok_0);
            }
            Ok(())
        },
        Err(f) => {
            proof {
                assert(machine.model() =~= old(machine).model());
            }
            Err(f)
        },
    }
}

/// Call and return round-trip: whenever the stack has room, a call
/// succeeds, and a return straight after it restores the machine
/// exactly — program counter and stack included. A return with no call
/// pending is the underflow fault.
pub proof fn lemma_call_ret_round_trip(addr: u8, m: MachineModel)
    requires
        m.wf(),
    ensures
        m.stack.len() < 256 ==> {
            &&& spec_call(addr, m) is Ok
            &&& spec_call(addr, m)->Ok_0.regs[PC as int] == addr
            &&& spec_call(addr, m)->Ok_0.stack == m.stack.push(m.regs[PC as int])
            &&& spec_ret(spec_call(addr, m)->Ok_0) == Ok::<MachineModel, Fault>(m)
        },
        m.stack.len() == 0 ==> spec_ret(m) == Err::<MachineModel, Fault>(Fault::Stack),
{
    if m.stack.len() < 256 {
        let m1 = spec_call(addr, m)->Ok_0;
        assert(spec_ret(m1)->Ok_0 =~= m);
    }
}

} // verus!
