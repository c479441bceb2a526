//! The memory unit. Every access — a program-storage load, a
//! data-storage load or a data-storage store — is addressed by the
//! current value of the ADDR register; no instruction operand ever
//! carries an address directly.
use crate::{ADDR, Machine, MachineModel};
use vstd::prelude::*;

verus! {

/// The storage index the ADDR register currently names.
pub open spec fn spec_address(m: MachineModel) -> int
    recommends
        m.wf(),
{
    m.regs[ADDR as int] as int
}

/// The model after a store writes one byte of data storage at the
/// addressed cell.
pub open spec fn spec_save(m: MachineModel, val: u8) -> MachineModel
    recommends
        m.wf(),
{
    MachineModel { memory: m.memory.update(spec_address(m), val), ..m }
}

fn address(machine: &Machine) -> (r: usize)
    requires
        machine.wf(),
    ensures
        r == spec_address(machine.model()),
        r < 256,
{
    machine.registers.get(ADDR) as usize
}

/// Read program storage at the addressed cell.
pub fn prom_load(machine: &Machine) -> (r: u8)
    requires
        machine.wf(),
    ensures
        r == machine.model().prom[spec_address(machine.model())],
{
    let a = address(machine);
    machine.prom[a]
}

/// Read data storage at the addressed cell.
pub fn load(machine: &Machine) -> (r: u8)
    requires
        machine.wf(),
    ensures
        r == machine.model().memory[spec_address(machine.model())],
{
    let a = address(machine);
    machine.memory[a]
}

/// Write one byte of data storage at the addressed cell.
pub fn save(val: u8, machine: &mut Machine)
    requires
        old(machine).wf(),
    ensures
        final(machine).wf(),
        final(machine).model() == spec_save(old(machine).model(), val),
{
    let a = address(machine);
    machine.memory[a] = val;
    proof {
        assert(machine.model() =~= spec_save(old(machine).model(), val));
    }
}

/// Stored data is read back: a store at the addressed cell followed by
/// a load with the same ADDR value returns the stored byte.
pub proof fn lemma_store_load_round_trip(m: MachineModel, val: u8)
    requires
        m.wf(),
    ensures
        spec_save(m, val).memory[spec_address(spec_save(m, val))] == val,
{
}

} // verus!
