//! A simulator for a small 8-bit, fixed-width (4-byte) instruction set:
//! a register file of 8 bytes, 256 bytes of read-only program storage,
//! 256 bytes of mutable data storage, a bounded call stack, and one
//! interactive I/O port (register 7).
//!
//! The library holds the whole control path — instruction decoding,
//! operand resolution, the arithmetic unit, branches, calls, memory
//! access, and the fetch-decode-execute cycle — as verified functions.
//! Console input and output cannot happen here; the cycle function
//! instead takes the input bytes as arguments and returns the byte to
//! print, so that a thin outer loop can do the blocking reads and the
//! printing.
pub mod alu;
pub mod branch;
pub mod decoder;
pub mod fun;
pub mod loader;
pub mod mem;
pub mod processor;

use vstd::prelude::*;
use vstd::string::StringSliceAdditionalSpecFns;

verus! {

/// The reserved register whose value addresses all data and program
/// memory accesses.
pub const ADDR: u8 = 5;

/// The program counter register: a byte offset into program storage,
/// normally advanced by 4 (one instruction width) per cycle.
pub const PC: u8 = 6;

/// The I/O register: resolving an operand that names it blocks for one
/// line of console input, and writing a result to it prints instead of
/// storing.
pub const IO: u8 = 7;

/// Everything that can stop a run short of a clean halt. Faults are
/// terminal: once one is reported, no further cycle executes.
#[derive(Debug, Clone, Copy, PartialEq, Eq, Structural)]
pub enum Fault {
    /// Program text that does not tokenize into four decimal bytes per
    /// non-comment line, or a program that exceeds the 256-byte storage.
    Load,
    /// Subtraction underflow, a shift amount of 8 or more, or division
    /// or modulo by zero.
    Arithmetic,
    /// Call-stack overflow on a call, or underflow on a return.
    Stack,
    /// An operand named the I/O register but no input byte was available.
    Input,
    /// The program counter points too close to the end of program
    /// storage for a whole 4-byte instruction to be fetched.
    FetchOutOfRange,
    /// An operand or destination named a register index of 8 or more.
    RegisterOutOfRange,
}

/// The eight general-purpose 8-bit registers. Indices 5, 6 and 7 are
/// reserved ([`ADDR`], [`PC`], [`IO`]).
#[derive(Debug)]
pub struct RegisterBank {
    pub reg: Vec<u8>,
}

impl RegisterBank {
    /// The bank always holds exactly eight registers.
    pub open spec fn wf(&self) -> bool {
        self.reg@.len() == 8
    }

    /// A fresh bank with every register zeroed.
    pub fn new() -> (r: RegisterBank)
        ensures
            r.wf(),
            r.reg@ =~= Seq::new(8, |i: int| 0u8),
    {
        RegisterBank { reg: vec![0u8; 8] }
    }

    /// Read one register.
    pub fn get(&self, index: u8) -> (r: u8)
        requires
            self.wf(),
            index < 8,
        ensures
            r == self.reg@[index as int],
    {
        self.reg[index as usize]
    }

    /// Overwrite one register.
    pub fn set(&mut self, index: u8, val: u8)
        requires
            old(self).wf(),
            index < 8,
        ensures
            final(self).wf(),
            final(self).reg@ == old(self).reg@.update(index as int, val),
    {
        self.reg[index as usize] = val;
    }
}

/// The bounded LIFO byte stack that holds return addresses. Its cursor
/// counts the currently pushed addresses; at most 256 fit.
#[derive(Debug)]
pub struct Stack {
    pub stack: Vec<u8>,
    pub stack_ptr: usize,
}

impl Stack {
    /// The backing store is fixed at 256 bytes and the cursor never
    /// passes its end.
    pub open spec fn wf(&self) -> bool {
        &&& self.stack@.len() == 256
        &&& self.stack_ptr <= 256
    }

    /// The pushed addresses, oldest first.
    pub open spec fn contents(&self) -> Seq<u8> {
        self.stack@.subrange(0, self.stack_ptr as int)
    }

    /// A fresh, empty stack.
    pub fn new() -> (r: Stack)
        ensures
            r.wf(),
            r.contents() =~= Seq::<u8>::empty(),
    {
        Stack { stack: vec![0u8; 256], stack_ptr: 0 }
    }

    /// How many addresses are pushed.
    pub fn len(&self) -> (r: usize)
        requires
            self.wf(),
        ensures
            r == self.contents().len(),
    {
        self.stack_ptr
    }

    /// Push one return address. A push on a full stack is the overflow
    /// fault and leaves the stack as it was.
    pub fn push(&mut self, val: u8) -> (r: Result<(), Fault>)
        requires
            old(self).wf(),
        ensures
            final(self).wf(),
            old(self).contents().len() < 256 ==> {
                &&& r == Ok::<(), Fault>(())
                &&& final(self).contents() == old(self).contents().push(val)
            },
            old(self).contents().len() == 256 ==> {
                &&& r == Err::<(), Fault>(Fault::Stack)
                &&& *final(self) == *old(self)
            },
    {
        if self.stack_ptr == 256 {
            Err(Fault::Stack)
        } else {
            self.stack[self.stack_ptr] = val;
            self.stack_ptr = self.stack_ptr + 1;
            proof {
                assert(self.contents() =~= old(self).contents().push(val));
            }
            Ok(())
        }
    }

    /// Pop the most recent return address. A pop on an empty stack is
    /// the underflow fault and leaves the stack as it was.
    pub fn pop(&mut self) -> (r: Result<u8, Fault>)
        requires
            old(self).wf(),
        ensures
            final(self).wf(),
            old(self).contents().len() > 0 ==> {
                &&& r == Ok::<u8, Fault>(old(self).contents().last())
                &&& final(self).contents() == old(self).contents().drop_last()
            },
            old(self).contents().len() == 0 ==> {
                &&& r == Err::<u8, Fault>(Fault::Stack)
                &&& *final(self) == *old(self)
            },
    {
        if self.stack_ptr == 0 {
            Err(Fault::Stack)
        } else {
            self.stack_ptr = self.stack_ptr - 1;
            proof {
                assert(self.contents() =~= old(self).contents().drop_last());
            }
            Ok(self.stack[self.stack_ptr])
        }
    }
}

/// The program counter advanced by one instruction width, wrapping at
/// the end of program storage so that it stays a valid byte offset.
pub open spec fn spec_pc_step(pc: u8) -> u8 {
    ((pc + 4) % 256) as u8
}

/// The whole simulated processor: program storage, data storage, the
/// call stack and the register file. One value of this type is
/// exclusively owned by the loop that drives the cycles; no component
/// keeps a reference across cycle boundaries.
#[derive(Debug)]
pub struct Machine {
    pub prom: Vec<u8>,
    pub memory: Vec<u8>,
    pub stack: Stack,
    pub registers: RegisterBank,
}

/// The mathematical value of a [`Machine`]: the two storages, the
/// pushed return addresses (oldest first) and the eight registers.
#[verifier::ext_equal]
pub struct MachineModel {
    pub prom: Seq<u8>,
    pub memory: Seq<u8>,
    pub stack: Seq<u8>,
    pub regs: Seq<u8>,
}

impl MachineModel {
    /// Storage sizes and register count as the machine guarantees them.
    pub open spec fn wf(&self) -> bool {
        &&& self.prom.len() == 256
        &&& self.memory.len() == 256
        &&& self.stack.len() <= 256
        &&& self.regs.len() == 8
    }

    /// This model with one register overwritten.
    pub open spec fn with_reg(self, index: u8, val: u8) -> MachineModel {
        MachineModel { regs: self.regs.update(index as int, val), ..self }
    }
}

/// What one cycle reports back to the loop that drives it.
#[derive(Debug, Clone, Copy, PartialEq, Eq, Structural)]
pub struct CycleOutcome {
    /// False exactly when the cycle fetched the HALT opcode, the one
    /// clean-termination signal; no further cycle may run then.
    pub running: bool,
    /// A byte the instruction wrote to the I/O register, to be printed.
    pub output: Option<u8>,
}

/// The opcode byte reserved as the clean-termination signal: it is
/// never decoded as an instruction.
pub const HALT: u8 = 255;

/// The four instruction bytes at the program counter, or the fetch
/// fault when the counter is too near the end of program storage for a
/// whole instruction to fit.
pub open spec fn spec_fetch(m: MachineModel) -> Result<decoder::Instruction, Fault>
    recommends
        m.wf(),
{
    let pc = m.regs[PC as int];
    if pc > 252 {
        Err(Fault::FetchOutOfRange)
    } else {
        Ok(
            decoder::Instruction {
                opcode: m.prom[pc as int],
                arg1: m.prom[pc as int + 1],
                arg2: m.prom[pc as int + 2],
                arg3: m.prom[pc as int + 3],
            },
        )
    }
}

/// One whole cycle on the model: fetch, stop cleanly on HALT, decode,
/// execute, and — unless the instruction redirected control flow
/// itself — advance the program counter by one instruction width.
/// On a fault the machine is returned unchanged.
pub open spec fn spec_cycle(
    m: MachineModel,
    left_input: Option<u8>,
    right_input: Option<u8>,
) -> (MachineModel, Result<CycleOutcome, Fault>)
    recommends
        m.wf(),
{
    match spec_fetch(m) {
        Err(e) => (m, Err(e)),
        Ok(inst) => if inst.opcode == HALT {
            (m, Ok(CycleOutcome { running: false, output: None }))
        } else {
            let flags = inst.spec_flags();
            let (m1, r) = processor::spec_execute(flags, m, left_input, right_input);
            match r {
                Err(e) => (m, Err(e)),
                Ok(out) => {
                    let m2 = if flags.jumped {
                        m1
                    } else {
                        m1.with_reg(PC, spec_pc_step(m1.regs[PC as int]))
                    };
                    (m2, Ok(CycleOutcome { running: true, output: out }))
                },
            }
        },
    }
}

impl Machine {
    /// Both storages hold exactly 256 bytes, and stack and registers
    /// are well formed.
    pub open spec fn wf(&self) -> bool {
        &&& self.prom@.len() == 256
        &&& self.memory@.len() == 256
        &&& self.stack.wf()
        &&& self.registers.wf()
    }

    /// The mathematical value of this machine.
    pub open spec fn model(&self) -> MachineModel {
        MachineModel {
            prom: self.prom@,
            memory: self.memory@,
            stack: self.stack.contents(),
            regs: self.registers.reg@,
        }
    }

    /// Load a program into a fresh machine: the text's instruction
    /// lines fill program storage from the front, zero filled past
    /// them, and data storage, call stack and every register start
    /// zeroed. The load fault is returned — and no machine — when a
    /// line is malformed or the program would not fit.
    pub fn load(program: &str) -> (r: Result<Machine, Fault>)
        ensures
            match loader::spec_load_from(program.spec_bytes(), 0, loader::zero_image(), 0) {
                Ok(pe) => {
                    &&& r is Ok
                    &&& r->Ok_0.wf()
                    &&& r->Ok_0.model() == (MachineModel {
                        prom: pe.0,
                        memory: loader::zero_image(),
                        stack: Seq::<u8>::empty(),
                        regs: Seq::new(8, |n: int| 0u8),
                    })
                },
                Err(f) => r == Err::<Machine, Fault>(f),
            },
    {
        let bytes = program.as_bytes();
        match loader::load_image(bytes) {
            Ok(prom) => {
                let machine = Machine {
                    prom,
                    memory: vec![0u8; 256],
                    stack: Stack::new(),
                    registers: RegisterBank::new(),
                };
                proof {
                    let pe = loader::spec_load_from(
                        program.spec_bytes(),
                        0,
                        loader::zero_image(),
                        0,
                    )->Ok_0;
                    assert(machine.model() =~= MachineModel {
                        prom: pe.0,
                        memory: loader::zero_image(),
                        stack: Seq::<u8>::empty(),
                        regs: Seq::new(8, |n: int| 0u8),
                    });
                }
                Ok(machine)
            },
            Err(f) => Err(f),
        }
    }

    /// Fetch the instruction the program counter points at, without
    /// running it. The outer loop uses this, with [`decoder::Instruction::decode`]
    /// and [`processor::needs_input`], to learn whether the coming
    /// cycle will ask for console input.
    pub fn fetch(&self) -> (r: Result<decoder::Instruction, Fault>)
        requires
            self.wf(),
        ensures
            r == spec_fetch(self.model()),
    {
        let pc = self.registers.get(PC);
        if pc > 252 {
            Err(Fault::FetchOutOfRange)
        } else {
            let base = pc as usize;
            Ok(
                decoder::Instruction {
                    opcode: self.prom[base],
                    arg1: self.prom[base + 1],
                    arg2: self.prom[base + 2],
                    arg3: self.prom[base + 3],
                },
            )
        }
    }

    /// Simulate one cycle: fetch the instruction at the program
    /// counter, stop cleanly on HALT, otherwise decode and execute it
    /// and advance the counter — except after an instruction that
    /// redirected control flow itself (a call, a branch, or a write of
    /// a produced result to the counter register), whose new counter
    /// stands as set. A return does advance: the call pushed the
    /// address of the call instruction itself, so the step past it is
    /// what resumes after the call site.
    ///
    /// `left_input` and `right_input` carry console bytes for operands
    /// that name the I/O register; the outcome's `output` is a byte to
    /// print. On a fault the machine is left exactly as it was.
    pub fn cycle(&mut self, left_input: Option<u8>, right_input: Option<u8>) -> (r: Result<
        CycleOutcome,
        Fault,
    >)
        requires
            old(self).wf(),
        ensures
            final(self).wf(),
            final(self).model() == spec_cycle(old(self).model(), left_input, right_input).0,
            r == spec_cycle(old(self).model(), left_input, right_input).1,
    {
        let inst = match self.fetch() {
            Ok(inst) => inst,
            Err(e) => {
                return Err(e);
            },
        };
        if inst.opcode == HALT {
            return Ok(CycleOutcome { running: false, output: None });
        }
        let flags = inst.decode();
        let out = match processor::execute(&flags, self, left_input, right_input) {
            Ok(out) => out,
            Err(e) => {
                return Err(e);
            },
        };
        if !flags.jumped {
            let pc = self.registers.get(PC);
            self.registers.set(PC, pc.wrapping_add(4));
        }
        proof {
            assert(self.model() =~= spec_cycle(old(self).model(), left_input, right_input).0);
        }
        Ok(CycleOutcome { running: true, output: out })
    }
}

} // verus!
