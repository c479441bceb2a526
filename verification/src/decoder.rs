//! The instruction decoder: a deterministic, total function from a raw
//! 4-byte instruction to the control signals that drive one cycle.
//!
//! Bit layout of the opcode byte: bit 7 marks the left operand as an
//! immediate literal, bit 6 the right one, and the low six bits — the
//! opclass — select the primary operation by exact match. The arithmetic
//! codes (0, 1, 2, 3, 4, 5, 8, 9, 12, 13) are disjoint from the
//! memory, branch, call and return codes (16, 24, 25, 32 to 39); every
//! other opclass decodes to a no-op that still advances the cycle.
use crate::PC;
use vstd::prelude::*;

verus! {

/// One fetched 4-byte instruction: the opcode and its three operands.
#[derive(Debug, Clone, Copy, PartialEq, Eq, Structural)]
pub struct Instruction {
    pub opcode: u8,
    pub arg1: u8,
    pub arg2: u8,
    pub arg3: u8,
}

/// The control signals one instruction produces: which unit runs, how
/// the two operands resolve, and where the result goes.
///
/// An operand pair `(value, is_immediate)` resolves to the literal
/// `value` when `is_immediate` holds, and otherwise names the register
/// with index `value`.
#[derive(Debug, Clone, Copy)]
pub struct InstFlags {
    pub alu_op: Option<AluOperation>,
    pub ram_loading: bool,
    pub prom_loading: bool,
    pub save: bool,
    pub call: bool,
    pub ret: bool,
    pub cond: Option<Condition>,
    pub left: (u8, bool),
    pub right: (u8, bool),
    pub dest: Option<u8>,
    pub jumped: bool,
}

impl PartialEq for InstFlags {
    /// Two signal sets are equal when every signal agrees.
    fn eq(&self, other: &InstFlags) -> (r: bool)
        ensures
            r == (*self == *other),
    {
        let alu_eq = match (&self.alu_op, &other.alu_op) {
            (None, None) => true,
            (Some(a), Some(b)) => *a == *b,
            _ => false,
        };
        let cond_eq = match (&self.cond, &other.cond) {
            (None, None) => true,
            (Some(a), Some(b)) => *a == *b,
            _ => false,
        };
        let dest_eq = match (&self.dest, &other.dest) {
            (None, None) => true,
            (Some(a), Some(b)) => *a == *b,
            _ => false,
        };
        alu_eq && cond_eq && dest_eq && self.ram_loading == other.ram_loading
            && self.prom_loading == other.prom_loading && self.save == other.save
            && self.call == other.call && self.ret == other.ret && self.left.0 == other.left.0
            && self.left.1 == other.left.1 && self.right.0 == other.right.0 && self.right.1
            == other.right.1 && self.jumped == other.jumped
    }
}

impl vstd::std_specs::cmp::PartialEqSpecImpl for InstFlags {
    open spec fn obeys_eq_spec() -> bool {
        true
    }

    open spec fn eq_spec(&self, other: &InstFlags) -> bool {
        *self == *other
    }
}

/// The six relations a branch instruction can test, as unsigned-byte
/// comparisons of the two resolved operands.
#[derive(Debug, Clone, Copy, PartialEq, Eq, Structural)]
pub enum Condition {
    Equal,
    NotEqual,
    Less,
    Greater,
    LessEqual,
    GreaterEqual,
}

/// The ten operations of the arithmetic-logic unit.
#[derive(Debug, Clone, Copy, PartialEq, Eq, Structural)]
pub enum AluOperation {
    Or,
    And,
    Add,
    Sub,
    Not,
    Xor,
    LeftShift,
    RightShift,
    Mod,
    Div,
}

/// Which arithmetic operation an opclass selects: the sparse codes 0 to
/// 13 name the ten operations, every other opclass none.
pub open spec fn spec_alu_decode(opclass: u8) -> Option<AluOperation> {
    if opclass == 0 {
        Some(AluOperation::Or)
    } else if opclass == 1 {
        Some(AluOperation::And)
    } else if opclass == 2 {
        Some(AluOperation::Add)
    } else if opclass == 3 {
        Some(AluOperation::Sub)
    } else if opclass == 4 {
        Some(AluOperation::Not)
    } else if opclass == 5 {
        Some(AluOperation::Xor)
    } else if opclass == 8 {
        Some(AluOperation::LeftShift)
    } else if opclass == 9 {
        Some(AluOperation::RightShift)
    } else if opclass == 12 {
        Some(AluOperation::Mod)
    } else if opclass == 13 {
        Some(AluOperation::Div)
    } else {
        None
    }
}

/// The control signals that four instruction bytes decode to. Total over
/// all 2^32 byte patterns.
///
/// `dest` is the third operand except on a return or a store, which
/// carry no destination. `jumped` records that the instruction will
/// change control flow outside the normal advance-by-4 path: it is a
/// call, carries a branch condition, or writes a produced result to the
/// program counter register.
pub open spec fn spec_decode(opcode: u8, arg1: u8, arg2: u8, arg3: u8) -> InstFlags {
    let left = (arg1, opcode & 0x80 == 0x80);
    let right = (arg2, opcode & 0x40 == 0x40);
    let opclass = opcode & 0x3f;
    let prom_loading = opclass == 25;
    let ram_loading = opclass == 24;
    let save = opclass == 16;
    let call = opclass == 38;
    let ret = opclass == 39;
    let cond = if opclass == 32 {
        Some(Condition::Equal)
    } else if opclass == 33 {
        Some(Condition::NotEqual)
    } else if opclass == 34 {
        Some(Condition::Less)
    } else if opclass == 35 {
        Some(Condition::LessEqual)
    } else if opclass == 36 {
        Some(Condition::Greater)
    } else if opclass == 37 {
        Some(Condition::GreaterEqual)
    } else {
        None
    };
    let dest = if save || ret {
        None
    } else {
        Some(arg3)
    };
    let alu_op = spec_alu_decode(opclass);
    let jumped = call || cond is Some || ((alu_op is Some || ram_loading || prom_loading)
        && dest == Some(PC));
    InstFlags {
        alu_op,
        ram_loading,
        prom_loading,
        save,
        call,
        ret,
        cond,
        left,
        right,
        dest,
        jumped,
    }
}

impl Instruction {
    /// The decoded view of this instruction's four bytes.
    pub open spec fn spec_flags(&self) -> InstFlags {
        spec_decode(self.opcode, self.arg1, self.arg2, self.arg3)
    }

    /// Decode this instruction. Deterministic and total: the result is a
    /// function of the four bytes alone, and every byte pattern decodes
    /// to some set of signals.
    pub fn decode(&self) -> (flags: InstFlags)
        ensures
            flags == self.spec_flags(),
    {
        let left = (self.arg1, self.opcode & 0x80 == 0x80);
        let right = (self.arg2, self.opcode & 0x40 == 0x40);
        let opclass = self.opcode & 0x3f;
        let prom_loading = opclass == 25;
        let ram_loading = opclass == 24;
        let save = opclass == 16;
        let call = opclass == 38;
        let ret = opclass == 39;
        let cond = if opclass == 32 {
            Some(Condition::Equal)
        } else if opclass == 33 {
            Some(Condition::NotEqual)
        } else if opclass == 34 {
            Some(Condition::Less)
        } else if opclass == 35 {
            Some(Condition::LessEqual)
        } else if opclass == 36 {
            Some(Condition::Greater)
        } else if opclass == 37 {
            Some(Condition::GreaterEqual)
        } else {
            None
        };
        let dest = if save || ret {
            None
        } else {
            Some(self.arg3)
        };
        let alu_op = AluOperation::decode(self.opcode);
        let jumped = call || cond.is_some() || ((alu_op.is_some() || ram_loading
            || prom_loading) && dest == Some(PC));
        InstFlags {
            alu_op,
            ram_loading,
            prom_loading,
            save,
            call,
            ret,
            cond,
            left,
            right,
            dest,
            jumped,
        }
    }
}

impl InstFlags {
    /// The all-quiet signal set: no operation, no memory or control
    /// traffic, both operands zero register operands, no destination.
    pub fn new() -> (r: InstFlags)
        ensures
            r == (InstFlags {
                alu_op: None,
                ram_loading: false,
                prom_loading: false,
                save: false,
                call: false,
                ret: false,
                cond: None,
                left: (0u8, false),
                right: (0u8, false),
                dest: None,
                jumped: false,
            }),
    {
        InstFlags {
            alu_op: None,
            ram_loading: false,
            prom_loading: false,
            save: false,
            call: false,
            ret: false,
            cond: None,
            left: (0, false),
            right: (0, false),
            dest: None,
            jumped: false,
        }
    }
}

impl AluOperation {
    /// Select the arithmetic operation named by an opcode's low six
    /// bits, if any.
    pub fn decode(opcode: u8) -> (r: Option<AluOperation>)
        ensures
            r == spec_alu_decode(opcode & 0x3f),
    {
        let opclass = opcode & 0x3f;
        match opclass {
            0 => Some(AluOperation::Or),
            1 => Some(AluOperation::And),
            2 => Some(AluOperation::Add),
            3 => Some(AluOperation::Sub),
            4 => Some(AluOperation::Not),
            5 => Some(AluOperation::Xor),
            8 => Some(AluOperation::LeftShift),
            9 => Some(AluOperation::RightShift),
            12 => Some(AluOperation::Mod),
            13 => Some(AluOperation::Div),
            _ => None,
        }
    }
}

/// Decoding is deterministic: two instructions with equal bytes decode
/// to identical control signals.
pub proof fn lemma_decode_deterministic(a: Instruction, b: Instruction)
    requires
        a.opcode == b.opcode,
        a.arg1 == b.arg1,
        a.arg2 == b.arg2,
        a.arg3 == b.arg3,
    ensures
        a.spec_flags() == b.spec_flags(),
{
}

/// The opclass tables are disjoint: one instruction selects at most one
/// primary operation — an arithmetic operation, a store, one of the two
/// loads, a branch condition, a call or a return — never two of them.
/// The sparse arithmetic codes below 16 cannot collide with the memory,
/// branch, call and return codes from 16 to 39 by exact match, and this
/// holds it as a checked fact rather than an accident of magnitude.
pub proof fn lemma_opclass_disjoint(opcode: u8, arg1: u8, arg2: u8, arg3: u8)
    ensures
        ({
            let f = spec_decode(opcode, arg1, arg2, arg3);
            let selected = (if f.alu_op is Some { 1int } else { 0int })
                + (if f.save { 1int } else { 0int })
                + (if f.ram_loading { 1int } else { 0int })
                + (if f.prom_loading { 1int } else { 0int })
                + (if f.cond is Some { 1int } else { 0int })
                + (if f.call { 1int } else { 0int })
                + (if f.ret { 1int } else { 0int });
            selected <= 1
        }),
{
}

/// Immediate marking: when bit 7 of the opcode is set the left operand
/// decodes as the literal first operand byte, and when bit 6 is set the
/// right operand decodes as the literal second operand byte — whatever
/// the rest of the instruction holds.
pub proof fn lemma_immediate_flags(opcode: u8, arg1: u8, arg2: u8, arg3: u8)
    ensures
        opcode & 0x80 == 0x80 ==> spec_decode(opcode, arg1, arg2, arg3).left == (arg1, true),
        opcode & 0x40 == 0x40 ==> spec_decode(opcode, arg1, arg2, arg3).right == (arg2, true),
{
}

} // verus!
