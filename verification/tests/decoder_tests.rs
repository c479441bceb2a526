use legsim::decoder::{AluOperation, Condition, InstFlags, Instruction};

#[test]
fn decode_mov() {
    let inst = Instruction { opcode: 64, arg1: 7, arg2: 0, arg3: 1 };
    let flags = inst.decode();
    let true_flags = InstFlags {
        alu_op: Some(AluOperation::Or),
        left: (7, false),
        right: (0, true),
        dest: Some(1),
        ..InstFlags::new()
    };
    assert_eq!(flags, true_flags);
}

#[test]
fn decode_load() {
    let load_inst = Instruction { opcode: 24, arg1: 0, arg2: 0, arg3: 0 };
    let prom_inst = Instruction { opcode: 25, arg1: 0, arg2: 0, arg3: 0 };
    let flags = load_inst.decode();
    let true_flags = InstFlags { ram_loading: true, dest: Some(0), ..InstFlags::new() };
    assert_eq!(flags, true_flags);

    let flags = prom_inst.decode();
    let true_flags = InstFlags { prom_loading: true, dest: Some(0), ..InstFlags::new() };
    assert_eq!(flags, true_flags);
}

#[test]
fn decode_save() {
    let inst = Instruction { opcode: 16, arg1: 0, arg2: 0, arg3: 0 };
    let flags = inst.decode();
    let true_flags = InstFlags { save: true, ..InstFlags::new() };
    assert_eq!(flags, true_flags);
}

#[test]
fn decode_fun() {
    let call_inst = Instruction { opcode: 38, arg1: 0, arg2: 0, arg3: 0 };
    let ret_inst = Instruction { opcode: 39, arg1: 0, arg2: 0, arg3: 0 };
    let flags = call_inst.decode();
    let true_flags = InstFlags { call: true, jumped: true, dest: Some(0), ..InstFlags::new() };
    assert_eq!(flags, true_flags);

    let flags = ret_inst.decode();
    let true_flags = InstFlags { ret: true, jumped: false, ..InstFlags::new() };
    assert_eq!(flags, true_flags);
}

#[test]
fn decode_be() {
    let inst = Instruction { opcode: 96, arg1: 0, arg2: 0, arg3: 0 };
    let flags = inst.decode();
    let true_flags = InstFlags {
        cond: Some(Condition::Equal),
        right: (0, true),
        dest: Some(0),
        jumped: true,
        ..InstFlags::new()
    };
    assert_eq!(flags, true_flags);
}

#[test]
fn decode_sub() {
    let inst = Instruction { opcode: 67, arg1: 0, arg2: 1, arg3: 0 };
    let flags = inst.decode();
    let true_flags = InstFlags {
        alu_op: Some(AluOperation::Sub),
        right: (1, true),
        dest: Some(0),
        ..InstFlags::new()
    };
    assert_eq!(flags, true_flags);
}

#[test]
fn decode_deterministic() {
    let a = Instruction { opcode: 130, arg1: 4, arg2: 9, arg3: 6 };
    let b = Instruction { opcode: 130, arg1: 4, arg2: 9, arg3: 6 };
    assert_eq!(a.decode(), b.decode());
}

#[test]
fn decode_is_total() {
    // every opcode byte decodes to something, the reserved HALT byte included
    let mut opcode: u16 = 0;
    while opcode < 256 {
        let inst = Instruction { opcode: opcode as u8, arg1: 1, arg2: 2, arg3: 3 };
        let _ = inst.decode();
        opcode += 1;
    }
}

#[test]
fn decode_immediate_bits() {
    // bit 7 marks the left operand immediate, bit 6 the right one
    let inst = Instruction { opcode: 0b1100_0000, arg1: 11, arg2: 22, arg3: 0 };
    let flags = inst.decode();
    assert_eq!(flags.left, (11, true));
    assert_eq!(flags.right, (22, true));

    let inst = Instruction { opcode: 0, arg1: 11, arg2: 22, arg3: 0 };
    let flags = inst.decode();
    assert_eq!(flags.left, (11, false));
    assert_eq!(flags.right, (22, false));
}

#[test]
fn decode_all_branch_conditions() {
    let conds = [
        (32, Condition::Equal),
        (33, Condition::NotEqual),
        (34, Condition::Less),
        (35, Condition::LessEqual),
        (36, Condition::Greater),
        (37, Condition::GreaterEqual),
    ];
    for (opcode, cond) in conds {
        let inst = Instruction { opcode, arg1: 0, arg2: 0, arg3: 9 };
        let flags = inst.decode();
        assert_eq!(flags.cond, Some(cond));
        assert_eq!(flags.dest, Some(9));
        assert!(flags.jumped);
    }
}

#[test]
fn decode_alu_table() {
    let ops = [
        (0, AluOperation::Or),
        (1, AluOperation::And),
        (2, AluOperation::Add),
        (3, AluOperation::Sub),
        (4, AluOperation::Not),
        (5, AluOperation::Xor),
        (8, AluOperation::LeftShift),
        (9, AluOperation::RightShift),
        (12, AluOperation::Mod),
        (13, AluOperation::Div),
    ];
    for (opcode, op) in ops {
        assert_eq!(AluOperation::decode(opcode), Some(op));
    }
    // the gaps and the whole no-op space select no operation
    for opcode in [6, 7, 10, 11, 14, 15, 17, 26, 40, 63] {
        assert_eq!(AluOperation::decode(opcode), None);
    }
}

#[test]
fn decode_noop_space() {
    // an opclass outside every table decodes to a do-nothing signal set
    let inst = Instruction { opcode: 40, arg1: 1, arg2: 2, arg3: 3 };
    let flags = inst.decode();
    let true_flags = InstFlags {
        left: (1, false),
        right: (2, false),
        dest: Some(3),
        ..InstFlags::new()
    };
    assert_eq!(flags, true_flags);
}

#[test]
fn decode_alu_write_to_pc_redirects() {
    // an arithmetic result written to the program counter register
    let inst = Instruction { opcode: 0b1100_0000, arg1: 8, arg2: 0, arg3: 6 };
    let flags = inst.decode();
    assert!(flags.jumped);
    // the same result written elsewhere does not redirect
    let inst = Instruction { opcode: 0b1100_0000, arg1: 8, arg2: 0, arg3: 2 };
    assert!(!inst.decode().jumped);
}
