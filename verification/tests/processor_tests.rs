use legsim::alu;
use legsim::branch::try_branch;
use legsim::decoder::{AluOperation, Condition, InstFlags};
use legsim::fun;
use legsim::mem;
use legsim::processor::{execute, needs_input};
use legsim::{Fault, Machine, ADDR, IO, PC};

#[test]
fn add_exe() {
    assert_eq!(alu::execute(&Some(AluOperation::Add), 2, 2), Ok(Some(4)));
}

#[test]
fn branch_exe() {
    let mut machine = Machine::load("0 0 0 0").unwrap();
    machine.registers.set(PC, 4);
    try_branch(&Some(Condition::Equal), 1, 1, 0, &mut machine);
    assert_eq!(machine.registers.get(PC), 0);
}

#[test]
fn dont_branch_exe() {
    let mut machine = Machine::load("0 0 0 0").unwrap();
    machine.registers.set(PC, 4);
    try_branch(&Some(Condition::NotEqual), 1, 1, 0, &mut machine);
    assert_ne!(machine.registers.get(PC), 0);
}

#[test]
fn prom_exe() {
    let mut machine = Machine::load("41 42 43 44").unwrap();
    machine.registers.set(ADDR, 1);
    assert_eq!(mem::prom_load(&machine), 42);
}

#[test]
fn save_load_exe() {
    let mut machine = Machine::load("0 0 0 0").unwrap();
    machine.registers.set(ADDR, 1);
    mem::save(42, &mut machine);
    assert_eq!(mem::load(&machine), 42);
}

#[test]
fn imm_mov_exe() {
    let mut machine = Machine::load("0 0 0 0").unwrap();
    let flags = InstFlags::new();
    let flags = InstFlags { alu_op: Some(AluOperation::Or), left: (1, true), dest: Some(0), ..flags };
    execute(&flags, &mut machine, None, None).unwrap();
    assert_eq!(machine.registers.get(0), 1);
}

#[test]
fn imm_mov_another_dest_exe() {
    let mut machine = Machine::load("0 0 0 0").unwrap();
    let flags = InstFlags::new();
    let flags = InstFlags { alu_op: Some(AluOperation::Or), left: (1, true), dest: Some(4), ..flags };
    execute(&flags, &mut machine, None, None).unwrap();
    assert_eq!(machine.registers.get(4), 1);
}

#[test]
fn call_exe() {
    let mut machine = Machine::load("0 0 0 0").unwrap();
    let flags = InstFlags::new();
    let flags = InstFlags { call: true, dest: Some(42), ..flags };
    execute(&flags, &mut machine, None, None).unwrap();
    assert_eq!(machine.registers.get(PC), 42);
}

#[test]
fn ret_exe() {
    let mut machine = Machine::load("0 0 0 0").unwrap();
    machine.registers.set(PC, 32);
    let flags = InstFlags::new();
    let flags = InstFlags { call: true, jumped: true, dest: Some(64), ..flags };
    execute(&flags, &mut machine, None, None).unwrap();
    assert_eq!(machine.registers.get(PC), 64);
    let flags = InstFlags::new();
    let flags = InstFlags { ret: true, jumped: false, ..flags };
    execute(&flags, &mut machine, None, None).unwrap();
    assert_eq!(machine.registers.get(PC), 32);
}

#[test]
fn alu_table_exact() {
    assert_eq!(alu::execute(&Some(AluOperation::Or), 0b1100, 0b1010), Ok(Some(0b1110)));
    assert_eq!(alu::execute(&Some(AluOperation::And), 0b1100, 0b1010), Ok(Some(0b1000)));
    assert_eq!(alu::execute(&Some(AluOperation::Xor), 0b1100, 0b1010), Ok(Some(0b0110)));
    assert_eq!(alu::execute(&Some(AluOperation::Not), 0b0000_1111, 99), Ok(Some(0b1111_0000)));
    assert_eq!(alu::execute(&Some(AluOperation::Add), 200, 100), Ok(Some(44)));
    assert_eq!(alu::execute(&Some(AluOperation::Sub), 10, 3), Ok(Some(7)));
    assert_eq!(alu::execute(&Some(AluOperation::LeftShift), 3, 2), Ok(Some(12)));
    assert_eq!(alu::execute(&Some(AluOperation::RightShift), 12, 2), Ok(Some(3)));
    assert_eq!(alu::execute(&Some(AluOperation::Mod), 17, 5), Ok(Some(2)));
    assert_eq!(alu::execute(&Some(AluOperation::Div), 17, 5), Ok(Some(3)));
    assert_eq!(alu::execute(&None, 5, 6), Ok(None));
}

#[test]
fn alu_faults() {
    assert_eq!(alu::execute(&Some(AluOperation::Sub), 5, 10), Err(Fault::Arithmetic));
    assert_eq!(alu::execute(&Some(AluOperation::LeftShift), 1, 8), Err(Fault::Arithmetic));
    assert_eq!(alu::execute(&Some(AluOperation::RightShift), 1, 9), Err(Fault::Arithmetic));
    for x in [0, 1, 77, 255] {
        assert_eq!(alu::execute(&Some(AluOperation::Div), x, 0), Err(Fault::Arithmetic));
        assert_eq!(alu::execute(&Some(AluOperation::Mod), x, 0), Err(Fault::Arithmetic));
    }
}

#[test]
fn branch_all_relations() {
    // (condition, left, right, expected taken)
    let cases = [
        (Condition::Equal, 1, 1, true),
        (Condition::Equal, 1, 2, false),
        (Condition::NotEqual, 1, 1, false),
        (Condition::NotEqual, 1, 2, true),
        (Condition::Less, 1, 2, true),
        (Condition::Less, 2, 1, false),
        (Condition::LessEqual, 2, 2, true),
        (Condition::LessEqual, 3, 2, false),
        (Condition::Greater, 3, 2, true),
        (Condition::Greater, 2, 3, false),
        (Condition::GreaterEqual, 2, 2, true),
        (Condition::GreaterEqual, 1, 2, false),
    ];
    for (cond, left, right, taken) in cases {
        let mut machine = Machine::load("0 0 0 0").unwrap();
        machine.registers.set(PC, 8);
        try_branch(&Some(cond), left, right, 64, &mut machine);
        if taken {
            assert_eq!(machine.registers.get(PC), 64);
        } else {
            assert_eq!(machine.registers.get(PC), 12);
        }
    }
}

#[test]
fn call_ret_round_trip() {
    let mut machine = Machine::load("0 0 0 0").unwrap();
    machine.registers.set(PC, 32);
    fun::call(64, &mut machine).unwrap();
    assert_eq!(machine.registers.get(PC), 64);
    assert_eq!(machine.stack.len(), 1);
    fun::ret(&mut machine).unwrap();
    assert_eq!(machine.registers.get(PC), 32);
    assert_eq!(machine.stack.len(), 0);
}

#[test]
fn ret_on_empty_stack_faults() {
    let mut machine = Machine::load("0 0 0 0").unwrap();
    assert_eq!(fun::ret(&mut machine), Err(Fault::Stack));
}

#[test]
fn call_on_full_stack_faults() {
    let mut machine = Machine::load("0 0 0 0").unwrap();
    for _ in 0..256 {
        fun::call(4, &mut machine).unwrap();
    }
    assert_eq!(fun::call(4, &mut machine), Err(Fault::Stack));
}

#[test]
fn memory_round_trip() {
    let mut machine = Machine::load("0 0 0 0").unwrap();
    machine.registers.set(ADDR, 1);
    mem::save(42, &mut machine);
    assert_eq!(mem::load(&machine), 42);
    assert_eq!(machine.memory[1], 42);
}

#[test]
fn store_writes_through_despite_missing_destination() {
    // a store decodes without a destination, yet its output reaches the
    // addressed data-storage cell
    let mut machine = Machine::load("0 0 0 0").unwrap();
    machine.registers.set(ADDR, 3);
    let flags = InstFlags {
        alu_op: Some(AluOperation::Or),
        left: (9, true),
        save: true,
        ..InstFlags::new()
    };
    assert_eq!(execute(&flags, &mut machine, None, None), Ok(None));
    assert_eq!(machine.memory[3], 9);
}

#[test]
fn immediate_beats_register_contents() {
    let mut machine = Machine::load("0 0 0 0").unwrap();
    machine.registers.set(2, 200);
    // left names the same byte once as a register, once as an immediate
    let reg_flags = InstFlags {
        alu_op: Some(AluOperation::Or),
        left: (2, false),
        dest: Some(0),
        ..InstFlags::new()
    };
    execute(&reg_flags, &mut machine, None, None).unwrap();
    assert_eq!(machine.registers.get(0), 200);
    let imm_flags = InstFlags {
        alu_op: Some(AluOperation::Or),
        left: (2, true),
        right: (0, true),
        dest: Some(0),
        ..InstFlags::new()
    };
    execute(&imm_flags, &mut machine, None, None).unwrap();
    assert_eq!(machine.registers.get(0), 2);
}

#[test]
fn io_operand_takes_the_supplied_input() {
    let mut machine = Machine::load("0 0 0 0").unwrap();
    machine.registers.set(IO, 111);
    let flags = InstFlags {
        alu_op: Some(AluOperation::Or),
        left: (IO, false),
        dest: Some(0),
        ..InstFlags::new()
    };
    assert_eq!(needs_input(&flags), (true, false));
    execute(&flags, &mut machine, Some(55), None).unwrap();
    // the input byte is used, not the I/O register's stored content
    assert_eq!(machine.registers.get(0), 55);
}

#[test]
fn io_operand_without_input_faults() {
    let mut machine = Machine::load("0 0 0 0").unwrap();
    let flags = InstFlags {
        alu_op: Some(AluOperation::Or),
        right: (IO, false),
        dest: Some(0),
        ..InstFlags::new()
    };
    assert_eq!(needs_input(&flags), (false, true));
    assert_eq!(execute(&flags, &mut machine, None, None), Err(Fault::Input));
}

#[test]
fn out_of_range_register_operand_faults() {
    let mut machine = Machine::load("0 0 0 0").unwrap();
    let flags = InstFlags {
        alu_op: Some(AluOperation::Or),
        left: (9, false),
        dest: Some(0),
        ..InstFlags::new()
    };
    assert_eq!(execute(&flags, &mut machine, None, None), Err(Fault::RegisterOutOfRange));
}

#[test]
fn out_of_range_destination_faults() {
    let mut machine = Machine::load("0 0 0 0").unwrap();
    let flags = InstFlags {
        alu_op: Some(AluOperation::Or),
        left: (1, true),
        dest: Some(8),
        ..InstFlags::new()
    };
    assert_eq!(execute(&flags, &mut machine, None, None), Err(Fault::RegisterOutOfRange));
}

#[test]
fn execute_output_to_io_destination() {
    let mut machine = Machine::load("0 0 0 0").unwrap();
    let flags = InstFlags {
        alu_op: Some(AluOperation::Or),
        left: (5, true),
        dest: Some(IO),
        ..InstFlags::new()
    };
    assert_eq!(execute(&flags, &mut machine, None, None), Ok(Some(5)));
    assert_eq!(machine.registers.get(IO), 0);
}
