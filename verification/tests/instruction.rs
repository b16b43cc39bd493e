use assembler::instruction::{Instruction, IntoOperands, Opcode, Operand, MAX_OPERANDS};
use assembler::registers::Register;

#[test]
fn instruction_fills_unused_slots() {
    let r = Register::new(3);
    let i = Instruction::new(Opcode { code: 7 }, [Operand::Reg(r), Operand::Imm(-5)]);
    assert_eq!(i.opcode, Opcode { code: 7 });
    assert_eq!(i.operands, [Operand::Reg(r), Operand::Imm(-5), Operand::Empty, Operand::Empty]);
}

#[test]
fn instruction_with_no_operands() {
    let i = Instruction::new(Opcode { code: 1 }, []);
    assert_eq!(i.operands, [Operand::Empty; 4]);
}

#[test]
fn instruction_with_all_operands() {
    let ops = [Operand::Imm(1), Operand::Imm(2), Operand::Imm(3), Operand::Imm(4)];
    let i = Instruction::new(Opcode { code: 2 }, ops);
    assert_eq!(i.operands, ops);
    assert_eq!(MAX_OPERANDS, 4);
}

#[test]
fn empty_operand_list_converts_to_empty_slots() {
    let none: [u8; 0] = [];
    assert_eq!(none.into_operands(), [Operand::Empty; 4]);
    assert_eq!(Operand::default(), Operand::Empty);
}
