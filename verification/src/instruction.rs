use vstd::prelude::*;
use crate::registers::{Register, XMMRegister, KRegister};
use crate::address::Address;

verus! {

/// The most operands an instruction can carry.
pub const MAX_OPERANDS: usize = 4;

/// An instruction's operation code, as a plain number.
#[derive(Clone, Copy, PartialEq, Eq, Structural, Debug)]
pub struct Opcode {
    pub code: u32,
}

/// One operand of an instruction. Unused operand slots hold `Operand::Empty`.
#[derive(Clone, Copy, PartialEq, Eq, Structural, Debug)]
pub enum Operand {
    Empty,
    Reg(Register),
    Xmm(XMMRegister),
    KReg(KRegister),
    Mem(Address),
    Imm(i64),
}

impl Default for Operand {
    fn default() -> (r: Operand)
        ensures
            r == Operand::Empty,
    {
        Operand::Empty
    }
}

/// Turns a list of operands into the fixed four slots of an instruction.
pub trait IntoOperands {
    fn into_operands(self) -> [Operand; 4];
}

impl<T> IntoOperands for [T; 0] {
    /// An empty operand list fills every slot with `Operand::Empty`.
    fn into_operands(self) -> (r: [Operand; 4])
        ensures
            forall|i: int| 0 <= i < 4 ==> r[i] == Operand::Empty,
    {
        [Operand::default(), Operand::default(), Operand::default(), Operand::default()]
    }
}

/// An instruction: an opcode and four operand slots.
pub struct Instruction {
    pub opcode: Opcode,
    pub operands: [Operand; 4],
}

impl Instruction {
    /// Builds an instruction from an opcode and up to four operands. The
    /// operands fill the first slots in order; the remaining slots hold
    /// `Operand::Empty`.
    pub fn new<const N: usize>(opcode: Opcode, operands: [Operand; N]) -> (r: Self)
        requires
            N <= MAX_OPERANDS,
        ensures
            r.opcode == opcode,
            forall|i: int| 0 <= i < N ==> r.operands[i] == operands[i],
            forall|i: int| N <= i < 4 ==> r.operands[i] == Operand::Empty,
    {
        let mut slots: [Operand; 4] = [Operand::Empty, Operand::Empty, Operand::Empty, Operand::Empty];
        let mut i: usize = 0;
        while i < N
            invariant
                N <= 4,
                i <= N,
                forall|j: int| 0 <= j < i ==> slots[j] == operands[j],
                forall|j: int| i <= j < 4 ==> slots[j] == Operand::Empty,
            decreases N - i,
        {
            slots[i] = operands[i];
            i = i + 1;
        }
        Instruction { opcode, operands: slots }
    }
}

} // verus!
