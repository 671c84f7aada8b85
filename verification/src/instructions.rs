//! The instruction set: a closed set of opcodes, each with up to two
//! operands that are register references or signed immediates.

use vstd::prelude::*;
use crate::registers::Registers;

verus! {

/// One instruction of a program.
#[derive(Copy, Clone, Debug, PartialEq, Eq, Structural)]
pub enum Instructions {
    /// Push the immediate onto the value stack.
    Psh(i32),
    /// `a := a + b`, wrapping.
    Add(Registers, Registers),
    /// `a := a * b`, wrapping.
    Mul(Registers, Registers),
    /// `a := a / b`, rounding toward zero; a zero divisor is a fault.
    Div(Registers, Registers),
    /// `a := a - b`, wrapping.
    Sub(Registers, Registers),
    /// Pop the top of the value stack and discard it.
    Pop,
    /// `a := b`; one less when `a` is the instruction pointer.
    Mov(Registers, Registers),
    /// Halt the machine.
    Hlt,
    /// Render every non-zero cell of the value stack.
    Dst,
    /// Render the value of one register.
    Drg(Registers),
    /// Render the whole register bank and the whole value stack.
    Dmp,
    /// Write the register's value as one character, if it is below 256.
    Prt(Registers),
    /// `Eq := a == b`.
    Tee(Registers, Registers),
    /// `Eq := a != b`.
    Tne(Registers, Registers),
    /// `Eq := a < b`.
    Tll(Registers, Registers),
    /// `Eq := a > b`.
    Tmm(Registers, Registers),
    /// `Eq := a <= b`.
    Tel(Registers, Registers),
    /// `Eq := a >= b`.
    Tem(Registers, Registers),
    /// Continue at the given instruction if `Eq` is 1.
    Jmp(i32),
}

impl Instructions {
    /// The two operands of an arithmetic instruction: the register that
    /// takes the result, then the other.
    pub open spec fn arithmetic_operands(self) -> Option<(Registers, Registers)> {
        match self {
            Instructions::Add(a, b) => Some((a, b)),
            Instructions::Sub(a, b) => Some((a, b)),
            Instructions::Mul(a, b) => Some((a, b)),
            Instructions::Div(a, b) => Some((a, b)),
            _ => None,
        }
    }

    /// The register that the instruction names as the place of its result:
    /// the first operand of an arithmetic instruction or of a move.
    pub open spec fn destination(self) -> Option<Registers> {
        match self {
            Instructions::Mov(a, _) => Some(a),
            _ => match self.arithmetic_operands() {
                Some((a, _)) => Some(a),
                None => None,
            },
        }
    }

    /// Whether the instruction only renders state or halts: such an
    /// instruction is dropped when a program is prepared for a dump run.
    pub open spec fn is_introspection(self) -> bool {
        self is Prt || self is Drg || self is Dst || self is Dmp || self is Hlt
    }
}

/// Whether `instr` is kept when a program is prepared for a dump run.
pub fn is_valid(instr: Instructions) -> (valid: bool)
    ensures
        valid == !instr.is_introspection(),
{
    match instr {
        Instructions::Prt(_) => false,
        Instructions::Drg(_) => false,
        Instructions::Dst => false,
        Instructions::Dmp => false,
        Instructions::Hlt => false,
        _ => true,
    }
}

} // verus!
