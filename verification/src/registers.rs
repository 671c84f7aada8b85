//! The register bank's roles and the total mapping from role to slot.

use vstd::prelude::*;

verus! {

/// Number of slots in the register bank.
pub const NUM_REGISTERS: usize = 10;

/// The roles of the slots of the register bank: six general-purpose
/// registers, the instruction pointer, the stack pointer, the mirror of the
/// top of the stack and the comparison flag.
#[derive(Copy, Clone, Debug, PartialEq, Eq, Structural)]
pub enum Registers {
    A,
    B,
    C,
    D,
    E,
    F,
    Ip,
    Sp,
    St,
    Eq,
}

impl Registers {
    /// The slot of the bank that holds this register.
    pub open spec fn slot(self) -> int {
        match self {
            Registers::A => 0,
            Registers::B => 1,
            Registers::C => 2,
            Registers::D => 3,
            Registers::E => 4,
            Registers::F => 5,
            Registers::Ip => 6,
            Registers::Sp => 7,
            Registers::St => 8,
            Registers::Eq => 9,
        }
    }

    /// The slot of the bank that holds this register, as an index.
    pub fn index(self) -> (i: usize)
        ensures
            i == self.slot(),
            i < NUM_REGISTERS,
    {
        match self {
            Registers::A => 0,
            Registers::B => 1,
            Registers::C => 2,
            Registers::D => 3,
            Registers::E => 4,
            Registers::F => 5,
            Registers::Ip => 6,
            Registers::Sp => 7,
            Registers::St => 8,
            Registers::Eq => 9,
        }
    }
}

/// Each register has a slot of its own in the bank.
pub proof fn lemma_slots_are_distinct(a: Registers, b: Registers)
    ensures
        0 <= a.slot() < NUM_REGISTERS,
        a.slot() == b.slot() <==> a == b,
{
}

/// The label of slot `reg` in rendered text; any number that is no slot of
/// the bank gets the placeholder.
pub open spec fn register_label(reg: int) -> Seq<char> {
    if reg == 0 {
        "A"@
    } else if reg == 1 {
        "B"@
    } else if reg == 2 {
        "C"@
    } else if reg == 3 {
        "D"@
    } else if reg == 4 {
        "E"@
    } else if reg == 5 {
        "F"@
    } else if reg == 6 {
        "Ip"@
    } else if reg == 7 {
        "Sp"@
    } else if reg == 8 {
        "St"@
    } else if reg == 9 {
        "Eq"@
    } else {
        "_ "@
    }
}

/// The name of the register held in slot `reg`.
pub fn reg_name(reg: i32) -> (name: &'static str)
    ensures
        name@ == register_label(reg as int),
{
    match reg {
        0 => "A",
        1 => "B",
        2 => "C",
        3 => "D",
        4 => "E",
        5 => "F",
        6 => "Ip",
        7 => "Sp",
        8 => "St",
        9 => "Eq",
        _ => "_ ",
    }
}

} // verus!
