//! Introspection: the text in which the register bank, the value stack and a
//! fault are rendered. Rendering reads the machine and never changes it.

use vstd::prelude::*;
use crate::instructions::Instructions;
use crate::machine::{Fault, Machine, MachineState, STACK_SIZE};
use crate::registers::{reg_name, register_label, Registers, NUM_REGISTERS};
use crate::text::{decimal, push_decimal, push_str};

verus! {

/// One value on a line of its own, in square brackets.
pub open spec fn bracketed(value: i32) -> Seq<char> {
    "["@ + decimal(value as int) + "]\n"@
}

/// The first `n` registers, each as its name, a colon and its value, each
/// followed by a comma.
pub open spec fn registers_text(registers: Seq<i32>, n: nat) -> Seq<char>
    decreases n,
{
    if n == 0 {
        Seq::empty()
    } else {
        registers_text(registers, (n - 1) as nat) + register_label(n - 1) + ": "@ + decimal(
            registers[n - 1] as int,
        ) + ", "@
    }
}

/// The first `n` cells of the stack, bottom first, separated by commas.
pub open spec fn cells_text(stack: Seq<i32>, n: nat) -> Seq<char>
    decreases n,
{
    if n == 0 {
        Seq::empty()
    } else if n == 1 {
        decimal(stack[0] as int)
    } else {
        cells_text(stack, (n - 1) as nat) + ", "@ + decimal(stack[n - 1] as int)
    }
}

/// Those of the first `n` cells of the stack that are not zero, bottom
/// first, each on a line of its own.
pub open spec fn nonzero_cells_text(stack: Seq<i32>, n: nat) -> Seq<char>
    decreases n,
{
    if n == 0 {
        Seq::empty()
    } else if stack[n - 1] == 0 {
        nonzero_cells_text(stack, (n - 1) as nat)
    } else {
        nonzero_cells_text(stack, (n - 1) as nat) + bracketed(stack[n - 1])
    }
}

/// The full dump: all registers by name on one line, an empty line, then
/// all cells of the stack in index order on one line.
pub open spec fn dump_text(registers: Seq<i32>, stack: Seq<i32>) -> Seq<char> {
    "["@ + registers_text(registers, registers.len()) + "]\n\nStack : ["@ + cells_text(
        stack,
        stack.len(),
    ) + "]\n"@
}

impl Fault {
    /// The name under which the fault is reported.
    pub open spec fn label(self) -> Seq<char> {
        match self {
            Fault::StackOverflow => "ERR_STACK_OVERFLOW"@,
            Fault::StackUnderflow => "ERR_STACK_UNDERFLOW"@,
            Fault::NegativeJumpTarget => "ERR_ATTEMPTED_TO_JUMP_TO_NEGATIVE_OPERATION_NUMBER"@,
            Fault::ProgramCounterOutOfRange => "ERR_PROGRAM_COUNTER_OUT_OF_RANGE"@,
            Fault::DivisionByZero => "ERR_DIVISION_BY_ZERO"@,
        }
    }

    /// The name under which the fault is reported.
    pub fn name(self) -> (name: &'static str)
        ensures
            name@ == self.label(),
    {
        match self {
            Fault::StackOverflow => "ERR_STACK_OVERFLOW",
            Fault::StackUnderflow => "ERR_STACK_UNDERFLOW",
            Fault::NegativeJumpTarget => "ERR_ATTEMPTED_TO_JUMP_TO_NEGATIVE_OPERATION_NUMBER",
            Fault::ProgramCounterOutOfRange => "ERR_PROGRAM_COUNTER_OUT_OF_RANGE",
            Fault::DivisionByZero => "ERR_DIVISION_BY_ZERO",
        }
    }
}

/// The report of a fault: its name, the instruction pointer at which it
/// struck, and the full dump of the machine as the fault left it.
pub open spec fn fault_text(fault: Fault, state: MachineState) -> Seq<char> {
    fault.label() + " at instruction "@ + decimal(state.read(Registers::Ip) as int) + "\n"@
        + dump_text(state.registers, state.stack)
}

/// Appends `value` in square brackets and a line break to `out`.
pub fn push_bracketed(out: &mut Vec<char>, value: i32)
    ensures
        final(out)@ == old(out)@ + bracketed(value),
{
    push_str(out, "[");
    push_decimal(out, value);
    push_str(out, "]\n");
}

/// Appends the non-zero cells of `stack` to `out`, one per line.
pub fn push_nonzero_cells(out: &mut Vec<char>, stack: &[i32; STACK_SIZE])
    ensures
        final(out)@ == old(out)@ + nonzero_cells_text(stack@, stack@.len()),
{
    let mut i: usize = 0;
    while i < STACK_SIZE
        invariant
            i <= STACK_SIZE,
            out@ == old(out)@ + nonzero_cells_text(stack@, i as nat),
        decreases STACK_SIZE - i,
    {
        if stack[i] != 0 {
            push_bracketed(out, stack[i]);
        }
        i += 1;
    }
}

/// Appends the full dump of the registers and the stack to `out`.
pub fn dump(stack: &[i32; STACK_SIZE], regs: &[i32; NUM_REGISTERS], out: &mut Vec<char>)
    ensures
        final(out)@ == old(out)@ + dump_text(regs@, stack@),
{
    push_str(out, "[");
    let mut i: usize = 0;
    while i < NUM_REGISTERS
        invariant
            i <= NUM_REGISTERS,
            out@ == old(out)@ + "["@ + registers_text(regs@, i as nat),
        decreases NUM_REGISTERS - i,
    {
        push_str(out, reg_name(i as i32));
        push_str(out, ": ");
        push_decimal(out, regs[i]);
        push_str(out, ", ");
        i += 1;
    }
    push_str(out, "]\n\nStack : [");
    let ghost head = out@;
    let mut j: usize = 0;
    while j < STACK_SIZE
        invariant
            j <= STACK_SIZE,
            out@ == head + cells_text(stack@, j as nat),
        decreases STACK_SIZE - j,
    {
        if j > 0 {
            push_str(out, ", ");
        }
        push_decimal(out, stack[j]);
        j += 1;
    }
    push_str(out, "]\n");
}

/// Appends the report of `fault`, which struck `machine`, to `out`.
pub fn report_fault(fault: Fault, machine: &Machine, out: &mut Vec<char>)
    ensures
        final(out)@ == old(out)@ + fault_text(fault, machine@),
{
    push_str(out, fault.name());
    push_str(out, " at instruction ");
    push_decimal(out, machine.read(Registers::Ip));
    push_str(out, "\n");
    dump(&machine.stack, &machine.registers, out);
}

/// An immediate operand in round brackets.
pub open spec fn immediate_operand_text(value: i32) -> Seq<char> {
    "("@ + decimal(value as int) + ")"@
}

/// A register operand in round brackets.
pub open spec fn register_operand_text(r: Registers) -> Seq<char> {
    "("@ + register_label(r.slot()) + ")"@
}

/// Two register operands in round brackets.
pub open spec fn register_pair_text(a: Registers, b: Registers) -> Seq<char> {
    "("@ + register_label(a.slot()) + ", "@ + register_label(b.slot()) + ")"@
}

impl Instructions {
    /// The three letters that name the opcode.
    pub open spec fn mnemonic(self) -> Seq<char> {
        match self {
            Instructions::Psh(_) => "Psh"@,
            Instructions::Add(_, _) => "Add"@,
            Instructions::Mul(_, _) => "Mul"@,
            Instructions::Div(_, _) => "Div"@,
            Instructions::Sub(_, _) => "Sub"@,
            Instructions::Pop => "Pop"@,
            Instructions::Mov(_, _) => "Mov"@,
            Instructions::Hlt => "Hlt"@,
            Instructions::Dst => "Dst"@,
            Instructions::Drg(_) => "Drg"@,
            Instructions::Dmp => "Dmp"@,
            Instructions::Prt(_) => "Prt"@,
            Instructions::Tee(_, _) => "Tee"@,
            Instructions::Tne(_, _) => "Tne"@,
            Instructions::Tll(_, _) => "Tll"@,
            Instructions::Tmm(_, _) => "Tmm"@,
            Instructions::Tel(_, _) => "Tel"@,
            Instructions::Tem(_, _) => "Tem"@,
            Instructions::Jmp(_) => "Jmp"@,
        }
    }

    /// The operands in round brackets: an immediate in decimal, a register
    /// by its name, two registers separated by a comma. Empty without
    /// operands.
    pub open spec fn operands_text(self) -> Seq<char> {
        match self {
            Instructions::Psh(value) | Instructions::Jmp(value) => immediate_operand_text(value),
            Instructions::Drg(r) | Instructions::Prt(r) => register_operand_text(r),
            Instructions::Add(a, b)
            | Instructions::Mul(a, b)
            | Instructions::Div(a, b)
            | Instructions::Sub(a, b)
            | Instructions::Mov(a, b)
            | Instructions::Tee(a, b)
            | Instructions::Tne(a, b)
            | Instructions::Tll(a, b)
            | Instructions::Tmm(a, b)
            | Instructions::Tel(a, b)
            | Instructions::Tem(a, b) => register_pair_text(a, b),
            Instructions::Pop | Instructions::Hlt | Instructions::Dst | Instructions::Dmp =>
                Seq::empty(),
        }
    }

    /// The instruction as it is listed: the mnemonic, then the operands.
    pub open spec fn listed(self) -> Seq<char> {
        self.mnemonic() + self.operands_text()
    }

    /// The three letters that name the opcode.
    pub fn name(self) -> (name: &'static str)
        ensures
            name@ == self.mnemonic(),
    {
        match self {
            Instructions::Psh(_) => "Psh",
            Instructions::Add(_, _) => "Add",
            Instructions::Mul(_, _) => "Mul",
            Instructions::Div(_, _) => "Div",
            Instructions::Sub(_, _) => "Sub",
            Instructions::Pop => "Pop",
            Instructions::Mov(_, _) => "Mov",
            Instructions::Hlt => "Hlt",
            Instructions::Dst => "Dst",
            Instructions::Drg(_) => "Drg",
            Instructions::Dmp => "Dmp",
            Instructions::Prt(_) => "Prt",
            Instructions::Tee(_, _) => "Tee",
            Instructions::Tne(_, _) => "Tne",
            Instructions::Tll(_, _) => "Tll",
            Instructions::Tmm(_, _) => "Tmm",
            Instructions::Tel(_, _) => "Tel",
            Instructions::Tem(_, _) => "Tem",
            Instructions::Jmp(_) => "Jmp",
        }
    }
}

/// The first `n` instructions of `program` as they are listed, separated by
/// commas.
pub open spec fn listing_text(program: Seq<Instructions>, n: nat) -> Seq<char>
    decreases n,
{
    if n == 0 {
        Seq::empty()
    } else if n == 1 {
        program[0].listed()
    } else {
        listing_text(program, (n - 1) as nat) + ", "@ + program[n - 1].listed()
    }
}

/// The listing of a whole program in square brackets, with a rule below it.
pub open spec fn program_text(program: Seq<Instructions>) -> Seq<char> {
    "["@ + listing_text(program, program.len()) + "]\n==============================\n"@
}

/// Appends an immediate operand in round brackets to `out`.
fn push_immediate_operand(out: &mut Vec<char>, value: i32)
    ensures
        final(out)@ == old(out)@ + immediate_operand_text(value),
{
    push_str(out, "(");
    push_decimal(out, value);
    push_str(out, ")");
}

/// Appends a register operand in round brackets to `out`.
fn push_register_operand(out: &mut Vec<char>, r: Registers)
    ensures
        final(out)@ == old(out)@ + register_operand_text(r),
{
    push_str(out, "(");
    push_str(out, reg_name(r.index() as i32));
    push_str(out, ")");
}

/// Appends two register operands in round brackets to `out`.
fn push_register_pair(out: &mut Vec<char>, a: Registers, b: Registers)
    ensures
        final(out)@ == old(out)@ + register_pair_text(a, b),
{
    push_str(out, "(");
    push_str(out, reg_name(a.index() as i32));
    push_str(out, ", ");
    push_str(out, reg_name(b.index() as i32));
    push_str(out, ")");
}

/// Appends `instr` as it is listed to `out`.
pub fn push_instruction(out: &mut Vec<char>, instr: Instructions)
    ensures
        final(out)@ == old(out)@ + instr.listed(),
{
    push_str(out, instr.name());
    match instr {
        Instructions::Psh(value) | Instructions::Jmp(value) => push_immediate_operand(out, value),
        Instructions::Drg(r) | Instructions::Prt(r) => push_register_operand(out, r),
        Instructions::Add(a, b)
        | Instructions::Mul(a, b)
        | Instructions::Div(a, b)
        | Instructions::Sub(a, b)
        | Instructions::Mov(a, b)
        | Instructions::Tee(a, b)
        | Instructions::Tne(a, b)
        | Instructions::Tll(a, b)
        | Instructions::Tmm(a, b)
        | Instructions::Tel(a, b)
        | Instructions::Tem(a, b) => push_register_pair(out, a, b),
        Instructions::Pop | Instructions::Hlt | Instructions::Dst | Instructions::Dmp => {},
    }
}

/// Appends the listing of `program` to `out`.
pub fn list_program(program: &Vec<Instructions>, out: &mut Vec<char>)
    ensures
        final(out)@ == old(out)@ + program_text(program@),
{
    push_str(out, "[");
    let ghost head = out@;
    let mut i: usize = 0;
    while i < program.len()
        invariant
            i <= program.len(),
            out@ == head + listing_text(program@, i as nat),
        decreases program.len() - i,
    {
        if i > 0 {
            push_str(out, ", ");
        }
        push_instruction(out, program[i]);
        i += 1;
    }
    push_str(out, "]\n==============================\n");
}

} // verus!
