//! Laws of the machine and of the assembler: what holds of the stack
//! discipline, of the comparisons, of jumps and of arithmetic in every
//! state, and of every instruction that is written as text.

use vstd::prelude::*;
use crate::arith::{magnitude, quotient_toward_zero, wrap};
use crate::assembler::{
    immediate_of, instruction_of, is_plain, lowercase, number_value, plain, register_named,
    takes_immediate, takes_pair, takes_register, with_immediate, with_pair, with_register,
    SyntaxError,
};
use crate::engine::fetched;
use crate::instructions::Instructions;
use crate::machine::{Fault, MachineState};
use crate::registers::{lemma_slots_are_distinct, register_label, Registers};
use crate::text::{decimal, digit, digits};

verus! {

/// Reducing to 32 bits changes no integer that fits in 32 bits, and changes
/// any other by a multiple of 2^32.
pub proof fn lemma_wrap(x: int)
    ensures
        i32::MIN <= x <= i32::MAX ==> wrap(x) == x,
        (x - wrap(x)) % 0x1_0000_0000 == 0,
{
}

/// The quotient rounded toward zero leaves a remainder that is smaller in
/// magnitude than the divisor and is zero or has the sign of the dividend.
pub proof fn lemma_quotient_toward_zero(a: int, b: int)
    by (nonlinear_arith)
    requires
        b != 0,
    ensures
        magnitude(a - quotient_toward_zero(a, b) * b) < magnitude(b),
        a >= 0 ==> a - quotient_toward_zero(a, b) * b >= 0,
        a <= 0 ==> a - quotient_toward_zero(a, b) * b <= 0,
{
}

/// A push that succeeds, followed at once by a pop, gives back the value
/// pushed and restores the stack pointer.
pub proof fn lemma_push_then_pop(state: MachineState, value: i32)
    requires
        state.wf(),
    ensures
        state.push(value) matches Ok(pushed) ==> {
            &&& pushed.pop() matches Ok((popped, top))
            &&& top == value
            &&& popped.read(Registers::Sp) == state.read(Registers::Sp)
            &&& popped.running == state.running
            &&& forall|r: Registers|
                r != Registers::St ==> popped.read(r) == #[trigger] state.read(r)
        },
{
}

/// A push overflows when the stack pointer names the last cell; with the
/// stack pointer in bounds below the last cell it succeeds, and the stack
/// pointer stays in bounds.
pub proof fn lemma_push_overflows_only_when_full(state: MachineState, value: i32)
    requires
        state.wf(),
    ensures
        state.read(Registers::Sp) + 1 == state.stack.len() ==> state.push(value) == Err::<
            MachineState,
            Fault,
        >(Fault::StackOverflow),
        state.stack_pointer_in_bounds() && state.read(Registers::Sp) + 1 < state.stack.len() ==> {
            &&& state.push(value) matches Ok(pushed)
            &&& pushed.stack_pointer_in_bounds()
            &&& pushed.read(Registers::Sp) == state.read(Registers::Sp) + 1
            &&& pushed.top() == Some(value)
            &&& pushed.read(Registers::St) == value
        },
{
}

/// A pop underflows when the stack is empty, and whenever the stack
/// pointer is negative; popping the one remaining element succeeds, and
/// leaves the stack empty and the mirror register zero.
pub proof fn lemma_pop_underflows_only_when_empty(state: MachineState)
    requires
        state.wf(),
    ensures
        state.read(Registers::Sp) < 0 ==> state.pop() == Err::<(MachineState, i32), Fault>(
            Fault::StackUnderflow,
        ),
        state.read(Registers::Sp) == 0 ==> {
            &&& state.pop() matches Ok((popped, top))
            &&& top == state.stack[0]
            &&& popped.read(Registers::Sp) == -1
            &&& popped.read(Registers::St) == 0
            &&& popped.top() is None
        },
        state.stack_pointer_in_bounds() && state.read(Registers::Sp) >= 0 ==> {
            &&& state.pop() matches Ok((popped, top))
            &&& Some(top) == state.top()
            &&& popped.stack_pointer_in_bounds()
            &&& popped.read(Registers::Sp) == state.read(Registers::Sp) - 1
            &&& popped.stack == state.stack
        },
{
}

/// After each comparison the flag register holds 1 if the comparison holds
/// of the two operands' values and 0 if it does not; nothing else changes.
pub proof fn lemma_comparisons_set_the_flag(state: MachineState, a: Registers, b: Registers)
    requires
        state.wf(),
    ensures
        state.apply(Instructions::Tee(a, b)) == Ok::<MachineState, Fault>(
            state.write(Registers::Eq, if state.read(a) == state.read(b) { 1i32 } else { 0i32 }),
        ),
        state.apply(Instructions::Tne(a, b)) == Ok::<MachineState, Fault>(
            state.write(Registers::Eq, if state.read(a) != state.read(b) { 1i32 } else { 0i32 }),
        ),
        state.apply(Instructions::Tll(a, b)) == Ok::<MachineState, Fault>(
            state.write(Registers::Eq, if state.read(a) < state.read(b) { 1i32 } else { 0i32 }),
        ),
        state.apply(Instructions::Tmm(a, b)) == Ok::<MachineState, Fault>(
            state.write(Registers::Eq, if state.read(a) > state.read(b) { 1i32 } else { 0i32 }),
        ),
        state.apply(Instructions::Tel(a, b)) == Ok::<MachineState, Fault>(
            state.write(Registers::Eq, if state.read(a) <= state.read(b) { 1i32 } else { 0i32 }),
        ),
        state.apply(Instructions::Tem(a, b)) == Ok::<MachineState, Fault>(
            state.write(Registers::Eq, if state.read(a) >= state.read(b) { 1i32 } else { 0i32 }),
        ),
        forall|value: i32| #[trigger] state.write(Registers::Eq, value).read(Registers::Eq) == value,
{
}

/// A cycle that executes a jump to a target that is not negative continues
/// at the target when the flag register holds 1, and at the next instruction
/// when it holds anything else; nothing but the instruction pointer changes.
pub proof fn lemma_jump_resumes_at_target(
    state: MachineState,
    program: Seq<Instructions>,
    target: i32,
)
    requires
        state.wf(),
        state.running,
        fetched(program, state.read(Registers::Ip)) == Ok::<Instructions, Fault>(
            Instructions::Jmp(target),
        ),
        target >= 0,
    ensures
        state.read(Registers::Eq) == 1 ==> state.step(program) == Ok::<MachineState, Fault>(
            state.write(Registers::Ip, target),
        ),
        state.read(Registers::Eq) != 1 ==> state.step(program) == Ok::<MachineState, Fault>(
            state.write(Registers::Ip, wrap(state.read(Registers::Ip) + 1)),
        ),
        state.read(Registers::Ip) < i32::MAX ==> wrap(state.read(Registers::Ip) + 1)
            == state.read(Registers::Ip) + 1,
{
    if state.read(Registers::Eq) == 1 {
        let jumped = state.write(Registers::Ip, (target - 1) as i32);
        assert(jumped.write(Registers::Ip, wrap(jumped.read(Registers::Ip) + 1)).registers
            =~= state.write(Registers::Ip, target).registers);
    }
}

/// A jump to a negative target is a fault, whatever the flag register holds.
pub proof fn lemma_negative_jump_faults(state: MachineState, target: i32)
    requires
        target < 0,
    ensures
        state.apply(Instructions::Jmp(target)) == Err::<MachineState, Fault>(
            Fault::NegativeJumpTarget,
        ),
{
}

/// A cycle that executes a move into the instruction pointer continues at
/// the instruction that the moved value names, as a jump that is taken does;
/// nothing but the instruction pointer changes.
pub proof fn lemma_move_into_instruction_pointer_jumps(
    state: MachineState,
    program: Seq<Instructions>,
    b: Registers,
)
    requires
        state.wf(),
        state.running,
        fetched(program, state.read(Registers::Ip)) == Ok::<Instructions, Fault>(
            Instructions::Mov(Registers::Ip, b),
        ),
    ensures
        state.step(program) == Ok::<MachineState, Fault>(
            state.write(Registers::Ip, state.read(b)),
        ),
{
    let moved = state.write(Registers::Ip, wrap(state.read(b) - 1));
    assert(moved.write(Registers::Ip, wrap(moved.read(Registers::Ip) + 1)).registers
        =~= state.write(Registers::Ip, state.read(b)).registers);
}

/// A machine halts by the halt instruction and by nothing else, and the
/// halt instruction changes nothing but the run state.
pub proof fn lemma_only_halt_halts(state: MachineState, instr: Instructions)
    requires
        state.wf(),
    ensures
        state.apply(instr) matches Ok(after) ==> after.running == (state.running && !(instr is Hlt)),
        state.apply(Instructions::Hlt) == Ok::<MachineState, Fault>(
            (MachineState { running: false, ..state }),
        ),
{
}

/// An instruction that only renders state succeeds and leaves the machine
/// as it is.
pub proof fn lemma_rendering_changes_nothing(state: MachineState, instr: Instructions)
    requires
        instr is Dmp || instr is Drg || instr is Dst || instr is Prt,
    ensures
        state.apply(instr) == Ok::<MachineState, Fault>(state),
{
}

/// An arithmetic instruction that succeeds changes the register of its
/// first operand and nothing else: every other register, the second
/// operand's among them when it is another one, the stack and the run state
/// stay as they were.
pub proof fn lemma_arithmetic_writes_first_operand_only(state: MachineState, instr: Instructions)
    requires
        state.wf(),
        instr.arithmetic_operands() is Some,
    ensures
        state.apply(instr) matches Ok(after) ==> {
            let (a, b) = instr.arithmetic_operands()->Some_0;
            &&& forall|r: Registers| r != a ==> after.read(r) == #[trigger] state.read(r)
            &&& a != b ==> after.read(b) == state.read(b)
            &&& after.stack == state.stack
            &&& after.running == state.running
        },
{
}

/// What each arithmetic instruction stores in the register of its first
/// operand: the sum, difference, product or quotient of the two operands'
/// values, reduced to 32 bits.
pub proof fn lemma_arithmetic_results(state: MachineState, a: Registers, b: Registers)
    requires
        state.wf(),
    ensures
        state.apply(Instructions::Add(a, b)) matches Ok(after) && after.read(a) == wrap(
            state.read(a) + state.read(b),
        ),
        state.apply(Instructions::Sub(a, b)) matches Ok(after) && after.read(a) == wrap(
            state.read(a) - state.read(b),
        ),
        state.apply(Instructions::Mul(a, b)) matches Ok(after) && after.read(a) == wrap(
            state.read(a) * state.read(b),
        ),
        state.read(b) != 0 ==> (state.apply(Instructions::Div(a, b)) matches Ok(after)
            && after.read(a) == wrap(
            quotient_toward_zero(state.read(a) as int, state.read(b) as int),
        )),
{
}

/// A division faults exactly when the divisor register holds zero.
pub proof fn lemma_division_by_zero_faults(state: MachineState, a: Registers, b: Registers)
    ensures
        state.read(b) == 0 ==> state.apply(Instructions::Div(a, b)) == Err::<MachineState, Fault>(
            Fault::DivisionByZero,
        ),
        state.read(b) != 0 ==> state.apply(Instructions::Div(a, b)) is Ok,
{
}

/// Every instruction that succeeds keeps the shape of the machine, and keeps
/// the stack pointer in bounds unless it names the stack pointer as the
/// place of its result.
pub proof fn lemma_stack_pointer_stays_in_bounds(state: MachineState, instr: Instructions)
    requires
        state.wf(),
    ensures
        state.apply(instr) matches Ok(after) ==> {
            &&& after.wf()
            &&& after.stack.len() == state.stack.len()
            &&& state.stack_pointer_in_bounds() && instr.destination() != Some(Registers::Sp)
                ==> after.stack_pointer_in_bounds()
        },
{
    match instr {
        Instructions::Psh(_) | Instructions::Pop => {},
        Instructions::Jmp(_) | Instructions::Hlt => {},
        _ => match instr.destination() {
            Some(a) => lemma_slots_are_distinct(a, Registers::Sp),
            None => {},
        },
    }
}

/// The decimal digits of a number denote that number.
pub proof fn lemma_digits_denote_their_number(n: nat)
    ensures
        digits(n).len() > 0,
        '0' <= digits(n)[0] <= '9',
        number_value(digits(n)) == Some(n),
    decreases n,
{
    if n >= 10 {
        lemma_digits_denote_their_number(n / 10);
        assert(digits(n).drop_last() == digits(n / 10));
    }
}

/// The assembler reads every immediate back from its decimal rendering.
pub proof fn lemma_decimal_reads_back(value: i32)
    ensures
        immediate_of(decimal(value as int)) == Some(value),
{
    if value < 0 {
        lemma_digits_denote_their_number((-value) as nat);
        assert(decimal(value as int).drop_first() == digits((-value) as nat));
    } else {
        lemma_digits_denote_their_number(value as nat);
    }
}

/// A run of `first + second` cycles is a run of `first` cycles followed,
/// if no fault cut it short, by a run of `second` cycles from where it
/// ended; the output is that of the one followed by that of the other.
pub proof fn lemma_run_continues(
    state: MachineState,
    program: Seq<Instructions>,
    details: bool,
    first: nat,
    second: nat,
)
    ensures
        state.run(program, first).1 is Some ==> state.run(program, first + second) == state.run(
            program,
            first,
        ) && state.run_text(program, details, first + second) == state.run_text(
            program,
            details,
            first,
        ),
        state.run(program, first).1 is None ==> state.run(program, first + second) == state.run(
            program,
            first,
        ).0.run(program, second) && state.run_text(program, details, first + second)
            == state.run_text(program, details, first) + state.run(program, first).0.run_text(
            program,
            details,
            second,
        ),
    decreases first,
{
    if first > 0 {
        if let Ok(next) = state.step(program) {
            lemma_run_continues(next, program, details, (first - 1) as nat, second);
        }
    }
}

/// The assembler knows every register by the name under which a dump
/// lists it.
pub proof fn lemma_register_names_read_back(r: Registers)
    ensures
        register_named(register_label(r.slot())) == Some(r),
{
    reveal_strlit("A");
    reveal_strlit("B");
    reveal_strlit("C");
    reveal_strlit("D");
    reveal_strlit("E");
    reveal_strlit("F");
    reveal_strlit("Ip");
    reveal_strlit("Sp");
    reveal_strlit("St");
    reveal_strlit("Eq");
    reveal_strlit("a");
    reveal_strlit("b");
    reveal_strlit("c");
    reveal_strlit("d");
    reveal_strlit("e");
    reveal_strlit("f");
    reveal_strlit("ip");
    reveal_strlit("sp");
    reveal_strlit("st");
    reveal_strlit("eq");
    let name = lowercase(register_label(r.slot()));
    match r {
        Registers::A => assert(name =~= "a"@),
        Registers::B => assert(name =~= "b"@ && name[0] == 'b'),
        Registers::C => assert(name =~= "c"@ && name[0] == 'c'),
        Registers::D => assert(name =~= "d"@ && name[0] == 'd'),
        Registers::E => assert(name =~= "e"@ && name[0] == 'e'),
        Registers::F => assert(name =~= "f"@ && name[0] == 'f'),
        Registers::Ip => assert(name =~= "ip"@ && name[0] == 'i'),
        Registers::Sp => assert(name =~= "sp"@ && name[0] == 's'),
        Registers::St => assert(name =~= "st"@ && name[1] == 't'),
        Registers::Eq => assert(name =~= "eq"@ && name[0] == 'e'),
    }
}

/// The mnemonic of every instruction, in lower case, is the one that the
/// assembler knows it by.
proof fn lemma_mnemonics_read_back(instr: Instructions)
    ensures
        ({
            let name = lowercase(instr.mnemonic());
            match instr {
                Instructions::Pop | Instructions::Hlt | Instructions::Dst | Instructions::Dmp => {
                    is_plain(name) && plain(name) == instr
                },
                Instructions::Psh(value) | Instructions::Jmp(value) => {
                    !is_plain(name) && takes_immediate(name) && with_immediate(name, value)
                        == instr
                },
                Instructions::Drg(r) | Instructions::Prt(r) => {
                    !is_plain(name) && !takes_immediate(name) && takes_register(name)
                        && with_register(name, r) == instr
                },
                Instructions::Add(a, b)
                | Instructions::Mul(a, b)
                | Instructions::Div(a, b)
                | Instructions::Sub(a, b)
                | Instructions::Mov(a, b)
                | Instructions::Tee(a, b)
                | Instructions::Tne(a, b)
                | Instructions::Tll(a, b)
                | Instructions::Tmm(a, b)
                | Instructions::Tel(a, b)
                | Instructions::Tem(a, b) => {
                    !is_plain(name) && !takes_immediate(name) && !takes_register(name)
                        && takes_pair(name) && with_pair(name, a, b) == instr
                },
            }
        }),
{
    reveal_strlit("Psh");
    reveal_strlit("Add");
    reveal_strlit("Mul");
    reveal_strlit("Div");
    reveal_strlit("Sub");
    reveal_strlit("Pop");
    reveal_strlit("Mov");
    reveal_strlit("Hlt");
    reveal_strlit("Dst");
    reveal_strlit("Drg");
    reveal_strlit("Dmp");
    reveal_strlit("Prt");
    reveal_strlit("Tee");
    reveal_strlit("Tne");
    reveal_strlit("Tll");
    reveal_strlit("Tmm");
    reveal_strlit("Tel");
    reveal_strlit("Tem");
    reveal_strlit("Jmp");
    reveal_strlit("psh");
    reveal_strlit("add");
    reveal_strlit("mul");
    reveal_strlit("div");
    reveal_strlit("sub");
    reveal_strlit("pop");
    reveal_strlit("mov");
    reveal_strlit("hlt");
    reveal_strlit("dst");
    reveal_strlit("drg");
    reveal_strlit("dmp");
    reveal_strlit("prt");
    reveal_strlit("tee");
    reveal_strlit("tne");
    reveal_strlit("tll");
    reveal_strlit("tmm");
    reveal_strlit("tel");
    reveal_strlit("tem");
    reveal_strlit("jmp");
    let name = lowercase(instr.mnemonic());
    assert(name[0] == crate::assembler::lower(instr.mnemonic()[0]));
    assert(name[1] == instr.mnemonic()[1]);
    assert(name[2] == instr.mnemonic()[2]);
    match instr {
        Instructions::Psh(_) => assert(name =~= "psh"@),
        Instructions::Add(_, _) => assert(name =~= "add"@),
        Instructions::Mul(_, _) => assert(name =~= "mul"@),
        Instructions::Div(_, _) => assert(name =~= "div"@),
        Instructions::Sub(_, _) => assert(name =~= "sub"@),
        Instructions::Pop => assert(name =~= "pop"@),
        Instructions::Mov(_, _) => assert(name =~= "mov"@),
        Instructions::Hlt => assert(name =~= "hlt"@),
        Instructions::Dst => assert(name =~= "dst"@),
        Instructions::Drg(_) => assert(name =~= "drg"@),
        Instructions::Dmp => assert(name =~= "dmp"@),
        Instructions::Prt(_) => assert(name =~= "prt"@),
        Instructions::Tee(_, _) => assert(name =~= "tee"@),
        Instructions::Tne(_, _) => assert(name =~= "tne"@),
        Instructions::Tll(_, _) => assert(name =~= "tll"@),
        Instructions::Tmm(_, _) => assert(name =~= "tmm"@),
        Instructions::Tel(_, _) => assert(name =~= "tel"@),
        Instructions::Tem(_, _) => assert(name =~= "tem"@),
        Instructions::Jmp(_) => assert(name =~= "jmp"@),
    }
}

/// Every instruction can be written: the assembler reads it back from its
/// mnemonic followed by its operands, an immediate in decimal and a register
/// by its name.
pub proof fn lemma_instructions_read_back(instr: Instructions)
    ensures
        instruction_of(instr.written()) == Ok::<Option<Instructions>, SyntaxError>(Some(instr)),
{
    lemma_mnemonics_read_back(instr);
    match instr {
        Instructions::Psh(value) | Instructions::Jmp(value) => {
            lemma_decimal_reads_back(value);
        },
        Instructions::Drg(r) | Instructions::Prt(r) => {
            lemma_register_names_read_back(r);
        },
        Instructions::Add(a, b)
        | Instructions::Mul(a, b)
        | Instructions::Div(a, b)
        | Instructions::Sub(a, b)
        | Instructions::Mov(a, b)
        | Instructions::Tee(a, b)
        | Instructions::Tne(a, b)
        | Instructions::Tll(a, b)
        | Instructions::Tmm(a, b)
        | Instructions::Tel(a, b)
        | Instructions::Tem(a, b) => {
            lemma_register_names_read_back(a);
            lemma_register_names_read_back(b);
        },
        Instructions::Pop | Instructions::Hlt | Instructions::Dst | Instructions::Dmp => {},
    }
}

} // verus!
