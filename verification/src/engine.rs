//! The execution engine: what each instruction does to the machine and
//! appends to the output, and the cycle of fetching an instruction,
//! executing it and advancing the instruction pointer.

use vstd::prelude::*;
use crate::arith::{
    flag, quotient_toward_zero, wrap, wrapping_difference, wrapping_product, wrapping_quotient,
    wrapping_sum,
};
use crate::diagnostics::{
    bracketed, dump, dump_text, nonzero_cells_text, push_bracketed, push_nonzero_cells,
};
use crate::instructions::Instructions;
use crate::machine::{Fault, Machine, MachineState, State};
use crate::registers::{reg_name, register_label, Registers};
use crate::text::{decimal, push_decimal, push_str};

verus! {

/// What a traced instruction's output starts with: the instruction pointer
/// and a dash. Without tracing there is no such prefix.
pub open spec fn prefix_text(ip: i32, details: bool) -> Seq<char> {
    if details {
        decimal(ip as int) + " - "@
    } else {
        Seq::empty()
    }
}

/// The trace line of an instruction with two operands: their values with
/// the instruction's symbol between them.
pub open spec fn operation_text(x: i32, symbol: Seq<char>, y: i32) -> Seq<char> {
    decimal(x as int) + symbol + decimal(y as int) + "\n"@
}

/// The trace lines of a jump to `target`, taken or not.
pub open spec fn jump_text(target: i32, taken: bool) -> Seq<char> {
    "Jumped to "@ + decimal(target as int) + "\n"@ + if taken {
        "Goto "@ + decimal(target as int) + "\n"@
    } else {
        "None\n"@
    }
}

/// The trace line of a push or a pop: an arrow and the value moved.
pub open spec fn transfer_text(arrow: Seq<char>, value: i32) -> Seq<char> {
    arrow + decimal(value as int) + "\n"@
}

/// The trace line of a move: the names of the two registers.
pub open spec fn move_text(a: Registers, b: Registers) -> Seq<char> {
    register_label(a.slot()) + " <-| "@ + register_label(b.slot()) + "\n"@
}

impl MachineState {
    /// The state after `instr`, or the fault with which `instr` fails. The
    /// instruction pointer is advanced by the cycle, not here.
    pub open spec fn apply(self, instr: Instructions) -> Result<MachineState, Fault> {
        match instr {
            Instructions::Psh(value) => self.push(value),
            Instructions::Pop => match self.pop() {
                Ok((after, _)) => Ok(after),
                Err(fault) => Err(fault),
            },
            Instructions::Add(a, b) => Ok(self.write(a, wrap(self.read(a) + self.read(b)))),
            Instructions::Sub(a, b) => Ok(self.write(a, wrap(self.read(a) - self.read(b)))),
            Instructions::Mul(a, b) => Ok(self.write(a, wrap(self.read(a) * self.read(b)))),
            Instructions::Div(a, b) => if self.read(b) == 0 {
                Err(Fault::DivisionByZero)
            } else {
                Ok(
                    self.write(
                        a,
                        wrap(quotient_toward_zero(self.read(a) as int, self.read(b) as int)),
                    ),
                )
            },
            Instructions::Mov(a, b) => if a == Registers::Ip {
                Ok(self.write(a, wrap(self.read(b) - 1)))
            } else {
                Ok(self.write(a, self.read(b)))
            },
            Instructions::Tee(a, b) => Ok(
                self.write(Registers::Eq, flag(self.read(a) == self.read(b))),
            ),
            Instructions::Tne(a, b) => Ok(
                self.write(Registers::Eq, flag(self.read(a) != self.read(b))),
            ),
            Instructions::Tll(a, b) => Ok(
                self.write(Registers::Eq, flag(self.read(a) < self.read(b))),
            ),
            Instructions::Tmm(a, b) => Ok(
                self.write(Registers::Eq, flag(self.read(a) > self.read(b))),
            ),
            Instructions::Tel(a, b) => Ok(
                self.write(Registers::Eq, flag(self.read(a) <= self.read(b))),
            ),
            Instructions::Tem(a, b) => Ok(
                self.write(Registers::Eq, flag(self.read(a) >= self.read(b))),
            ),
            Instructions::Jmp(target) => if target < 0 {
                Err(Fault::NegativeJumpTarget)
            } else if self.read(Registers::Eq) == 1 {
                Ok(self.write(Registers::Ip, (target - 1) as i32))
            } else {
                Ok(self)
            },
            Instructions::Hlt => Ok(MachineState { running: false, ..self }),
            Instructions::Dmp | Instructions::Drg(_) | Instructions::Dst | Instructions::Prt(_) => Ok(
                self,
            ),
        }
    }

    /// The line that tracing adds for `instr`, from the state before it.
    pub open spec fn trace_text(self, instr: Instructions) -> Seq<char> {
        match instr {
            Instructions::Psh(value) => transfer_text("-> "@, value),
            Instructions::Pop => transfer_text("<- "@, self.stack[self.read(Registers::Sp) as int]),
            Instructions::Add(a, b) => operation_text(self.read(a), " + "@, self.read(b)),
            Instructions::Sub(a, b) => operation_text(self.read(a), " - "@, self.read(b)),
            Instructions::Mul(a, b) => operation_text(self.read(a), " * "@, self.read(b)),
            Instructions::Div(a, b) => operation_text(self.read(a), " / "@, self.read(b)),
            Instructions::Mov(a, b) => move_text(a, b),
            Instructions::Tee(a, b) => operation_text(self.read(a), " == "@, self.read(b)),
            Instructions::Tne(a, b) => operation_text(self.read(a), " != "@, self.read(b)),
            Instructions::Tll(a, b) => operation_text(self.read(a), " < "@, self.read(b)),
            Instructions::Tmm(a, b) => operation_text(self.read(a), " > "@, self.read(b)),
            Instructions::Tel(a, b) => operation_text(self.read(a), "  <= "@, self.read(b)),
            Instructions::Tem(a, b) => operation_text(self.read(a), "  >= "@, self.read(b)),
            Instructions::Jmp(target) => jump_text(target, self.read(Registers::Eq) == 1),
            Instructions::Hlt => "Quit\n"@,
            Instructions::Dmp | Instructions::Drg(_) | Instructions::Dst | Instructions::Prt(
                _,
            ) => Seq::empty(),
        }
    }

    /// What `instr` renders whether traced or not, from the state before it.
    pub open spec fn rendered_text(self, instr: Instructions) -> Seq<char> {
        match instr {
            Instructions::Dmp => dump_text(self.registers, self.stack),
            Instructions::Drg(r) => bracketed(self.read(r)),
            Instructions::Dst => nonzero_cells_text(self.stack, self.stack.len()),
            Instructions::Prt(r) => if 0 <= self.read(r) < 256 {
                seq![self.read(r) as char]
            } else {
                Seq::empty()
            },
            _ => Seq::empty(),
        }
    }

    /// All that an instruction which succeeds appends to the output.
    pub open spec fn emitted(self, instr: Instructions, details: bool) -> Seq<char> {
        prefix_text(self.read(Registers::Ip), details) + self.rendered_text(instr) + if details {
            self.trace_text(instr)
        } else {
            Seq::empty()
        }
    }
}

/// Appends the trace prefix, if tracing.
fn trace_prefix(out: &mut Vec<char>, details: bool, ip: i32)
    ensures
        final(out)@ == old(out)@ + prefix_text(ip, details),
{
    if details {
        push_decimal(out, ip);
        push_str(out, " - ");
    }
}

/// Appends the trace prefix and the trace line of an instruction with two
/// operands, if tracing.
fn trace_operation(out: &mut Vec<char>, details: bool, ip: i32, x: i32, symbol: &str, y: i32)
    ensures
        final(out)@ == old(out)@ + prefix_text(ip, details) + if details {
            operation_text(x, symbol@, y)
        } else {
            Seq::empty()
        },
{
    if details {
        push_decimal(out, ip);
        push_str(out, " - ");
        push_decimal(out, x);
        push_str(out, symbol);
        push_decimal(out, y);
        push_str(out, "\n");
    }
}

/// Appends the trace prefix and the trace line of a push or a pop, if
/// tracing.
fn trace_transfer(out: &mut Vec<char>, details: bool, ip: i32, arrow: &str, value: i32)
    ensures
        final(out)@ == old(out)@ + prefix_text(ip, details) + if details {
            transfer_text(arrow@, value)
        } else {
            Seq::empty()
        },
{
    if details {
        push_decimal(out, ip);
        push_str(out, " - ");
        push_str(out, arrow);
        push_decimal(out, value);
        push_str(out, "\n");
    }
}

/// Whether `result`, `after` and `out_after` are what executing `instr`
/// makes of `before` and `out_before`: on success the next state and the
/// output extended by what the instruction emits; on a fault both unchanged.
spec fn executed(
    before: MachineState,
    out_before: Seq<char>,
    instr: Instructions,
    details: bool,
    result: Result<(), Fault>,
    after: MachineState,
    out_after: Seq<char>,
) -> bool {
    match before.apply(instr) {
        Ok(next) => {
            &&& result == Ok::<(), Fault>(())
            &&& after == next
            &&& out_after == out_before + before.emitted(instr, details)
        },
        Err(fault) => {
            &&& result == Err::<(), Fault>(fault)
            &&& after == before
            &&& out_after == out_before
        },
    }
}

/// Executes an instruction that only renders state.
fn eval_rendering(instr: Instructions, machine: &Machine, details: bool, out: &mut Vec<char>)
    requires
        instr is Dmp || instr is Drg || instr is Dst || instr is Prt,
    ensures
        executed(machine@, old(out)@, instr, details, Ok(()), machine@, final(out)@),
{
    trace_prefix(out, details, machine.read(Registers::Ip));
    match instr {
        Instructions::Dmp => dump(&machine.stack, &machine.registers, out),
        Instructions::Drg(reg) => push_bracketed(out, machine.read(reg)),
        Instructions::Dst => push_nonzero_cells(out, &machine.stack),
        Instructions::Prt(reg) => {
            let value = machine.read(reg);
            if 0 <= value && value < 256 {
                out.push(value as u8 as char);
            }
        },
        _ => {},
    }
    assert(out@ =~= old(out)@ + machine@.emitted(instr, details));
}

/// Executes a comparison.
fn eval_comparison(instr: Instructions, machine: &mut Machine, details: bool, out: &mut Vec<char>)
    requires
        instr is Tee || instr is Tne || instr is Tll || instr is Tmm || instr is Tel || instr is Tem,
    ensures
        executed(old(machine)@, old(out)@, instr, details, Ok(()), final(machine)@, final(out)@),
{
    let ip = machine.read(Registers::Ip);
    let holds = match instr {
        Instructions::Tee(a, b) => {
            trace_operation(out, details, ip, machine.read(a), " == ", machine.read(b));
            machine.read(a) == machine.read(b)
        },
        Instructions::Tne(a, b) => {
            trace_operation(out, details, ip, machine.read(a), " != ", machine.read(b));
            machine.read(a) != machine.read(b)
        },
        Instructions::Tll(a, b) => {
            trace_operation(out, details, ip, machine.read(a), " < ", machine.read(b));
            machine.read(a) < machine.read(b)
        },
        Instructions::Tmm(a, b) => {
            trace_operation(out, details, ip, machine.read(a), " > ", machine.read(b));
            machine.read(a) > machine.read(b)
        },
        Instructions::Tel(a, b) => {
            trace_operation(out, details, ip, machine.read(a), "  <= ", machine.read(b));
            machine.read(a) <= machine.read(b)
        },
        Instructions::Tem(a, b) => {
            trace_operation(out, details, ip, machine.read(a), "  >= ", machine.read(b));
            machine.read(a) >= machine.read(b)
        },
        _ => false,
    };
    machine.write(Registers::Eq, if holds { 1 } else { 0 });
    assert(out@ =~= old(out)@ + old(machine)@.emitted(instr, details));
}

/// Executes an arithmetic instruction.
fn eval_arithmetic(
    instr: Instructions,
    machine: &mut Machine,
    details: bool,
    out: &mut Vec<char>,
) -> (result: Result<(), Fault>)
    requires
        instr is Add || instr is Sub || instr is Mul || instr is Div,
    ensures
        executed(old(machine)@, old(out)@, instr, details, result, final(machine)@, final(out)@),
{
    let ip = machine.read(Registers::Ip);
    match instr {
        Instructions::Add(a, b) => {
            let x = machine.read(a);
            let y = machine.read(b);
            trace_operation(out, details, ip, x, " + ", y);
            machine.write(a, wrapping_sum(x, y));
        },
        Instructions::Sub(a, b) => {
            let x = machine.read(a);
            let y = machine.read(b);
            trace_operation(out, details, ip, x, " - ", y);
            machine.write(a, wrapping_difference(x, y));
        },
        Instructions::Mul(a, b) => {
            let x = machine.read(a);
            let y = machine.read(b);
            trace_operation(out, details, ip, x, " * ", y);
            machine.write(a, wrapping_product(x, y));
        },
        Instructions::Div(a, b) => {
            let x = machine.read(a);
            let y = machine.read(b);
            if y == 0 {
                return Err(Fault::DivisionByZero);
            }
            trace_operation(out, details, ip, x, " / ", y);
            machine.write(a, wrapping_quotient(x, y));
        },
        _ => {},
    }
    assert(out@ =~= old(out)@ + old(machine)@.emitted(instr, details));
    Ok(())
}

/// Executes a push, a pop or a move.
fn eval_transfer(
    instr: Instructions,
    machine: &mut Machine,
    details: bool,
    out: &mut Vec<char>,
) -> (result: Result<(), Fault>)
    requires
        instr is Psh || instr is Pop || instr is Mov,
    ensures
        executed(old(machine)@, old(out)@, instr, details, result, final(machine)@, final(out)@),
{
    let ip = machine.read(Registers::Ip);
    match instr {
        Instructions::Psh(value) => {
            match machine.push(value) {
                Ok(()) => {},
                Err(fault) => {
                    return Err(fault);
                },
            }
            trace_transfer(out, details, ip, "-> ", value);
        },
        Instructions::Pop => {
            let popped = match machine.pop() {
                Ok(value) => value,
                Err(fault) => {
                    return Err(fault);
                },
            };
            trace_transfer(out, details, ip, "<- ", popped);
        },
        Instructions::Mov(a, b) => {
            let value = machine.read(b);
            trace_prefix(out, details, ip);
            if details {
                push_str(out, reg_name(a.index() as i32));
                push_str(out, " <-| ");
                push_str(out, reg_name(b.index() as i32));
                push_str(out, "\n");
            }
            match a {
                Registers::Ip => machine.write(a, wrapping_difference(value, 1)),
                _ => machine.write(a, value),
            }
        },
        _ => {},
    }
    assert(out@ =~= old(out)@ + old(machine)@.emitted(instr, details));
    Ok(())
}

/// Executes a jump or a halt.
fn eval_control(
    instr: Instructions,
    machine: &mut Machine,
    details: bool,
    out: &mut Vec<char>,
) -> (result: Result<(), Fault>)
    requires
        instr is Jmp || instr is Hlt,
    ensures
        executed(old(machine)@, old(out)@, instr, details, result, final(machine)@, final(out)@),
{
    let ip = machine.read(Registers::Ip);
    match instr {
        Instructions::Jmp(target) => {
            if target < 0 {
                return Err(Fault::NegativeJumpTarget);
            }
            let taken = machine.read(Registers::Eq) == 1;
            trace_prefix(out, details, ip);
            if details {
                push_str(out, "Jumped to ");
                push_decimal(out, target);
                push_str(out, "\n");
                if taken {
                    push_str(out, "Goto ");
                    push_decimal(out, target);
                    push_str(out, "\n");
                } else {
                    push_str(out, "None\n");
                }
            }
            if taken {
                machine.write(Registers::Ip, target - 1);
            }
        },
        Instructions::Hlt => {
            trace_prefix(out, details, ip);
            if details {
                push_str(out, "Quit\n");
            }
            machine.state = State::Halted;
        },
        _ => {},
    }
    assert(out@ =~= old(out)@ + old(machine)@.emitted(instr, details));
    Ok(())
}

/// Executes `instr` on `machine` and appends to `out` what it prints; with
/// `details`, a trace line as well. An instruction that fails changes
/// neither the machine nor the output. The instruction pointer is left to
/// the cycle, but for a jump or a move into it, which store one less than
/// the instruction to go to.
pub fn eval(
    instr: Instructions,
    machine: &mut Machine,
    details: bool,
    out: &mut Vec<char>,
) -> (result: Result<(), Fault>)
    ensures
        match old(machine)@.apply(instr) {
            Ok(after) => {
                &&& result == Ok::<(), Fault>(())
                &&& final(machine)@ == after
                &&& final(out)@ == old(out)@ + old(machine)@.emitted(instr, details)
            },
            Err(fault) => {
                &&& result == Err::<(), Fault>(fault)
                &&& final(machine)@ == old(machine)@
                &&& final(out)@ == old(out)@
            },
        },
{
    match instr {
        Instructions::Dmp | Instructions::Drg(_) | Instructions::Dst | Instructions::Prt(_) => {
            eval_rendering(instr, machine, details, out);
            Ok(())
        },
        Instructions::Tee(_, _)
        | Instructions::Tne(_, _)
        | Instructions::Tll(_, _)
        | Instructions::Tmm(_, _)
        | Instructions::Tel(_, _)
        | Instructions::Tem(_, _) => {
            eval_comparison(instr, machine, details, out);
            Ok(())
        },
        Instructions::Add(_, _)
        | Instructions::Sub(_, _)
        | Instructions::Mul(_, _)
        | Instructions::Div(_, _) => eval_arithmetic(instr, machine, details, out),
        Instructions::Psh(_) | Instructions::Pop | Instructions::Mov(_, _) => eval_transfer(
            instr,
            machine,
            details,
            out,
        ),
        Instructions::Jmp(_) | Instructions::Hlt => eval_control(instr, machine, details, out),
    }
}

/// The instruction that `ip` names in `program`, or the fault of an
/// instruction pointer that is no index into it.
pub open spec fn fetched(program: Seq<Instructions>, ip: i32) -> Result<Instructions, Fault> {
    if 0 <= ip < program.len() {
        Ok(program[ip as int])
    } else {
        Err(Fault::ProgramCounterOutOfRange)
    }
}

impl MachineState {
    /// One cycle: fetch the instruction that the instruction pointer names,
    /// execute it, then advance the instruction pointer by one, wrapping. A
    /// halted machine stays as it is.
    pub open spec fn step(self, program: Seq<Instructions>) -> Result<MachineState, Fault> {
        if !self.running {
            Ok(self)
        } else {
            match fetched(program, self.read(Registers::Ip)) {
                Err(fault) => Err(fault),
                Ok(instr) => match self.apply(instr) {
                    Err(fault) => Err(fault),
                    Ok(after) => Ok(
                        after.write(Registers::Ip, wrap(after.read(Registers::Ip) + 1)),
                    ),
                },
            }
        }
    }

    /// What a cycle that succeeds appends to the output.
    pub open spec fn step_text(self, program: Seq<Instructions>, details: bool) -> Seq<char> {
        match fetched(program, self.read(Registers::Ip)) {
            Ok(instr) if self.running => self.emitted(instr, details),
            _ => Seq::empty(),
        }
    }

    /// The state after up to `steps` cycles, and the fault that cut them
    /// short, if one did; the state is then the one before the failing cycle.
    pub open spec fn run(self, program: Seq<Instructions>, steps: nat) -> (MachineState, Option<Fault>)
        decreases steps,
    {
        if steps == 0 {
            (self, None)
        } else {
            match self.step(program) {
                Err(fault) => (self, Some(fault)),
                Ok(next) => next.run(program, (steps - 1) as nat),
            }
        }
    }

    /// What up to `steps` cycles append to the output.
    pub open spec fn run_text(self, program: Seq<Instructions>, details: bool, steps: nat) -> Seq<char>
        decreases steps,
    {
        if steps == 0 {
            Seq::empty()
        } else {
            match self.step(program) {
                Err(_) => Seq::empty(),
                Ok(next) => self.step_text(program, details) + next.run_text(
                    program,
                    details,
                    (steps - 1) as nat,
                ),
            }
        }
    }
}

/// A halted machine runs no further: any number of cycles leaves it as it
/// is, without a fault and without output.
pub proof fn lemma_halted_machine_rests(
    state: MachineState,
    program: Seq<Instructions>,
    details: bool,
    steps: nat,
)
    requires
        !state.running,
    ensures
        state.run(program, steps) == (state, None::<Fault>),
        state.run_text(program, details, steps) == Seq::<char>::empty(),
    decreases steps,
{
    if steps > 0 {
        lemma_halted_machine_rests(state, program, details, (steps - 1) as nat);
    }
}

/// The instruction that `ip` names in `program`.
pub fn fetch(program: &Vec<Instructions>, ip: i32) -> (result: Result<Instructions, Fault>)
    ensures
        result == fetched(program@, ip),
{
    if ip < 0 {
        return Err(Fault::ProgramCounterOutOfRange);
    }
    let index = ip as usize;
    if index < program.len() {
        Ok(program[index])
    } else {
        Err(Fault::ProgramCounterOutOfRange)
    }
}

/// Runs one cycle of a running machine: fetches the instruction at the
/// instruction pointer, executes it and advances the instruction pointer. A
/// cycle that fails changes neither the machine nor the output.
pub fn step(
    program: &Vec<Instructions>,
    machine: &mut Machine,
    details: bool,
    out: &mut Vec<char>,
) -> (result: Result<(), Fault>)
    ensures
        match old(machine)@.step(program@) {
            Ok(after) => {
                &&& result == Ok::<(), Fault>(())
                &&& final(machine)@ == after
                &&& final(out)@ == old(out)@ + old(machine)@.step_text(program@, details)
            },
            Err(fault) => {
                &&& result == Err::<(), Fault>(fault)
                &&& final(machine)@ == old(machine)@
                &&& final(out)@ == old(out)@
            },
        },
{
    match machine.state {
        State::Halted => {
            return Ok(());
        },
        State::Running => {},
    }
    let instr = match fetch(program, machine.read(Registers::Ip)) {
        Ok(instr) => instr,
        Err(fault) => {
            return Err(fault);
        },
    };
    match eval(instr, machine, details, out) {
        Ok(()) => {},
        Err(fault) => {
            return Err(fault);
        },
    }
    let ip = machine.read(Registers::Ip);
    machine.write(Registers::Ip, wrapping_sum(ip, 1));
    Ok(())
}

/// Runs up to `max_steps` cycles, stopping early when the machine halts or
/// a cycle fails. Returns the fault, or else the state the machine is in:
/// still running if the cycles were used up.
pub fn run(
    program: &Vec<Instructions>,
    machine: &mut Machine,
    details: bool,
    out: &mut Vec<char>,
    max_steps: u64,
) -> (result: Result<State, Fault>)
    ensures
        final(machine)@ == old(machine)@.run(program@, max_steps as nat).0,
        final(out)@ == old(out)@ + old(machine)@.run_text(program@, details, max_steps as nat),
        result == match old(machine)@.run(program@, max_steps as nat).1 {
            Some(fault) => Err::<State, Fault>(fault),
            None => Ok::<State, Fault>(final(machine).state),
        },
{
    let mut remaining = max_steps;
    loop
        invariant
            old(machine)@.run(program@, max_steps as nat) == machine@.run(
                program@,
                remaining as nat,
            ),
            old(out)@ + old(machine)@.run_text(program@, details, max_steps as nat) == out@
                + machine@.run_text(program@, details, remaining as nat),
        decreases remaining,
    {
        if remaining == 0 {
            return Ok(machine.state);
        }
        match machine.state {
            State::Halted => {
                proof {
                    lemma_halted_machine_rests(machine@, program@, details, remaining as nat);
                }
                return Ok(State::Halted);
            },
            State::Running => {},
        }
        match step(program, machine, details, out) {
            Ok(()) => {},
            Err(fault) => {
                return Err(fault);
            },
        }
        remaining -= 1;
    }
}

} // verus!
