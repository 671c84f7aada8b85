//! The machine's data: the register bank, the value stack and the run state,
//! with the stack discipline that the stack pointer imposes on them.

use vstd::prelude::*;
use crate::registers::{Registers, NUM_REGISTERS};

verus! {

/// Number of cells of the value stack.
pub const STACK_SIZE: usize = 255;

/// Whether the machine still executes instructions.
#[derive(Copy, Clone, Debug, PartialEq, Eq, Structural)]
pub enum State {
    Running,
    Halted,
}

/// The ways in which an instruction, or the fetch before it, fails. A fault
/// ends the run; the machine is left as it was before the failing step.
#[derive(Copy, Clone, Debug, PartialEq, Eq, Structural)]
pub enum Fault {
    /// A push found no free cell above the stack pointer.
    StackOverflow,
    /// A pop found the stack empty.
    StackUnderflow,
    /// A jump named a negative instruction number.
    NegativeJumpTarget,
    /// The instruction pointer is no index into the program.
    ProgramCounterOutOfRange,
    /// A division by a register that holds zero.
    DivisionByZero,
}

/// The mathematical content of a machine: what the registers and the stack
/// cells hold, and whether the machine runs.
pub struct MachineState {
    /// The register bank, by slot.
    pub registers: Seq<i32>,
    /// The cells of the value stack, bottom first.
    pub stack: Seq<i32>,
    /// Whether the machine has not halted.
    pub running: bool,
}

impl MachineState {
    /// The bank has one slot for each register; the stack has a cell at
    /// least, and no more cells than the stack pointer can name.
    pub open spec fn wf(self) -> bool {
        &&& self.registers.len() == NUM_REGISTERS
        &&& 0 < self.stack.len() <= i32::MAX
    }

    /// The state in which every run starts: all registers and cells zero,
    /// except the stack pointer, which marks the stack as empty.
    pub open spec fn initial() -> MachineState {
        MachineState {
            registers: Seq::new(
                NUM_REGISTERS as nat,
                |i: int| if i == Registers::Sp.slot() { -1i32 } else { 0i32 },
            ),
            stack: Seq::new(STACK_SIZE as nat, |i: int| 0i32),
            running: true,
        }
    }

    /// What register `r` holds.
    pub open spec fn read(self, r: Registers) -> i32 {
        self.registers[r.slot()]
    }

    /// The state with `value` in register `r` and all else unchanged.
    pub open spec fn write(self, r: Registers, value: i32) -> MachineState {
        MachineState { registers: self.registers.update(r.slot(), value), ..self }
    }

    /// The stack pointer is -1, for an empty stack, or the index of a cell.
    pub open spec fn stack_pointer_in_bounds(self) -> bool {
        -1 <= self.read(Registers::Sp) < self.stack.len()
    }

    /// The cell above the stack pointer exists.
    pub open spec fn has_room(self) -> bool {
        0 <= self.read(Registers::Sp) + 1 < self.stack.len()
    }

    /// Pushing `value`: the stack pointer moves up by one, the cell it then
    /// names and the mirror register take the value. Without a cell above the
    /// stack pointer the push overflows.
    pub open spec fn push(self, value: i32) -> Result<MachineState, Fault> {
        if self.has_room() {
            let sp = self.read(Registers::Sp) + 1;
            Ok(
                MachineState {
                    stack: self.stack.update(sp, value),
                    ..self.write(Registers::Sp, sp as i32).write(Registers::St, value)
                },
            )
        } else {
            Err(Fault::StackOverflow)
        }
    }

    /// Popping: the value of the cell that the stack pointer names comes out,
    /// the stack pointer moves down by one, and the mirror register takes the
    /// value of the cell that is then on top, or zero when none is left. A
    /// negative stack pointer underflows; one beyond the last cell overflows.
    pub open spec fn pop(self) -> Result<(MachineState, i32), Fault> {
        let sp = self.read(Registers::Sp);
        if sp < 0 {
            Err(Fault::StackUnderflow)
        } else if sp >= self.stack.len() {
            Err(Fault::StackOverflow)
        } else {
            let remaining = if sp == 0 { 0i32 } else { self.stack[sp - 1] };
            Ok(
                (
                    self.write(Registers::Sp, (sp - 1) as i32).write(Registers::St, remaining),
                    self.stack[sp as int],
                ),
            )
        }
    }

    /// The value on top of the stack, if the stack pointer names a cell.
    pub open spec fn top(self) -> Option<i32> {
        let sp = self.read(Registers::Sp);
        if 0 <= sp < self.stack.len() {
            Some(self.stack[sp as int])
        } else {
            None
        }
    }
}

/// A machine: ten registers, a stack of `STACK_SIZE` cells and the run state.
#[derive(Debug)]
pub struct Machine {
    /// The register bank, indexed by `Registers::index`.
    pub registers: [i32; NUM_REGISTERS],
    /// The value stack; the stack pointer register names its top cell.
    pub stack: [i32; STACK_SIZE],
    /// Whether the machine still runs.
    pub state: State,
}

impl View for Machine {
    type V = MachineState;

    open spec fn view(&self) -> MachineState {
        MachineState {
            registers: self.registers@,
            stack: self.stack@,
            running: self.state == State::Running,
        }
    }
}

impl Clone for Machine {
    fn clone(&self) -> (copy: Self)
        ensures
            copy == *self,
    {
        Machine { registers: self.registers, stack: self.stack, state: self.state }
    }
}

/// A machine in the initial state.
pub fn setup_environment() -> (machine: Machine)
    ensures
        machine@ == MachineState::initial(),
{
    let mut registers = [0i32; NUM_REGISTERS];
    registers[Registers::Sp.index()] = -1;
    let machine = Machine { registers, stack: [0i32; STACK_SIZE], state: State::Running };
    assert(machine@.registers =~= MachineState::initial().registers);
    assert(machine@.stack =~= MachineState::initial().stack);
    machine
}

impl Machine {
    /// Every machine has the ten registers and `STACK_SIZE` cells.
    pub proof fn lemma_shape(&self)
        ensures
            self@.wf(),
            self@.stack.len() == STACK_SIZE,
    {
    }

    /// What register `r` holds.
    pub fn read(&self, r: Registers) -> (value: i32)
        ensures
            value == self@.read(r),
    {
        self.registers[r.index()]
    }

    /// Stores `value` in register `r`.
    pub fn write(&mut self, r: Registers, value: i32)
        ensures
            final(self)@ == old(self)@.write(r, value),
    {
        self.registers[r.index()] = value;
    }

    /// Pushes `value` onto the stack, or reports the overflow and leaves the
    /// machine unchanged.
    pub fn push(&mut self, value: i32) -> (result: Result<(), Fault>)
        ensures
            match old(self)@.push(value) {
                Ok(after) => result == Ok::<(), Fault>(()) && final(self)@ == after,
                Err(fault) => result == Err::<(), Fault>(fault) && *final(self) == *old(self),
            },
    {
        let sp = self.registers[Registers::Sp.index()];
        if sp < -1 || sp >= (STACK_SIZE - 1) as i32 {
            return Err(Fault::StackOverflow);
        }
        let above = sp + 1;
        self.registers[Registers::Sp.index()] = above;
        self.stack[above as usize] = value;
        self.registers[Registers::St.index()] = value;
        Ok(())
    }

    /// Pops the top of the stack, or reports the fault and leaves the machine
    /// unchanged.
    pub fn pop(&mut self) -> (result: Result<i32, Fault>)
        ensures
            match old(self)@.pop() {
                Ok((after, value)) => result == Ok::<i32, Fault>(value) && final(self)@ == after,
                Err(fault) => result == Err::<i32, Fault>(fault) && *final(self) == *old(self),
            },
    {
        let sp = self.registers[Registers::Sp.index()];
        if sp < 0 {
            return Err(Fault::StackUnderflow);
        }
        if sp >= STACK_SIZE as i32 {
            return Err(Fault::StackOverflow);
        }
        let popped = self.stack[sp as usize];
        let remaining = if sp == 0 { 0 } else { self.stack[(sp - 1) as usize] };
        self.registers[Registers::Sp.index()] = sp - 1;
        self.registers[Registers::St.index()] = remaining;
        Ok(popped)
    }

    /// The value on top of the stack, if there is one.
    pub fn top(&self) -> (value: Option<i32>)
        ensures
            value == self@.top(),
    {
        let sp = self.registers[Registers::Sp.index()];
        if 0 <= sp && sp < STACK_SIZE as i32 {
            Some(self.stack[sp as usize])
        } else {
            None
        }
    }
}

} // verus!
