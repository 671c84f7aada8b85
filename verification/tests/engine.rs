use wlvm::arith::{wrapping_difference, wrapping_product, wrapping_quotient, wrapping_sum};
use wlvm::engine::{eval, fetch, run, step};
use wlvm::instructions::Instructions;
use wlvm::instructions::Instructions::{
    Add, Div, Dmp, Drg, Dst, Hlt, Jmp, Mov, Mul, Pop, Prt, Psh, Sub, Tee, Tel, Tem, Tll, Tmm, Tne,
};
use wlvm::machine::{setup_environment, Fault, Machine, State};
use wlvm::registers::Registers;
use wlvm::registers::Registers::{Ip, Sp, St, A, B, C};

fn with_operands(a: i32, b: i32) -> Machine {
    let mut machine = setup_environment();
    machine.write(A, a);
    machine.write(B, b);
    machine
}

fn text(out: &Vec<char>) -> String {
    out.iter().collect()
}

fn same(left: &Machine, right: &Machine) -> bool {
    left.registers == right.registers && left.stack == right.stack && left.state == right.state
}

#[test]
fn wrapping_arithmetic_on_plain_values() {
    assert_eq!(wrapping_sum(5, 6), 11);
    assert_eq!(wrapping_sum(i32::MAX, 1), i32::MIN);
    assert_eq!(wrapping_sum(i32::MIN, -1), i32::MAX);
    assert_eq!(wrapping_difference(5, 6), -1);
    assert_eq!(wrapping_difference(i32::MIN, 1), i32::MAX);
    assert_eq!(wrapping_difference(0, i32::MIN), i32::MIN);
    assert_eq!(wrapping_product(5, 6), 30);
    assert_eq!(wrapping_product(65536, 65536), 0);
    assert_eq!(wrapping_product(i32::MAX, 2), -2);
    assert_eq!(wrapping_product(i32::MIN, -1), i32::MIN);
    assert_eq!(wrapping_quotient(10, 5), 2);
    assert_eq!(wrapping_quotient(7, 2), 3);
    assert_eq!(wrapping_quotient(-7, 2), -3);
    assert_eq!(wrapping_quotient(7, -2), -3);
    assert_eq!(wrapping_quotient(-7, -2), 3);
    assert_eq!(wrapping_quotient(0, -2), 0);
    assert_eq!(wrapping_quotient(1, 2), 0);
    assert_eq!(wrapping_quotient(i32::MIN, -1), i32::MIN);
    assert_eq!(wrapping_quotient(i32::MIN, 1), i32::MIN);
    assert_eq!(wrapping_quotient(i32::MIN, 2), -1073741824);
    assert_eq!(wrapping_quotient(i32::MAX, -1), -i32::MAX);
}

#[test]
fn arithmetic_writes_the_first_operand_only() {
    let cases = [
        (Add(A, B), 7, 3, 10),
        (Sub(A, B), 7, 3, 4),
        (Mul(A, B), 7, 3, 21),
        (Div(A, B), 7, 3, 2),
        (Add(A, B), i32::MAX, 1, i32::MIN),
        (Sub(A, B), i32::MIN, 1, i32::MAX),
        (Mul(A, B), 1 << 30, 4, 0),
        (Div(A, B), i32::MIN, -1, i32::MIN),
        (Div(A, B), -9, 2, -4),
    ];
    for (instr, a, b, expected) in cases {
        let mut machine = with_operands(a, b);
        machine.push(77).unwrap();
        let before = machine.clone();
        let mut out = Vec::new();
        assert_eq!(eval(instr, &mut machine, false, &mut out), Ok(()));
        assert_eq!(machine.read(A), expected);
        assert_eq!(machine.read(B), b);
        let mut restored = machine.clone();
        restored.write(A, a);
        assert!(same(&restored, &before));
        assert!(out.is_empty());
    }
}

#[test]
fn arithmetic_with_one_register_as_both_operands() {
    let mut machine = with_operands(21, 0);
    let mut out = Vec::new();
    eval(Add(A, A), &mut machine, false, &mut out).unwrap();
    assert_eq!(machine.read(A), 42);
    eval(Sub(A, A), &mut machine, false, &mut out).unwrap();
    assert_eq!(machine.read(A), 0);
    assert_eq!(eval(Div(A, A), &mut machine, false, &mut out), Err(Fault::DivisionByZero));
}

#[test]
fn division_by_zero_is_a_fault_and_changes_nothing() {
    for a in [0, 1, -1, i32::MIN, i32::MAX] {
        let mut machine = with_operands(a, 0);
        let before = machine.clone();
        let mut out = vec!['k'];
        assert_eq!(eval(Div(A, B), &mut machine, true, &mut out), Err(Fault::DivisionByZero));
        assert!(same(&machine, &before));
        assert_eq!(out, vec!['k']);
    }
}

#[test]
fn comparisons_set_the_flag_to_the_native_result() {
    let values = [i32::MIN, -2, -1, 0, 1, 2, 8, i32::MAX];
    for x in values {
        for y in values {
            let cases = [
                (Tee(A, B), x == y),
                (Tne(A, B), x != y),
                (Tll(A, B), x < y),
                (Tmm(A, B), x > y),
                (Tel(A, B), x <= y),
                (Tem(A, B), x >= y),
            ];
            for (instr, holds) in cases {
                let mut machine = with_operands(x, y);
                machine.write(Registers::Eq, 5);
                let before = machine.clone();
                let mut out = Vec::new();
                assert_eq!(eval(instr, &mut machine, false, &mut out), Ok(()));
                assert_eq!(machine.read(Registers::Eq), if holds { 1 } else { 0 });
                let mut restored = machine.clone();
                restored.write(Registers::Eq, 5);
                assert!(same(&restored, &before));
            }
        }
    }
}

#[test]
fn comparison_of_a_register_with_itself() {
    let mut machine = with_operands(3, 4);
    let mut out = Vec::new();
    eval(Tee(A, A), &mut machine, false, &mut out).unwrap();
    assert_eq!(machine.read(Registers::Eq), 1);
    eval(Tll(B, B), &mut machine, false, &mut out).unwrap();
    assert_eq!(machine.read(Registers::Eq), 0);
}

#[test]
fn move_copies_the_second_operand() {
    let mut machine = with_operands(3, 4);
    let mut out = Vec::new();
    eval(Mov(C, B), &mut machine, false, &mut out).unwrap();
    assert_eq!(machine.read(C), 4);
    assert_eq!(machine.read(B), 4);
    eval(Mov(Sp, A), &mut machine, false, &mut out).unwrap();
    assert_eq!(machine.read(Sp), 3);
}

#[test]
fn move_into_the_instruction_pointer_stores_one_less() {
    let mut machine = with_operands(5, 0);
    let mut out = Vec::new();
    eval(Mov(Ip, A), &mut machine, false, &mut out).unwrap();
    assert_eq!(machine.read(Ip), 4);
    machine.write(A, i32::MIN);
    eval(Mov(Ip, A), &mut machine, false, &mut out).unwrap();
    assert_eq!(machine.read(Ip), i32::MAX);
}

#[test]
fn move_into_the_instruction_pointer_continues_at_the_value() {
    let program = vec![Psh(3), Mov(Ip, St), Psh(100), Hlt];
    let mut machine = setup_environment();
    let mut out = Vec::new();
    assert_eq!(run(&program, &mut machine, false, &mut out, 100), Ok(State::Halted));
    assert_eq!(machine.read(Sp), 0);
    assert_eq!(machine.stack[0], 3);
    assert_eq!(machine.stack[1], 0);
    assert_eq!(machine.read(Ip), 4);
}

#[test]
fn jump_is_taken_only_when_the_flag_is_one() {
    let mut out = Vec::new();
    for flag in [0, 2, -1, i32::MAX] {
        let mut machine = setup_environment();
        machine.write(Registers::Eq, flag);
        machine.write(Ip, 9);
        let before = machine.clone();
        assert_eq!(eval(Jmp(3), &mut machine, false, &mut out), Ok(()));
        assert!(same(&machine, &before));
    }
    let mut machine = setup_environment();
    machine.write(Registers::Eq, 1);
    machine.write(Ip, 9);
    assert_eq!(eval(Jmp(3), &mut machine, false, &mut out), Ok(()));
    assert_eq!(machine.read(Ip), 2);
    assert_eq!(eval(Jmp(0), &mut machine, false, &mut out), Ok(()));
    assert_eq!(machine.read(Ip), -1);
    assert_eq!(eval(Jmp(i32::MAX), &mut machine, false, &mut out), Ok(()));
    assert_eq!(machine.read(Ip), i32::MAX - 1);
}

#[test]
fn jump_to_a_negative_target_is_a_fault() {
    for flag in [0, 1] {
        for target in [-1, -7, i32::MIN] {
            let mut machine = setup_environment();
            machine.write(Registers::Eq, flag);
            let before = machine.clone();
            let mut out = Vec::new();
            assert_eq!(
                eval(Jmp(target), &mut machine, true, &mut out),
                Err(Fault::NegativeJumpTarget)
            );
            assert!(same(&machine, &before));
            assert!(out.is_empty());
        }
    }
}

#[test]
fn jump_falls_through_without_the_flag() {
    let program = vec![Jmp(3), Psh(1), Hlt, Psh(2), Hlt];
    let mut machine = setup_environment();
    let mut out = Vec::new();
    assert_eq!(step(&program, &mut machine, false, &mut out), Ok(()));
    assert_eq!(machine.read(Ip), 1);
    assert_eq!(run(&program, &mut machine, false, &mut out, 100), Ok(State::Halted));
    assert_eq!(machine.stack[0], 1);
}

#[test]
fn jump_resumes_at_the_target_with_the_flag() {
    let program = vec![Tee(A, A), Jmp(4), Psh(1), Hlt, Psh(2), Hlt];
    let mut machine = setup_environment();
    let mut out = Vec::new();
    step(&program, &mut machine, false, &mut out).unwrap();
    step(&program, &mut machine, false, &mut out).unwrap();
    assert_eq!(machine.read(Ip), 4);
    assert_eq!(run(&program, &mut machine, false, &mut out, 100), Ok(State::Halted));
    assert_eq!(machine.stack[0], 2);
    assert_eq!(machine.read(Sp), 0);
}

#[test]
fn push_and_pop_instructions_report_their_faults() {
    let mut machine = setup_environment();
    let mut out = Vec::new();
    assert_eq!(eval(Pop, &mut machine, true, &mut out), Err(Fault::StackUnderflow));
    assert!(out.is_empty());
    for i in 0..255 {
        assert_eq!(eval(Psh(i), &mut machine, false, &mut out), Ok(()));
    }
    let before = machine.clone();
    assert_eq!(eval(Psh(255), &mut machine, true, &mut out), Err(Fault::StackOverflow));
    assert!(same(&machine, &before));
    assert!(out.is_empty());
    assert_eq!(eval(Pop, &mut machine, false, &mut out), Ok(()));
    assert_eq!(machine.read(Sp), 253);
    assert_eq!(machine.read(St), 253);
}

#[test]
fn halt_stops_the_machine_and_nothing_else() {
    let mut machine = with_operands(1, 2);
    let before = machine.clone();
    let mut out = Vec::new();
    assert_eq!(eval(Hlt, &mut machine, false, &mut out), Ok(()));
    assert_eq!(machine.state, State::Halted);
    assert_eq!(machine.registers, before.registers);
    assert_eq!(machine.stack, before.stack);
    assert!(out.is_empty());
}

#[test]
fn rendering_instructions_leave_the_machine_alone() {
    for instr in [Dmp, Dst, Drg(A), Prt(A)] {
        for details in [false, true] {
            let mut machine = with_operands(65, 2);
            machine.push(9).unwrap();
            let before = machine.clone();
            let mut out = Vec::new();
            assert_eq!(eval(instr, &mut machine, details, &mut out), Ok(()));
            assert!(same(&machine, &before));
            assert!(!out.is_empty());
        }
    }
}

#[test]
fn print_writes_one_character_for_values_below_256() {
    let cases = [(0, "\0"), (10, "\n"), (65, "A"), (97, "a"), (127, "\u{7f}"), (233, "é"), (255, "ÿ")];
    for (value, expected) in cases {
        let mut machine = with_operands(value, 0);
        let mut out = Vec::new();
        eval(Prt(A), &mut machine, false, &mut out).unwrap();
        assert_eq!(text(&out), expected);
    }
    for value in [256, 300, -1, i32::MIN, i32::MAX] {
        let mut machine = with_operands(value, 0);
        let mut out = Vec::new();
        assert_eq!(eval(Prt(A), &mut machine, false, &mut out), Ok(()));
        assert!(out.is_empty());
    }
}

#[test]
fn print_output_has_no_separators() {
    let program = vec![Psh(72), Prt(St), Psh(105), Prt(St), Hlt];
    let mut machine = setup_environment();
    let mut out = Vec::new();
    assert_eq!(run(&program, &mut machine, false, &mut out, 100), Ok(State::Halted));
    assert_eq!(text(&out), "Hi");
}

#[test]
fn register_and_stack_rendering_instructions() {
    let mut machine = with_operands(-12, 0);
    machine.push(4).unwrap();
    machine.push(0).unwrap();
    machine.push(6).unwrap();
    let mut out = Vec::new();
    eval(Drg(A), &mut machine, false, &mut out).unwrap();
    assert_eq!(text(&out), "[-12]\n");
    out.clear();
    eval(Dst, &mut machine, false, &mut out).unwrap();
    assert_eq!(text(&out), "[4]\n[6]\n");
    out.clear();
    eval(Dmp, &mut machine, false, &mut out).unwrap();
    let mut expected =
        String::from("[A: -12, B: 0, C: 0, D: 0, E: 0, F: 0, Ip: 0, Sp: 2, St: 6, Eq: 0, ]\n\nStack : [4, 0, 6");
    for _ in 3..255 {
        expected.push_str(", 0");
    }
    expected.push_str("]\n");
    assert_eq!(text(&out), expected);
}

#[test]
fn trace_lines_of_each_instruction() {
    let cases: [(Instructions, &str); 17] = [
        (Tee(A, B), "3 - 7 == -2\n"),
        (Tne(A, B), "3 - 7 != -2\n"),
        (Tll(A, B), "3 - 7 < -2\n"),
        (Tmm(A, B), "3 - 7 > -2\n"),
        (Tel(A, B), "3 - 7  <= -2\n"),
        (Tem(A, B), "3 - 7  >= -2\n"),
        (Add(A, B), "3 - 7 + -2\n"),
        (Sub(A, B), "3 - 7 - -2\n"),
        (Mul(A, B), "3 - 7 * -2\n"),
        (Div(A, B), "3 - 7 / -2\n"),
        (Mov(A, St), "3 - A <-| St\n"),
        (Psh(-40), "3 - -> -40\n"),
        (Pop, "3 - <- 9\n"),
        (Hlt, "3 - Quit\n"),
        (Jmp(12), "3 - Jumped to 12\nNone\n"),
        (Drg(B), "3 - [-2]\n"),
        (Prt(C), "3 - C"),
    ];
    for (instr, expected) in cases {
        let mut machine = with_operands(7, -2);
        machine.write(C, 67);
        machine.push(9).unwrap();
        machine.write(Ip, 3);
        let mut out = Vec::new();
        assert_eq!(eval(instr, &mut machine, true, &mut out), Ok(()));
        assert_eq!(text(&out), expected);
    }
    let mut machine = setup_environment();
    machine.write(Registers::Eq, 1);
    let mut out = Vec::new();
    eval(Jmp(12), &mut machine, true, &mut out).unwrap();
    assert_eq!(text(&out), "0 - Jumped to 12\nGoto 12\n");
}

#[test]
fn untraced_instructions_are_silent() {
    for instr in [
        Tee(A, B),
        Tne(A, B),
        Tll(A, B),
        Tmm(A, B),
        Tel(A, B),
        Tem(A, B),
        Add(A, B),
        Sub(A, B),
        Mul(A, B),
        Div(A, B),
        Mov(A, B),
        Psh(1),
        Pop,
        Hlt,
        Jmp(1),
    ] {
        let mut machine = with_operands(7, -2);
        machine.push(9).unwrap();
        let mut out = Vec::new();
        assert_eq!(eval(instr, &mut machine, false, &mut out), Ok(()));
        assert!(out.is_empty());
    }
}

#[test]
fn fetch_reads_the_instruction_at_the_pointer() {
    let program = vec![Psh(1), Pop, Hlt];
    assert_eq!(fetch(&program, 0), Ok(Psh(1)));
    assert_eq!(fetch(&program, 1), Ok(Pop));
    assert_eq!(fetch(&program, 2), Ok(Hlt));
    assert_eq!(fetch(&program, 3), Err(Fault::ProgramCounterOutOfRange));
    assert_eq!(fetch(&program, -1), Err(Fault::ProgramCounterOutOfRange));
    assert_eq!(fetch(&program, i32::MAX), Err(Fault::ProgramCounterOutOfRange));
    assert_eq!(fetch(&program, i32::MIN), Err(Fault::ProgramCounterOutOfRange));
    assert_eq!(fetch(&Vec::new(), 0), Err(Fault::ProgramCounterOutOfRange));
}

#[test]
fn step_executes_one_instruction_and_advances() {
    let program = vec![Psh(5), Mov(A, St), Hlt];
    let mut machine = setup_environment();
    let mut out = Vec::new();
    assert_eq!(step(&program, &mut machine, false, &mut out), Ok(()));
    assert_eq!(machine.read(Ip), 1);
    assert_eq!(machine.read(St), 5);
    assert_eq!(machine.read(A), 0);
    assert_eq!(step(&program, &mut machine, false, &mut out), Ok(()));
    assert_eq!(machine.read(Ip), 2);
    assert_eq!(machine.read(A), 5);
    assert_eq!(machine.state, State::Running);
    assert_eq!(step(&program, &mut machine, false, &mut out), Ok(()));
    assert_eq!(machine.read(Ip), 3);
    assert_eq!(machine.state, State::Halted);
}

#[test]
fn step_of_a_halted_machine_does_nothing() {
    let program = vec![Hlt];
    let mut machine = setup_environment();
    let mut out = Vec::new();
    step(&program, &mut machine, true, &mut out).unwrap();
    let halted = machine.clone();
    out.clear();
    assert_eq!(step(&program, &mut machine, true, &mut out), Ok(()));
    assert!(same(&machine, &halted));
    assert!(out.is_empty());
    assert_eq!(run(&program, &mut machine, true, &mut out, 5), Ok(State::Halted));
    assert!(same(&machine, &halted));
    assert!(out.is_empty());
}

#[test]
fn step_that_fails_changes_nothing() {
    let program = vec![Psh(1), Div(A, B), Hlt];
    let mut machine = setup_environment();
    let mut out = Vec::new();
    step(&program, &mut machine, false, &mut out).unwrap();
    let before = machine.clone();
    assert_eq!(step(&program, &mut machine, true, &mut out), Err(Fault::DivisionByZero));
    assert!(same(&machine, &before));
    assert_eq!(machine.read(Ip), 1);
    assert!(out.is_empty());
}

#[test]
fn run_stops_when_the_steps_are_used_up() {
    let program = vec![Psh(1), Pop, Tee(A, A), Jmp(0), Hlt];
    let mut machine = setup_environment();
    let mut out = Vec::new();
    assert_eq!(run(&program, &mut machine, false, &mut out, 0), Ok(State::Running));
    assert_eq!(machine.read(Ip), 0);
    assert_eq!(run(&program, &mut machine, false, &mut out, 6), Ok(State::Running));
    assert_eq!(machine.read(Ip), 2);
    assert_eq!(machine.read(Registers::Eq), 1);
    assert_eq!(machine.read(Sp), -1);
    assert_eq!(run(&program, &mut machine, false, &mut out, 1000), Ok(State::Running));
    assert_eq!(machine.state, State::Running);
}

#[test]
fn run_reports_the_fault_and_the_pointer_at_which_it_struck() {
    let program = vec![Psh(1), Pop, Pop, Hlt];
    let mut machine = setup_environment();
    let mut out = Vec::new();
    assert_eq!(run(&program, &mut machine, false, &mut out, 100), Err(Fault::StackUnderflow));
    assert_eq!(machine.read(Ip), 2);
    assert_eq!(machine.state, State::Running);
}

#[test]
fn run_off_the_end_of_a_program_is_a_fault() {
    let program = vec![Psh(1), Psh(2)];
    let mut machine = setup_environment();
    let mut out = Vec::new();
    assert_eq!(
        run(&program, &mut machine, false, &mut out, 100),
        Err(Fault::ProgramCounterOutOfRange)
    );
    assert_eq!(machine.read(Ip), 2);
    assert_eq!(machine.read(Sp), 1);
}

#[test]
fn run_with_a_negative_instruction_pointer_is_a_fault() {
    let program = vec![Psh(-5), Mov(Ip, St), Hlt];
    let mut machine = setup_environment();
    let mut out = Vec::new();
    assert_eq!(
        run(&program, &mut machine, false, &mut out, 100),
        Err(Fault::ProgramCounterOutOfRange)
    );
    assert_eq!(machine.read(Ip), -5);
}

#[test]
fn run_traces_every_instruction() {
    let program = vec![Psh(5), Mov(A, St), Psh(6), Mov(B, St), Add(A, B), Hlt];
    let mut machine = setup_environment();
    let mut out = Vec::new();
    assert_eq!(run(&program, &mut machine, true, &mut out, 100), Ok(State::Halted));
    assert_eq!(
        text(&out),
        "0 - -> 5\n1 - A <-| St\n2 - -> 6\n3 - B <-| St\n4 - 5 + 6\n5 - Quit\n"
    );
}

#[test]
fn program_adding_two_pushed_values_halts_with_the_sum() {
    let program = vec![Psh(5), Mov(A, St), Psh(6), Mov(B, St), Add(A, B), Hlt];
    let mut machine = setup_environment();
    let mut out = Vec::new();
    assert_eq!(run(&program, &mut machine, false, &mut out, 1000), Ok(State::Halted));
    assert_eq!(machine.state, State::Halted);
    assert_eq!(machine.read(A), 11);
    assert_eq!(machine.read(B), 6);
    assert_eq!(machine.read(Ip), 6);
    assert!(out.is_empty());
}

#[test]
fn program_jumping_back_repeats_until_the_stack_is_full() {
    let program = vec![Psh(8), Mov(A, St), Psh(8), Mov(B, St), Tem(A, B), Jmp(2), Hlt];
    let mut machine = setup_environment();
    let mut out = Vec::new();
    assert_eq!(run(&program, &mut machine, false, &mut out, 5), Ok(State::Running));
    assert_eq!(machine.read(Registers::Eq), 1);
    assert_eq!(machine.read(Ip), 5);
    assert_eq!(step(&program, &mut machine, false, &mut out), Ok(()));
    assert_eq!(machine.read(Ip), 2);
    assert_eq!(machine.read(Sp), 1);
    assert_eq!(step(&program, &mut machine, false, &mut out), Ok(()));
    assert_eq!(machine.read(Sp), 2);
    assert_eq!(machine.stack[2], 8);
    assert_eq!(machine.read(Ip), 3);
    assert_eq!(run(&program, &mut machine, false, &mut out, 100000), Err(Fault::StackOverflow));
    assert_eq!(machine.read(Ip), 2);
    assert_eq!(machine.read(Sp), 254);
}

#[test]
fn program_printing_a_value_above_255_prints_nothing() {
    let program = vec![Psh(300), Prt(St), Hlt];
    let mut machine = setup_environment();
    let mut out = Vec::new();
    assert_eq!(run(&program, &mut machine, false, &mut out, 1000), Ok(State::Halted));
    assert!(out.is_empty());
    assert_eq!(machine.state, State::Halted);
    assert_eq!(machine.read(St), 300);
}

#[test]
fn empty_program_faults_at_once() {
    let program: Vec<Instructions> = Vec::new();
    let mut machine = setup_environment();
    let before = machine.clone();
    let mut out = Vec::new();
    assert_eq!(
        step(&program, &mut machine, false, &mut out),
        Err(Fault::ProgramCounterOutOfRange)
    );
    assert_eq!(
        run(&program, &mut machine, false, &mut out, 1000),
        Err(Fault::ProgramCounterOutOfRange)
    );
    assert!(same(&machine, &before));
    assert!(out.is_empty());
}

#[test]
fn run_in_two_parts_is_the_run_in_one() {
    let program = vec![Psh(72), Prt(St), Psh(5), Mov(A, St), Add(A, A), Drg(A), Pop, Pop, Pop, Hlt];
    for first in 0..12u64 {
        let mut whole = setup_environment();
        let mut whole_out = Vec::new();
        let whole_result = run(&program, &mut whole, true, &mut whole_out, 12);
        let mut parts = setup_environment();
        let mut parts_out = Vec::new();
        let mut parts_result = run(&program, &mut parts, true, &mut parts_out, first);
        if parts_result.is_ok() {
            parts_result = run(&program, &mut parts, true, &mut parts_out, 12 - first);
        }
        assert_eq!(parts_result, whole_result);
        assert_eq!(whole_result, Err(Fault::StackUnderflow));
        assert!(same(&parts, &whole));
        assert_eq!(parts_out, whole_out);
        assert_eq!(whole.read(Ip), 8);
    }
}

#[test]
fn stack_pointer_stays_in_bounds_unless_written_to() {
    let program = vec![Psh(1), Psh(2), Add(A, B), Pop, Tee(A, B), Mov(C, St), Pop, Dst, Hlt];
    let mut machine = setup_environment();
    let mut out = Vec::new();
    while machine.state == State::Running {
        step(&program, &mut machine, false, &mut out).unwrap();
        assert!(-1 <= machine.read(Sp) && machine.read(Sp) < 255);
    }
    let mut machine = setup_environment();
    machine.write(A, 400);
    eval(Mov(Sp, A), &mut machine, false, &mut out).unwrap();
    assert_eq!(machine.read(Sp), 400);
    assert_eq!(eval(Pop, &mut machine, false, &mut out), Err(Fault::StackOverflow));
    assert_eq!(eval(Psh(1), &mut machine, false, &mut out), Err(Fault::StackOverflow));
}
