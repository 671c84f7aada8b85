//! What the command line asks for: the command and its flags, and the
//! program that a dump run executes in place of the one it was given.

use vstd::prelude::*;
use vstd::string::StringExecFns;
use crate::instructions::{is_valid, Instructions};

verus! {

/// What the program was asked to do.
#[derive(Debug)]
pub enum Command {
    /// Show the usage text.
    Help,
    /// Run the program in the file at `path`; print the program first if
    /// `show_instructions`, and trace each instruction if `details`.
    Run { path: String, show_instructions: bool, details: bool },
    /// Run the program in the file at `path` and dump the machine at the
    /// start and at the end.
    Dump { path: String },
}

/// Whether one of `args` reads `text`.
pub open spec fn present(args: Seq<String>, text: Seq<char>) -> bool {
    exists|i: int| 0 <= i < args.len() && (#[trigger] args[i])@ == text
}

/// Whether `text` reads `word`.
fn reads(text: &String, word: &str) -> (same: bool)
    ensures
        same == (text@ == word@),
{
    let word = String::from_str(word);
    *text == word
}

/// Whether one of `args` reads `to_search`.
pub fn is_present(args: &Vec<String>, to_search: &str) -> (found: bool)
    ensures
        found == present(args@, to_search@),
{
    let mut i: usize = 0;
    while i < args.len()
        invariant
            i <= args.len(),
            forall|j: int| 0 <= j < i ==> (#[trigger] args@[j])@ != to_search@,
        decreases args.len() - i,
    {
        if reads(&args[i], to_search) {
            return true;
        }
        i += 1;
    }
    false
}

/// The command that `args`, the arguments after the program's name, ask
/// for. The first argument names the command and the second the file; a
/// run takes its flags from anywhere among the arguments. Anything else
/// asks for the usage text.
pub fn parse_command(args: &Vec<String>) -> (command: Command)
    ensures
        (match command {
            Command::Help => args.len() < 2 || (args[0]@ != "run"@ && args[0]@ != "dump"@),
            Command::Run { path, show_instructions, details } => {
                &&& args.len() >= 2
                &&& args[0]@ == "run"@
                &&& path@ == args[1]@
                &&& show_instructions == (present(args@, "--instructions"@) || present(
                    args@,
                    "-i"@,
                ))
                &&& details == (present(args@, "--details"@) || present(args@, "-d"@))
            },
            Command::Dump { path } => {
                &&& args.len() >= 2
                &&& args[0]@ == "dump"@
                &&& path@ == args[1]@
            },
        }),
{
    if args.len() < 2 {
        return Command::Help;
    }
    if reads(&args[0], "run") {
        let show_instructions = is_present(args, "--instructions") || is_present(args, "-i");
        let details = is_present(args, "--details") || is_present(args, "-d");
        Command::Run { path: args[1].clone(), show_instructions, details }
    } else if reads(&args[0], "dump") {
        Command::Dump { path: args[1].clone() }
    } else {
        Command::Help
    }
}

/// The program of a dump run: a dump, then the instructions of `program`
/// that are not introspection, in their order, then a dump and a halt.
pub open spec fn dump_program(program: Seq<Instructions>) -> Seq<Instructions> {
    seq![Instructions::Dmp] + program.filter(|instr: Instructions| !instr.is_introspection())
        + seq![Instructions::Dmp, Instructions::Hlt]
}

/// The program that a dump run executes in place of `program`.
pub fn prepare_dump(program: &Vec<Instructions>) -> (prepared: Vec<Instructions>)
    ensures
        prepared@ == dump_program(program@),
{
    let ghost kept = |instr: Instructions| !instr.is_introspection();
    let mut prepared: Vec<Instructions> = Vec::new();
    prepared.push(Instructions::Dmp);
    let mut i: usize = 0;
    while i < program.len()
        invariant
            i <= program.len(),
            kept == |instr: Instructions| !instr.is_introspection(),
            prepared@ == seq![Instructions::Dmp] + program@.subrange(0, i as int).filter(kept),
        decreases program.len() - i,
    {
        let instr = program[i];
        if is_valid(instr) {
            prepared.push(instr);
        }
        i += 1;
        assert(prepared@ =~= seq![Instructions::Dmp] + program@.subrange(0, i as int).filter(kept))
            by {
            reveal(Seq::filter);
            assert(program@.subrange(0, i as int).drop_last() =~= program@.subrange(0, i - 1));
        }
    }
    assert(program@.subrange(0, i as int) =~= program@);
    prepared.push(Instructions::Dmp);
    prepared.push(Instructions::Hlt);
    prepared
}

} // verus!
