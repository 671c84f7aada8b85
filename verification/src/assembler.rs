//! The assembler: from the text of a program to its instructions. A program
//! has one instruction per line: a mnemonic, then its operands, separated by
//! blanks or commas. Letter case is ignored, and a semicolon starts a
//! comment that runs to the end of the line.

use vstd::prelude::*;
use crate::instructions::Instructions;
use crate::registers::{register_label, Registers};
use crate::text::decimal;

verus! {

/// Why a line of text is no instruction.
#[derive(Copy, Clone, Debug, PartialEq, Eq, Structural)]
pub enum SyntaxError {
    /// The first word is no mnemonic.
    UnknownInstruction,
    /// The number of operands is not what the mnemonic takes.
    WrongOperandCount,
    /// An operand that should name a register names none.
    UnknownRegister,
    /// An operand that should be a number is none, or does not fit in 32
    /// bits.
    BadImmediate,
}

impl SyntaxError {
    /// What is amiss, in words.
    pub open spec fn label(self) -> Seq<char> {
        match self {
            SyntaxError::UnknownInstruction => "unknown instruction"@,
            SyntaxError::WrongOperandCount => "wrong number of operands"@,
            SyntaxError::UnknownRegister => "unknown register"@,
            SyntaxError::BadImmediate => "bad immediate"@,
        }
    }

    /// What is amiss, in words.
    pub fn name(self) -> (name: &'static str)
        ensures
            name@ == self.label(),
    {
        match self {
            SyntaxError::UnknownInstruction => "unknown instruction",
            SyntaxError::WrongOperandCount => "wrong number of operands",
            SyntaxError::UnknownRegister => "unknown register",
            SyntaxError::BadImmediate => "bad immediate",
        }
    }
}

/// A line of a program text that is no instruction.
#[derive(Copy, Clone, Debug, PartialEq, Eq, Structural)]
pub struct ParseError {
    /// The number of lines before the line at fault.
    pub line: usize,
    /// What is amiss in the line.
    pub kind: SyntaxError,
}

/// The character that ends a line.
pub const NEWLINE: char = '\n';

/// The character that starts a comment.
pub const COMMENT: char = ';';

/// Whether `c` separates words.
pub open spec fn is_blank(c: char) -> bool {
    c == ' ' || c == '\t' || c == '\r' || c == ','
}

/// The index of the first `mark` in `text`, or the length of `text` if
/// there is none.
pub open spec fn position(text: Seq<char>, mark: char) -> nat
    decreases text.len(),
{
    if text.len() == 0 || text[0] == mark {
        0
    } else {
        1 + position(text.drop_first(), mark)
    }
}

/// The number of characters of `text` before its first blank.
pub open spec fn word_length(text: Seq<char>) -> nat
    decreases text.len(),
{
    if text.len() == 0 || is_blank(text[0]) {
        0
    } else {
        1 + word_length(text.drop_first())
    }
}

/// Neither count runs past the end of the text.
pub proof fn lemma_scan_bounds(text: Seq<char>, mark: char)
    ensures
        position(text, mark) <= text.len(),
        word_length(text) <= text.len(),
    decreases text.len(),
{
    if text.len() > 0 {
        lemma_scan_bounds(text.drop_first(), mark);
    }
}

/// The words of `text`: its longest runs of characters that are not blank,
/// in their order.
pub open spec fn words(text: Seq<char>) -> Seq<Seq<char>>
    decreases text.len(),
{
    if text.len() == 0 {
        Seq::empty()
    } else if is_blank(text[0]) {
        words(text.drop_first())
    } else {
        proof {
            lemma_scan_bounds(text, NEWLINE);
        }
        seq![text.take(word_length(text) as int)] + words(text.skip(word_length(text) as int))
    }
}

/// What each of `words` holds.
pub open spec fn texts(words: Seq<Vec<char>>) -> Seq<Seq<char>> {
    Seq::new(words.len(), |i: int| words[i]@)
}

/// Whether `c` separates words.
fn blank(c: char) -> (b: bool)
    ensures
        b == is_blank(c),
{
    c == ' ' || c == '\t' || c == '\r' || c == ','
}

/// The index of the first `mark` in `source` between `from` and `to`, or
/// `to` if there is none.
fn find(source: &Vec<char>, from: usize, to: usize, mark: char) -> (at: usize)
    requires
        from <= to <= source.len(),
    ensures
        from <= at <= to,
        at - from == position(source@.subrange(from as int, to as int), mark),
{
    let mut at = from;
    while at < to && source[at] != mark
        invariant
            from <= at <= to <= source.len(),
            position(source@.subrange(from as int, to as int), mark) == (at - from) + position(
                source@.subrange(at as int, to as int),
                mark,
            ),
        decreases to - at,
    {
        assert(source@.subrange(at as int, to as int).drop_first() == source@.subrange(
            at + 1,
            to as int,
        ));
        at += 1;
    }
    at
}

/// The end of the word that starts at `from`: the index of the first blank
/// in `source` between `from` and `to`, or `to` if there is none.
fn word_end(source: &Vec<char>, from: usize, to: usize) -> (at: usize)
    requires
        from <= to <= source.len(),
    ensures
        from <= at <= to,
        at - from == word_length(source@.subrange(from as int, to as int)),
{
    let mut at = from;
    while at < to && !blank(source[at])
        invariant
            from <= at <= to <= source.len(),
            word_length(source@.subrange(from as int, to as int)) == (at - from) + word_length(
                source@.subrange(at as int, to as int),
            ),
        decreases to - at,
    {
        assert(source@.subrange(at as int, to as int).drop_first() == source@.subrange(
            at + 1,
            to as int,
        ));
        at += 1;
    }
    at
}

/// A copy of `source` between `from` and `to`.
fn copy(source: &Vec<char>, from: usize, to: usize) -> (piece: Vec<char>)
    requires
        from <= to <= source.len(),
    ensures
        piece@ == source@.subrange(from as int, to as int),
{
    let mut piece: Vec<char> = Vec::new();
    let mut at = from;
    while at < to
        invariant
            from <= at <= to <= source.len(),
            piece@ == source@.subrange(from as int, at as int),
        decreases to - at,
    {
        piece.push(source[at]);
        at += 1;
    }
    piece
}

/// The words of `source` between `from` and `to`.
fn split(source: &Vec<char>, from: usize, to: usize) -> (found: Vec<Vec<char>>)
    requires
        from <= to <= source.len(),
    ensures
        texts(found@) == words(source@.subrange(from as int, to as int)),
{
    let mut found: Vec<Vec<char>> = Vec::new();
    let mut at = from;
    while at < to
        invariant
            from <= at <= to <= source.len(),
            words(source@.subrange(from as int, to as int)) == texts(found@) + words(
                source@.subrange(at as int, to as int),
            ),
        decreases to - at,
    {
        let ghost rest = source@.subrange(at as int, to as int);
        if blank(source[at]) {
            assert(rest.drop_first() == source@.subrange(at + 1, to as int));
            at += 1;
        } else {
            let end = word_end(source, at, to);
            let word = copy(source, at, end);
            found.push(word);
            assert(rest.take(end - at) == source@.subrange(at as int, end as int));
            assert(rest.skip(end - at) == source@.subrange(end as int, to as int));
            at = end;
        }
    }
    found
}

/// `c` in lower case, if it is a capital letter; else `c`.
pub open spec fn lower(c: char) -> char {
    if 'A' <= c <= 'Z' {
        (c as int + ('a' as int - 'A' as int)) as char
    } else {
        c
    }
}

/// `word` in lower case.
pub open spec fn lowercase(word: Seq<char>) -> Seq<char> {
    Seq::new(word.len(), |i: int| lower(word[i]))
}

/// The number that a sequence of decimal digits denotes; none if the
/// sequence is empty or holds anything but digits.
pub open spec fn number_value(digits: Seq<char>) -> Option<nat>
    decreases digits.len(),
{
    if digits.len() == 0 || !('0' <= digits.last() <= '9') {
        None
    } else if digits.len() == 1 {
        Some((digits.last() as int - '0' as int) as nat)
    } else {
        match number_value(digits.drop_last()) {
            Some(high) => Some((high * 10 + (digits.last() as int - '0' as int)) as nat),
            None => None,
        }
    }
}

/// The immediate that `word` denotes: decimal digits, after a minus sign
/// for a negative one, with a value that fits in 32 bits.
pub open spec fn immediate_of(word: Seq<char>) -> Option<i32> {
    if word.len() > 0 && word[0] == '-' {
        match number_value(word.drop_first()) {
            Some(magnitude) if magnitude <= 0x8000_0000 => Some((-magnitude) as i32),
            _ => None,
        }
    } else {
        match number_value(word) {
            Some(value) if value <= 0x7fff_ffff => Some(value as i32),
            _ => None,
        }
    }
}

/// The register that `word` names, whatever its letter case.
pub open spec fn register_named(word: Seq<char>) -> Option<Registers> {
    let name = lowercase(word);
    if name == "a"@ {
        Some(Registers::A)
    } else if name == "b"@ {
        Some(Registers::B)
    } else if name == "c"@ {
        Some(Registers::C)
    } else if name == "d"@ {
        Some(Registers::D)
    } else if name == "e"@ {
        Some(Registers::E)
    } else if name == "f"@ {
        Some(Registers::F)
    } else if name == "ip"@ {
        Some(Registers::Ip)
    } else if name == "sp"@ {
        Some(Registers::Sp)
    } else if name == "st"@ {
        Some(Registers::St)
    } else if name == "eq"@ {
        Some(Registers::Eq)
    } else {
        None
    }
}

/// Whether `word`, in lower case, reads `text`.
fn spells(word: &Vec<char>, text: &str) -> (same: bool)
    ensures
        same == (lowercase(word@) == text@),
{
    let n = text.unicode_len();
    if word.len() != n {
        return false;
    }
    let mut i: usize = 0;
    while i < n
        invariant
            i <= n,
            n == text@.len(),
            n == word.len(),
            forall|j: int| 0 <= j < i ==> lower(word@[j]) == text@[j],
        decreases n - i,
    {
        let c = word[i];
        let folded = if c >= 'A' && c <= 'Z' { (c as u8 + ('a' as u8 - 'A' as u8)) as char } else { c };
        if folded != text.get_char(i) {
            return false;
        }
        i += 1;
    }
    assert(lowercase(word@) =~= text@);
    true
}

/// The value of the decimal digits of `word` from `from` on, if they are
/// digits, there is one at least, and the value is at most `limit`.
fn number(word: &Vec<char>, from: usize, limit: u32) -> (value: Option<u32>)
    requires
        from <= word.len(),
    ensures
        value == match number_value(word@.subrange(from as int, word.len() as int)) {
            Some(n) if n <= limit => Some(n as u32),
            _ => None,
        },
{
    let ghost digits = word@.subrange(from as int, word.len() as int);
    if from == word.len() {
        return None;
    }
    let mut value: u64 = 0;
    let mut at = from;
    while at < word.len()
        invariant
            from <= at <= word.len(),
            digits == word@.subrange(from as int, word.len() as int),
            value <= limit,
            at > from ==> number_value(digits.take(at - from)) == Some(value as nat),
            at == from ==> value == 0,
        decreases word.len() - at,
    {
        let c = word[at];
        let ghost seen = digits.take(at - from + 1);
        assert(seen.drop_last() == digits.take(at - from));
        if !(c >= '0' && c <= '9') {
            proof {
                lemma_number_value_needs_digits(digits, at - from + 1);
            }
            return None;
        }
        let next = value * 10 + (c as u8 - '0' as u8) as u64;
        if next > limit as u64 {
            proof {
                lemma_number_value_grows(digits, at - from + 1);
            }
            return None;
        }
        value = next;
        at += 1;
    }
    assert(digits.take(at - from) == digits);
    Some(value as u32)
}

/// A sequence of digits has a value only if each of its beginnings has one,
/// and the value is then no less than theirs.
proof fn lemma_number_value_grows(digits: Seq<char>, n: int)
    requires
        0 < n <= digits.len(),
    ensures
        number_value(digits) matches Some(whole) ==> (number_value(digits.take(n)) matches Some(
            part,
        ) && part <= whole),
    decreases digits.len(),
{
    if n < digits.len() {
        assert(digits.drop_last().take(n) == digits.take(n));
        lemma_number_value_grows(digits.drop_last(), n);
    } else {
        assert(digits.take(n) == digits);
    }
}

/// A sequence of digits whose beginning has no value has none.
proof fn lemma_number_value_needs_digits(digits: Seq<char>, n: int)
    requires
        0 < n <= digits.len(),
        number_value(digits.take(n)) is None,
    ensures
        number_value(digits) is None,
{
    lemma_number_value_grows(digits, n);
}

/// The immediate that `word` denotes.
fn immediate(word: &Vec<char>) -> (value: Option<i32>)
    ensures
        value == immediate_of(word@),
{
    if word.len() > 0 && word[0] == '-' {
        match number(word, 1, 0x8000_0000) {
            Some(magnitude) => Some((-(magnitude as i64)) as i32),
            None => None,
        }
    } else {
        assert(word@ == word@.subrange(0, word.len() as int));
        match number(word, 0, 0x7fff_ffff) {
            Some(value) => Some(value as i32),
            None => None,
        }
    }
}

/// The register that `word` names.
fn register(word: &Vec<char>) -> (found: Option<Registers>)
    ensures
        found == register_named(word@),
{
    if spells(word, "a") {
        Some(Registers::A)
    } else if spells(word, "b") {
        Some(Registers::B)
    } else if spells(word, "c") {
        Some(Registers::C)
    } else if spells(word, "d") {
        Some(Registers::D)
    } else if spells(word, "e") {
        Some(Registers::E)
    } else if spells(word, "f") {
        Some(Registers::F)
    } else if spells(word, "ip") {
        Some(Registers::Ip)
    } else if spells(word, "sp") {
        Some(Registers::Sp)
    } else if spells(word, "st") {
        Some(Registers::St)
    } else if spells(word, "eq") {
        Some(Registers::Eq)
    } else {
        None
    }
}

/// Whether `name` is the mnemonic of an instruction without operands.
pub open spec fn is_plain(name: Seq<char>) -> bool {
    name == "pop"@ || name == "hlt"@ || name == "dst"@ || name == "dmp"@
}

/// The instruction without operands that `name` is the mnemonic of.
pub open spec fn plain(name: Seq<char>) -> Instructions
    recommends
        is_plain(name),
{
    if name == "pop"@ {
        Instructions::Pop
    } else if name == "hlt"@ {
        Instructions::Hlt
    } else if name == "dst"@ {
        Instructions::Dst
    } else {
        Instructions::Dmp
    }
}

/// Whether `name` is the mnemonic of an instruction with one immediate.
pub open spec fn takes_immediate(name: Seq<char>) -> bool {
    name == "psh"@ || name == "jmp"@
}

/// The instruction that `name` is the mnemonic of, with the immediate
/// `value`.
pub open spec fn with_immediate(name: Seq<char>, value: i32) -> Instructions
    recommends
        takes_immediate(name),
{
    if name == "psh"@ {
        Instructions::Psh(value)
    } else {
        Instructions::Jmp(value)
    }
}

/// Whether `name` is the mnemonic of an instruction with one register.
pub open spec fn takes_register(name: Seq<char>) -> bool {
    name == "drg"@ || name == "prt"@
}

/// The instruction that `name` is the mnemonic of, on the register `r`.
pub open spec fn with_register(name: Seq<char>, r: Registers) -> Instructions
    recommends
        takes_register(name),
{
    if name == "drg"@ {
        Instructions::Drg(r)
    } else {
        Instructions::Prt(r)
    }
}

/// Whether `name` is the mnemonic of an instruction with two registers.
pub open spec fn takes_pair(name: Seq<char>) -> bool {
    ||| name == "add"@
    ||| name == "sub"@
    ||| name == "mul"@
    ||| name == "div"@
    ||| name == "mov"@
    ||| name == "tee"@
    ||| name == "tne"@
    ||| name == "tll"@
    ||| name == "tmm"@
    ||| name == "tel"@
    ||| name == "tem"@
}

/// The instruction that `name` is the mnemonic of, on the registers `a`
/// and `b`.
pub open spec fn with_pair(name: Seq<char>, a: Registers, b: Registers) -> Instructions
    recommends
        takes_pair(name),
{
    if name == "add"@ {
        Instructions::Add(a, b)
    } else if name == "sub"@ {
        Instructions::Sub(a, b)
    } else if name == "mul"@ {
        Instructions::Mul(a, b)
    } else if name == "div"@ {
        Instructions::Div(a, b)
    } else if name == "mov"@ {
        Instructions::Mov(a, b)
    } else if name == "tee"@ {
        Instructions::Tee(a, b)
    } else if name == "tne"@ {
        Instructions::Tne(a, b)
    } else if name == "tll"@ {
        Instructions::Tll(a, b)
    } else if name == "tmm"@ {
        Instructions::Tmm(a, b)
    } else if name == "tel"@ {
        Instructions::Tel(a, b)
    } else {
        Instructions::Tem(a, b)
    }
}

/// The instruction that the words of a line spell: none for a line without
/// words; else the first word is the mnemonic, whatever its letter case,
/// and the others are its operands. The first thing amiss decides the
/// error: the mnemonic, then the number of operands, then the operands.
pub open spec fn instruction_of(words: Seq<Seq<char>>) -> Result<Option<Instructions>, SyntaxError> {
    if words.len() == 0 {
        Ok(None)
    } else {
        let name = lowercase(words[0]);
        if is_plain(name) {
            if words.len() != 1 {
                Err(SyntaxError::WrongOperandCount)
            } else {
                Ok(Some(plain(name)))
            }
        } else if takes_immediate(name) {
            if words.len() != 2 {
                Err(SyntaxError::WrongOperandCount)
            } else {
                match immediate_of(words[1]) {
                    Some(value) => Ok(Some(with_immediate(name, value))),
                    None => Err(SyntaxError::BadImmediate),
                }
            }
        } else if takes_register(name) {
            if words.len() != 2 {
                Err(SyntaxError::WrongOperandCount)
            } else {
                match register_named(words[1]) {
                    Some(r) => Ok(Some(with_register(name, r))),
                    None => Err(SyntaxError::UnknownRegister),
                }
            }
        } else if takes_pair(name) {
            if words.len() != 3 {
                Err(SyntaxError::WrongOperandCount)
            } else {
                match (register_named(words[1]), register_named(words[2])) {
                    (Some(a), Some(b)) => Ok(Some(with_pair(name, a, b))),
                    _ => Err(SyntaxError::UnknownRegister),
                }
            }
        } else {
            Err(SyntaxError::UnknownInstruction)
        }
    }
}

impl Instructions {
    /// The words with which the instruction is written in a program text:
    /// its mnemonic, then its operands, an immediate in decimal and a
    /// register by its name.
    pub open spec fn written(self) -> Seq<Seq<char>> {
        match self {
            Instructions::Psh(value) | Instructions::Jmp(value) => seq![
                self.mnemonic(),
                decimal(value as int),
            ],
            Instructions::Drg(r) | Instructions::Prt(r) => seq![
                self.mnemonic(),
                register_label(r.slot()),
            ],
            Instructions::Add(a, b)
            | Instructions::Mul(a, b)
            | Instructions::Div(a, b)
            | Instructions::Sub(a, b)
            | Instructions::Mov(a, b)
            | Instructions::Tee(a, b)
            | Instructions::Tne(a, b)
            | Instructions::Tll(a, b)
            | Instructions::Tmm(a, b)
            | Instructions::Tel(a, b)
            | Instructions::Tem(a, b) => seq![
                self.mnemonic(),
                register_label(a.slot()),
                register_label(b.slot()),
            ],
            Instructions::Pop | Instructions::Hlt | Instructions::Dst | Instructions::Dmp => seq![
                self.mnemonic(),
            ],
        }
    }
}

/// The instruction without operands that `name` is the mnemonic of.
fn plain_named(name: &Vec<char>) -> (found: Option<Instructions>)
    ensures
        found == if is_plain(lowercase(name@)) {
            Some(plain(lowercase(name@)))
        } else {
            None
        },
{
    if spells(name, "pop") {
        Some(Instructions::Pop)
    } else if spells(name, "hlt") {
        Some(Instructions::Hlt)
    } else if spells(name, "dst") {
        Some(Instructions::Dst)
    } else if spells(name, "dmp") {
        Some(Instructions::Dmp)
    } else {
        None
    }
}

/// The instruction with one immediate that `name` is the mnemonic of.
fn immediate_named(name: &Vec<char>, value: i32) -> (found: Option<Instructions>)
    ensures
        found == if takes_immediate(lowercase(name@)) {
            Some(with_immediate(lowercase(name@), value))
        } else {
            None
        },
{
    if spells(name, "psh") {
        Some(Instructions::Psh(value))
    } else if spells(name, "jmp") {
        Some(Instructions::Jmp(value))
    } else {
        None
    }
}

/// The instruction with one register that `name` is the mnemonic of.
fn register_instruction_named(name: &Vec<char>, r: Registers) -> (found: Option<Instructions>)
    ensures
        found == if takes_register(lowercase(name@)) {
            Some(with_register(lowercase(name@), r))
        } else {
            None
        },
{
    if spells(name, "drg") {
        Some(Instructions::Drg(r))
    } else if spells(name, "prt") {
        Some(Instructions::Prt(r))
    } else {
        None
    }
}

/// The instruction with two registers that `name` is the mnemonic of.
fn pair_named(name: &Vec<char>, a: Registers, b: Registers) -> (found: Option<Instructions>)
    ensures
        found == if takes_pair(lowercase(name@)) {
            Some(with_pair(lowercase(name@), a, b))
        } else {
            None
        },
{
    if spells(name, "add") {
        Some(Instructions::Add(a, b))
    } else if spells(name, "sub") {
        Some(Instructions::Sub(a, b))
    } else if spells(name, "mul") {
        Some(Instructions::Mul(a, b))
    } else if spells(name, "div") {
        Some(Instructions::Div(a, b))
    } else if spells(name, "mov") {
        Some(Instructions::Mov(a, b))
    } else if spells(name, "tee") {
        Some(Instructions::Tee(a, b))
    } else if spells(name, "tne") {
        Some(Instructions::Tne(a, b))
    } else if spells(name, "tll") {
        Some(Instructions::Tll(a, b))
    } else if spells(name, "tmm") {
        Some(Instructions::Tmm(a, b))
    } else if spells(name, "tel") {
        Some(Instructions::Tel(a, b))
    } else if spells(name, "tem") {
        Some(Instructions::Tem(a, b))
    } else {
        None
    }
}

/// The instruction that `words` spell.
fn instruction(words: &Vec<Vec<char>>) -> (result: Result<Option<Instructions>, SyntaxError>)
    ensures
        result == instruction_of(texts(words@)),
{
    if words.len() == 0 {
        return Ok(None);
    }
    let name = &words[0];
    match plain_named(name) {
        Some(instr) => {
            return if words.len() != 1 {
                Err(SyntaxError::WrongOperandCount)
            } else {
                Ok(Some(instr))
            };
        },
        None => {},
    }
    if immediate_named(name, 0).is_some() {
        if words.len() != 2 {
            return Err(SyntaxError::WrongOperandCount);
        }
        return match immediate(&words[1]) {
            Some(value) => Ok(immediate_named(name, value)),
            None => Err(SyntaxError::BadImmediate),
        };
    }
    if register_instruction_named(name, Registers::A).is_some() {
        if words.len() != 2 {
            return Err(SyntaxError::WrongOperandCount);
        }
        return match register(&words[1]) {
            Some(r) => Ok(register_instruction_named(name, r)),
            None => Err(SyntaxError::UnknownRegister),
        };
    }
    if pair_named(name, Registers::A, Registers::A).is_some() {
        if words.len() != 3 {
            return Err(SyntaxError::WrongOperandCount);
        }
        return match (register(&words[1]), register(&words[2])) {
            (Some(a), Some(b)) => Ok(pair_named(name, a, b)),
            _ => Err(SyntaxError::UnknownRegister),
        };
    }
    Err(SyntaxError::UnknownInstruction)
}

/// The instruction that a line spells, if it spells one: that of its words
/// before the comment.
pub open spec fn line_instruction(line: Seq<char>) -> Result<Option<Instructions>, SyntaxError> {
    instruction_of(words(line.take(position(line, COMMENT) as int)))
}

/// The program that `text` spells, when `line` lines stand before `text`:
/// the instructions of its lines in their order, or the first line that is
/// no instruction.
pub open spec fn assembled_from(text: Seq<char>, line: nat) -> Result<Seq<Instructions>, ParseError>
    decreases text.len(),
{
    let end = position(text, NEWLINE) as int;
    match line_instruction(text.take(end)) {
        Err(kind) => Err(ParseError { line: line as usize, kind }),
        Ok(found) => {
            let head = match found {
                Some(instr) => seq![instr],
                None => Seq::empty(),
            };
            if end >= text.len() {
                Ok(head)
            } else {
                match assembled_from(text.skip(end + 1), line + 1) {
                    Ok(rest) => Ok(head + rest),
                    Err(error) => Err(error),
                }
            }
        },
    }
}

/// The program that `source` spells.
pub open spec fn assembled(source: Seq<char>) -> Result<Seq<Instructions>, ParseError> {
    assembled_from(source, 0)
}

/// Assembles the program that `source` spells: the instructions of its
/// lines, or the first line that is no instruction.
pub fn assemble(source: &Vec<char>) -> (result: Result<Vec<Instructions>, ParseError>)
    ensures
        match assembled(source@) {
            Ok(program) => result matches Ok(found) && found@ == program,
            Err(error) => result == Err::<Vec<Instructions>, ParseError>(error),
        },
{
    let mut program: Vec<Instructions> = Vec::new();
    let mut line: usize = 0;
    let mut from: usize = 0;
    assert(source@.skip(0) == source@);
    loop
        invariant
            from <= source.len(),
            line <= from,
            assembled(source@) == match assembled_from(source@.skip(from as int), line as nat) {
                Ok(rest) => Ok::<Seq<Instructions>, ParseError>(program@ + rest),
                Err(error) => Err::<Seq<Instructions>, ParseError>(error),
            },
        decreases source.len() - from,
    {
        let ghost text = source@.skip(from as int);
        let ghost before = program@;
        let end = find(source, from, source.len(), NEWLINE);
        assert(text.take(end - from) == source@.subrange(from as int, end as int));
        let stop = find(source, from, end, COMMENT);
        assert(text.take(end - from).take(stop - from) == source@.subrange(
            from as int,
            stop as int,
        ));
        let words = split(source, from, stop);
        let found = match instruction(&words) {
            Ok(found) => found,
            Err(kind) => {
                return Err(ParseError { line, kind });
            },
        };
        let ghost head = match found {
            Some(instr) => seq![instr],
            None => Seq::<Instructions>::empty(),
        };
        match found {
            Some(instr) => {
                program.push(instr);
            },
            None => {},
        }
        if end == source.len() {
            return Ok(program);
        }
        proof {
            assert(text.skip(end - from + 1) == source@.skip(end + 1));
            if let Ok(rest) = assembled_from(source@.skip(end + 1), (line + 1) as nat) {
                assert(before + (head + rest) =~= program@ + rest);
            }
        }
        from = end + 1;
        line = line + 1;
    }
}

} // verus!
