//! The configuration of a run, made from the texts of the command-line arguments.

use vstd::prelude::*;
use vstd::string::StringSliceAdditionalSpecFns;

verus! {

/// Why a text is no number.
#[derive(Clone, Copy, Debug, PartialEq, Eq, Structural)]
pub enum ParseError {
    /// The text is empty.
    Empty,
    /// The text holds a character that is no digit, or no digit at all.
    InvalidDigit,
    /// The number is above 2^32 - 1.
    Overflow,
}

/// The argument that could not be read, and why.
#[derive(Clone, Copy, Debug, PartialEq, Eq, Structural)]
pub enum ArgumentError {
    StackOverwrite(ParseError),
    StackSize(ParseError),
    ExitPosition(ParseError),
    PrinterPosition(ParseError),
}

/// The value of the character `c` as a digit in the given radix, if it is one: the digits
/// `0` to `9`, then the letters from `a` or `A` on.
pub open spec fn digit_value(c: u8, radix: u32) -> Option<u32> {
    let value: int = if 0x30 <= c <= 0x39 {
        c - 0x30
    } else if 0x61 <= c <= 0x7A {
        c - 0x61 + 10
    } else if 0x41 <= c <= 0x5A {
        c - 0x41 + 10
    } else {
        36
    };
    if value < radix {
        Some(value as u32)
    } else {
        None
    }
}

/// The number that a run of digits stands for. The first character from the left that is
/// no digit makes it invalid; else the first digit with which the number passes 2^32 - 1
/// makes it an overflow.
pub open spec fn digits_value(digits: Seq<u8>, radix: u32) -> Result<u32, ParseError>
    decreases digits.len(),
{
    if digits.len() == 0 {
        Ok(0)
    } else {
        match digits_value(digits.drop_last(), radix) {
            Ok(high) => match digit_value(digits.last(), radix) {
                Some(low) => if high * radix + low > u32::MAX {
                    Err(ParseError::Overflow)
                } else {
                    Ok((high * radix + low) as u32)
                },
                None => Err(ParseError::InvalidDigit),
            },
            Err(e) => Err(e),
        }
    }
}

/// The number that a text stands for: an optional `+`, then one digit or more.
pub open spec fn number_value(text: Seq<u8>, radix: u32) -> Result<u32, ParseError> {
    if text.len() == 0 {
        Err(ParseError::Empty)
    } else if text[0] == 0x2B {
        if text.len() == 1 {
            Err(ParseError::InvalidDigit)
        } else {
            digits_value(text.skip(1), radix)
        }
    } else {
        digits_value(text, radix)
    }
}

/// The text without every `0x` that it begins with.
pub open spec fn without_prefix(text: Seq<u8>) -> Seq<u8>
    decreases text.len(),
{
    if text.len() >= 2 && text[0] == 0x30 && text[1] == 0x78 {
        without_prefix(text.skip(2))
    } else {
        text
    }
}

/// The number that a hexadecimal text stands for, with or without `0x` in front.
pub open spec fn hex_value(text: Seq<u8>) -> Result<u32, ParseError> {
    number_value(without_prefix(text), 16)
}

/// The number that a decimal text stands for.
pub open spec fn decimal_value(text: Seq<u8>) -> Result<u32, ParseError> {
    number_value(text, 10)
}

/// The value of a character as a digit in the given radix.
fn digit_of(c: u8, radix: u32) -> (r: Option<u32>)
    ensures
        r == digit_value(c, radix),
{
    let value: u32 = if 0x30 <= c && c <= 0x39 {
        (c - 0x30) as u32
    } else if 0x61 <= c && c <= 0x7A {
        (c - 0x61) as u32 + 10
    } else if 0x41 <= c && c <= 0x5A {
        (c - 0x41) as u32 + 10
    } else {
        36
    };
    if value < radix {
        Some(value)
    } else {
        None
    }
}

/// Reads the number that the bytes of `text` from `from` on stand for.
fn parse_number(text: &[u8], from: usize, radix: u32) -> (r: Result<u32, ParseError>)
    requires
        from <= text@.len(),
        2 <= radix <= 36,
    ensures
        r == number_value(text@.skip(from as int), radix),
{
    let ghost rest = text@.skip(from as int);
    let n: usize = text.len();
    if from == n {
        return Err(ParseError::Empty);
    }
    let mut at: usize = from;
    if text[from] == 0x2B {
        if n - from == 1 {
            return Err(ParseError::InvalidDigit);
        }
        at = from + 1;
    }
    let ghost digits = text@.skip(at as int);
    let start: usize = at;
    let mut value: u32 = 0;
    proof {
        if start != from {
            assert(rest.skip(1) =~= digits);
        }
        assert(number_value(rest, radix) == digits_value(digits, radix));
        assert(digits.take(0) =~= Seq::<u8>::empty());
    }
    while at < n
        invariant
            start <= at <= n,
            rest == text@.skip(from as int),
            number_value(rest, radix) == digits_value(digits, radix),
            n == text@.len(),
            2 <= radix <= 36,
            digits == text@.skip(start as int),
            digits_value(digits.take(at - start), radix) == Ok::<u32, ParseError>(value),
        decreases n - at,
    {
        let ghost seen = digits.take(at - start + 1);
        proof {
            assert(seen.drop_last() =~= digits.take(at - start));
            assert(seen.last() == text@[at as int]);
        }
        let low: u32 = match digit_of(text[at], radix) {
            Some(low) => low,
            None => {
                proof {
                    assert(digits_value(seen, radix) == Err::<u32, ParseError>(ParseError::InvalidDigit));
                    lemma_digits_fail(digits, (at - start + 1) as int, radix);
                }
                return Err(ParseError::InvalidDigit);
            },
        };
        assert(value * radix <= 0xFFFF_FFFF * 36) by (nonlinear_arith)
            requires
                value <= 0xFFFF_FFFF,
                radix <= 36,
        ;
        let wide: u64 = (value as u64) * (radix as u64) + (low as u64);
        if wide > 0xFFFF_FFFF {
            proof {
                assert(digits_value(seen, radix) == Err::<u32, ParseError>(ParseError::Overflow));
                lemma_digits_fail(digits, (at - start + 1) as int, radix);
            }
            return Err(ParseError::Overflow);
        }
        value = wide as u32;
        at += 1;
    }
    proof {
        assert(digits.take(n - start) =~= digits);
    }
    Ok(value)
}

proof fn lemma_digits_fail(digits: Seq<u8>, k: int, radix: u32)
    requires
        0 <= k <= digits.len(),
        digits_value(digits.take(k), radix) is Err,
    ensures
        digits_value(digits, radix) == digits_value(digits.take(k), radix),
    decreases digits.len() - k,
{
    if k < digits.len() {
        assert(digits.drop_last().take(k) =~= digits.take(k));
        lemma_digits_fail(digits.drop_last(), k, radix);
    } else {
        assert(digits.take(k) =~= digits);
    }
}

/// Reads a hexadecimal number, with or without `0x` in front.
pub fn parse_hex(text: &str) -> (r: Result<u32, ParseError>)
    ensures
        r == hex_value(text.spec_bytes()),
{
    let bytes = text.as_bytes();
    let n: usize = bytes.len();
    let mut from: usize = 0;
    proof {
        assert(bytes@.skip(0) =~= bytes@);
    }
    while n - from >= 2 && bytes[from] == 0x30 && bytes[from + 1] == 0x78
        invariant
            from <= n,
            n == bytes@.len(),
            without_prefix(bytes@) == without_prefix(bytes@.skip(from as int)),
        decreases n - from,
    {
        proof {
            assert(bytes@.skip(from as int).skip(2) =~= bytes@.skip(from + 2));
        }
        from += 2;
    }
    parse_number(bytes, from, 16)
}

/// Reads a decimal number.
pub fn parse_decimal(text: &str) -> (r: Result<u32, ParseError>)
    ensures
        r == decimal_value(text.spec_bytes()),
{
    let bytes = text.as_bytes();
    proof {
        assert(bytes@.skip(0) =~= bytes@);
    }
    parse_number(bytes, 0, 10)
}

/// The configuration of a run.
#[derive(Debug)]
pub struct CommandLineArguments {
    /// The address of the stack pointer at the start of the program.
    stack_overwrite: u32,
    /// The size of the stack in kilobytes.
    stack_size: u32,
    /// The address of the one-byte halt signal.
    exit_pos: u32,
    /// The address of the two-byte console sink.
    printer_pos: u32,
    /// Whether the executed instructions are listed.
    disassemble: bool,
    /// The path of the program to run.
    executable: String,
}

/// The configuration as plain values.
pub struct Configuration {
    pub stack_overwrite: u32,
    pub stack_size: u32,
    pub exit_pos: u32,
    pub printer_pos: u32,
    pub disassemble: bool,
    pub executable: Seq<char>,
}

/// The configuration that the texts of the arguments give, or the first argument, in the
/// order stack address, stack size, exit address, printer address, that is no number.
pub open spec fn configuration_of(
    stack_overwrite: Seq<u8>,
    stack_size: Seq<u8>,
    exit_pos: Seq<u8>,
    printer_pos: Seq<u8>,
    disassemble: bool,
    executable: Seq<char>,
) -> Result<Configuration, ArgumentError> {
    match hex_value(stack_overwrite) {
        Err(e) => Err(ArgumentError::StackOverwrite(e)),
        Ok(stack_overwrite) => match decimal_value(stack_size) {
            Err(e) => Err(ArgumentError::StackSize(e)),
            Ok(stack_size) => match hex_value(exit_pos) {
                Err(e) => Err(ArgumentError::ExitPosition(e)),
                Ok(exit_pos) => match hex_value(printer_pos) {
                    Err(e) => Err(ArgumentError::PrinterPosition(e)),
                    Ok(printer_pos) => Ok(
                        Configuration {
                            stack_overwrite,
                            stack_size,
                            exit_pos,
                            printer_pos,
                            disassemble,
                            executable,
                        },
                    ),
                },
            },
        },
    }
}

impl View for CommandLineArguments {
    type V = Configuration;

    closed spec fn view(&self) -> Configuration {
        Configuration {
            stack_overwrite: self.stack_overwrite,
            stack_size: self.stack_size,
            exit_pos: self.exit_pos,
            printer_pos: self.printer_pos,
            disassemble: self.disassemble,
            executable: self.executable@,
        }
    }
}

impl CommandLineArguments {
    /// Makes the configuration from the texts of the arguments: the stack address, the
    /// exit address and the printer address are hexadecimal, with or without `0x` in
    /// front; the stack size is decimal.
    pub fn new(
        stack_overwrite: &str,
        stack_size: &str,
        exit_pos: &str,
        printer_pos: &str,
        disassemble: bool,
        executable: &str,
    ) -> (r: Result<Self, ArgumentError>)
        ensures
            match configuration_of(
                stack_overwrite.spec_bytes(),
                stack_size.spec_bytes(),
                exit_pos.spec_bytes(),
                printer_pos.spec_bytes(),
                disassemble,
                executable@,
            ) {
                Ok(c) => r is Ok && r->Ok_0@ == c,
                Err(e) => r is Err && r->Err_0 == e,
            },
    {
        let stack_overwrite: u32 = match parse_hex(stack_overwrite) {
            Ok(v) => v,
            Err(e) => {
                return Err(ArgumentError::StackOverwrite(e));
            },
        };
        let stack_size: u32 = match parse_decimal(stack_size) {
            Ok(v) => v,
            Err(e) => {
                return Err(ArgumentError::StackSize(e));
            },
        };
        let exit_pos: u32 = match parse_hex(exit_pos) {
            Ok(v) => v,
            Err(e) => {
                return Err(ArgumentError::ExitPosition(e));
            },
        };
        let printer_pos: u32 = match parse_hex(printer_pos) {
            Ok(v) => v,
            Err(e) => {
                return Err(ArgumentError::PrinterPosition(e));
            },
        };
        Ok(
            CommandLineArguments {
                stack_overwrite,
                stack_size,
                exit_pos,
                printer_pos,
                disassemble,
                executable: executable.to_owned(),
            },
        )
    }

    #[inline]
    pub fn executable(&self) -> (r: &str)
        ensures
            r@ == self@.executable,
    {
        self.executable.as_str()
    }

    #[inline]
    pub fn stack_size(&self) -> (r: u32)
        ensures
            r == self@.stack_size,
    {
        self.stack_size
    }

    #[inline]
    pub fn stack_overwrite(&self) -> (r: u32)
        ensures
            r == self@.stack_overwrite,
    {
        self.stack_overwrite
    }

    #[inline]
    pub fn exit_pos(&self) -> (r: u32)
        ensures
            r == self@.exit_pos,
    {
        self.exit_pos
    }

    #[inline]
    pub fn printer_pos(&self) -> (r: u32)
        ensures
            r == self@.printer_pos,
    {
        self.printer_pos
    }

    #[inline]
    pub fn disassemble(&self) -> (r: bool)
        ensures
            r == self@.disassemble,
    {
        self.disassemble
    }
}

} // verus!
