use mips_sim::commandline_arguments::parse_decimal;
use mips_sim::commandline_arguments::parse_hex;
use mips_sim::commandline_arguments::ArgumentError;
use mips_sim::commandline_arguments::CommandLineArguments;
use mips_sim::commandline_arguments::ParseError;

#[test]
fn hex_with_and_without_prefix() {
    assert_eq!(parse_hex("0xFFFFFFFF"), Ok(0xFFFF_FFFF));
    assert_eq!(parse_hex("FFFFFFFF"), Ok(0xFFFF_FFFF));
    assert_eq!(parse_hex("0x2"), Ok(2));
    assert_eq!(parse_hex("0x1"), Ok(1));
    assert_eq!(parse_hex("1f"), Ok(0x1F));
    assert_eq!(parse_hex("0xDeadBeef"), Ok(0xDEAD_BEEF));
    assert_eq!(parse_hex("0"), Ok(0));
    assert_eq!(parse_hex("000000000010"), Ok(0x10));
    assert_eq!(parse_hex("0x0x10"), Ok(0x10));
    assert_eq!(parse_hex("+7f"), Ok(0x7F));
    assert_eq!(parse_hex("0x+7f"), Ok(0x7F));
}

#[test]
fn hex_errors() {
    assert_eq!(parse_hex(""), Err(ParseError::Empty));
    assert_eq!(parse_hex("0x"), Err(ParseError::Empty));
    assert_eq!(parse_hex("0x0x"), Err(ParseError::Empty));
    assert_eq!(parse_hex("+"), Err(ParseError::InvalidDigit));
    assert_eq!(parse_hex("-1"), Err(ParseError::InvalidDigit));
    assert_eq!(parse_hex("12g"), Err(ParseError::InvalidDigit));
    assert_eq!(parse_hex("0X10"), Err(ParseError::InvalidDigit));
    assert_eq!(parse_hex(" 10"), Err(ParseError::InvalidDigit));
    assert_eq!(parse_hex("1_0"), Err(ParseError::InvalidDigit));
    assert_eq!(parse_hex("++1"), Err(ParseError::InvalidDigit));
    assert_eq!(parse_hex("\u{e9}"), Err(ParseError::InvalidDigit));
    assert_eq!(parse_hex("100000000"), Err(ParseError::Overflow));
    assert_eq!(parse_hex("FFFFFFFFF"), Err(ParseError::Overflow));
    assert_eq!(parse_hex("100000000g"), Err(ParseError::Overflow));
    assert_eq!(parse_hex("1g00000000"), Err(ParseError::InvalidDigit));
}

#[test]
fn decimal_numbers() {
    assert_eq!(parse_decimal("1024"), Ok(1024));
    assert_eq!(parse_decimal("0"), Ok(0));
    assert_eq!(parse_decimal("+15"), Ok(15));
    assert_eq!(parse_decimal("4294967295"), Ok(u32::MAX));
    assert_eq!(parse_decimal("4294967296"), Err(ParseError::Overflow));
    assert_eq!(parse_decimal("99999999999"), Err(ParseError::Overflow));
    assert_eq!(parse_decimal(""), Err(ParseError::Empty));
    assert_eq!(parse_decimal("0x10"), Err(ParseError::InvalidDigit));
    assert_eq!(parse_decimal("1a"), Err(ParseError::InvalidDigit));
    assert_eq!(parse_decimal("-5"), Err(ParseError::InvalidDigit));
    assert_eq!(parse_decimal("12 "), Err(ParseError::InvalidDigit));
}

#[test]
fn parsers_agree_with_the_standard_library() {
    for text in ["0", "7", "ff", "FF", "+1", "", "+", "-", "-0", "12345678", "123456789", "zz", "1 ", "٣"] {
        assert_eq!(parse_hex(text).ok(), u32::from_str_radix(text, 16).ok(), "{text:?}");
        assert_eq!(parse_decimal(text).ok(), text.parse::<u32>().ok(), "{text:?}");
    }
    for text in ["0x10", "0x0x0x1", "0xx1", "x0", "0x"] {
        assert_eq!(
            parse_hex(text).ok(),
            u32::from_str_radix(text.trim_start_matches("0x"), 16).ok(),
            "{text:?}"
        );
    }
}

#[test]
fn arguments_with_the_usual_defaults() {
    let c = CommandLineArguments::new("0xFFFFFFFF", "1024", "0x1", "0x2", false, "a.out").unwrap();
    assert_eq!(c.stack_overwrite(), 0xFFFF_FFFF);
    assert_eq!(c.stack_size(), 1024);
    assert_eq!(c.exit_pos(), 1);
    assert_eq!(c.printer_pos(), 2);
    assert!(!c.disassemble());
    assert_eq!(c.executable(), "a.out");
}

#[test]
fn arguments_as_given() {
    let c = CommandLineArguments::new("7fff0000", "16", "a0000000", "0xA0000010", true, "dir/prog.elf").unwrap();
    assert_eq!(c.stack_overwrite(), 0x7FFF_0000);
    assert_eq!(c.stack_size(), 16);
    assert_eq!(c.exit_pos(), 0xA000_0000);
    assert_eq!(c.printer_pos(), 0xA000_0010);
    assert!(c.disassemble());
    assert_eq!(c.executable(), "dir/prog.elf");
}

#[test]
fn arguments_name_the_first_bad_text() {
    let e = CommandLineArguments::new("stack", "x", "y", "z", false, "p").unwrap_err();
    assert_eq!(e, ArgumentError::StackOverwrite(ParseError::InvalidDigit));
    let e = CommandLineArguments::new("0x10", "", "y", "z", false, "p").unwrap_err();
    assert_eq!(e, ArgumentError::StackSize(ParseError::Empty));
    let e = CommandLineArguments::new("0x10", "0x10", "1", "2", false, "p").unwrap_err();
    assert_eq!(e, ArgumentError::StackSize(ParseError::InvalidDigit));
    let e = CommandLineArguments::new("0x10", "1", "100000000", "z", false, "p").unwrap_err();
    assert_eq!(e, ArgumentError::ExitPosition(ParseError::Overflow));
    let e = CommandLineArguments::new("0x10", "1", "1", "0x", false, "p").unwrap_err();
    assert_eq!(e, ArgumentError::PrinterPosition(ParseError::Empty));
}
