use binding_pipeline::error::StepError;
use binding_pipeline::pipeline::parse_pipeline;
use binding_pipeline::text::{is_whitespace_char, parse_i32, trim};

#[test]
fn pipeline_reads_padded_number() {
    assert_eq!(parse_pipeline(" 123 "), Ok(123));
}

#[test]
fn pipeline_rejects_empty_text() {
    assert_eq!(parse_pipeline(""), Err(StepError::ParseError));
}

#[test]
fn pipeline_rejects_embedded_letter() {
    assert_eq!(parse_pipeline("12a"), Err(StepError::ParseError));
}

#[test]
fn pipeline_rejects_sign_without_digits() {
    assert_eq!(parse_pipeline("+"), Err(StepError::ParseError));
    assert_eq!(parse_pipeline("-"), Err(StepError::ParseError));
    assert_eq!(parse_pipeline("  -  "), Err(StepError::ParseError));
}

#[test]
fn pipeline_rejects_whitespace_only() {
    assert_eq!(parse_pipeline("   "), Err(StepError::ParseError));
    assert_eq!(parse_pipeline("\t\n"), Err(StepError::ParseError));
}

#[test]
fn pipeline_reads_signed_numbers() {
    assert_eq!(parse_pipeline("42"), Ok(42));
    assert_eq!(parse_pipeline("+42"), Ok(42));
    assert_eq!(parse_pipeline("-42"), Ok(-42));
    assert_eq!(parse_pipeline("\t-7\r\n"), Ok(-7));
    assert_eq!(parse_pipeline("-0"), Ok(0));
    assert_eq!(parse_pipeline("000123"), Ok(123));
}

#[test]
fn pipeline_rejects_whitespace_inside() {
    assert_eq!(parse_pipeline("1 2"), Err(StepError::ParseError));
    assert_eq!(parse_pipeline("- 1"), Err(StepError::ParseError));
}

#[test]
fn parse_does_not_trim() {
    assert_eq!(parse_i32("123"), Ok(123));
    assert_eq!(parse_i32(" 123"), Err(StepError::ParseError));
    assert_eq!(parse_i32("123 "), Err(StepError::ParseError));
}

#[test]
fn parse_knows_the_limits_of_the_type() {
    assert_eq!(parse_i32("2147483647"), Ok(i32::MAX));
    assert_eq!(parse_i32("+2147483647"), Ok(i32::MAX));
    assert_eq!(parse_i32("2147483648"), Err(StepError::ParseError));
    assert_eq!(parse_i32("-2147483648"), Ok(i32::MIN));
    assert_eq!(parse_i32("-2147483649"), Err(StepError::ParseError));
    assert_eq!(parse_i32("99999999999999999999999999999999"), Err(StepError::ParseError));
    assert_eq!(parse_i32("-99999999999999999999999999999999"), Err(StepError::ParseError));
    assert_eq!(parse_i32("00000000000000000000000000002147483647"), Ok(i32::MAX));
}

#[test]
fn parse_agrees_with_the_standard_library() {
    let samples = [
        "", "0", "-0", "+0", "7", "+7", "-7", "42", "123", "12a", "a12", "1a2", "+", "-", "+-1",
        "-+1", "--1", "++1", "1-", "1+", " 1", "1 ", "1_000", "0x10", "1.0", "1e3",
        "2147483646", "2147483647", "2147483648", "2147483649", "-2147483647", "-2147483648",
        "-2147483649", "21474836470", "4294967296", "-4294967296", "9223372036854775807",
        "9223372036854775808", "18446744073709551616", "000", "-000", "0000000001",
        "\u{FF11}\u{FF12}", "\u{0661}", "1\u{0}", "\u{2212}1", "12\u{A0}",
    ];
    for text in samples {
        let expected = text.parse::<i32>().map_err(|_| StepError::ParseError);
        assert_eq!(parse_i32(text), expected, "text {:?}", text);
    }
}

#[test]
fn parse_agrees_with_the_standard_library_on_numbers() {
    let mut number: i64 = -3_000_000_000;
    while number <= 3_000_000_000 {
        let text = format!("{}", number);
        let expected = text.parse::<i32>().map_err(|_| StepError::ParseError);
        assert_eq!(parse_i32(&text), expected, "text {:?}", text);
        number += 7_654_321;
    }
}

#[test]
fn whitespace_agrees_with_the_standard_library() {
    let mut count = 0;
    for code in 0..=0x10FFFFu32 {
        if let Some(c) = char::from_u32(code) {
            assert_eq!(is_whitespace_char(c), c.is_whitespace(), "code {:#x}", code);
            if is_whitespace_char(c) {
                count += 1;
            }
        }
    }
    assert_eq!(count, 25);
}

#[test]
fn trim_removes_whitespace_at_both_ends_only() {
    assert_eq!(trim(" 123 "), "123");
    assert_eq!(trim("42"), "42");
    assert_eq!(trim(""), "");
    assert_eq!(trim("   "), "");
    assert_eq!(trim("\t a b \n"), "a b");
    assert_eq!(trim("a"), "a");
    assert_eq!(trim(" a"), "a");
    assert_eq!(trim("a "), "a");
}

#[test]
fn trim_agrees_with_the_standard_library() {
    let samples = [
        "", " ", "  ", "a", " a", "a ", " a ", "  a  b  ", "\u{3000}x\u{2003}",
        "\u{A0}\u{1680}y\u{202F}\u{205F}", "\u{200B}z\u{200B}", "\u{FEFF}w", "\r\n\tq\u{85}",
        "\u{1F980} crab \u{1F980}", " \u{e9}t\u{e9} ", "\u{2028}\u{2029}", "x\u{0}",
    ];
    for text in samples {
        assert_eq!(trim(text), text.trim(), "text {:?}", text);
    }
}

#[test]
fn trim_hands_back_a_part_of_its_argument() {
    let text = String::from("  inner  ");
    let rest = trim(&text);
    let offset = rest.as_ptr() as usize - text.as_ptr() as usize;
    assert_eq!(offset, 2);
    assert_eq!(rest.len(), 5);
}
