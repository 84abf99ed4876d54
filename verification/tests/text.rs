use sshm::text::{decimal, is_white_space, parse_number, trim};

#[test]
fn white_space_is_what_std_calls_white_space() {
    let mut code: u32 = 0;
    while code <= 0x10FFFF {
        if let Some(c) = char::from_u32(code) {
            assert_eq!(is_white_space(c), c.is_whitespace(), "U+{:04X}", code);
        }
        code += 1;
    }
}

#[test]
fn white_space_has_25_characters() {
    let mut count: u32 = 0;
    let mut code: u32 = 0;
    while code <= 0x10FFFF {
        if let Some(c) = char::from_u32(code) {
            if is_white_space(c) {
                count += 1;
            }
        }
        code += 1;
    }
    assert_eq!(count, 25);
}

#[test]
fn trim_takes_white_space_off_both_ends() {
    assert_eq!(trim("  hello  "), "hello");
    assert_eq!(trim("\t q \r\n"), "q");
    assert_eq!(trim("\u{3000}7\u{a0}"), "7");
}

#[test]
fn trim_keeps_white_space_inside() {
    assert_eq!(trim(" a b "), "a b");
    assert_eq!(trim("1 2"), "1 2");
}

#[test]
fn trim_of_nothing_but_white_space_is_empty() {
    assert_eq!(trim(""), "");
    assert_eq!(trim("   "), "");
    assert_eq!(trim("\n"), "");
}

#[test]
fn trim_leaves_a_trimmed_text_alone() {
    assert_eq!(trim("box"), "box");
    assert_eq!(trim("服务器"), "服务器");
}

#[test]
fn trim_agrees_with_std() {
    let samples = [
        "", " ", "a", " a", "a ", " a ", "\u{2003}x y\u{2028}", "\u{feff}a", "  \u{200b} ",
        "\u{1680}ogham\u{1680}", "tab\there", "\u{85}next\u{85}",
    ];
    for sample in samples {
        assert_eq!(trim(sample), sample.trim(), "{:?}", sample);
    }
}

#[test]
fn parse_number_reads_digits() {
    assert_eq!(parse_number("0"), Some(0));
    assert_eq!(parse_number("42"), Some(42));
    assert_eq!(parse_number("007"), Some(7));
    assert_eq!(parse_number("2222"), Some(2222));
}

#[test]
fn parse_number_stops_at_the_largest_i32() {
    assert_eq!(parse_number("2147483647"), Some(i32::MAX));
    assert_eq!(parse_number("2147483648"), None);
    assert_eq!(parse_number("99999999999999999999"), None);
    assert_eq!(parse_number("00000000002147483647"), Some(i32::MAX));
}

#[test]
fn parse_number_refuses_what_is_no_digit_run() {
    assert_eq!(parse_number(""), None);
    assert_eq!(parse_number("12a"), None);
    assert_eq!(parse_number("a12"), None);
    assert_eq!(parse_number("+5"), None);
    assert_eq!(parse_number("-5"), None);
    assert_eq!(parse_number(" 5"), None);
    assert_eq!(parse_number("1 2"), None);
    assert_eq!(parse_number("٣"), None);
}

#[test]
fn decimal_writes_digits() {
    assert_eq!(decimal(0), "0");
    assert_eq!(decimal(7), "7");
    assert_eq!(decimal(22), "22");
    assert_eq!(decimal(1000), "1000");
    assert_eq!(decimal(-1), "-1");
    assert_eq!(decimal(i32::MAX), "2147483647");
    assert_eq!(decimal(i32::MIN), "-2147483648");
}

#[test]
fn decimal_agrees_with_std() {
    let samples = [0, 1, 9, 10, 11, 99, 100, 101, 65535, -9, -10, -65536, i32::MAX, i32::MIN];
    for n in samples {
        assert_eq!(decimal(n), n.to_string());
    }
}

#[test]
fn parse_number_reads_back_what_decimal_writes() {
    let samples = [0, 1, 9, 10, 22, 2222, 65535, 1_000_000, i32::MAX];
    for n in samples {
        assert_eq!(parse_number(&decimal(n)), Some(n));
    }
}
