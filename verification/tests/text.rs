use visa::text::{parse_decimal_u8, split, to_decimal, to_signed_decimal, trim, whitespace};

#[test]
fn whitespace_is_unicode_white_space() {
    for value in 0..=0x10FFFFu32 {
        if let Some(c) = char::from_u32(value) {
            assert_eq!(whitespace(c), c.is_whitespace(), "U+{:04X}", value);
        }
    }
}

#[test]
fn trim_cuts_white_space_on_both_sides() {
    assert_eq!(trim("  133\r\n"), "133");
    assert_eq!(trim("133"), "133");
    assert_eq!(trim(""), "");
    assert_eq!(trim(" \t\r\n"), "");
    assert_eq!(trim(" a b "), "a b");
    assert_eq!(trim("\u{2003}x\u{3000}"), "x");
    assert_eq!(trim("\u{200B}x"), "\u{200B}x");
    assert_eq!(trim("\u{85}é \u{A0}"), "é");
}

#[test]
fn trim_agrees_with_the_standard_library() {
    let pieces = ["", " ", "\n", "\t", "a", "1", "é", "\u{2028}", "\u{FEFF}", ","];
    for a in pieces {
        for b in pieces {
            for c in pieces {
                for d in pieces {
                    let text = format!("{}{}{}{}", a, b, c, d);
                    assert_eq!(trim(&text), text.trim(), "{:?}", text);
                }
            }
        }
    }
}

#[test]
fn parse_reads_bytes_in_decimal() {
    assert_eq!(parse_decimal_u8("0"), Some(0));
    assert_eq!(parse_decimal_u8("133"), Some(133));
    assert_eq!(parse_decimal_u8("255"), Some(255));
    assert_eq!(parse_decimal_u8("+7"), Some(7));
    assert_eq!(parse_decimal_u8("007"), Some(7));
    assert_eq!(parse_decimal_u8("0000000000000000000000255"), Some(255));
    assert_eq!(parse_decimal_u8("256"), None);
    assert_eq!(parse_decimal_u8("1000"), None);
    assert_eq!(parse_decimal_u8("99999999999999999999999999"), None);
    assert_eq!(parse_decimal_u8(""), None);
    assert_eq!(parse_decimal_u8("+"), None);
    assert_eq!(parse_decimal_u8("-"), None);
    assert_eq!(parse_decimal_u8("-0"), None);
    assert_eq!(parse_decimal_u8("-1"), None);
    assert_eq!(parse_decimal_u8("++1"), None);
    assert_eq!(parse_decimal_u8("1+"), None);
    assert_eq!(parse_decimal_u8("12a"), None);
    assert_eq!(parse_decimal_u8("a12"), None);
    assert_eq!(parse_decimal_u8(" 1"), None);
    assert_eq!(parse_decimal_u8("1 "), None);
    assert_eq!(parse_decimal_u8("1.0"), None);
    assert_eq!(parse_decimal_u8("0x10"), None);
    assert_eq!(parse_decimal_u8("\u{661}"), None);
    assert_eq!(parse_decimal_u8("999x"), None);
}

#[test]
fn parse_agrees_with_the_standard_library() {
    let alphabet = ["", "+", "-", "0", "1", "2", "5", "6", "9", " ", "a", "\u{663}"];
    for a in alphabet {
        for b in alphabet {
            for c in alphabet {
                for d in alphabet {
                    let text = format!("{}{}{}{}", a, b, c, d);
                    assert_eq!(parse_decimal_u8(&text), text.parse::<u8>().ok(), "{:?}", text);
                }
            }
        }
    }
    for value in 0..2000u32 {
        let text = value.to_string();
        assert_eq!(parse_decimal_u8(&text), text.parse::<u8>().ok());
    }
}

#[test]
fn split_cuts_at_every_separator() {
    assert_eq!(split("ACME,Model5,SN001,1.2.3", ','), vec!["ACME", "Model5", "SN001", "1.2.3"]);
    assert_eq!(split("", ','), vec![""]);
    assert_eq!(split("abc", ','), vec!["abc"]);
    assert_eq!(split(",", ','), vec!["", ""]);
    assert_eq!(split("a,,b", ','), vec!["a", "", "b"]);
    assert_eq!(split(",a,", ','), vec!["", "a", ""]);
    assert_eq!(split("é,ü", ','), vec!["é", "ü"]);
    assert_eq!(split("a;b,c", ';'), vec!["a", "b,c"]);
}

#[test]
fn split_agrees_with_the_standard_library() {
    let pieces = ["", ",", "a", "bc", " ", "é", ",,"];
    for a in pieces {
        for b in pieces {
            for c in pieces {
                for d in pieces {
                    let text = format!("{}{}{}{}", a, b, c, d);
                    let expected: Vec<String> = text.split(',').map(|p| p.to_string()).collect();
                    assert_eq!(split(&text, ','), expected, "{:?}", text);
                    assert_eq!(split(&text, ',').join(","), text);
                }
            }
        }
    }
}

#[test]
fn numbers_are_written_in_decimal() {
    assert_eq!(to_decimal(0), "0");
    assert_eq!(to_decimal(9), "9");
    assert_eq!(to_decimal(10), "10");
    assert_eq!(to_decimal(133), "133");
    assert_eq!(to_decimal(255), "255");
    assert_eq!(to_decimal(1_000_000), "1000000");
    assert_eq!(to_decimal(u64::MAX as u128), "18446744073709551615");
    assert_eq!(to_decimal(u128::MAX), "340282366920938463463374607431768211455");
    for value in 0..3000u128 {
        assert_eq!(to_decimal(value), value.to_string());
    }
}

#[test]
fn signed_numbers_are_written_with_their_sign() {
    assert_eq!(to_signed_decimal(0), "0");
    assert_eq!(to_signed_decimal(-1), "-1");
    assert_eq!(to_signed_decimal(42), "42");
    assert_eq!(to_signed_decimal(-1073807339), "-1073807339");
    assert_eq!(to_signed_decimal(i64::MAX), "9223372036854775807");
    assert_eq!(to_signed_decimal(i64::MIN), "-9223372036854775808");
    for value in -1500..1500i64 {
        assert_eq!(to_signed_decimal(value), value.to_string());
    }
}

#[test]
fn what_is_written_is_read_back() {
    for value in 0..=255u8 {
        assert_eq!(parse_decimal_u8(&to_decimal(value as u128)), Some(value));
    }
    assert_eq!(parse_decimal_u8(&to_decimal(256)), None);
}
