use batlab::decimal::{parse_decimal, parse_unsigned, Decimal};
use batlab::error::BatteryError;
use batlab::fields::{contains_charging_state, is_charging_status, parse_field};
use batlab::text::{contains_chars, split_chars, split_lines, split_words, to_chars, trimmed, CharClass};

fn as_f32(d: Decimal) -> f32 {
    d.mantissa as f32 / 10f32.powi(d.scale as i32)
}

fn strings(pieces: Vec<Vec<char>>) -> Vec<String> {
    pieces.into_iter().map(|p| p.into_iter().collect()).collect()
}

#[test]
fn lines_follow_line_feeds() {
    assert_eq!(
        strings(split_lines(&to_chars("foo\nbar\n\r\nbaz\r"))),
        vec!["foo", "bar", "", "baz\r"]
    );
    assert_eq!(strings(split_lines(&to_chars("a\r\nb\n"))), vec!["a", "b"]);
    assert!(split_lines(&to_chars("")).is_empty());
    assert_eq!(strings(split_lines(&to_chars("\n"))), vec![""]);
    assert_eq!(strings(split_lines(&to_chars("a\n\nb"))), vec!["a", "", "b"]);
}

#[test]
fn lines_agree_with_the_standard_library() {
    for text in ["", "\n", "\r\n", "a", "a\n", "a\r", "a\r\n\r\nb\r", "\n\n", "x\ny\r\nz"] {
        let expected: Vec<String> = text.lines().map(|l| l.to_string()).collect();
        assert_eq!(strings(split_lines(&to_chars(text))), expected, "{:?}", text);
    }
}

#[test]
fn split_keeps_empty_pieces() {
    assert_eq!(strings(split_chars(&to_chars("a::b:"), CharClass::Char(':'))), vec!["a", "", "b", ""]);
    assert_eq!(strings(split_chars(&to_chars(""), CharClass::Char(':'))), vec![""]);
}

#[test]
fn words_skip_all_white_space() {
    assert_eq!(
        strings(split_words(&to_chars("  a\tb\u{a0}c \u{3000} d\n"))),
        vec!["a", "b", "c", "d"]
    );
    assert!(split_words(&to_chars(" \t ")).is_empty());
    assert_eq!(trimmed(" \t x y \n"), "x y");
    assert_eq!(trimmed("   "), "");
}

#[test]
fn words_agree_with_the_standard_library() {
    for text in ["", " ", "a", " a  b ", "\u{85}x\u{2003}y\u{feff}z", "state:\t \tcharging"] {
        let expected: Vec<String> = text.split_whitespace().map(|w| w.to_string()).collect();
        assert_eq!(strings(split_words(&to_chars(text))), expected, "{:?}", text);
    }
}

#[test]
fn substring_search_finds_every_position() {
    assert!(contains_chars(&to_chars("native-path: BAT0"), &to_chars("BAT")));
    assert!(contains_chars(&to_chars("BAT"), &to_chars("BAT")));
    assert!(contains_chars(&to_chars("abc"), &to_chars("")));
    assert!(!contains_chars(&to_chars("BA"), &to_chars("BAT")));
    assert!(!contains_chars(&to_chars("B-A-T"), &to_chars("BAT")));
}

#[test]
fn decimals_are_read_exactly() {
    assert_eq!(parse_decimal(&to_chars("8.45")), Some(Decimal { mantissa: 845, scale: 2 }));
    assert_eq!(parse_decimal(&to_chars("-5000")), Some(Decimal { mantissa: -5000, scale: 0 }));
    assert_eq!(parse_decimal(&to_chars("+.5")), Some(Decimal { mantissa: 5, scale: 1 }));
    assert_eq!(parse_decimal(&to_chars("5.")), Some(Decimal { mantissa: 5, scale: 0 }));
    assert_eq!(parse_decimal(&to_chars("007")), Some(Decimal { mantissa: 7, scale: 0 }));
    assert_eq!(parse_decimal(&to_chars(".")), None);
    assert_eq!(parse_decimal(&to_chars("-")), None);
    assert_eq!(parse_decimal(&to_chars("")), None);
    assert_eq!(parse_decimal(&to_chars("1.2.3")), None);
    assert_eq!(parse_decimal(&to_chars("12a")), None);
    assert_eq!(parse_decimal(&to_chars("1e3")), None);
    assert_eq!(parse_decimal(&to_chars("--1")), None);
}

#[test]
fn decimals_stop_at_their_limits() {
    assert_eq!(
        parse_decimal(&to_chars("9223372036854775807")),
        Some(Decimal { mantissa: i64::MAX, scale: 0 })
    );
    assert_eq!(parse_decimal(&to_chars("9223372036854775808")), None);
    assert_eq!(
        parse_decimal(&to_chars("-9223372036854775807")),
        Some(Decimal { mantissa: -i64::MAX, scale: 0 })
    );
    assert_eq!(
        parse_decimal(&to_chars("0.000000000000000001")),
        Some(Decimal { mantissa: 1, scale: 18 })
    );
    assert_eq!(parse_decimal(&to_chars("0.0000000000000000001")), None);
    assert_eq!(parse_decimal(&to_chars("99999999999999999999999999")), None);
}

#[test]
fn unsigned_integers_are_read_exactly() {
    assert_eq!(parse_unsigned(&to_chars("18446744073709551615")), Some(u64::MAX));
    assert_eq!(parse_unsigned(&to_chars("18446744073709551616")), None);
    assert_eq!(parse_unsigned(&to_chars("+7")), Some(7));
    assert_eq!(parse_unsigned(&to_chars("-7")), None);
    assert_eq!(parse_unsigned(&to_chars("+")), None);
    assert_eq!(parse_unsigned(&to_chars("")), None);
    assert_eq!(parse_unsigned(&to_chars("1 ")), None);
    assert_eq!(parse_unsigned(&to_chars("0")), Some(0));
}

#[test]
fn test_parse_acpiconf_field() {
    let sample_output = r#"
Design capacity:        57040 mWh
Last full capacity:     53200 mWh
Technology:             Lithium Ion
Design voltage:         11400 mV
Remaining capacity:     85%
Remaining time:         3:45
Present rate:           12500 mW
Present voltage:        11800 mV
        "#;

    assert_eq!(
        as_f32(batlab::freebsd_telemetry::parse_acpiconf_field(sample_output, "Remaining capacity").unwrap()),
        85.0
    );
    assert_eq!(
        as_f32(batlab::freebsd_telemetry::parse_acpiconf_field(sample_output, "Present rate").unwrap()),
        12500.0
    );
    assert_eq!(
        as_f32(batlab::freebsd_telemetry::parse_acpiconf_field(sample_output, "Design capacity").unwrap()),
        57040.0
    );
}

#[test]
fn test_parse_acpiconf_field_missing() {
    let sample_output = "Some other output";
    assert!(batlab::freebsd_telemetry::parse_acpiconf_field(sample_output, "Nonexistent field").is_err());
}

#[test]
fn field_value_ignores_white_space_and_other_fields() {
    for doc in [
        "power: 42 W",
        "  power:\t\t42   W  ",
        "other: 1\npower: 42 W\nmore: 2",
        "x\r\n\r\npower:42 W is not it\npower: 42 W\r\n",
        "unit power: W 42% done",
    ] {
        let got = parse_field(doc, "power:");
        if doc.contains("power:42") {
            assert!(got.is_err(), "{:?}", doc);
        } else {
            assert_eq!(got.unwrap(), Decimal { mantissa: 42, scale: 0 }, "{:?}", doc);
        }
    }
}

#[test]
fn only_the_first_line_with_the_label_counts() {
    assert_eq!(
        parse_field("state: 1\nstate: 2", "state").unwrap(),
        Decimal { mantissa: 1, scale: 0 }
    );
    assert!(parse_field("state: none\nstate: 2", "state").is_err());
}

#[test]
fn missing_field_names_the_field() {
    match parse_field("Some other output", "Nonexistent field") {
        Err(BatteryError::ParseError { field, value }) => {
            assert_eq!(field, "Nonexistent field");
            assert_eq!(value, "not found or invalid");
        }
        other => panic!("unexpected {:?}", other),
    }
    assert!(matches!(
        parse_field("capacity: full", "capacity"),
        Err(BatteryError::ParseError { .. })
    ));
}

#[test]
fn percentages_are_read_without_loss() {
    for n in 0..=100i64 {
        let doc = format!("Remaining capacity:\t{}%", n);
        assert_eq!(
            parse_field(&doc, "Remaining capacity").unwrap(),
            Decimal { mantissa: n, scale: 0 }
        );
    }
    assert_eq!(
        parse_field("capacity: 86.8%", "capacity").unwrap(),
        Decimal { mantissa: 868, scale: 1 }
    );
    assert_eq!(
        parse_field("capacity: 100.00%%", "capacity").unwrap(),
        Decimal { mantissa: 10000, scale: 2 }
    );
}

#[test]
fn units_behind_a_number_are_set_aside() {
    assert_eq!(
        parse_field("Present rate: 12500mW", "Present rate").unwrap(),
        Decimal { mantissa: 12500, scale: 0 }
    );
    assert_eq!(
        parse_field("temperature: 45.5C", "temperature").unwrap(),
        Decimal { mantissa: 455, scale: 1 }
    );
    assert_eq!(
        parse_field("level: 7%rel", "level").unwrap(),
        Decimal { mantissa: 7, scale: 0 }
    );
    assert!(parse_field("level: high", "level").is_err());
    assert!(parse_field("level: inf", "level").is_err());
    assert!(parse_field("level: NaN", "level").is_err());
    assert!(parse_field("level: x7", "level").is_err());
    assert!(parse_field("level: 7!", "level").is_err());
}

#[test]
fn charging_needs_the_exact_word() {
    assert!(!contains_charging_state("state: discharging"));
    assert!(contains_charging_state("state: charging"));
    assert!(contains_charging_state("  battery\n    state:               charging\n"));
    assert!(!contains_charging_state("    state:               fully-charged\n"));
    assert!(!contains_charging_state("    state:               pending-charge\n"));
    assert!(!contains_charging_state("history: charging\nstate: discharging"));
    assert!(!contains_charging_state("charging"));
    assert!(!contains_charging_state(""));
}

#[test]
fn battery_status_is_read_by_words() {
    assert!(is_charging_status("Charging\n"));
    assert!(is_charging_status("charging"));
    assert!(is_charging_status("CHARGING"));
    assert!(is_charging_status("  cHaRgInG \t"));
    assert!(!is_charging_status("Not charging\n"));
    assert!(!is_charging_status("not charging"));
    assert!(!is_charging_status("charging now"));
    assert!(!is_charging_status("Discharging\n"));
    assert!(!is_charging_status("Full\n"));
    assert!(!is_charging_status("Unknown"));
    assert!(!is_charging_status(""));
}
