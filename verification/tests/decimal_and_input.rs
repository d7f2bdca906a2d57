use zkbench::backend::Backend;
use zkbench::decimal::{parse_u32, push_decimal, to_decimal};
use zkbench::input::{BenchmarkInput, SomeStruct};

#[test]
fn decimal_of_zero_is_one_digit() {
    assert_eq!(to_decimal(0), "0");
}

#[test]
fn decimal_of_single_digits() {
    let expected = ["0", "1", "2", "3", "4", "5", "6", "7", "8", "9"];
    for n in 0u128..10 {
        assert_eq!(to_decimal(n), expected[n as usize]);
    }
}

#[test]
fn decimal_of_round_numbers() {
    assert_eq!(to_decimal(10), "10");
    assert_eq!(to_decimal(100), "100");
    assert_eq!(to_decimal(1_000_000), "1000000");
}

#[test]
fn decimal_of_mixed_digits() {
    assert_eq!(to_decimal(12345), "12345");
    assert_eq!(to_decimal(9_876_543_210), "9876543210");
}

#[test]
fn decimal_of_the_largest_number() {
    assert_eq!(to_decimal(u128::MAX), "340282366920938463463374607431768211455");
    assert_eq!(to_decimal(u128::MAX), format!("{}", u128::MAX));
}

#[test]
fn decimal_agrees_with_the_standard_formatter() {
    let mut n: u128 = 1;
    for _ in 0..38 {
        assert_eq!(to_decimal(n), format!("{}", n));
        assert_eq!(to_decimal(n - 1), format!("{}", n - 1));
        assert_eq!(to_decimal(n + 7), format!("{}", n + 7));
        n *= 10;
    }
}

#[test]
fn push_decimal_appends_to_what_is_there() {
    let mut text = String::from("n=");
    push_decimal(&mut text, 42);
    assert_eq!(text, "n=42");
    push_decimal(&mut text, 0);
    assert_eq!(text, "n=420");
}

#[test]
fn numeric_input_renders_as_decimal() {
    assert_eq!(BenchmarkInput::Number(90).render(), "90");
    assert_eq!(BenchmarkInput::Number(0).render(), "0");
    assert_eq!(BenchmarkInput::Number(u32::MAX).render(), "4294967295");
}

#[test]
fn textual_input_renders_as_written() {
    assert_eq!(BenchmarkInput::Text(String::from("16")).render(), "16");
    assert_eq!(BenchmarkInput::Text(String::from("a b")).render(), "a b");
    assert_eq!(BenchmarkInput::Text(String::new()).render(), "");
}

#[test]
fn cloned_input_is_the_same_input() {
    let number = BenchmarkInput::Number(17);
    assert!(matches!(number.clone(), BenchmarkInput::Number(17)));
    let text = BenchmarkInput::Text(String::from("17"));
    match text.clone() {
        BenchmarkInput::Text(s) => assert_eq!(s, "17"),
        BenchmarkInput::Number(_) => panic!("a text became a number"),
    }
}

#[test]
fn some_struct_holds_its_fields() {
    let value = SomeStruct { a: 1, b: 2 };
    assert_eq!(value.a, 1);
    assert_eq!(value.b, 2);
    assert_eq!(value, SomeStruct { a: 1, b: 2 });
    assert_ne!(value, SomeStruct { a: 2, b: 1 });
}

#[test]
fn parse_reads_plain_numbers() {
    assert_eq!(parse_u32("0"), Some(0));
    assert_eq!(parse_u32("7"), Some(7));
    assert_eq!(parse_u32("10"), Some(10));
    assert_eq!(parse_u32("90"), Some(90));
    assert_eq!(parse_u32("4294967295"), Some(u32::MAX));
}

#[test]
fn parse_reads_over_zeros_in_front() {
    assert_eq!(parse_u32("007"), Some(7));
    assert_eq!(parse_u32("0000000000000000000000042"), Some(42));
    assert_eq!(parse_u32("00"), Some(0));
}

#[test]
fn parse_refuses_what_does_not_fit() {
    assert_eq!(parse_u32("4294967296"), None);
    assert_eq!(parse_u32("99999999999"), None);
    assert_eq!(parse_u32("340282366920938463463374607431768211455340282366920938463463374607431768211455"), None);
}

#[test]
fn parse_refuses_what_is_not_all_digits() {
    assert_eq!(parse_u32(""), None);
    assert_eq!(parse_u32("+5"), None);
    assert_eq!(parse_u32("-5"), None);
    assert_eq!(parse_u32("12a"), None);
    assert_eq!(parse_u32("a12"), None);
    assert_eq!(parse_u32("1 2"), None);
    assert_eq!(parse_u32(" 12"), None);
    assert_eq!(parse_u32("1.5"), None);
    assert_eq!(parse_u32("\u{0661}\u{0662}"), None);
    assert_eq!(parse_u32("99999999999x"), None);
}

#[test]
fn parse_reads_back_what_decimal_writes() {
    for n in [0u32, 1, 9, 10, 11, 99, 100, 65535, 65536, 1_000_000_007, u32::MAX - 1, u32::MAX] {
        assert_eq!(parse_u32(&to_decimal(n as u128)), Some(n));
    }
}

#[test]
fn inputs_are_numbers_only_where_guests_take_numbers() {
    assert!(matches!(BenchmarkInput::read(String::from("90"), Backend::StarkZkvm), BenchmarkInput::Number(90)));
    match BenchmarkInput::read(String::from("90"), Backend::FoldingWasm) {
        BenchmarkInput::Text(text) => assert_eq!(text, "90"),
        BenchmarkInput::Number(_) => panic!("a text became a number"),
    }
    match BenchmarkInput::read(String::from("ninety"), Backend::StarkZkvm) {
        BenchmarkInput::Text(text) => assert_eq!(text, "ninety"),
        BenchmarkInput::Number(_) => panic!("a word became a number"),
    }
    match BenchmarkInput::read(String::from("4294967296"), Backend::StarkZkvm) {
        BenchmarkInput::Text(text) => assert_eq!(text, "4294967296"),
        BenchmarkInput::Number(_) => panic!("a number that does not fit was read"),
    }
    assert!(Backend::StarkZkvm.takes_numbers());
    assert!(!Backend::FoldingWasm.takes_numbers());
}
