use egui_debug_derive::decimal::push_decimal;

fn written(n: usize) -> String {
    let mut out = String::new();
    push_decimal(&mut out, n);
    out
}

#[test]
fn zero_is_a_single_digit() {
    assert_eq!(written(0), "0");
}

#[test]
fn single_digits() {
    assert_eq!(written(1), "1");
    assert_eq!(written(5), "5");
    assert_eq!(written(9), "9");
}

#[test]
fn first_numbers_with_more_digits() {
    assert_eq!(written(10), "10");
    assert_eq!(written(11), "11");
    assert_eq!(written(99), "99");
    assert_eq!(written(100), "100");
    assert_eq!(written(101), "101");
}

#[test]
fn inner_and_trailing_zeros_are_kept() {
    assert_eq!(written(1000), "1000");
    assert_eq!(written(20304), "20304");
    assert_eq!(written(907000), "907000");
}

#[test]
fn large_indices() {
    assert_eq!(written(4294967295), "4294967295");
    assert_eq!(written(1234567890), "1234567890");
    assert_eq!(written(usize::MAX), usize::MAX.to_string());
}

#[test]
fn digits_are_appended_to_what_is_there() {
    let mut out = String::from("self.");
    push_decimal(&mut out, 42);
    assert_eq!(out, "self.42");
    push_decimal(&mut out, 0);
    assert_eq!(out, "self.420");
}

#[test]
fn notation_reads_back_as_the_number() {
    for n in (0..2000).chain([65535, 65536, 999999, 1000000, 4294967294]) {
        let text = written(n);
        assert_eq!(text.parse::<usize>(), Ok(n));
        assert!(text.chars().all(|c| c.is_ascii_digit()));
        assert!(n == 0 || !text.starts_with('0'));
    }
}

#[test]
fn different_numbers_are_written_differently() {
    let all: Vec<String> = (0..500).map(written).collect();
    for i in 0..all.len() {
        for j in 0..i {
            assert_ne!(all[i], all[j]);
        }
    }
}
