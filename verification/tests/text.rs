use untis::text::{decimal_string, signed_decimal_string};

#[test]
fn numbers_are_written_in_decimal() {
    assert_eq!(decimal_string(0), "0");
    assert_eq!(decimal_string(7), "7");
    assert_eq!(decimal_string(9), "9");
    assert_eq!(decimal_string(10), "10");
    assert_eq!(decimal_string(109), "109");
    assert_eq!(decimal_string(1234567890), "1234567890");
    assert_eq!(decimal_string(usize::MAX), format!("{}", usize::MAX));
}

#[test]
fn integers_are_written_with_their_sign() {
    assert_eq!(signed_decimal_string(0), "0");
    assert_eq!(signed_decimal_string(5), "5");
    assert_eq!(signed_decimal_string(-5), "-5");
    assert_eq!(signed_decimal_string(-8504), "-8504");
    assert_eq!(signed_decimal_string(-1), "-1");
    assert_eq!(signed_decimal_string(isize::MAX), format!("{}", isize::MAX));
    assert_eq!(signed_decimal_string(isize::MIN), format!("{}", isize::MIN));
}

#[test]
fn numerals_of_different_numbers_differ() {
    let mut seen: Vec<String> = Vec::new();
    for n in 0..300usize {
        let numeral = decimal_string(n);
        assert!(!seen.contains(&numeral));
        seen.push(numeral);
    }
}
