use avap_lite::{format_decimal, sum_as_string, SumError};

fn is_canonical(s: &str) -> bool {
    !s.is_empty()
        && s.chars().all(|c| c.is_ascii_digit())
        && (!s.starts_with('0') || s == "0")
}

#[test]
fn sum_of_zeros_is_zero() {
    assert_eq!(sum_as_string(0, 0), Ok("0".to_string()));
}

#[test]
fn sum_of_two_and_three() {
    assert_eq!(sum_as_string(2, 3), Ok("5".to_string()));
}

#[test]
fn sum_of_max_and_zero() {
    assert_eq!(sum_as_string(usize::MAX, 0), Ok(usize::MAX.to_string()));
    assert_eq!(sum_as_string(0, usize::MAX), Ok(usize::MAX.to_string()));
}

#[test]
fn sum_reaching_max_exactly() {
    let half = usize::MAX / 2;
    assert_eq!(sum_as_string(half, half + 1), Ok(usize::MAX.to_string()));
}

#[test]
fn sum_overflow_is_an_error() {
    assert_eq!(sum_as_string(usize::MAX, 1), Err(SumError::Overflow));
    assert_eq!(sum_as_string(1, usize::MAX), Err(SumError::Overflow));
    assert_eq!(sum_as_string(usize::MAX, usize::MAX), Err(SumError::Overflow));
}

#[test]
fn sum_text_reads_back() {
    let cases: Vec<(usize, usize)> = vec![(0, 0), (1, 9), (9, 1), (123, 877), (40_000, 2_999), (65_535, 1)];
    for (a, b) in cases {
        let s = sum_as_string(a, b).unwrap();
        assert_eq!(s.parse::<usize>().unwrap(), a + b);
    }
}

#[test]
fn sum_text_is_digits_without_leading_zero() {
    let cases: Vec<(usize, usize)> = vec![(0, 0), (0, 10), (5, 5), (99, 1), (1_000, 0), (usize::MAX, 0)];
    for (a, b) in cases {
        let s = sum_as_string(a, b).unwrap();
        assert!(is_canonical(&s), "{}", s);
    }
    assert_eq!(sum_as_string(0, 10), Ok("10".to_string()));
    assert_eq!(sum_as_string(99, 1), Ok("100".to_string()));
}

#[test]
fn sum_is_deterministic_on_repeat() {
    assert_eq!(sum_as_string(17, 25), sum_as_string(17, 25));
    assert_eq!(sum_as_string(17, 25), Ok("42".to_string()));
    assert_eq!(sum_as_string(usize::MAX, 3), sum_as_string(usize::MAX, 3));
}

#[test]
fn format_decimal_values() {
    assert_eq!(format_decimal(0), "0");
    assert_eq!(format_decimal(7), "7");
    assert_eq!(format_decimal(10), "10");
    assert_eq!(format_decimal(305), "305");
    assert_eq!(format_decimal(1_000_000), "1000000");
    assert_eq!(format_decimal(usize::MAX), usize::MAX.to_string());
}
