use dodge_the_creeps::text::{decimal_string, has_substring};

#[test]
fn decimal_of_zero_is_a_single_digit() {
    assert_eq!(decimal_string(0), "0");
}

#[test]
fn decimal_of_small_numbers() {
    assert_eq!(decimal_string(5), "5");
    assert_eq!(decimal_string(9), "9");
    assert_eq!(decimal_string(10), "10");
    assert_eq!(decimal_string(25), "25");
    assert_eq!(decimal_string(100), "100");
    assert_eq!(decimal_string(1234567890), "1234567890");
}

#[test]
fn decimal_of_negative_numbers_starts_with_a_minus_sign() {
    assert_eq!(decimal_string(-1), "-1");
    assert_eq!(decimal_string(-42), "-42");
    assert_eq!(decimal_string(-1000), "-1000");
}

#[test]
fn decimal_of_the_extremes() {
    assert_eq!(decimal_string(i32::MAX), "2147483647");
    assert_eq!(decimal_string(i32::MIN), "-2147483648");
}

#[test]
fn decimal_agrees_with_the_standard_library() {
    let mut n: i32 = -70_000;
    while n <= 70_000 {
        assert_eq!(decimal_string(n), n.to_string());
        n += 7;
    }
    let mut shift: u32 = 0;
    while shift < 31 {
        let power: i32 = 1 << shift;
        assert_eq!(decimal_string(power), power.to_string());
        assert_eq!(decimal_string(-power), (-power).to_string());
        assert_eq!(decimal_string(power - 1), (power - 1).to_string());
        shift += 1;
    }
}

#[test]
fn decimal_texts_of_different_numbers_differ() {
    let numbers: Vec<i32> = vec![-11, -10, -1, 0, 1, 10, 11, 100, 101, 110];
    for a in &numbers {
        for b in &numbers {
            assert_eq!(decimal_string(*a) == decimal_string(*b), a == b);
        }
    }
}

#[test]
fn substring_at_the_start_in_the_middle_and_at_the_end() {
    assert!(has_substring("run_up", "run"));
    assert!(has_substring("run_up", "n_u"));
    assert!(has_substring("run_up", "up"));
    assert!(has_substring("run_up", "run_up"));
}

#[test]
fn substring_that_is_absent() {
    assert!(!has_substring("run_up", "run_down"));
    assert!(!has_substring("run_up", "pu"));
    assert!(!has_substring("idle_right", "run_right"));
    assert!(!has_substring("run_u", "run_up"));
}

#[test]
fn substring_longer_than_the_text_is_absent() {
    assert!(!has_substring("up", "run_up"));
    assert!(!has_substring("", "r"));
}

#[test]
fn empty_substring_is_everywhere() {
    assert!(has_substring("run_up", ""));
    assert!(has_substring("", ""));
}

#[test]
fn substring_after_a_false_start() {
    assert!(has_substring("rrun_up", "run_up"));
    assert!(has_substring("run_run_up", "run_up"));
    assert!(has_substring("aab", "ab"));
}

#[test]
fn substring_is_sought_by_characters() {
    assert!(has_substring("größe_run_up", "run_up"));
    assert!(has_substring("läuft", "äu"));
    assert!(!has_substring("lauft", "äu"));
}

#[test]
fn substring_agrees_with_the_standard_library() {
    let texts: Vec<&str> = vec!["", "r", "run", "run_up", "run_down", "idle_up", "xrun_upx", "nur_pu"];
    for hay in &texts {
        for needle in &texts {
            assert_eq!(has_substring(hay, needle), hay.contains(needle));
        }
    }
}
