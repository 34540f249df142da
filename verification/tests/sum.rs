use engineertools::cards::sum::{calculate_sum, sum_is_in_range};
use engineertools::text::same_text;

#[test]
fn sum_of_each_operator() {
    assert_eq!(calculate_sum(2, 3, "+").unwrap(), 5);
    assert_eq!(calculate_sum(2, 3, "-").unwrap(), -1);
    assert_eq!(calculate_sum(2, 3, "x").unwrap(), 6);
    assert_eq!(calculate_sum(-4, 3, "X").unwrap(), -12);
    assert_eq!(calculate_sum(-4, -3, "*").unwrap(), 12);
    assert_eq!(calculate_sum(7, 2, "/").unwrap(), 3);
}

#[test]
fn division_rounds_towards_zero() {
    assert_eq!(calculate_sum(7, -2, "/").unwrap(), -3);
    assert_eq!(calculate_sum(-7, 2, "/").unwrap(), -3);
    assert_eq!(calculate_sum(-7, -2, "/").unwrap(), 3);
    assert_eq!(calculate_sum(-1, 2, "/").unwrap(), 0);
    assert_eq!(calculate_sum(1, -2, "/").unwrap(), 0);
    assert_eq!(calculate_sum(i32::MIN, 1, "/").unwrap(), i32::MIN);
    assert_eq!(calculate_sum(i32::MIN, 2, "/").unwrap(), -1073741824);
    assert_eq!(calculate_sum(i32::MIN, -2, "/").unwrap(), 1073741824);
    assert_eq!(calculate_sum(i32::MAX, -1, "/").unwrap(), -i32::MAX);
}

#[test]
fn division_by_zero_gives_zero() {
    assert_eq!(calculate_sum(5, 0, "/").unwrap(), 0);
    assert_eq!(calculate_sum(0, 0, "/").unwrap(), 0);
    assert_eq!(calculate_sum(i32::MIN, 0, "/").unwrap(), 0);
}

#[test]
fn results_at_the_limits() {
    assert_eq!(calculate_sum(i32::MAX, 0, "+").unwrap(), i32::MAX);
    assert_eq!(calculate_sum(i32::MAX - 1, 1, "+").unwrap(), i32::MAX);
    assert_eq!(calculate_sum(i32::MIN, 0, "-").unwrap(), i32::MIN);
    assert_eq!(calculate_sum(-1, i32::MAX, "-").unwrap(), i32::MIN);
    assert_eq!(calculate_sum(i32::MIN, 1, "*").unwrap(), i32::MIN);
    assert_eq!(calculate_sum(46340, 46340, "x").unwrap(), 2147395600);
}

#[test]
fn unknown_operator_is_named_in_the_error() {
    assert_eq!(calculate_sum(1, 2, "%").unwrap_err().message, "% is not a supported operator");
    assert_eq!(calculate_sum(1, 2, "").unwrap_err().message, " is not a supported operator");
    assert_eq!(calculate_sum(1, 2, "++").unwrap_err().message, "++ is not a supported operator");
    assert_eq!(calculate_sum(1, 2, " +").unwrap_err().message, " + is not a supported operator");
    assert_eq!(calculate_sum(i32::MAX, i32::MAX, "plus").unwrap_err().message, "plus is not a supported operator");
}

#[test]
fn range_test_accepts_what_fits() {
    assert!(sum_is_in_range(2, 3, "+"));
    assert!(sum_is_in_range(i32::MAX, 0, "+"));
    assert!(sum_is_in_range(i32::MIN, 0, "-"));
    assert!(sum_is_in_range(-1, i32::MAX, "-"));
    assert!(sum_is_in_range(46340, 46340, "*"));
    assert!(sum_is_in_range(i32::MIN, 1, "/"));
    assert!(sum_is_in_range(i32::MIN, 0, "/"));
    assert!(sum_is_in_range(i32::MAX, -1, "/"));
    assert!(sum_is_in_range(i32::MAX, i32::MAX, "?"));
}

#[test]
fn range_test_refuses_what_overflows() {
    assert!(!sum_is_in_range(i32::MAX, 1, "+"));
    assert!(!sum_is_in_range(i32::MIN, -1, "+"));
    assert!(!sum_is_in_range(i32::MIN, 1, "-"));
    assert!(!sum_is_in_range(0, i32::MIN, "-"));
    assert!(!sum_is_in_range(46341, 46341, "x"));
    assert!(!sum_is_in_range(i32::MIN, -1, "X"));
    assert!(!sum_is_in_range(65536, 32768, "*"));
    assert!(!sum_is_in_range(i32::MIN, -1, "/"));
}

#[test]
fn texts_are_compared_by_their_characters() {
    assert!(same_text("", ""));
    assert!(same_text("nl", "nl"));
    assert!(!same_text("nl", "en"));
    assert!(!same_text("nl", "nl "));
    assert!(!same_text("nl", "n"));
    assert!(!same_text("nl", "NL"));
    assert!(same_text("caf\u{e9}", "caf\u{e9}"));
    assert!(!same_text("caf\u{e9}", "cafe"));
    assert!(!same_text("\u{e9}", "\u{e8}"));
}
