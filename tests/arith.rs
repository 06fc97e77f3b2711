use hello_wasm::arith::{double, increment};
use hello_wasm::sum;

#[test]
fn increment_and_double_wrap() {
    assert_eq!(increment(41), 42);
    assert_eq!(increment(isize::MAX), isize::MIN);
    assert_eq!(double(21), 42);
    assert_eq!(double(-21), -42);
    assert_eq!(double(isize::MAX), -2);
    assert_eq!(double(isize::MIN), 0);
    assert_eq!(double(isize::MAX / 2 + 1), isize::MIN);
}

#[test]
fn sum_adds() {
    assert_eq!(sum(2, 3), 5);
    assert_eq!(sum(-8, 3), -5);
    assert_eq!(sum(0, 0), 0);
}

#[test]
fn sum_is_commutative() {
    assert_eq!(sum(7, -12), sum(-12, 7));
    assert_eq!(sum(isize::MAX, 5), sum(5, isize::MAX));
}

#[test]
fn sum_is_associative() {
    assert_eq!(sum(sum(1, 2), 3), sum(1, sum(2, 3)));
    assert_eq!(
        sum(sum(isize::MAX, 1), -1),
        sum(isize::MAX, sum(1, -1))
    );
    assert_eq!(sum(sum(isize::MAX, 1), -1), isize::MAX);
}

#[test]
fn sum_wraps_on_overflow() {
    assert_eq!(sum(isize::MAX, 1), isize::MIN);
    assert_eq!(sum(isize::MIN, -1), isize::MAX);
    assert_eq!(sum(isize::MAX, isize::MAX), -2);
    assert_eq!(sum(isize::MIN, isize::MIN), 0);
}
