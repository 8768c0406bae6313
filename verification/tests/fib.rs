use fibonacci::{fib, fib_checked, FibError};

#[test]
fn fib_of_one_is_one() {
    assert_eq!(fib(1), 1);
}

#[test]
fn small_values() {
    assert_eq!(fib(2), 1);
    assert_eq!(fib(3), 2);
    assert_eq!(fib(10), 55);
}

#[test]
fn recurrence_holds_for_small_indices() {
    for n in 4..=20i32 {
        assert_eq!(fib(n), fib(n - 1) + fib(n - 2));
    }
}

#[test]
fn benchmark_value() {
    assert_eq!(fib(50), 12586269025);
}

#[test]
fn wraps_at_ninety_four() {
    // 94 is the first index whose Fibonacci number exceeds u64::MAX;
    // 1293530146158671551 is 19740274219868223167 reduced modulo 2^64.
    assert_eq!(fib(93), 12200160415121876738);
    assert_eq!(fib(94), 1293530146158671551);
    assert_eq!(fib(94), fib(92).wrapping_add(fib(93)));
}

#[test]
fn zero_is_rejected() {
    assert_eq!(fib_checked(0), Err(FibError::Zero));
    let msg = FibError::Zero.message();
    assert!(msg.contains("zero"));
    assert_eq!(msg, "zero is not a right argument to fibonacci()!");
}

#[test]
fn negative_is_rejected() {
    assert_eq!(fib_checked(-5), Err(FibError::Negative(-5)));
    assert_eq!(FibError::Negative(-5).message(), "-5 is negative!");
}

#[test]
fn checked_agrees_on_valid_input() {
    assert_eq!(fib_checked(1), Ok(1));
    assert_eq!(fib_checked(50), Ok(fib(50)));
}
