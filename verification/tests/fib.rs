use evolve::fib::{add, fibonacci};

#[test]
fn test_add() {
    assert_eq!(add(2, 2), 4);
}

#[test]
fn test_fibonacci_base_cases() {
    assert_eq!(fibonacci(0), 0);
    assert_eq!(fibonacci(1), 1);
}

#[test]
fn test_fibonacci_sequence() {
    assert_eq!(fibonacci(2), 1);
    assert_eq!(fibonacci(3), 2);
    assert_eq!(fibonacci(4), 3);
    assert_eq!(fibonacci(5), 5);
    assert_eq!(fibonacci(6), 8);
    assert_eq!(fibonacci(7), 13);
}

#[test]
fn test_fibonacci_integration() {
    assert_eq!(fibonacci(10), 55);
    assert_eq!(fibonacci(8), 21);
}

#[test]
fn test_add_integration() {
    assert_eq!(add(5, 7), 12);
}
