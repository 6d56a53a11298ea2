use taskshare::math::{add, multiply, power};

#[test]
fn add_small_numbers() {
    assert_eq!(add(5, 3), 8);
    assert_eq!(add(-5, 3), -2);
    assert_eq!(add(0, 0), 0);
}

#[test]
fn add_at_the_edges() {
    assert_eq!(add(i32::MAX - 1, 1), i32::MAX);
    assert_eq!(add(i32::MIN + 1, -1), i32::MIN);
}

#[test]
fn multiply_small_numbers() {
    assert_eq!(multiply(4, 7), 28);
    assert_eq!(multiply(-4, 7), -28);
    assert_eq!(multiply(0, 12345), 0);
}

#[test]
fn power_small_numbers() {
    assert_eq!(power(2, 3), 8);
    assert_eq!(power(2, 0), 1);
    assert_eq!(power(0, 0), 1);
    assert_eq!(power(0, 5), 0);
    assert_eq!(power(1, 100), 1);
    assert_eq!(power(-1, 101), -1);
    assert_eq!(power(-2, 3), -8);
    assert_eq!(power(10, 9), 1_000_000_000);
}

#[test]
fn power_reaching_the_edges() {
    assert_eq!(power(2, 30), 1 << 30);
    assert_eq!(power(-2, 31), i32::MIN);
}
