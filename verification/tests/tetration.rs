use num_bigint::BigUint;
use tetration_calculator::calculator::TetrationCalculator;

fn evaluate(base: u128, height: u128) -> Option<BigUint> {
    let mut calculator = TetrationCalculator::new();
    calculator.set_base(base);
    calculator.set_height(height);
    calculator.calculate_tetration()
}

#[test]
fn new_has_defaults() {
    let calculator = TetrationCalculator::new();
    assert_eq!(calculator.get_base(), 1);
    assert_eq!(calculator.get_height(), 0);
}

#[test]
fn accessors_are_idempotent() {
    let mut calculator = TetrationCalculator::new();
    calculator.set_base(42);
    assert_eq!(calculator.get_base(), 42);
    calculator.set_height(7);
    assert_eq!(calculator.get_height(), 7);
    calculator.set_base(0);
    assert_eq!(calculator.get_base(), 0);
    assert_eq!(calculator.get_height(), 7);
    calculator.set_height(u128::MAX);
    assert_eq!(calculator.get_height(), u128::MAX);
    assert_eq!(calculator.get_base(), 0);
}

#[test]
fn height_zero_yields_one_for_any_base() {
    assert_eq!(evaluate(0, 0), Some(BigUint::from(1u32)));
    assert_eq!(evaluate(1, 0), Some(BigUint::from(1u32)));
    assert_eq!(evaluate(5, 0), Some(BigUint::from(1u32)));
    assert_eq!(evaluate(u128::MAX, 0), Some(BigUint::from(1u32)));
}

#[test]
fn height_one_yields_the_base() {
    assert_eq!(evaluate(0, 1), Some(BigUint::from(0u32)));
    assert_eq!(evaluate(7, 1), Some(BigUint::from(7u32)));
    assert_eq!(evaluate(u128::MAX, 1), Some(BigUint::from(u128::MAX)));
}

#[test]
fn small_towers_have_exact_values() {
    assert_eq!(evaluate(2, 2), Some(BigUint::from(4u32)));
    assert_eq!(evaluate(2, 3), Some(BigUint::from(16u32)));
    assert_eq!(evaluate(3, 3), Some(BigUint::from(7625597484987u64)));
}

#[test]
fn zero_base_alternates() {
    assert_eq!(evaluate(0, 1), Some(BigUint::from(0u32)));
    assert_eq!(evaluate(0, 2), Some(BigUint::from(1u32)));
    assert_eq!(evaluate(0, 3), Some(BigUint::from(0u32)));
    assert_eq!(evaluate(0, 4), Some(BigUint::from(1u32)));
}

#[test]
fn one_base_stays_one() {
    assert_eq!(evaluate(1, 100), Some(BigUint::from(1u32)));
}

#[test]
fn tower_three_four_overflows() {
    assert_eq!(evaluate(3, 4), None);
}

#[test]
fn deep_two_towers() {
    assert_eq!(evaluate(2, 4), Some(BigUint::from(65536u32)));
    let tall = evaluate(2, 5).expect("the fifth tower of two fits a 32-bit exponent");
    assert_eq!(tall.to_string().len(), 19729);
    assert_eq!(evaluate(2, 6), None);
}

#[test]
fn taller_towers_are_strictly_greater() {
    let lower = evaluate(2, 2).unwrap();
    let upper = evaluate(2, 3).unwrap();
    assert!(upper > lower);
    let lower = evaluate(2, 3).unwrap();
    let upper = evaluate(2, 4).unwrap();
    assert!(upper > lower);
}

#[test]
fn evaluation_is_deterministic() {
    assert_eq!(evaluate(3, 3), evaluate(3, 3));
    assert_eq!(evaluate(2, 5), evaluate(2, 5));
    assert_eq!(evaluate(3, 4), evaluate(3, 4));
}
