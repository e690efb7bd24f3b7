use guessing_game::comparison::{compare, ComparisonResult};

#[test]
fn compare_orders_a_guess_against_the_target() {
    assert_eq!(compare(10, 50), ComparisonResult::Less);
    assert_eq!(compare(90, 50), ComparisonResult::Greater);
    assert_eq!(compare(50, 50), ComparisonResult::Equal);
}

#[test]
fn compare_is_reflexive() {
    for x in [i32::MIN, -100, -1, 0, 1, 32, 50, 100, i32::MAX] {
        assert_eq!(compare(x, x), ComparisonResult::Equal);
    }
}

#[test]
fn compare_is_antisymmetric() {
    let values = [i32::MIN, i32::MIN + 1, -100, -1, 0, 1, 49, 50, 51, 100, i32::MAX - 1, i32::MAX];
    for (i, &x) in values.iter().enumerate() {
        for &y in &values[i + 1..] {
            assert!(x < y);
            assert_eq!(compare(x, y), ComparisonResult::Less);
            assert_eq!(compare(y, x), ComparisonResult::Greater);
        }
    }
}

#[test]
fn compare_takes_guesses_outside_the_target_range() {
    assert_eq!(compare(0, 1), ComparisonResult::Less);
    assert_eq!(compare(-5, 1), ComparisonResult::Less);
    assert_eq!(compare(101, 100), ComparisonResult::Greater);
    assert_eq!(compare(i32::MAX, 100), ComparisonResult::Greater);
    assert_eq!(compare(i32::MIN, i32::MAX), ComparisonResult::Less);
    assert_eq!(compare(i32::MAX, i32::MIN), ComparisonResult::Greater);
}
