use guessing_game::target::{draw_target, generate, HIGH, LOW};

#[test]
fn target_bounds_are_one_and_a_hundred() {
    assert_eq!(LOW, 1);
    assert_eq!(HIGH, 100);
}

#[test]
fn generate_stays_within_the_range() {
    for _ in 0..2000 {
        let v = generate(1, 100);
        assert!(1 <= v && v <= 100);
    }
    for _ in 0..2000 {
        let v = generate(-3, 3);
        assert!(-3 <= v && v <= 3);
    }
}

#[test]
fn generate_on_a_single_value_range_returns_it() {
    assert_eq!(generate(5, 5), 5);
    assert_eq!(generate(-7, -7), -7);
    assert_eq!(generate(i32::MIN, i32::MIN), i32::MIN);
    assert_eq!(generate(i32::MAX, i32::MAX), i32::MAX);
}

#[test]
fn generate_covers_the_whole_width_of_i32() {
    for _ in 0..100 {
        let v = generate(i32::MIN, i32::MAX);
        assert!(i32::MIN <= v && v <= i32::MAX);
    }
}

#[test]
fn generate_does_not_hand_back_a_bound() {
    let mut above_low = false;
    let mut below_high = false;
    let mut seen = [false; 10];
    for _ in 0..5000 {
        let v = generate(1, 10);
        assert!(1 <= v && v <= 10);
        above_low = above_low || v != 1;
        below_high = below_high || v != 10;
        seen[(v - 1) as usize] = true;
    }
    assert!(above_low);
    assert!(below_high);
    assert!(seen.iter().all(|&s| s));
}

#[test]
fn draw_target_stays_within_the_bounds() {
    let mut distinct = std::collections::BTreeSet::new();
    for _ in 0..2000 {
        let t = draw_target();
        assert!(1 <= t && t <= 100);
        distinct.insert(t);
    }
    assert!(distinct.len() > 1);
}
