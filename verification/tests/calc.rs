use brightvol::brightness::calc::{step_level, STEP};

#[test]
fn continuous_steps_up_and_down() {
    assert_eq!(step_level(50, 10, &[]), 60);
    assert_eq!(step_level(50, -10, &[]), 40);
}

#[test]
fn continuous_clamps_at_bounds() {
    assert_eq!(step_level(95, 10, &[]), 100);
    assert_eq!(step_level(3, -10, &[]), 0);
    assert_eq!(step_level(100, 10, &[]), 100);
    assert_eq!(step_level(0, -10, &[]), 0);
}

#[test]
fn snaps_to_supported_levels() {
    let levels = [0u8, 25, 50, 75, 100];
    assert_eq!(step_level(50, 10, &levels), 75);
    assert_eq!(step_level(50, -10, &levels), 25);
}

#[test]
fn snaps_from_off_grid_value() {
    let levels = [0u8, 25, 50, 75, 100];
    assert_eq!(step_level(55, 10, &levels), 75);
    assert_eq!(step_level(55, -10, &levels), 50);
}

#[test]
fn supported_clamps_at_bounds() {
    let levels = [0u8, 25, 50, 75, 100];
    assert_eq!(step_level(100, 10, &levels), 100);
    assert_eq!(step_level(0, -10, &levels), 0);
}

#[test]
fn handles_unsorted_supported_input() {
    let levels = [100u8, 0, 75, 25, 50];
    assert_eq!(step_level(40, 10, &levels), 50);
}

#[test]
fn step_constant_is_ten_points() {
    assert_eq!(STEP, 10);
}

#[test]
fn zero_delta_keeps_level_inside_supported_range() {
    let levels = [20u8, 40, 60];
    assert_eq!(step_level(30, 0, &levels), 30);
    assert_eq!(step_level(10, 0, &levels), 20);
    assert_eq!(step_level(90, 0, &levels), 60);
    assert_eq!(step_level(70, 0, &[]), 70);
}

#[test]
fn above_top_steps_up_to_highest_and_below_bottom_down_to_lowest() {
    let levels = [20u8, 40, 60];
    assert_eq!(step_level(90, 10, &levels), 60);
    assert_eq!(step_level(5, -10, &levels), 20);
    // Stepping down from above the top goes to the largest level below.
    assert_eq!(step_level(90, -10, &levels), 60);
    // Stepping up from below the bottom goes to the smallest level above.
    assert_eq!(step_level(5, 10, &levels), 20);
}

#[test]
fn repeated_and_reordered_levels_give_same_step() {
    let a = [0u8, 25, 50, 75, 100];
    let b = [75u8, 75, 0, 100, 25, 50, 0];
    for current in [0u8, 10, 25, 40, 50, 60, 99, 100, 200] {
        for delta in [-10i8, 0, 10] {
            assert_eq!(step_level(current, delta, &a), step_level(current, delta, &b));
        }
    }
}

#[test]
fn single_supported_level_is_always_the_result_of_a_move() {
    let levels = [42u8];
    assert_eq!(step_level(0, 10, &levels), 42);
    assert_eq!(step_level(100, 10, &levels), 42);
    assert_eq!(step_level(0, -10, &levels), 42);
    assert_eq!(step_level(100, -10, &levels), 42);
}

#[test]
fn up_then_down_returns_on_grid() {
    let levels = [0u8, 25, 50, 75, 100];
    for current in [0u8, 25, 50, 75] {
        let up = step_level(current, 10, &levels);
        assert!(up > current);
        assert_eq!(step_level(up, -10, &levels), current);
    }
    for current in [25u8, 50, 75, 100] {
        let down = step_level(current, -10, &levels);
        assert!(down < current);
        assert_eq!(step_level(down, 10, &levels), current);
    }
}

#[test]
fn continuous_step_is_undone_inside_range() {
    for current in [0u8, 10, 37, 90, 100] {
        for delta in [-20i8, -10, -1, 1, 10, 20] {
            let sum = current as i16 + delta as i16;
            if (0..=100).contains(&sum) {
                let there = step_level(current, delta, &[]);
                assert_eq!(there as i16, sum);
                assert_eq!(step_level(there, -delta, &[]), current);
            }
        }
    }
}

#[test]
fn extreme_deltas_stay_in_percent_range() {
    assert_eq!(step_level(0, i8::MIN, &[]), 0);
    assert_eq!(step_level(100, i8::MAX, &[]), 100);
    assert_eq!(step_level(255, -10, &[]), 100);
    assert_eq!(step_level(255, i8::MIN, &[]), 100);
    assert_eq!(step_level(50, i8::MAX, &[]), 100);
}

#[test]
fn percentages_stay_percentages_with_supported_levels() {
    let levels = [0u8, 33, 66, 100];
    for current in 0u8..=100 {
        for delta in [-10i8, 0, 10] {
            assert!(step_level(current, delta, &levels) <= 100);
        }
    }
}
