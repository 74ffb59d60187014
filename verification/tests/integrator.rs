use gpio_keyboard::key::Key;

const TRACE_INPUT: [bool; 58] = [
    false, false, false, true, true, false, true, false, false, true, true, false, true, true,
    true, false, true, true, false, false, true, true, true, false, true, true, true, true, true,
    false, false, false, true, false, true, false, false, true, true, false, false, false, true,
    false, true, true, false, true, true, false, false, false, false, true, true, false, false,
    false,
];

const TRACE_STATE: [i8; 58] = [
    0, 0, 0, 1, 2, 1, 2, 1, 0, 1, 2, 1, 2, 3, 3, 2, 3, 3, 2, 1, 2, 3, 3, 2, 3, 3, 3, 3, 3, 2, 1, 0,
    1, 0, 1, 0, 0, 1, 2, 1, 0, 0, 1, 0, 1, 2, 1, 2, 3, 2, 1, 0, 0, 1, 2, 1, 0, 0,
];

const TRACE_OUTPUT: [bool; 58] = [
    false, false, false, false, false, false, false, false, false, false, false, false, false,
    true, true, true, true, true, true, true, true, true, true, true, true, true, true, true, true,
    true, true, false, false, false, false, false, false, false, false, false, false, false, false,
    false, false, false, false, false, true, true, true, false, false, false, false, false, false,
    false,
];

/// A key driven to the given counter and output from rest.
fn key_at(state: i8, output: bool) -> Key {
    let mut key = Key::new();
    if output {
        for _ in 0..3 {
            key.update(true);
        }
        for _ in state..3 {
            key.update(false);
        }
    } else {
        for _ in 0..state {
            key.update(true);
        }
    }
    assert_eq!((key.state(), key.output()), (state, output));
    key
}

#[test]
fn key_creation() {
    let key = Key::default();
    assert_eq!(key, key_at(0, false));
    assert_eq!((key.state(), key.output()), (0, false));
}

#[test]
fn lib_key_creation() {
    let key = Key::default();
    assert_eq!(key, key_at(0, false));
    assert_eq!((key.state(), key.output()), (0, false));
}

#[test]
fn update_state_once() {
    let mut key = Key::default();
    key.update(false);
    assert_eq!(key, key_at(0, false));
    assert_eq!((key.state(), key.output()), (0, false));

    let mut key = Key::default();
    key.update(true);
    assert_eq!(key, key_at(1, false));
    assert_eq!((key.state(), key.output()), (1, false));
}

#[test]
fn lib_update_state_once() {
    let mut key = Key::default();
    key.update(false);
    assert_eq!(key, key_at(0, false));
    assert_eq!((key.state(), key.output()), (0, false));

    let mut key = Key::default();
    key.update(true);
    assert_eq!(key, key_at(1, false));
    assert_eq!((key.state(), key.output()), (1, false));
}

#[test]
fn state_never_goes_over_maximum() {
    let mut key = Key::default();

    for _ in 0..10 {
        key.update(true);
    }

    assert_eq!(key, key_at(Key::MAXIMUM, true));
    assert_eq!((key.state(), key.output()), (Key::MAXIMUM, true));
}

#[test]
fn lib_state_never_goes_over_maximum() {
    let mut key = Key::default();

    for _ in 0..10 {
        key.update(true);
    }

    assert_eq!(key, key_at(Key::MAXIMUM, true));
    assert_eq!((key.state(), key.output()), (Key::MAXIMUM, true));
}

#[test]
fn state_filters_through_integrator() {
    let mut key = Key::default();
    let input = TRACE_INPUT;
    let state = TRACE_STATE;
    let output = TRACE_OUTPUT;

    for n in 0..input.len() {
        key.update(input[n]);
        assert_eq!((key.state(), key.output()), (state[n], output[n]));
    }
}

#[test]
fn lib_state_filters_through_integrator() {
    let mut key = Key::default();
    let input = TRACE_INPUT;
    let state = TRACE_STATE;
    let output = TRACE_OUTPUT;

    for n in 0..input.len() {
        let settled = key.update(input[n]);
        assert_eq!((key.state(), key.output()), (state[n], output[n]));
        assert_eq!(settled, output[n]);
    }
}

#[test]
fn new_key_is_at_rest() {
    let key = Key::new();
    assert_eq!(key.state(), 0);
    assert!(!key.output());
    assert_eq!(key, Key::default());
    assert_eq!(Key::MINIMUM, 0);
    assert_eq!(Key::MAXIMUM, 3);
}

#[test]
fn update_returns_the_settled_output() {
    let mut key = Key::new();
    assert!(!key.update(true));
    assert!(!key.update(true));
    assert!(key.update(true));
    assert!(key.update(false));
    assert!(key.update(false));
    assert!(!key.update(false));
}

#[test]
fn state_never_goes_under_minimum() {
    let mut key = Key::new();
    for _ in 0..10 {
        key.update(false);
    }
    assert_eq!((key.state(), key.output()), (Key::MINIMUM, false));
}

#[test]
fn counter_stays_in_range_for_every_short_sequence() {
    // every sequence of twelve samples, from rest
    for pattern in 0u32..(1 << 12) {
        let mut key = Key::new();
        for bit in 0..12 {
            key.update(pattern & (1 << bit) != 0);
            assert!(Key::MINIMUM <= key.state() && key.state() <= Key::MAXIMUM);
        }
    }
}

#[test]
fn output_changes_only_at_the_ends() {
    for pattern in 0u32..(1 << 12) {
        let mut key = Key::new();
        for bit in 0..12 {
            let before = key.output();
            let after = key.update(pattern & (1 << bit) != 0);
            if before && !after {
                assert_eq!(key.state(), Key::MINIMUM);
            }
            if !before && after {
                assert_eq!(key.state(), Key::MAXIMUM);
            }
            if key.state() == Key::MINIMUM {
                assert!(!after);
            }
            if key.state() == Key::MAXIMUM {
                assert!(after);
            }
        }
    }
}

#[test]
fn single_open_sample_does_not_release_a_pressed_key() {
    let mut key = key_at(3, true);
    assert!(key.update(false));
    assert_eq!(key.state(), 2);
    assert!(key.update(true));
    assert_eq!(key.state(), 3);

    let mut key = key_at(2, true);
    assert!(key.update(false));
    assert_eq!(key.state(), 1);
    assert!(!key.update(false));
    assert_eq!(key.state(), 0);
}

#[test]
fn single_closed_sample_does_not_press_a_released_key() {
    let mut key = key_at(0, false);
    assert!(!key.update(true));
    assert_eq!(key.state(), 1);
    assert!(!key.update(false));
    assert_eq!(key.state(), 0);

    let mut key = key_at(1, false);
    assert!(!key.update(true));
    assert_eq!(key.state(), 2);
    assert!(key.update(true));
    assert_eq!(key.state(), 3);
}

#[test]
fn three_equal_samples_settle_from_anywhere() {
    let starts = [(0, false), (1, false), (2, false), (1, true), (2, true), (3, true)];
    for (state, output) in starts {
        let mut key = key_at(state, output);
        key.update(true);
        key.update(true);
        assert!(key.update(true));
        assert_eq!(key.state(), 3);

        let mut key = key_at(state, output);
        key.update(false);
        key.update(false);
        assert!(!key.update(false));
        assert_eq!(key.state(), 0);
    }
}

#[test]
fn two_samples_from_an_end_are_filtered() {
    for first in [false, true] {
        for second in [false, true] {
            let mut key = key_at(3, true);
            assert!(key.update(first));
            assert!(key.update(second));

            let mut key = key_at(0, false);
            assert!(!key.update(first));
            assert!(!key.update(second));
        }
    }
}

#[test]
fn rest_state_is_stable_under_open_samples() {
    let mut key = Key::new();
    for _ in 0..1000 {
        assert!(!key.update(false));
        assert_eq!(key, Key::new());
        assert_eq!((key.state(), key.output()), (0, false));
    }
}

#[test]
fn equal_samples_give_equal_trajectories() {
    let mut first = Key::new();
    let mut second = Key::new();
    for sample in TRACE_INPUT {
        let a = first.update(sample);
        let b = second.update(sample);
        assert_eq!(a, b);
        assert_eq!(first, second);
        assert_eq!((first.state(), first.output()), (second.state(), second.output()));
    }
}
