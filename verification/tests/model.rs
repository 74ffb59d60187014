use std::collections::BTreeSet;
use std::collections::HashSet;

use gpio_keyboard::cols::KeyColumns;
use gpio_keyboard::error::KeyboardError;
use gpio_keyboard::key::Key;
use gpio_keyboard::keyboard::Error;
use gpio_keyboard::keyboard::ErrorKind;
use gpio_keyboard::keycode::Coordinate;
use gpio_keyboard::keycode::KeyCode;
use gpio_keyboard::keycode::KeyEvent;
use gpio_keyboard::pins::Answers;
use gpio_keyboard::pins::Drives;
use gpio_keyboard::pins::InputCapability;
use gpio_keyboard::pins::OutputCapability;
use gpio_keyboard::rows::KeyRows;
use gpio_keyboard::state::KeyState;

/// A column line that counts how often it was driven each way.
#[derive(Debug, Clone, Copy, PartialEq, Eq)]
struct CountingLine {
    highs: u32,
    lows: u32,
    broken: bool,
}

impl OutputCapability for CountingLine {
    type Error = u8;

    fn driven(&self) -> Drives {
        unreachable!()
    }

    fn set_high(&mut self) -> Result<(), u8> {
        self.highs += 1;
        if self.broken {
            Err(1)
        } else {
            Ok(())
        }
    }

    fn set_low(&mut self) -> Result<(), u8> {
        self.lows += 1;
        if self.broken {
            Err(2)
        } else {
            Ok(())
        }
    }
}

/// A row line that shows a fixed level and counts how often it was sampled.
#[derive(Debug, Clone, Copy, PartialEq, Eq)]
struct FixedLine {
    level: Result<bool, u8>,
    reads: u32,
}

impl InputCapability for FixedLine {
    type Error = u8;

    fn answered(&self) -> Answers {
        unreachable!()
    }

    fn is_high(&mut self) -> Result<bool, u8> {
        self.reads += 1;
        self.level
    }
}

fn working() -> CountingLine {
    CountingLine { highs: 0, lows: 0, broken: false }
}

fn broken() -> CountingLine {
    CountingLine { highs: 0, lows: 0, broken: true }
}

#[test]
fn coordinate_keeps_row_and_column() {
    let at = Coordinate::new(2, 5);
    assert_eq!(at.row(), 2);
    assert_eq!(at.col(), 5);
    assert_eq!(at, Coordinate::new(2, 5));
    assert_ne!(at, Coordinate::new(5, 2));
}

#[test]
fn coordinates_are_ordered_by_row_then_column() {
    assert!(Coordinate::new(0, 9) < Coordinate::new(1, 0));
    assert!(Coordinate::new(1, 0) < Coordinate::new(1, 1));
    let sorted: BTreeSet<Coordinate> =
        [Coordinate::new(1, 1), Coordinate::new(0, 1), Coordinate::new(1, 0)].into_iter().collect();
    let order: Vec<Coordinate> = sorted.into_iter().collect();
    assert_eq!(order, vec![Coordinate::new(0, 1), Coordinate::new(1, 0), Coordinate::new(1, 1)]);
}

#[test]
fn coordinates_are_hashable() {
    let mut seen = HashSet::new();
    assert!(seen.insert(Coordinate::new(3, 4)));
    assert!(!seen.insert(Coordinate::new(3, 4)));
    assert!(seen.insert(Coordinate::new(4, 3)));
}

#[test]
fn transition_gives_one_event_per_change() {
    let at = Coordinate::new(1, 2);
    assert_eq!(KeyEvent::transition(at, false, true), KeyEvent::KeyDown(at));
    assert_eq!(KeyEvent::transition(at, true, false), KeyEvent::KeyUp(at));
    assert_eq!(KeyEvent::transition(at, false, false), KeyEvent::NoEvent);
    assert_eq!(KeyEvent::transition(at, true, true), KeyEvent::NoEvent);
}

#[test]
fn events_follow_the_settled_output_once() {
    let at = Coordinate::new(0, 0);
    let mut state: KeyState<1, 1> = KeyState::new();
    let samples = [true, true, true, true, false, true, false, false, false, false];
    let expected = [
        KeyEvent::NoEvent,
        KeyEvent::NoEvent,
        KeyEvent::KeyDown(at),
        KeyEvent::NoEvent,
        KeyEvent::NoEvent,
        KeyEvent::NoEvent,
        KeyEvent::NoEvent,
        KeyEvent::NoEvent,
        KeyEvent::KeyUp(at),
        KeyEvent::NoEvent,
    ];
    for n in 0..samples.len() {
        let earlier = state;
        state.update(at, samples[n]);
        assert_eq!(state.event_since(&earlier, at), expected[n]);
        assert_eq!(state.event_since(&state, at), KeyEvent::NoEvent);
    }
}

#[test]
fn key_state_starts_at_rest() {
    let state: KeyState<2, 3> = KeyState::new();
    assert_eq!(state.counters(), [[0, 0, 0], [0, 0, 0]]);
    assert_eq!(state.outputs(), [[false, false, false], [false, false, false]]);
    for row in 0..2 {
        for col in 0..3 {
            assert_eq!(state.key(Coordinate::new(row, col)), Key::new());
        }
    }
    assert_eq!(KeyState::<2, 3>::MINIMUM, 0);
    assert_eq!(KeyState::<2, 3>::MAXIMUM, 3);
}

#[test]
fn key_state_update_moves_one_key_only() {
    let mut state: KeyState<2, 3> = KeyState::new();
    assert!(!state.update(Coordinate::new(1, 2), true));
    assert_eq!(state.counters(), [[0, 0, 0], [0, 0, 1]]);
    assert!(!state.update(Coordinate::new(1, 2), true));
    assert!(state.update(Coordinate::new(1, 2), true));
    assert!(!state.update(Coordinate::new(0, 1), true));
    assert_eq!(state.counters(), [[0, 1, 0], [0, 0, 3]]);
    assert_eq!(state.outputs(), [[false, false, false], [false, false, true]]);
    let key = state.key(Coordinate::new(1, 2));
    assert_eq!((key.state(), key.output()), (3, true));
}

#[test]
fn key_codes_bear_their_numbers() {
    assert_eq!(KeyCode::NoEvent.code(), 0x0000);
    assert_eq!(KeyCode::ErrorRollOver.code(), 0x0001);
    assert_eq!(KeyCode::KA.code(), 0x0004);
    assert_eq!(KeyCode::KZ.code(), 0x001d);
    assert_eq!(KeyCode::K1.code(), 0x001e);
    assert_eq!(KeyCode::K0.code(), 0x0027);
    assert_eq!(KeyCode::KEnter.code(), 0x0028);
    assert_eq!(KeyCode::KSpaceBar.code(), 0x002c);
    assert_eq!(KeyCode::KF12.code(), 0x0045);
    assert_eq!(KeyCode::KApplication.code(), 0x0065);
    assert_eq!(KeyCode::KpEqual.code(), 0x0067);
    assert_eq!(KeyCode::KExSel.code(), 0x00a4);
    assert_eq!(KeyCode::Kp00.code(), 0x00b0);
    assert_eq!(KeyCode::KpHexadecimal.code(), 0x00dd);
    assert_eq!(KeyCode::KpLeftControl.code(), 0x00e0);
    assert_eq!(KeyCode::KpRightGUI.code(), 0x00e7);
}

#[test]
fn key_codes_are_found_again_by_number() {
    let mut keys = 0;
    for code in 0..=u16::MAX {
        let key = KeyCode::from_code(code);
        let reserved = code == 0x0066
            || (0x00a5..=0x00af).contains(&code)
            || (0x00de..=0x00df).contains(&code)
            || code >= 0x00e8;
        if reserved {
            assert_eq!(key, KeyCode::NoEvent);
        } else {
            assert_eq!(key.code(), code);
            assert_eq!(KeyCode::from_code(key.code()), key);
            keys += 1;
        }
        if code != 0 && !reserved {
            assert_ne!(key, KeyCode::NoEvent);
        }
    }
    assert_eq!(keys, 218);
}

#[test]
fn key_codes_are_ordered_by_number() {
    let mut earlier = KeyCode::from_code(0);
    for code in 1..=0x00e7u16 {
        let key = KeyCode::from_code(code);
        if key != KeyCode::NoEvent {
            assert!(earlier < key);
            assert!(earlier.code() < key.code());
            earlier = key;
        }
    }
}

#[test]
fn every_error_is_of_kind_other() {
    assert_eq!(KeyboardError::SetColumnHigh.kind(), ErrorKind::Other);
    assert_eq!(KeyboardError::SetColumnLow.kind(), ErrorKind::Other);
    assert_eq!(KeyboardError::GetRow.kind(), ErrorKind::Other);
    assert_eq!(KeyboardError::Other.kind(), ErrorKind::Other);
    assert_eq!(ErrorKind::Other.kind(), ErrorKind::Other);
}

#[test]
fn error_kind_describes_itself() {
    assert_eq!(
        ErrorKind::Other.message(),
        "A different error occurred. The original error may contain more information"
    );
}

#[test]
fn line_answers_become_scan_errors() {
    assert_eq!(KeyboardError::column_enabled::<u8>(Ok(())), Ok(()));
    assert_eq!(KeyboardError::column_enabled(Err(7u8)), Err(KeyboardError::SetColumnHigh));
    assert_eq!(KeyboardError::column_disabled::<u8>(Ok(())), Ok(()));
    assert_eq!(KeyboardError::column_disabled(Err(7u8)), Err(KeyboardError::SetColumnLow));
    assert_eq!(KeyboardError::row_sampled::<u8>(Ok(true)), Ok(true));
    assert_eq!(KeyboardError::row_sampled::<u8>(Ok(false)), Ok(false));
    assert_eq!(KeyboardError::row_sampled(Err(7u8)), Err(KeyboardError::GetRow));
}

#[test]
fn columns_drive_the_addressed_line_only() {
    let mut columns = KeyColumns::new([working(), working(), working()]);
    assert_eq!(columns.enable_column(1), Ok(()));
    assert_eq!(columns.disable_column(1), Ok(()));
    assert_eq!(columns.enable_column(2), Ok(()));
    let lines = columns.release();
    assert_eq!((lines[0].highs, lines[0].lows), (0, 0));
    assert_eq!((lines[1].highs, lines[1].lows), (1, 1));
    assert_eq!((lines[2].highs, lines[2].lows), (1, 0));
}

#[test]
fn columns_report_which_half_of_the_strobe_failed() {
    let mut columns = KeyColumns::new([working(), broken()]);
    assert_eq!(columns.enable_column(0), Ok(()));
    assert_eq!(columns.enable_column(1), Err(KeyboardError::SetColumnHigh));
    assert_eq!(columns.disable_column(1), Err(KeyboardError::SetColumnLow));
    assert_eq!(columns.disable_column(0), Ok(()));
}

#[test]
fn rows_sample_the_addressed_line_only() {
    let mut rows = KeyRows::new([
        FixedLine { level: Ok(true), reads: 0 },
        FixedLine { level: Ok(false), reads: 0 },
        FixedLine { level: Err(9), reads: 0 },
    ]);
    assert_eq!(rows.get_row(0), Ok(true));
    assert_eq!(rows.get_row(1), Ok(false));
    assert_eq!(rows.get_row(1), Ok(false));
    assert_eq!(rows.get_row(2), Err(KeyboardError::GetRow));
    let lines = rows.release();
    assert_eq!([lines[0].reads, lines[1].reads, lines[2].reads], [1, 2, 1]);
}
