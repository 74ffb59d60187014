//! The row reader: the input lines of the matrix.

use vstd::prelude::*;
use crate::error::KeyboardError;
use crate::pins::InputCapability;

verus! {

/// A representation of a row of keys
pub struct KeyRows<const ROWS: usize, I: InputCapability> {
    pins: [I; ROWS],
}

impl<const ROWS: usize, I: InputCapability> View for KeyRows<ROWS, I> {
    type V = Seq<I>;

    /// The lines, by row.
    closed spec fn view(&self) -> Seq<I> {
        self.pins@
    }
}

impl<const ROWS: usize, I: InputCapability> KeyRows<ROWS, I> {
    /// Takes the lines of the rows, first row first.
    pub fn new(pins: [I; ROWS]) -> (rows: Self)
        ensures
            rows@ == pins@,
    {
        Self { pins }
    }

    /// Samples the line of `row`: whether the switch between it and the
    /// enabled column is closed. The line is asked once, the level returned
    /// is the level it showed, and no other line is touched.
    pub fn get_row(&mut self, row: usize) -> (outcome: Result<bool, KeyboardError>)
        requires
            row < ROWS,
        ensures
            outcome is Err ==> outcome == Err::<bool, KeyboardError>(KeyboardError::GetRow),
            final(self)@.len() == ROWS,
            final(self)@[row as int].answered() == old(self)@[row as int].answered().push(
                match outcome {
                    Ok(level) => Some(level),
                    Err(_) => None,
                },
            ),
            forall|other: int|
                0 <= other < ROWS && other != row ==> final(self)@[other] == old(self)@[other],
    {
        let answer = self.pins[row].is_high();
        KeyboardError::row_sampled(answer)
    }

    /// There is one line for each row.
    pub proof fn lemma_one_line_each(&self)
        ensures
            self@.len() == ROWS,
    {
    }

    /// Hands the lines back, in the order in which they were given.
    pub fn release(self) -> (pins: [I; ROWS])
        ensures
            pins@ == self@,
    {
        self.pins
    }
}

} // verus!
