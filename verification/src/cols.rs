//! The column driver: the output lines of the matrix.

use vstd::prelude::*;
use crate::error::KeyboardError;
use crate::pins::OutputCapability;

verus! {

/// A representation of a column of keys
pub struct KeyColumns<const COLS: usize, O: OutputCapability> {
    pins: [O; COLS],
}

impl<const COLS: usize, O: OutputCapability> View for KeyColumns<COLS, O> {
    type V = Seq<O>;

    /// The lines, by column.
    closed spec fn view(&self) -> Seq<O> {
        self.pins@
    }
}

impl<const COLS: usize, O: OutputCapability> KeyColumns<COLS, O> {
    /// Takes the lines of the columns, first column first.
    pub fn new(pins: [O; COLS]) -> (columns: Self)
        ensures
            columns@ == pins@,
    {
        Self { pins }
    }

    /// Drives the line of `column` high, which selects the column for
    /// reading. The line is asked once, the scan error is its answer, and no
    /// other line is touched.
    pub fn enable_column(&mut self, column: usize) -> (outcome: Result<(), KeyboardError>)
        requires
            column < COLS,
        ensures
            outcome is Err ==> outcome == Err::<(), KeyboardError>(KeyboardError::SetColumnHigh),
            final(self)@.len() == COLS,
            final(self)@[column as int].driven() == old(self)@[column as int].driven().push(
                (true, outcome is Ok),
            ),
            forall|other: int|
                0 <= other < COLS && other != column ==> final(self)@[other] == old(self)@[other],
    {
        let answer = self.pins[column].set_high();
        KeyboardError::column_enabled(answer)
    }

    /// Drives the line of `column` low, which deselects the column. The line
    /// is asked once, the scan error is its answer, and no other line is
    /// touched.
    pub fn disable_column(&mut self, column: usize) -> (outcome: Result<(), KeyboardError>)
        requires
            column < COLS,
        ensures
            outcome is Err ==> outcome == Err::<(), KeyboardError>(KeyboardError::SetColumnLow),
            final(self)@.len() == COLS,
            final(self)@[column as int].driven() == old(self)@[column as int].driven().push(
                (false, outcome is Ok),
            ),
            forall|other: int|
                0 <= other < COLS && other != column ==> final(self)@[other] == old(self)@[other],
    {
        let answer = self.pins[column].set_low();
        KeyboardError::column_disabled(answer)
    }

    /// There is one line for each column.
    pub proof fn lemma_one_line_each(&self)
        ensures
            self@.len() == COLS,
    {
    }

    /// Hands the lines back, in the order in which they were given.
    pub fn release(self) -> (pins: [O; COLS])
        ensures
            pins@ == self@,
    {
        self.pins
    }
}

} // verus!
