//! What the scanner asks of the lines it is wired to.
//!
//! The scanner never looks inside a line. It drives a column, samples a row,
//! and acts on whether the operation succeeded. What it can say of a line is
//! the record of what was asked of it and how the line answered: every
//! operation is one more entry, and nothing else changes the record.
//!
//! Everything that is proved of a scan rests on these contracts. A line
//! written in verified code proves them; a line written elsewhere, such as a
//! driver for real pins, is taken at its word.

use vstd::prelude::*;

verus! {

/// The record of a column line: every drive asked of it, oldest first, each
/// with the level asked for (`true` for high) and whether the line took it.
pub type Drives = Seq<(bool, bool)>;

/// The record of a row line: every sample asked of it, oldest first, each
/// with the level it showed, or `None` where sampling failed.
pub type Answers = Seq<Option<bool>>;

/// A line that can be driven: one column of the matrix.
pub trait OutputCapability {
    /// What the line reports when driving it fails.
    type Error;

    /// Every drive asked of the line so far. The record is a statement about
    /// the line, never a computation: nothing calls it in running code.
    spec fn driven(&self) -> Drives;

    /// Drives the line high.
    fn set_high(&mut self) -> (answer: Result<(), Self::Error>)
        ensures
            final(self).driven() == old(self).driven().push((true, answer is Ok)),
    ;

    /// Drives the line low.
    fn set_low(&mut self) -> (answer: Result<(), Self::Error>)
        ensures
            final(self).driven() == old(self).driven().push((false, answer is Ok)),
    ;
}

/// A line that can be sampled: one row of the matrix.
pub trait InputCapability {
    /// What the line reports when sampling it fails.
    type Error;

    /// Every sample asked of the line so far. The record is a statement about
    /// the line, never a computation: nothing calls it in running code.
    spec fn answered(&self) -> Answers;

    /// Whether the line is high at this moment.
    fn is_high(&mut self) -> (answer: Result<bool, Self::Error>)
        ensures
            final(self).answered() == old(self).answered().push(
                match answer {
                    Ok(level) => Some(level),
                    Err(_) => None,
                },
            ),
    ;
}

} // verus!
