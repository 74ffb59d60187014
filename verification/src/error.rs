//! The errors of a scan.

use vstd::prelude::*;

verus! {

/// Errors produced by this crate
#[derive(Debug, Clone, Copy, PartialEq, Eq, Structural)]
pub enum KeyboardError {
    /// Unable to set pin high
    SetColumnHigh,
    /// Unable to set pin low
    SetColumnLow,
    /// Unable to read row state
    GetRow,
    /// Some other error occurred.
    Other,
}

impl KeyboardError {
    /// What enabling a column comes to, given what its line answered.
    pub fn column_enabled<E>(answer: Result<(), E>) -> (outcome: Result<(), KeyboardError>)
        ensures
            outcome == (if answer is Ok {
                Ok::<(), KeyboardError>(())
            } else {
                Err(KeyboardError::SetColumnHigh)
            }),
    {
        match answer {
            Ok(()) => Ok(()),
            Err(_) => Err(KeyboardError::SetColumnHigh),
        }
    }

    /// What disabling a column comes to, given what its line answered.
    pub fn column_disabled<E>(answer: Result<(), E>) -> (outcome: Result<(), KeyboardError>)
        ensures
            outcome == (if answer is Ok {
                Ok::<(), KeyboardError>(())
            } else {
                Err(KeyboardError::SetColumnLow)
            }),
    {
        match answer {
            Ok(()) => Ok(()),
            Err(_) => Err(KeyboardError::SetColumnLow),
        }
    }

    /// What sampling a row comes to, given what its line answered.
    pub fn row_sampled<E>(answer: Result<bool, E>) -> (outcome: Result<bool, KeyboardError>)
        ensures
            outcome == (match answer {
                Ok(level) => Ok::<bool, KeyboardError>(level),
                Err(_) => Err(KeyboardError::GetRow),
            }),
    {
        match answer {
            Ok(level) => Ok(level),
            Err(_) => Err(KeyboardError::GetRow),
        }
    }
}

} // verus!
