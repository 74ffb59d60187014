//! The interface that a keyboard controller of any kind offers.

use vstd::prelude::*;
use crate::error::KeyboardError;
use crate::matrix::KeyMatrix;
use crate::pins::InputCapability;
use crate::pins::OutputCapability;
use crate::step::ScanStep;

verus! {

/// Keyboard error.
pub trait Error: core::fmt::Debug {
    /// Convert error to a generic Keyboard error kind.
    ///
    /// By using this method, Keyboard errors freely defined by HAL
    /// implementations can be converted to a set of generic Keyboard
    /// errors upon which generic code can act.
    fn kind(&self) -> ErrorKind;
}

/// Keyboard error kind.
///
/// This represents a common set of errors. HAL implementations are
/// free to define more specific or additional error types. However,
/// by providing a mapping to these common Keyboard errors, generic code
/// can still react to them.
#[derive(Debug, Copy, Clone, Eq, PartialEq, Structural, Ord, PartialOrd, Hash)]
#[non_exhaustive]
pub enum ErrorKind {
    /// A different error occurred. The error that was mapped to this kind may
    /// say more.
    Other,
}

impl ErrorKind {
    /// What a reader is told of an error of this kind.
    pub open spec fn description(self) -> Seq<char> {
        "A different error occurred. The original error may contain more information"@
    }

    /// What a reader is told of an error of this kind.
    pub fn message(&self) -> (text: &'static str)
        ensures
            text@ == self.description(),
    {
        match self {
            ErrorKind::Other => {
                "A different error occurred. The original error may contain more information"
            },
        }
    }
}

impl Error for ErrorKind {
    #[inline]
    fn kind(&self) -> (kind: ErrorKind)
        ensures
            kind == *self,
    {
        *self
    }
}

impl Error for core::convert::Infallible {
    #[inline]
    fn kind(&self) -> (kind: ErrorKind)
        ensures
            kind == ErrorKind::Other,
    {
        ErrorKind::Other
    }
}

impl Error for KeyboardError {
    fn kind(&self) -> (kind: ErrorKind)
        ensures
            kind == ErrorKind::Other,
    {
        ErrorKind::Other
    }
}

/// Keyboard error type trait.
///
/// This just defines the error type, to be used by the other traits.
pub trait ErrorType {
    /// Error type
    type Error: Error;
}

impl<T: ErrorType + ?Sized> ErrorType for &mut T {
    type Error = T::Error;
}

/// A keyboard that can be scanned.
pub trait Keyboard: ErrorType {
    /// What one scan cycle may make of the keyboard: whether a keyboard that
    /// was `before` can end a cycle as `after` with `result`. Each kind of
    /// keyboard says this of itself.
    spec fn scan_law(before: &Self, result: Result<(), Self::Error>, after: &Self) -> bool;

    /// Runs one scan cycle.
    fn scan(&mut self) -> (result: Result<(), Self::Error>)
        ensures
            Self::scan_law(old(self), result, final(self)),
    ;
}

impl<T: Keyboard + ?Sized> Keyboard for &mut T {
    /// A borrowed keyboard scans as the keyboard behind the borrow does.
    open spec fn scan_law(before: &Self, result: Result<(), Self::Error>, after: &Self) -> bool {
        T::scan_law(&**before, result, &**after)
    }

    #[inline]
    fn scan(&mut self) -> (result: Result<(), Self::Error>)
        ensures
            T::scan_law(&**old(self), result, &**final(self)),
    {
        T::scan(self)
    }
}

impl<
    const ROWS: usize,
    const COLS: usize,
    const NKRO: usize,
    I: InputCapability,
    O: OutputCapability,
> ErrorType for KeyMatrix<ROWS, COLS, NKRO, I, O> {
    type Error = KeyboardError;
}

impl<
    const ROWS: usize,
    const COLS: usize,
    const NKRO: usize,
    I: InputCapability,
    O: OutputCapability,
> Keyboard for KeyMatrix<ROWS, COLS, NKRO, I, O> {
    /// One scan of a matrix takes some samples, goes through the cycle up to
    /// some step, and ends there as `KeyMatrix::scan_ended` says.
    open spec fn scan_law(
        before: &Self,
        result: Result<(), KeyboardError>,
        after: &Self,
    ) -> bool {
        exists|samples: Seq<Seq<bool>>, stop: ScanStep| #[trigger]
            before.scan_ended(after, samples, stop, result)
    }

    /// Scan the current state of the key matrix.
    fn scan(&mut self) -> (result: Result<(), KeyboardError>) {
        KeyMatrix::scan(self)
    }
}

} // verus!
