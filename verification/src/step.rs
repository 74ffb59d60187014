//! The order of a scan cycle: which operation comes first, and which follows
//! each operation that a line took.

use vstd::prelude::*;
use crate::error::KeyboardError;

verus! {

/// One operation of a scan cycle, or its end.
#[derive(Debug, Clone, Copy, PartialEq, Eq, Structural)]
pub enum ScanStep {
    /// Drive the line of this column high.
    Enable(usize),
    /// Sample the line of this row, the first number, while this column, the
    /// second, is enabled.
    Sample(usize, usize),
    /// Drive the line of this column low.
    Disable(usize),
    /// Every column has been scanned; no operation is left.
    Finished,
}

impl ScanStep {
    /// The step addresses lines that a matrix of `rows` by `cols` has.
    pub open spec fn in_cycle(self, rows: nat, cols: nat) -> bool {
        match self {
            ScanStep::Enable(col) => col < cols,
            ScanStep::Sample(row, col) => row < rows && col < cols,
            ScanStep::Disable(col) => col < cols,
            ScanStep::Finished => true,
        }
    }

    /// The first step of a cycle: the first column is enabled, if there is
    /// one.
    pub open spec fn first_of(cols: nat) -> ScanStep {
        if cols == 0 {
            ScanStep::Finished
        } else {
            ScanStep::Enable(0)
        }
    }

    /// The step that follows this one when the line took the operation.
    /// Under an enabled column the rows are sampled in ascending order, then
    /// the column is disabled, then the next column is enabled.
    pub open spec fn next_of(self, rows: nat, cols: nat) -> ScanStep {
        match self {
            ScanStep::Enable(col) => if rows > 0 {
                ScanStep::Sample(0, col)
            } else {
                ScanStep::Disable(col)
            },
            ScanStep::Sample(row, col) => if row + 1 < rows {
                ScanStep::Sample((row + 1) as usize, col)
            } else {
                ScanStep::Disable(col)
            },
            ScanStep::Disable(col) => if col + 1 < cols {
                ScanStep::Enable((col + 1) as usize)
            } else {
                ScanStep::Finished
            },
            ScanStep::Finished => ScanStep::Finished,
        }
    }

    /// The error that ends the scan when the line refuses this operation.
    pub open spec fn failure_of(self) -> KeyboardError {
        match self {
            ScanStep::Enable(_) => KeyboardError::SetColumnHigh,
            ScanStep::Sample(_, _) => KeyboardError::GetRow,
            ScanStep::Disable(_) => KeyboardError::SetColumnLow,
            ScanStep::Finished => KeyboardError::Other,
        }
    }

    /// The result of a scan that stopped at this step: success at the end of
    /// the cycle, and the error of the refused operation anywhere else.
    pub open spec fn outcome(self) -> Result<(), KeyboardError> {
        if self is Finished {
            Ok(())
        } else {
            Err(self.failure_of())
        }
    }

    /// How many columns are behind a scan that has come to this step.
    pub open spec fn columns_done(self, cols: nat) -> int {
        match self {
            ScanStep::Enable(col) => col as int,
            ScanStep::Sample(row, col) => col as int,
            ScanStep::Disable(col) => col as int,
            ScanStep::Finished => cols as int,
        }
    }

    /// How many rows of the column at hand have been sampled when a scan has
    /// come to this step.
    pub open spec fn rows_done(self, rows: nat) -> int {
        match self {
            ScanStep::Enable(col) => 0,
            ScanStep::Sample(row, col) => row as int,
            ScanStep::Disable(col) => rows as int,
            ScanStep::Finished => 0,
        }
    }

    /// How many kinds of operation the column at hand still has ahead of it
    /// after this one: sampling and disabling after enabling, disabling after
    /// sampling.
    pub open spec fn operations_left(self) -> int {
        match self {
            ScanStep::Enable(_) => 2,
            ScanStep::Sample(_, _) => 1,
            ScanStep::Disable(_) => 0,
            ScanStep::Finished => 0,
        }
    }

    /// The step after `count` operations that were all taken, starting from
    /// this one.
    pub open spec fn advanced(self, count: nat, rows: nat, cols: nat) -> ScanStep
        decreases count,
    {
        if count == 0 {
            self
        } else {
            self.advanced((count - 1) as nat, rows, cols).next_of(rows, cols)
        }
    }

    /// The first step of a cycle over `cols` columns.
    pub fn first(cols: usize) -> (step: ScanStep)
        ensures
            step == ScanStep::first_of(cols as nat),
    {
        if cols == 0 {
            ScanStep::Finished
        } else {
            ScanStep::Enable(0)
        }
    }

    /// What a scan of `rows` by `cols` does after this step, given whether
    /// the line took the operation: it goes on to the next step, or it ends
    /// with the error of the refused operation. At the end of the cycle
    /// nothing was asked, and the end stays.
    pub fn after(self, taken: bool, rows: usize, cols: usize) -> (next: Result<
        ScanStep,
        KeyboardError,
    >)
        ensures
            next == (if taken || self is Finished {
                Ok::<ScanStep, KeyboardError>(self.next_of(rows as nat, cols as nat))
            } else {
                Err(self.failure_of())
            }),
    {
        match self {
            ScanStep::Finished => Ok(ScanStep::Finished),
            ScanStep::Enable(col) => if !taken {
                Err(KeyboardError::SetColumnHigh)
            } else if rows > 0 {
                Ok(ScanStep::Sample(0, col))
            } else {
                Ok(ScanStep::Disable(col))
            },
            ScanStep::Sample(row, col) => if !taken {
                Err(KeyboardError::GetRow)
            } else if rows > 0 && row < rows - 1 {
                Ok(ScanStep::Sample(row + 1, col))
            } else {
                Ok(ScanStep::Disable(col))
            },
            ScanStep::Disable(col) => if !taken {
                Err(KeyboardError::SetColumnLow)
            } else if cols > 0 && col < cols - 1 {
                Ok(ScanStep::Enable(col + 1))
            } else {
                Ok(ScanStep::Finished)
            },
        }
    }
}

/// A step of the cycle is followed by a step of the cycle.
pub proof fn lemma_next_stays_in_cycle(step: ScanStep, rows: nat, cols: nat)
    requires
        step.in_cycle(rows, cols),
    ensures
        step.next_of(rows, cols).in_cycle(rows, cols),
{
}

/// The walk through one column: once a column is enabled, its rows follow in
/// ascending order, then the column is disabled, and then comes the next
/// column, or the end after the last.
pub proof fn lemma_column_walk(col: usize, rows: nat, cols: nat)
    requires
        col < cols,
        rows <= usize::MAX,
        cols <= usize::MAX,
    ensures
        forall|row: int|
            0 <= row < rows ==> (#[trigger] ScanStep::Enable(col).advanced(
                (row + 1) as nat,
                rows,
                cols,
            )) == ScanStep::Sample(row as usize, col),
        ScanStep::Enable(col).advanced(rows + 1, rows, cols) == ScanStep::Disable(col),
        ScanStep::Enable(col).advanced(rows + 2, rows, cols) == (if col + 1 < cols {
            ScanStep::Enable((col + 1) as usize)
        } else {
            ScanStep::Finished
        }),
{
    let start = ScanStep::Enable(col);
    assert forall|row: int| 0 <= row < rows implies (#[trigger] start.advanced(
        (row + 1) as nat,
        rows,
        cols,
    )) == ScanStep::Sample(row as usize, col) by {
        lemma_rows_walk(col, row as nat, rows, cols);
    }
    if rows > 0 {
        lemma_rows_walk(col, (rows - 1) as nat, rows, cols);
        assert(start.advanced(rows, rows, cols) == ScanStep::Sample((rows - 1) as usize, col));
    } else {
        assert(start.advanced(0, rows, cols) == start);
    }
    assert(start.advanced(rows + 1, rows, cols) == start.advanced(rows, rows, cols).next_of(
        rows,
        cols,
    ));
    assert(start.advanced(rows + 2, rows, cols) == start.advanced(rows + 1, rows, cols).next_of(
        rows,
        cols,
    ));
}

/// The step `row + 1` operations after a column was enabled samples `row`.
proof fn lemma_rows_walk(col: usize, row: nat, rows: nat, cols: nat)
    requires
        row < rows,
        rows <= usize::MAX,
    ensures
        ScanStep::Enable(col).advanced(row + 1, rows, cols) == ScanStep::Sample(row as usize, col),
    decreases row,
{
    let start = ScanStep::Enable(col);
    assert(start.advanced(row + 1, rows, cols) == start.advanced(row, rows, cols).next_of(
        rows,
        cols,
    ));
    if row == 0 {
        assert(start.advanced(0, rows, cols) == start);
    } else {
        lemma_rows_walk(col, (row - 1) as nat, rows, cols);
    }
}

/// The walk through the cycle: column `col` is enabled after `rows + 2`
/// operations for each column before it, so the columns come in ascending
/// order, each with all its operations, and the cycle ends after the last.
pub proof fn lemma_cycle_walk(col: nat, rows: nat, cols: nat)
    requires
        col <= cols,
        rows <= usize::MAX,
        cols <= usize::MAX,
    ensures
        ScanStep::first_of(cols).advanced(col * (rows + 2), rows, cols) == (if col < cols {
            ScanStep::Enable(col as usize)
        } else {
            ScanStep::Finished
        }),
    decreases col,
{
    let first = ScanStep::first_of(cols);
    if col == 0 {
        assert(0 * (rows + 2) == 0);
        assert(first.advanced(0, rows, cols) == first);
    } else {
        let earlier = (col - 1) as nat;
        lemma_cycle_walk(earlier, rows, cols);
        assert((earlier + 1) * (rows + 2) == earlier * (rows + 2) + (rows + 2))
            by (nonlinear_arith);
        lemma_column_walk(earlier as usize, rows, cols);
        lemma_advanced_adds(first, earlier * (rows + 2), rows + 2, rows, cols);
    }
}

/// Advancing by two counts in a row is advancing by their sum.
pub proof fn lemma_advanced_adds(step: ScanStep, count: nat, more: nat, rows: nat, cols: nat)
    ensures
        step.advanced(count + more, rows, cols) == step.advanced(count, rows, cols).advanced(
            more,
            rows,
            cols,
        ),
    decreases more,
{
    if more > 0 {
        lemma_advanced_adds(step, count, (more - 1) as nat, rows, cols);
        assert(step.advanced(count + more, rows, cols) == step.advanced(
            (count + more - 1) as nat,
            rows,
            cols,
        ).next_of(rows, cols));
    } else {
        assert(step.advanced(count, rows, cols).advanced(0, rows, cols) == step.advanced(
            count,
            rows,
            cols,
        ));
    }
}

} // verus!
