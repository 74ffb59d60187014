//! The matrix scanner: one cycle strobes every column and samples every row.

use vstd::prelude::*;
use crate::cols::KeyColumns;
use crate::error::KeyboardError;
use crate::key::Integrator;
use crate::keycode::Coordinate;
use crate::keycode::KeyCode;
use crate::pins::InputCapability;
use crate::pins::OutputCapability;
use crate::rows::KeyRows;
use crate::state::grid_has_shape;
use crate::state::grid_is_valid;
use crate::state::rest_grid;
use crate::state::KeyState;
use crate::step::ScanStep;

verus! {

/// Whether a scan that has finished `columns` columns, and `rows` rows of the
/// column after them, has sampled the switch at `row`, `col`. Columns come in
/// ascending order, and within a column the rows do.
pub open spec fn sampled(row: int, col: int, columns: int, rows: int) -> bool {
    col < columns || (col == columns && row < rows)
}

/// The grid that a scan leaves behind when it has finished `columns` columns
/// and `rows` rows of the column after them: every switch sampled so far has
/// been fed `samples[row][col]` once, and no other integrator has moved.
pub open spec fn scanned(
    before: Seq<Seq<Integrator>>,
    samples: Seq<Seq<bool>>,
    columns: int,
    rows: int,
) -> Seq<Seq<Integrator>> {
    Seq::new(
        before.len(),
        |r: int|
            Seq::new(
                before[r].len(),
                |c: int|
                    if sampled(r, c, columns, rows) {
                        before[r][c].step(samples[r][c])
                    } else {
                        before[r][c]
                    },
            ),
    )
}

/// What the operation of `step` adds to the record of the line of column
/// `col`, given whether the line took it: one drive on the line that the
/// step addresses, and nothing on any other.
pub open spec fn asked(col: int, step: ScanStep, taken: bool) -> Seq<(bool, bool)> {
    match step {
        ScanStep::Enable(at) => if col == at {
            seq![(true, taken)]
        } else {
            Seq::empty()
        },
        ScanStep::Disable(at) => if col == at {
            seq![(false, taken)]
        } else {
            Seq::empty()
        },
        _ => Seq::empty(),
    }
}

/// What a scan has added to the record of the line of column `col` when it
/// has come to `step`. With `refused` the line refused the operation of
/// `step` and the scan ended there; without, that operation is yet to be
/// asked. A column behind the scan was driven high and low and took both, the
/// column at hand has what the step says, and a column ahead has nothing.
pub open spec fn drives(col: int, step: ScanStep, cols: nat, refused: bool) -> Seq<(bool, bool)> {
    if col < step.columns_done(cols) {
        seq![(true, true), (false, true)]
    } else if col == step.columns_done(cols) {
        match step {
            ScanStep::Enable(_) => if refused {
                seq![(true, false)]
            } else {
                Seq::empty()
            },
            ScanStep::Sample(_, _) => seq![(true, true)],
            ScanStep::Disable(_) => if refused {
                seq![(true, true), (false, false)]
            } else {
                seq![(true, true)]
            },
            ScanStep::Finished => Seq::empty(),
        }
    } else {
        Seq::empty()
    }
}

/// What a scan has added to the record of the line of row `row` when it has
/// come to `step`: the level it showed under each column behind the scan,
/// then its level under the column at hand if the scan has passed the row,
/// and one failure if it is the row whose sampling was `refused`.
pub open spec fn answers(
    row: int,
    samples: Seq<Seq<bool>>,
    step: ScanStep,
    rows: nat,
    cols: nat,
    refused: bool,
) -> Seq<Option<bool>> {
    let col = step.columns_done(cols);
    let behind = Seq::new(col as nat, |c: int| Some(samples[row][c]));
    if row < step.rows_done(rows) {
        behind.push(Some(samples[row][col]))
    } else if refused && step is Sample && row == step.rows_done(rows) {
        behind.push(None)
    } else {
        behind
    }
}

/// Matrix of input and output lines describing a keyboard
pub struct KeyMatrix<
    const ROWS: usize,
    const COLS: usize,
    const NKRO: usize,
    I: InputCapability,
    O: OutputCapability,
> {
    rows: KeyRows<ROWS, I>,
    cols: KeyColumns<COLS, O>,
    state: KeyState<ROWS, COLS>,
    report: [KeyCode; NKRO],
}

impl<
    const ROWS: usize,
    const COLS: usize,
    const NKRO: usize,
    I: InputCapability,
    O: OutputCapability,
> View for KeyMatrix<ROWS, COLS, NKRO, I, O> {
    type V = Seq<Seq<Integrator>>;

    /// The integrators, row by row.
    closed spec fn view(&self) -> Seq<Seq<Integrator>> {
        self.state@
    }
}

impl<
    const ROWS: usize,
    const COLS: usize,
    const NKRO: usize,
    I: InputCapability,
    O: OutputCapability,
> KeyMatrix<ROWS, COLS, NKRO, I, O> {
    /// The lines of the columns, first column first.
    pub closed spec fn column_lines(&self) -> Seq<O> {
        self.cols@
    }

    /// The lines of the rows, first row first.
    pub closed spec fn row_lines(&self) -> Seq<I> {
        self.rows@
    }

    /// The slots of the report, `NoEvent` where a slot is free.
    pub closed spec fn report_codes(&self) -> Seq<KeyCode> {
        self.report@
    }

    /// A scan of this matrix has come to `step` and made `after` of it. The
    /// integrators have been fed the samples taken so far, every column line
    /// has been asked exactly the drives of the cycle up to the step, and
    /// every row line has shown exactly the levels in `samples` that were
    /// fed. With `refused`, the line refused the operation of `step`.
    pub open spec fn scanned_to(
        &self,
        after: &Self,
        samples: Seq<Seq<bool>>,
        step: ScanStep,
        refused: bool,
    ) -> bool {
        &&& grid_has_shape(samples, ROWS as nat, COLS as nat)
        &&& step.in_cycle(ROWS as nat, COLS as nat)
        &&& after@ == scanned(
            self@,
            samples,
            step.columns_done(COLS as nat),
            step.rows_done(ROWS as nat),
        )
        &&& forall|c: int|
            0 <= c < COLS ==> (#[trigger] after.column_lines()[c]).driven()
                == self.column_lines()[c].driven() + drives(c, step, COLS as nat, refused)
        &&& forall|r: int|
            0 <= r < ROWS ==> (#[trigger] after.row_lines()[r]).answered()
                == self.row_lines()[r].answered() + answers(
                r,
                samples,
                step,
                ROWS as nat,
                COLS as nat,
                refused,
            )
        &&& after.report_codes() == self.report_codes()
        &&& grid_is_valid(after@)
    }

    /// One whole scan of this matrix made `after` of it and returned
    /// `result`: it took the levels in `samples`, went through the cycle up
    /// to `stop`, and ended there, at the end of the cycle with success, or at
    /// the first operation that a line refused with the error of that
    /// operation.
    pub open spec fn scan_ended(
        &self,
        after: &Self,
        samples: Seq<Seq<bool>>,
        stop: ScanStep,
        result: Result<(), KeyboardError>,
    ) -> bool {
        &&& self.scanned_to(after, samples, stop, true)
        &&& result == stop.outcome()
    }

    /// A matrix has one line for each column and one for each row.
    pub proof fn lemma_one_line_each(&self)
        ensures
            self.column_lines().len() == COLS,
            self.row_lines().len() == ROWS,
    {
        self.cols.lemma_one_line_each();
        self.rows.lemma_one_line_each();
    }

    /// Instantiate a new matrix with the given rows and columns
    pub fn new(cols: [O; COLS], rows: [I; ROWS]) -> (matrix: Self)
        ensures
            matrix@ == rest_grid(ROWS as nat, COLS as nat),
            grid_is_valid(matrix@),
            matrix.column_lines() == cols@,
            matrix.row_lines() == rows@,
            matrix.report_codes() == Seq::new(NKRO as nat, |slot: int| KeyCode::NoEvent),
    {
        let matrix = Self {
            cols: KeyColumns::new(cols),
            rows: KeyRows::new(rows),
            state: KeyState::new(),
            report: [KeyCode::NoEvent; NKRO],
        };
        assert(matrix.report_codes() =~= Seq::new(NKRO as nat, |slot: int| KeyCode::NoEvent));
        matrix
    }

    /// Destroys this instance and returns cols and rows arrays back to the caller.
    pub fn destroy(self) -> (lines: ([O; COLS], [I; ROWS]))
        ensures
            lines.0@ == self.column_lines(),
            lines.1@ == self.row_lines(),
    {
        (self.cols.release(), self.rows.release())
    }

    /// The integrators as the last scan left them.
    pub fn state(&self) -> (state: &KeyState<ROWS, COLS>)
        ensures
            state@ == self@,
            grid_is_valid(state@),
    {
        proof {
            use_type_invariant(&self.state);
            self.state.lemma_well_formed_is_valid();
        }
        &self.state
    }

    /// The report: one slot for each key that can be held at once.
    pub fn report(&self) -> (report: &[KeyCode; NKRO])
        ensures
            report@ == self.report_codes(),
    {
        &self.report
    }

    /// Scan the current state of the key matrix.
    ///
    /// The cycle goes step by step in the order that `ScanStep` gives:
    /// columns in ascending order, each enabled, every row sampled in
    /// ascending order with its sample fed to the integrator of that switch,
    /// and the column disabled. The first operation that a line refuses ends
    /// the scan with its error; nothing is asked of any line after it, and
    /// the samples fed before it stay.
    pub fn scan(&mut self) -> (result: Result<(), KeyboardError>)
        ensures
            exists|samples: Seq<Seq<bool>>, stop: ScanStep| #[trigger]
                old(self).scan_ended(final(self), samples, stop, result),
    {
        proof {
            use_type_invariant(&self.state);
            self.state.lemma_well_formed_is_valid();
            self.state.lemma_shape();
        }
        let ghost mut samples = Seq::new(
            ROWS as nat,
            |r: int| Seq::new(COLS as nat, |c: int| false),
        );
        let mut step = ScanStep::first(COLS);
        proof {
            assert(self@ =~~= scanned(self@, samples, 0, 0));
        }
        loop
            invariant
                grid_has_shape(old(self)@, ROWS as nat, COLS as nat),
                old(self).scanned_to(&*self, samples, step, false),
            decreases
                COLS - step.columns_done(COLS as nat),
                step.operations_left(),
                ROWS - step.rows_done(ROWS as nat),
        {
            let ghost columns_then = self.column_lines();
            let ghost rows_then = self.row_lines();
            let ghost samples_then = samples;
            let taken = match step {
                ScanStep::Finished => {
                    assert(old(self).scan_ended(&*self, samples, step, Ok(())));
                    return Ok(());
                },
                ScanStep::Enable(col) => self.cols.enable_column(col).is_ok(),
                ScanStep::Sample(row, col) => match self.rows.get_row(row) {
                    Ok(level) => {
                        proof {
                            samples = samples.update(
                                row as int,
                                samples[row as int].update(col as int, level),
                            );
                        }
                        self.state.update(Coordinate::new(row, col), level);
                        true
                    },
                    Err(_) => false,
                },
                ScanStep::Disable(col) => self.cols.disable_column(col).is_ok(),
            };
            let ghost reached = if taken {
                step.next_of(ROWS as nat, COLS as nat)
            } else {
                step
            };
            proof {
                lemma_operation_recorded(ROWS as nat, COLS as nat, step, taken);
                assert(self@ =~~= scanned(
                    old(self)@,
                    samples,
                    reached.columns_done(COLS as nat),
                    reached.rows_done(ROWS as nat),
                ));
                assert forall|c: int| 0 <= c < COLS implies (
                #[trigger] self.column_lines()[c]).driven() == old(
                    self,
                ).column_lines()[c].driven() + drives(
                    c,
                    reached,
                    COLS as nat,
                    !taken,
                ) by {
                    let base = old(self).column_lines()[c].driven();
                    let then = columns_then[c].driven();
                    let so_far = drives(c, step, COLS as nat, false);
                    assert(then + Seq::<(bool, bool)>::empty() =~= then);
                    assert(then + seq![(true, taken)] =~= then.push((true, taken)));
                    assert(then + seq![(false, taken)] =~= then.push((false, taken)));
                    assert((base + so_far) + asked(c, step, taken) =~= base + (so_far + asked(
                        c,
                        step,
                        taken,
                    )));
                }
                assert forall|r: int| 0 <= r < ROWS implies (
                #[trigger] self.row_lines()[r]).answered() == old(
                    self,
                ).row_lines()[r].answered() + answers(
                    r,
                    samples,
                    reached,
                    ROWS as nat,
                    COLS as nat,
                    !taken,
                ) by {
                    lemma_answer_recorded(
                        r,
                        old(self).row_lines()[r].answered(),
                        rows_then[r].answered(),
                        self.row_lines()[r].answered(),
                        ROWS as nat,
                        COLS as nat,
                        samples_then,
                        samples,
                        step,
                        taken,
                    );
                }
                assert(old(self).scanned_to(&*self, samples, reached, !taken));
            }
            match step.after(taken, ROWS, COLS) {
                Ok(next) => {
                    step = next;
                },
                Err(error) => {
                    assert(old(self).scan_ended(&*self, samples, step, Err(error)));
                    return Err(error);
                },
            }
        }
    }
}

/// One operation more on the column lines: what a scan had added to each
/// column's record when it came to `step`, and what the operation of `step`
/// adds, is what the scan has added when it comes to the next step, or what
/// it has added when the line refused.
proof fn lemma_operation_recorded(rows: nat, cols: nat, step: ScanStep, taken: bool)
    requires
        step.in_cycle(rows, cols),
        !(step is Finished),
        rows <= usize::MAX,
        cols <= usize::MAX,
    ensures
        forall|c: int|
            0 <= c < cols ==> #[trigger] drives(c, step, cols, false) + asked(c, step, taken) == (
            if taken {
                drives(c, step.next_of(rows, cols), cols, false)
            } else {
                drives(c, step, cols, true)
            }),
{
    assert forall|c: int| 0 <= c < cols implies #[trigger] drives(c, step, cols, false) + asked(
        c,
        step,
        taken,
    ) == (if taken {
        drives(c, step.next_of(rows, cols), cols, false)
    } else {
        drives(c, step, cols, true)
    }) by {
        let sum = drives(c, step, cols, false) + asked(c, step, taken);
        if taken {
            assert(sum =~= drives(c, step.next_of(rows, cols), cols, false));
        } else {
            assert(sum =~= drives(c, step, cols, true));
        }
    }
}

/// One operation more on a row line. `base` is the line's record before the
/// scan, `then` its record when the scan came to `step`, and `now` its record
/// after the operation of `step`: one answer more where the step sampled this
/// row, and the same anywhere else. A level that was taken stands in
/// `samples` at the place of the switch.
proof fn lemma_answer_recorded(
    row: int,
    base: Seq<Option<bool>>,
    then: Seq<Option<bool>>,
    now: Seq<Option<bool>>,
    rows: nat,
    cols: nat,
    samples_then: Seq<Seq<bool>>,
    samples: Seq<Seq<bool>>,
    step: ScanStep,
    taken: bool,
)
    requires
        0 <= row < rows,
        rows <= usize::MAX,
        cols <= usize::MAX,
        step.in_cycle(rows, cols),
        !(step is Finished),
        grid_has_shape(samples_then, rows, cols),
        then == base + answers(row, samples_then, step, rows, cols, false),
        match step {
            ScanStep::Sample(at, col) => {
                &&& samples == (if taken {
                    samples_then.update(
                        at as int,
                        samples_then[at as int].update(col as int, samples[at as int][col as int]),
                    )
                } else {
                    samples_then
                })
                &&& now == (if row == at {
                    then.push(
                        if taken {
                            Some(samples[at as int][col as int])
                        } else {
                            None
                        },
                    )
                } else {
                    then
                })
            },
            _ => samples == samples_then && now == then,
        },
    ensures
        taken ==> now == base + answers(row, samples, step.next_of(rows, cols), rows, cols, false),
        !taken ==> now == base + answers(row, samples, step, rows, cols, true),
{
    let col = step.columns_done(cols);
    assert forall|c: int| 0 <= c < col implies samples[row][c] == samples_then[row][c] by {}
    assert(Seq::new(col as nat, |c: int| Some(samples[row][c])) =~= Seq::new(
        col as nat,
        |c: int| Some(samples_then[row][c]),
    ));
    if row < step.rows_done(rows) {
        assert(samples[row][col] == samples_then[row][col]);
    }
    if taken {
        let next = step.next_of(rows, cols);
        assert(Seq::new((col + 1) as nat, |c: int| Some(samples[row][c])) =~= Seq::new(
            col as nat,
            |c: int| Some(samples[row][c]),
        ).push(Some(samples[row][col])));
        assert(now =~= base + answers(row, samples, next, rows, cols, false));
    } else {
        assert(now =~= base + answers(row, samples, step, rows, cols, true));
    }
}

/// The levels that the switch at `row`, `col` showed over a series of scans,
/// oldest first. `history[i]` holds the samples of scan `i`.
pub open spec fn samples_at(history: Seq<Seq<Seq<bool>>>, row: int, col: int) -> Seq<bool> {
    Seq::new(history.len(), |i: int| history[i][row][col])
}

/// The grid after a series of scans that all succeeded on a matrix of `cols`
/// columns. `history[i]` holds the samples of scan `i`.
pub open spec fn scanned_all(
    before: Seq<Seq<Integrator>>,
    history: Seq<Seq<Seq<bool>>>,
    cols: nat,
) -> Seq<Seq<Integrator>>
    decreases history.len(),
{
    if history.len() == 0 {
        before
    } else {
        scanned(scanned_all(before, history.drop_last(), cols), history.last(), cols as int, 0)
    }
}

/// No line refused anything in a scan that stopped at `stop`: every drive in
/// what the scan added to the columns' records was taken, and every answer in
/// what it added to the rows' records is a level.
pub open spec fn nothing_refused(
    rows: nat,
    cols: nat,
    samples: Seq<Seq<bool>>,
    stop: ScanStep,
) -> bool {
    &&& forall|c: int, i: int|
        0 <= c < cols && 0 <= i < drives(c, stop, cols, true).len() ==> (#[trigger] drives(
            c,
            stop,
            cols,
            true,
        )[i]).1
    &&& forall|r: int, i: int|
        0 <= r < rows && 0 <= i < answers(r, samples, stop, rows, cols, true).len() ==> (
        #[trigger] answers(r, samples, stop, rows, cols, true)[i]) is Some
}

/// Scan order: a switch is sampled only after every switch of an earlier
/// column, and after every earlier row of its own column.
pub proof fn lemma_scan_order(
    row: int,
    col: int,
    earlier_row: int,
    earlier_col: int,
    columns: int,
    rows: int,
)
    requires
        sampled(row, col, columns, rows),
        earlier_col < col || (earlier_col == col && earlier_row < row),
    ensures
        sampled(earlier_row, earlier_col, columns, rows),
{
}

/// What a scan that stopped at `stop` does to each integrator: a switch that
/// was sampled has taken exactly one step, with its own sample, and no other
/// integrator has moved. After a whole cycle every switch has taken its step.
pub proof fn lemma_scan_effect(
    rows: nat,
    cols: nat,
    before: Seq<Seq<Integrator>>,
    samples: Seq<Seq<bool>>,
    stop: ScanStep,
    after: Seq<Seq<Integrator>>,
)
    requires
        grid_has_shape(before, rows, cols),
        stop.in_cycle(rows, cols),
        after == scanned(before, samples, stop.columns_done(cols), stop.rows_done(rows)),
    ensures
        grid_has_shape(after, rows, cols),
        grid_is_valid(before) ==> grid_is_valid(after),
        forall|r: int, c: int|
            0 <= r < rows && 0 <= c < cols ==> #[trigger] after[r][c] == (if sampled(
                r,
                c,
                stop.columns_done(cols),
                stop.rows_done(rows),
            ) {
                before[r][c].step(samples[r][c])
            } else {
                before[r][c]
            }),
        (stop is Finished) ==> forall|r: int, c: int|
            0 <= r < rows && 0 <= c < cols ==> #[trigger] after[r][c] == before[r][c].step(
                samples[r][c],
            ),
{
    assert forall|r: int, c: int|
        0 <= r < after.len() && 0 <= c < after[r].len() && grid_is_valid(
            before,
        ) implies (#[trigger] after[r][c]).valid() by {
        crate::key::lemma_step_stays_valid(before[r][c], samples[r][c]);
    }
}

/// No refusal is dropped and none is made up: a scan succeeds exactly when
/// no line refused anything that the scan asked of it.
pub proof fn lemma_refusal_surfaces(rows: nat, cols: nat, samples: Seq<Seq<bool>>, stop: ScanStep)
    requires
        stop.in_cycle(rows, cols),
    ensures
        nothing_refused(rows, cols, samples, stop) <==> stop.outcome() == Ok::<
            (),
            KeyboardError,
        >(()),
{
    match stop {
        ScanStep::Enable(col) => {
            assert(!drives(col as int, stop, cols, true)[0].1);
        },
        ScanStep::Sample(row, col) => {
            assert(answers(row as int, samples, stop, rows, cols, true)[col as int] is None);
        },
        ScanStep::Disable(col) => {
            assert(!drives(col as int, stop, cols, true)[1].1);
        },
        ScanStep::Finished => {},
    }
}

/// Where a scan stops is told by what the lines answered: two scans of one
/// matrix that added the same to the record of every line stopped at the same
/// step, and so returned the same result.
pub proof fn lemma_records_tell_the_stop(
    rows: nat,
    cols: nat,
    samples: Seq<Seq<bool>>,
    stop: ScanStep,
    other_samples: Seq<Seq<bool>>,
    other_stop: ScanStep,
)
    requires
        stop.in_cycle(rows, cols),
        other_stop.in_cycle(rows, cols),
        forall|c: int|
            0 <= c < cols ==> #[trigger] drives(c, stop, cols, true) == drives(
                c,
                other_stop,
                cols,
                true,
            ),
        forall|r: int|
            0 <= r < rows ==> #[trigger] answers(r, samples, stop, rows, cols, true) == answers(
                r,
                other_samples,
                other_stop,
                rows,
                cols,
                true,
            ),
    ensures
        stop == other_stop,
        stop.outcome() == other_stop.outcome(),
{
    let here = stop.columns_done(cols);
    let there = other_stop.columns_done(cols);
    if here < there {
        assert(drives(here, stop, cols, true) != drives(here, other_stop, cols, true)) by {
            assert(drives(here, other_stop, cols, true)[0] == (true, true));
            assert(drives(here, other_stop, cols, true).len() == 2);
            assert(drives(here, other_stop, cols, true)[1] == (false, true));
        }
    } else if there < here {
        assert(drives(there, stop, cols, true) != drives(there, other_stop, cols, true)) by {
            assert(drives(there, stop, cols, true)[0] == (true, true));
            assert(drives(there, stop, cols, true).len() == 2);
            assert(drives(there, stop, cols, true)[1] == (false, true));
        }
    } else if here < cols {
        assert(drives(here, stop, cols, true) == drives(here, other_stop, cols, true));
        assert(drives(here, stop, cols, true).len() == drives(
            here,
            other_stop,
            cols,
            true,
        ).len());
        assert(drives(here, stop, cols, true)[0] == drives(here, other_stop, cols, true)[0]);
        match (stop, other_stop) {
            (ScanStep::Sample(row, _), ScanStep::Sample(other_row, _)) => {
                let first = if row <= other_row {
                    row as int
                } else {
                    other_row as int
                };
                let mine = answers(first, samples, stop, rows, cols, true);
                let theirs = answers(first, other_samples, other_stop, rows, cols, true);
                assert(mine == theirs);
                assert(mine.len() == here + 1);
                assert(mine[here] == theirs[here]);
            },
            _ => {},
        }
    }
}

/// Fail-fast on enabling: a scan that ends because column `col` could not be
/// enabled returns `SetColumnHigh`. The refused drive is the only thing asked
/// of that column, no later column is touched, and no row is sampled under
/// the column or after it, so the integrators of these columns stand as they
/// were. When it is the first column, nothing has moved at all.
pub proof fn lemma_failed_enable_ends_the_scan(
    rows: nat,
    cols: nat,
    before: Seq<Seq<Integrator>>,
    samples: Seq<Seq<bool>>,
    col: usize,
    after: Seq<Seq<Integrator>>,
)
    requires
        grid_has_shape(before, rows, cols),
        col < cols,
        after == scanned(before, samples, col as int, 0),
    ensures
        ScanStep::Enable(col).outcome() == Err::<(), KeyboardError>(KeyboardError::SetColumnHigh),
        drives(col as int, ScanStep::Enable(col), cols, true) == seq![(true, false)],
        forall|c: int|
            col < c < cols ==> #[trigger] drives(c, ScanStep::Enable(col), cols, true)
                == Seq::<(bool, bool)>::empty(),
        forall|r: int|
            0 <= r < rows ==> (#[trigger] answers(
                r,
                samples,
                ScanStep::Enable(col),
                rows,
                cols,
                true,
            )).len() == col,
        forall|r: int, c: int|
            0 <= r < rows && col <= c < cols ==> #[trigger] after[r][c] == before[r][c],
        col == 0 ==> after == before,
{
    if col == 0 {
        assert(after =~~= before);
    }
}

/// Fail-fast on sampling: a scan that ends because row `row` could not be
/// sampled under column `col` returns `GetRow`. The column was enabled and is
/// never disabled, no later column is touched, the failing row and the rows
/// below it are not sampled under this column, and the rows above it keep
/// their step.
pub proof fn lemma_failed_read_ends_the_scan(
    rows: nat,
    cols: nat,
    before: Seq<Seq<Integrator>>,
    samples: Seq<Seq<bool>>,
    row: usize,
    col: usize,
    after: Seq<Seq<Integrator>>,
)
    requires
        grid_has_shape(before, rows, cols),
        row < rows,
        col < cols,
        after == scanned(before, samples, col as int, row as int),
    ensures
        ScanStep::Sample(row, col).outcome() == Err::<(), KeyboardError>(KeyboardError::GetRow),
        drives(col as int, ScanStep::Sample(row, col), cols, true) == seq![(true, true)],
        forall|c: int|
            col < c < cols ==> #[trigger] drives(c, ScanStep::Sample(row, col), cols, true)
                == Seq::<(bool, bool)>::empty(),
        answers(row as int, samples, ScanStep::Sample(row, col), rows, cols, true).len() == col
            + 1,
        answers(row as int, samples, ScanStep::Sample(row, col), rows, cols, true).last() is None,
        forall|r: int|
            row < r < rows ==> (#[trigger] answers(
                r,
                samples,
                ScanStep::Sample(row, col),
                rows,
                cols,
                true,
            )).len() == col,
        forall|r: int|
            0 <= r < row ==> #[trigger] after[r][col as int] == before[r][col as int].step(
                samples[r][col as int],
            ),
        forall|r: int|
            row <= r < rows ==> #[trigger] after[r][col as int] == before[r][col as int],
        forall|r: int, c: int|
            0 <= r < rows && col < c < cols ==> #[trigger] after[r][c] == before[r][c],
        col == 0 && row == 0 ==> after == before,
{
    if col == 0 && row == 0 {
        assert(after =~~= before);
    }
}

/// Fail-fast on disabling: a scan that ends because column `col` could not be
/// disabled returns `SetColumnLow`. Every row was sampled under the column and
/// keeps its step, the refused drive is the last thing asked of the column,
/// and no later column is touched.
pub proof fn lemma_failed_disable_ends_the_scan(
    rows: nat,
    cols: nat,
    before: Seq<Seq<Integrator>>,
    samples: Seq<Seq<bool>>,
    col: usize,
    after: Seq<Seq<Integrator>>,
)
    requires
        grid_has_shape(before, rows, cols),
        col < cols,
        after == scanned(before, samples, col as int, rows as int),
    ensures
        ScanStep::Disable(col).outcome() == Err::<(), KeyboardError>(KeyboardError::SetColumnLow),
        drives(col as int, ScanStep::Disable(col), cols, true) == seq![
            (true, true),
            (false, false),
        ],
        forall|c: int|
            col < c < cols ==> #[trigger] drives(c, ScanStep::Disable(col), cols, true)
                == Seq::<(bool, bool)>::empty(),
        forall|r: int|
            0 <= r < rows ==> (#[trigger] answers(
                r,
                samples,
                ScanStep::Disable(col),
                rows,
                cols,
                true,
            )).len() == col + 1,
        forall|r: int, c: int|
            0 <= r < rows && 0 <= c <= col ==> #[trigger] after[r][c] == before[r][c].step(
                samples[r][c],
            ),
        forall|r: int, c: int|
            0 <= r < rows && col < c < cols ==> #[trigger] after[r][c] == before[r][c],
{
}

/// Over a series of scans that all succeed, every integrator is fed its own
/// samples, one a scan and oldest first, and nothing else.
pub proof fn lemma_scans_run_each_integrator(
    rows: nat,
    cols: nat,
    before: Seq<Seq<Integrator>>,
    history: Seq<Seq<Seq<bool>>>,
)
    requires
        grid_has_shape(before, rows, cols),
    ensures
        grid_has_shape(scanned_all(before, history, cols), rows, cols),
        forall|r: int, c: int|
            0 <= r < rows && 0 <= c < cols ==> #[trigger] scanned_all(before, history, cols)[r][c]
                == before[r][c].run(samples_at(history, r, c)),
    decreases history.len(),
{
    if history.len() > 0 {
        let earlier = history.drop_last();
        lemma_scans_run_each_integrator(rows, cols, before, earlier);
        assert forall|r: int, c: int| 0 <= r < rows && 0 <= c < cols implies #[trigger] scanned_all(
            before,
            history,
            cols,
        )[r][c] == before[r][c].run(samples_at(history, r, c)) by {
            assert(samples_at(history, r, c).drop_last() =~= samples_at(earlier, r, c));
            assert(samples_at(history, r, c).last() == history.last()[r][c]);
        }
    } else {
        assert forall|r: int, c: int| 0 <= r < rows && 0 <= c < cols implies #[trigger] scanned_all(
            before,
            history,
            cols,
        )[r][c] == before[r][c].run(samples_at(history, r, c)) by {
            assert(samples_at(history, r, c) =~= Seq::<bool>::empty());
        }
    }
}

} // verus!
