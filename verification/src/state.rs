//! The grid of integrators that a matrix keeps between scans.

use vstd::prelude::*;
use crate::key::Integrator;
use crate::key::Key;
use crate::keycode::Coordinate;
use crate::keycode::KeyEvent;

verus! {

/// A grid of `rows` by `cols` integrators, all at rest.
pub open spec fn rest_grid(rows: nat, cols: nat) -> Seq<Seq<Integrator>> {
    Seq::new(rows, |r: int| Seq::new(cols, |c: int| Integrator::rest()))
}

/// The grid has `rows` rows of `cols` integrators each.
pub open spec fn grid_has_shape<T>(grid: Seq<Seq<T>>, rows: nat, cols: nat) -> bool {
    &&& grid.len() == rows
    &&& forall|r: int| 0 <= r < rows ==> (#[trigger] grid[r]).len() == cols
}

/// Every integrator of the grid is valid.
pub open spec fn grid_is_valid(grid: Seq<Seq<Integrator>>) -> bool {
    forall|r: int, c: int|
        0 <= r < grid.len() && 0 <= c < grid[r].len() ==> (#[trigger] grid[r][c]).valid()
}

/// The grid with one more sample fed to the integrator at `row`, `col`.
pub open spec fn grid_step(grid: Seq<Seq<Integrator>>, row: int, col: int, sample: bool) -> Seq<
    Seq<Integrator>,
> {
    grid.update(row, grid[row].update(col, grid[row][col].step(sample)))
}

/// The latest state of all the keys
#[derive(Debug, Clone, Copy, PartialEq, Eq)]
pub struct KeyState<const ROWS: usize, const COLS: usize> {
    keys: [[Key; COLS]; ROWS],
}

impl<const ROWS: usize, const COLS: usize> View for KeyState<ROWS, COLS> {
    type V = Seq<Seq<Integrator>>;

    /// The integrators, row by row.
    closed spec fn view(&self) -> Seq<Seq<Integrator>> {
        Seq::new(ROWS as nat, |r: int| Seq::new(COLS as nat, |c: int| self.keys[r][c]@))
    }
}

impl<const ROWS: usize, const COLS: usize> KeyState<ROWS, COLS> {
    /// The smallest counter in the grid.
    pub const MINIMUM: i8 = 0;

    /// The largest counter in the grid.
    pub const MAXIMUM: i8 = 3;

    #[verifier::type_invariant]
    pub(crate) closed spec fn well_formed(self) -> bool {
        forall|r: int, c: int|
            0 <= r < ROWS && 0 <= c < COLS ==> (#[trigger] self.keys[r][c])@.valid()
    }

    /// A grid in which every key is at rest.
    pub fn new() -> (state: Self)
        ensures
            state@ == rest_grid(ROWS as nat, COLS as nat),
            grid_is_valid(state@),
    {
        let state = KeyState { keys: [[Key::new(); COLS]; ROWS] };
        assert(state@ =~~= rest_grid(ROWS as nat, COLS as nat));
        state
    }

    /// The key at `at`.
    pub fn key(&self, at: Coordinate) -> (key: Key)
        requires
            at@.0 < ROWS,
            at@.1 < COLS,
        ensures
            key@ == self@[at@.0][at@.1],
            key@.valid(),
    {
        proof {
            use_type_invariant(self);
        }
        self.keys[at.row()][at.col()]
    }

    /// Feeds one sample to the key at `at` and returns its settled output.
    pub fn update(&mut self, at: Coordinate, sample: bool) -> (output: bool)
        requires
            at@.0 < ROWS,
            at@.1 < COLS,
        ensures
            final(self)@ == grid_step(old(self)@, at@.0, at@.1, sample),
            output == old(self)@[at@.0][at@.1].step(sample).output,
            grid_is_valid(final(self)@),
    {
        proof {
            use_type_invariant(&*self);
        }
        let mut key = self.keys[at.row()][at.col()];
        let output = key.update(sample);
        self.keys[at.row()][at.col()] = key;
        proof {
            use_type_invariant(&*self);
        }
        assert(self@ =~~= grid_step(old(self)@, at@.0, at@.1, sample));
        output
    }

    /// What the switch at `at` reports for the scans between `earlier` and
    /// this state: a press when its output has become set, a release when it
    /// has become clear, and nothing when it stands as it stood.
    pub fn event_since(&self, earlier: &Self, at: Coordinate) -> (event: KeyEvent)
        requires
            at@.0 < ROWS,
            at@.1 < COLS,
        ensures
            event == KeyEvent::of_transition(
                at,
                earlier@[at@.0][at@.1].output,
                self@[at@.0][at@.1].output,
            ),
    {
        KeyEvent::transition(at, earlier.key(at).output(), self.key(at).output())
    }

    /// The counter of every key, row by row.
    pub fn counters(&self) -> (counters: [[i8; COLS]; ROWS])
        ensures
            forall|r: int, c: int|
                0 <= r < ROWS && 0 <= c < COLS ==> (#[trigger] counters[r][c]) == self@[r][c].state,
            forall|r: int, c: int|
                0 <= r < ROWS && 0 <= c < COLS ==> Self::MINIMUM <= (#[trigger] counters[r][c])
                    <= Self::MAXIMUM,
    {
        let mut counters = [[0i8; COLS]; ROWS];
        let mut row: usize = 0;
        while row < ROWS
            invariant
                row <= ROWS,
                forall|r: int, c: int|
                    0 <= r < row && 0 <= c < COLS ==> (#[trigger] counters[r][c])
                        == self@[r][c].state,
                forall|r: int, c: int|
                    0 <= r < row && 0 <= c < COLS ==> Self::MINIMUM <= (#[trigger] counters[r][c])
                        <= Self::MAXIMUM,
            decreases ROWS - row,
        {
            let mut col: usize = 0;
            while col < COLS
                invariant
                    row < ROWS,
                    col <= COLS,
                    forall|r: int, c: int|
                        (0 <= r < row && 0 <= c < COLS) || (r == row && 0 <= c < col) ==> (
                        #[trigger] counters[r][c]) == self@[r][c].state,
                    forall|r: int, c: int|
                        (0 <= r < row && 0 <= c < COLS) || (r == row && 0 <= c < col)
                            ==> Self::MINIMUM <= (#[trigger] counters[r][c]) <= Self::MAXIMUM,
                decreases COLS - col,
            {
                counters[row][col] = self.keys[row][col].state();
                col += 1;
            }
            row += 1;
        }
        counters
    }

    /// The settled output of every key, row by row.
    pub fn outputs(&self) -> (outputs: [[bool; COLS]; ROWS])
        ensures
            forall|r: int, c: int|
                0 <= r < ROWS && 0 <= c < COLS ==> (#[trigger] outputs[r][c])
                    == self@[r][c].output,
    {
        let mut outputs = [[false; COLS]; ROWS];
        let mut row: usize = 0;
        while row < ROWS
            invariant
                row <= ROWS,
                forall|r: int, c: int|
                    0 <= r < row && 0 <= c < COLS ==> (#[trigger] outputs[r][c])
                        == self@[r][c].output,
            decreases ROWS - row,
        {
            let mut col: usize = 0;
            while col < COLS
                invariant
                    row < ROWS,
                    col <= COLS,
                    forall|r: int, c: int|
                        (0 <= r < row && 0 <= c < COLS) || (r == row && 0 <= c < col) ==> (
                        #[trigger] outputs[r][c]) == self@[r][c].output,
                decreases COLS - col,
            {
                outputs[row][col] = self.keys[row][col].output();
                col += 1;
            }
            row += 1;
        }
        outputs
    }

    /// Every grid of this type has `ROWS` rows of `COLS` integrators.
    pub proof fn lemma_shape(&self)
        ensures
            grid_has_shape(self@, ROWS as nat, COLS as nat),
    {
    }

    /// A grid whose keys are all well formed is valid.
    pub(crate) proof fn lemma_well_formed_is_valid(&self)
        requires
            self.well_formed(),
        ensures
            grid_is_valid(self@),
    {
    }
}

} // verus!
