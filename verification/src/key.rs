//! The per-switch integrator that filters contact bounce.

use vstd::prelude::*;

verus! {

/// Mathematical model of one integrator: a counter and the output it latches.
pub struct Integrator {
    pub state: int,
    pub output: bool,
}

impl Integrator {
    /// Smallest value of the counter.
    pub open spec fn minimum() -> int {
        0
    }

    /// Largest value of the counter.
    pub open spec fn maximum() -> int {
        3
    }

    /// The integrator of a switch that has been open for a long time.
    pub open spec fn rest() -> Integrator {
        Integrator { state: 0, output: false }
    }

    /// The counter is in range, and at either end the output agrees with it.
    pub open spec fn valid(self) -> bool {
        &&& Self::minimum() <= self.state <= Self::maximum()
        &&& self.state == Self::minimum() ==> !self.output
        &&& self.state == Self::maximum() ==> self.output
    }

    /// The counter after one more sample: one up for a closed contact, one
    /// down for an open one, held inside the range.
    pub open spec fn next_state(self, sample: bool) -> int {
        let moved = if sample {
            self.state + 1
        } else {
            self.state - 1
        };
        if moved < Self::minimum() {
            Self::minimum()
        } else if moved > Self::maximum() {
            Self::maximum()
        } else {
            moved
        }
    }

    /// The integrator after one more sample. The output follows the counter
    /// only at the two ends of the range and keeps its value in between.
    pub open spec fn step(self, sample: bool) -> Integrator {
        let state = self.next_state(sample);
        Integrator {
            state,
            output: if state == Self::minimum() {
                false
            } else if state == Self::maximum() {
                true
            } else {
                self.output
            },
        }
    }

    /// The integrator after a whole sequence of samples, oldest first.
    pub open spec fn run(self, samples: Seq<bool>) -> Integrator
        decreases samples.len(),
    {
        if samples.len() == 0 {
            self
        } else {
            self.run(samples.drop_last()).step(samples.last())
        }
    }
}

/// The debounced state of one switch.
#[derive(Debug, Clone, Copy, PartialEq, Eq)]
pub struct Key {
    state: i8,
    output: bool,
}

impl View for Key {
    type V = Integrator;

    /// The counter and the latched output.
    closed spec fn view(&self) -> Integrator {
        Integrator { state: self.state as int, output: self.output }
    }
}

impl Default for Key {
    /// A key at rest.
    fn default() -> (key: Key)
        ensures
            key@ == Integrator::rest(),
    {
        Key { state: 0, output: false }
    }
}

impl Key {
    /// Where the counter stops on its way down; here the output clears.
    pub const MINIMUM: i8 = 0;

    /// Where the counter stops on its way up; here the output sets.
    pub const MAXIMUM: i8 = 3;

    #[verifier::type_invariant]
    spec fn well_formed(self) -> bool {
        self@.valid()
    }

    /// A key at rest.
    pub fn new() -> (key: Key)
        ensures
            key@ == Integrator::rest(),
    {
        Key { state: 0, output: false }
    }

    /// Feeds one sample to the integrator and returns the settled output.
    pub fn update(&mut self, sample: bool) -> (output: bool)
        ensures
            final(self)@ == old(self)@.step(sample),
            final(self)@.valid(),
            output == final(self)@.output,
    {
        proof {
            use_type_invariant(&*self);
        }
        let moved: i8 = if sample {
            self.state + 1
        } else {
            self.state - 1
        };
        let state: i8 = if moved < Key::MINIMUM {
            Key::MINIMUM
        } else if moved > Key::MAXIMUM {
            Key::MAXIMUM
        } else {
            moved
        };
        let output = if state == Key::MINIMUM {
            false
        } else if state == Key::MAXIMUM {
            true
        } else {
            self.output
        };
        *self = Key { state, output };
        output
    }

    /// The counter, between `MINIMUM` and `MAXIMUM`.
    pub fn state(&self) -> (state: i8)
        ensures
            state == self@.state,
            Key::MINIMUM <= state <= Key::MAXIMUM,
    {
        proof {
            use_type_invariant(self);
        }
        self.state
    }

    /// The settled output: whether the switch counts as pressed.
    pub fn output(&self) -> (output: bool)
        ensures
            output == self@.output,
    {
        self.output
    }
}

/// The counter never leaves its range: one sample takes a valid integrator to
/// a valid one.
pub proof fn lemma_step_stays_valid(key: Integrator, sample: bool)
    requires
        key.valid(),
    ensures
        key.step(sample).valid(),
        Integrator::minimum() <= key.step(sample).state <= Integrator::maximum(),
{
}

/// Whatever the samples are, the integrator is valid after every one of them.
pub proof fn lemma_run_stays_valid(key: Integrator, samples: Seq<bool>)
    requires
        key.valid(),
    ensures
        forall|n: int|
            0 <= n <= samples.len() ==> (#[trigger] key.run(samples.take(n))).valid(),
    decreases samples.len(),
{
    assert forall|n: int| 0 <= n <= samples.len() implies (#[trigger] key.run(
        samples.take(n),
    )).valid() by {
        if n > 0 {
            let shorter = samples.take(n - 1);
            lemma_run_stays_valid(key, shorter);
            assert(shorter.take(n - 1) =~= shorter);
            assert(samples.take(n).drop_last() =~= shorter);
            lemma_step_stays_valid(key.run(shorter), samples.take(n).last());
        }
    }
}

/// Hysteresis: the output changes only when the counter arrives at an end of
/// its range. A set output survives an open sample unless the counter reaches
/// the minimum, a clear output survives a closed sample unless the counter
/// reaches the maximum, and a sample never moves the output against itself.
pub proof fn lemma_hysteresis(key: Integrator, sample: bool)
    requires
        key.valid(),
    ensures
        key.output && key.step(false).state != Integrator::minimum() ==> key.step(false).output,
        !key.output && key.step(true).state != Integrator::maximum() ==> !key.step(true).output,
        key.output ==> key.step(true).output,
        !key.output ==> !key.step(false).output,
        key.step(sample).output != key.output ==> key.step(sample).state == (if sample {
            Integrator::maximum()
        } else {
            Integrator::minimum()
        }),
{
}

/// Three equal samples in a row settle the integrator at the matching end,
/// wherever it started.
pub proof fn lemma_three_samples_settle(key: Integrator, sample: bool)
    requires
        key.valid(),
    ensures
        key.step(sample).step(sample).step(sample) == (if sample {
            Integrator { state: Integrator::maximum(), output: true }
        } else {
            Integrator::rest()
        }),
{
}

/// From either end of the range no two samples change the output: a bounce
/// shorter than three samples is filtered out.
pub proof fn lemma_two_samples_filtered(key: Integrator, first: bool, second: bool)
    requires
        key.valid(),
        key.state == Integrator::minimum() || key.state == Integrator::maximum(),
    ensures
        key.step(first).output == key.output,
        key.step(first).step(second).output == key.output,
{
}

/// An integrator at rest that only ever sees open samples stays at rest.
pub proof fn lemma_rest_is_stable(samples: Seq<bool>)
    requires
        forall|i: int| 0 <= i < samples.len() ==> !samples[i],
    ensures
        Integrator::rest().run(samples) == Integrator::rest(),
        forall|n: int|
            0 <= n <= samples.len() ==> #[trigger] Integrator::rest().run(samples.take(n))
                == Integrator::rest(),
    decreases samples.len(),
{
    assert forall|n: int| 0 <= n <= samples.len() implies #[trigger] Integrator::rest().run(
        samples.take(n),
    ) == Integrator::rest() by {
        if n > 0 {
            let shorter = samples.take(n - 1);
            lemma_rest_is_stable(shorter);
            assert(samples.take(n).drop_last() =~= shorter);
            assert(!samples.take(n).last());
        }
    }
    assert(samples.take(samples.len() as int) =~= samples);
}

/// The trajectory is a function of the start and the samples alone: equal
/// starts fed equal samples agree after every sample.
pub proof fn lemma_deterministic(
    first: Integrator,
    second: Integrator,
    samples: Seq<bool>,
    others: Seq<bool>,
)
    requires
        first == second,
        samples.len() == others.len(),
        forall|i: int| 0 <= i < samples.len() ==> samples[i] == others[i],
    ensures
        forall|n: int|
            0 <= n <= samples.len() ==> first.run(#[trigger] samples.take(n)) == second.run(
                others.take(n),
            ),
{
    assert forall|n: int| 0 <= n <= samples.len() implies first.run(#[trigger] samples.take(n))
        == second.run(others.take(n)) by {
        assert(samples.take(n) =~= others.take(n));
    }
}

} // verus!
