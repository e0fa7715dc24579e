//! Which rendering variants a benchmark times, and with which switches.
//!
//! A benchmark times every variant at several step sizes, and the variants
//! that render by importance at several look-ahead steps as well. The step
//! sizes are fractions and live with the application; here they are known by
//! their place in the application's list.

use vstd::prelude::*;
use crate::state::StateParameters;

verus! {

/// How often each configuration is timed.
pub const NUM_TRIALS: usize = 3;

/// The steps that the importance check looks ahead when nothing else is
/// said.
pub const DEFAULT_AHEAD_STEPS: u32 = 15;

/// A rendering variant.
#[derive(Debug, Clone, Copy, PartialEq, Eq)]
pub enum Algorithm {
    /// Plain raymarching.
    Base,
    /// Rendering by importance.
    Importance,
    /// Rendering by importance, with the cone check.
    ImportanceCone,
}

/// One configuration to time.
#[derive(Debug, Clone, Copy, PartialEq, Eq)]
pub struct BenchmarkRun {
    pub algorithm: Algorithm,
    /// The place of the run's step size in the application's list.
    pub step_size: usize,
    /// The look-ahead steps that the results record for the run: 0 for a
    /// variant that does not look ahead.
    pub importance_steps: u32,
    /// The switches that the run renders with.
    pub parameters: StateParameters,
}

impl Algorithm {
    /// Whether the variant renders by importance.
    pub open spec fn by_importance(self) -> bool {
        self != Algorithm::Base
    }

    /// Whether the variant uses the cone check.
    pub open spec fn spec_uses_cone(self) -> bool {
        self == Algorithm::ImportanceCone
    }

    /// Whether the variant uses the cone check.
    pub fn uses_cone(self) -> (cone: bool)
        ensures
            cone == self.spec_uses_cone(),
    {
        match self {
            Algorithm::ImportanceCone => true,
            _ => false,
        }
    }

    /// The name that the results record for the variant.
    pub fn name(self) -> (name: &'static str)
        ensures
            name@ == match self {
                Algorithm::Base => "Base"@,
                Algorithm::Importance => "Importance"@,
                Algorithm::ImportanceCone => "ImportanceCone"@,
            },
    {
        match self {
            Algorithm::Base => "Base",
            Algorithm::Importance => "Importance",
            Algorithm::ImportanceCone => "ImportanceCone",
        }
    }

    /// The look-ahead steps that the variant is timed at: 10, 15 and 20 for a
    /// variant that renders by importance, and the single entry 0 for one that
    /// does not look ahead.
    pub open spec fn ahead_steps(self) -> Seq<u32> {
        if self.by_importance() {
            seq![10u32, 15u32, 20u32]
        } else {
            seq![0u32]
        }
    }

    /// Computes [`Algorithm::ahead_steps`].
    pub fn steps_to_try(self) -> (steps: Vec<u32>)
        ensures
            steps@ == self.ahead_steps(),
    {
        let mut steps: Vec<u32> = Vec::new();
        match self {
            Algorithm::Base => {
                steps.push(0);
            },
            _ => {
                steps.push(10);
                steps.push(15);
                steps.push(20);
            },
        }
        assert(steps@ =~= self.ahead_steps());
        steps
    }

    /// The switches of a run of the variant that looks `importance_steps`
    /// ahead: opacity on, colouring and smoothing off; importance rendering
    /// and the cone check as the variant has them; the look-ahead as given
    /// where the variant looks ahead, and the default where it does not.
    pub open spec fn switches(self, importance_steps: u32) -> StateParameters {
        StateParameters {
            use_cone_importance_check: self.spec_uses_cone(),
            use_importance_coloring: false,
            use_opacity: true,
            use_importance_rendering: self.by_importance(),
            use_gaussian_smoothing: false,
            importance_check_ahead_steps: if self.by_importance() {
                importance_steps
            } else {
                DEFAULT_AHEAD_STEPS
            },
        }
    }

    /// Computes [`Algorithm::switches`].
    pub fn parameters(self, importance_steps: u32) -> (parameters: StateParameters)
        ensures
            parameters == self.switches(importance_steps),
    {
        let by_importance = match self {
            Algorithm::Base => false,
            _ => true,
        };
        StateParameters {
            use_cone_importance_check: self.uses_cone(),
            use_importance_coloring: false,
            use_opacity: true,
            use_importance_rendering: by_importance,
            use_gaussian_smoothing: false,
            importance_check_ahead_steps: if by_importance {
                importance_steps
            } else {
                DEFAULT_AHEAD_STEPS
            },
        }
    }
}

/// The run of `algorithm` at the `step_size`-th step size and the
/// `step`-th of its look-ahead steps.
pub open spec fn run_of(algorithm: Algorithm, step_size: int, step: int) -> BenchmarkRun {
    BenchmarkRun {
        algorithm,
        step_size: step_size as usize,
        importance_steps: algorithm.ahead_steps()[step],
        parameters: algorithm.switches(algorithm.ahead_steps()[step]),
    }
}

/// The runs of `algorithm` over `step_sizes` step sizes: for every step size
/// in turn, one run for each of the variant's look-ahead steps in turn.
pub open spec fn algorithm_runs(algorithm: Algorithm, step_sizes: nat) -> Seq<BenchmarkRun> {
    let per_size = algorithm.ahead_steps().len();
    Seq::new(
        step_sizes * per_size,
        |i: int| run_of(algorithm, i / (per_size as int), i % (per_size as int)),
    )
}

/// The runs of a whole benchmark over `step_sizes` step sizes: those of plain
/// raymarching, then those of importance rendering, then those of importance
/// rendering with the cone check.
pub open spec fn all_runs(step_sizes: nat) -> Seq<BenchmarkRun> {
    algorithm_runs(Algorithm::Base, step_sizes) + algorithm_runs(Algorithm::Importance, step_sizes)
        + algorithm_runs(Algorithm::ImportanceCone, step_sizes)
}

/// Appends the runs of `algorithm` to `runs`.
fn push_algorithm_runs(runs: &mut Vec<BenchmarkRun>, algorithm: Algorithm, step_sizes: usize)
    ensures
        final(runs)@ == old(runs)@ + algorithm_runs(algorithm, step_sizes as nat),
{
    let steps = algorithm.steps_to_try();
    let ghost before = runs@;
    let ghost per_size = steps@.len() as int;
    let mut size: usize = 0;
    while size < step_sizes
        invariant
            size <= step_sizes,
            steps@ == algorithm.ahead_steps(),
            per_size == steps@.len(),
            1 <= per_size <= 3,
            runs@.len() == before.len() + size * per_size,
            forall|i: int| 0 <= i < before.len() ==> runs@[i] == before[i],
            forall|i: int|
                0 <= i < size * per_size ==> #[trigger] runs@[before.len() + i] == run_of(
                    algorithm,
                    i / per_size,
                    i % per_size,
                ),
        decreases step_sizes - size,
    {
        let mut step: usize = 0;
        while step < steps.len()
            invariant
                size < step_sizes,
                step <= steps@.len(),
                steps@ == algorithm.ahead_steps(),
                per_size == steps@.len(),
                1 <= per_size <= 3,
                runs@.len() == before.len() + size * per_size + step,
                forall|i: int| 0 <= i < before.len() ==> runs@[i] == before[i],
                forall|i: int|
                    0 <= i < size * per_size + step ==> #[trigger] runs@[before.len() + i]
                        == run_of(algorithm, i / per_size, i % per_size),
            decreases steps@.len() - step,
        {
            let importance_steps: u32 = steps[step];
            let ghost at = size * per_size + step;
            proof {
                assert(at / per_size == size && at % per_size == step) by (nonlinear_arith)
                    requires
                        at == size * per_size + step,
                        0 <= step < per_size,
                        0 <= size,
                ;
            }
            runs.push(
                BenchmarkRun {
                    algorithm,
                    step_size: size,
                    importance_steps,
                    parameters: algorithm.parameters(importance_steps),
                },
            );
            step += 1;
        }
        proof {
            assert((size + 1) * per_size == size * per_size + per_size) by (nonlinear_arith);
        }
        size += 1;
    }
    proof {
        let target = before + algorithm_runs(algorithm, step_sizes as nat);
        assert(runs@.len() == target.len());
        assert forall|j: int| 0 <= j < runs@.len() implies runs@[j] == target[j] by {
            if j >= before.len() {
                let i = j - before.len();
                assert(runs@[before.len() + i] == run_of(algorithm, i / per_size, i % per_size));
            }
        }
        assert(runs@ =~= target);
    }
}

/// Lists the runs of a whole benchmark over `step_sizes` step sizes, in the
/// order in which they are timed (see [`all_runs`]). Each is timed
/// [`NUM_TRIALS`] times.
pub fn benchmark_runs(step_sizes: usize) -> (runs: Vec<BenchmarkRun>)
    ensures
        runs@ == all_runs(step_sizes as nat),
{
    let mut runs: Vec<BenchmarkRun> = Vec::new();
    push_algorithm_runs(&mut runs, Algorithm::Base, step_sizes);
    push_algorithm_runs(&mut runs, Algorithm::Importance, step_sizes);
    push_algorithm_runs(&mut runs, Algorithm::ImportanceCone, step_sizes);
    assert(runs@ =~= all_runs(step_sizes as nat));
    runs
}

} // verus!
