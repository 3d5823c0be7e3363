use vstd::prelude::*;

verus! {

/// What the escape-time evaluation of one pixel found.
#[derive(Clone, Copy, Debug, PartialEq, Eq, Structural)]
pub enum EscapeOutcome {
    /// The orbit left the radius-2 disc on the step with this index.
    Escaped { at_iteration: u32 },
    /// The orbit stayed in the disc for the whole iteration budget.
    Bounded,
}

/// What the evaluator does after one radius test.
#[derive(Clone, Copy, Debug, PartialEq, Eq, Structural)]
pub enum Step {
    /// Keep the new orbit value and run the next step.
    Continue,
    /// The pixel is decided.
    Done(EscapeOutcome),
}

/// The decision after step `iteration` of `max_iterations`, given whether the
/// value that step produced lies outside the radius-2 disc.
pub open spec fn step_spec(iteration: nat, max_iterations: nat, outside_radius: bool) -> Step {
    if outside_radius {
        Step::Done(EscapeOutcome::Escaped { at_iteration: iteration as u32 })
    } else if iteration + 1 >= max_iterations {
        Step::Done(EscapeOutcome::Bounded)
    } else {
        Step::Continue
    }
}

/// Decides the evaluation of a pixel after step `iteration`.
///
/// The radius test is made on the value the step produced, so an orbit that
/// leaves the disc on step `i` escapes at `i`. Without an escape the budget
/// of `max_iterations` steps is spent and the pixel is bounded.
pub fn escape_step(iteration: u32, max_iterations: u32, outside_radius: bool) -> (r: Step)
    requires
        iteration < max_iterations,
    ensures
        r == step_spec(iteration as nat, max_iterations as nat, outside_radius),
{
    if outside_radius {
        Step::Done(EscapeOutcome::Escaped { at_iteration: iteration })
    } else if iteration + 1 >= max_iterations {
        Step::Done(EscapeOutcome::Bounded)
    } else {
        Step::Continue
    }
}


/// The outcome reached by deciding after each step from `iteration` on,
/// where `tests[k]` says whether the value of step `k` left the disc.
pub open spec fn run_from(tests: Seq<bool>, iteration: nat, max_iterations: nat) -> EscapeOutcome
    decreases max_iterations - iteration,
{
    if iteration >= max_iterations {
        EscapeOutcome::Bounded
    } else {
        match step_spec(iteration, max_iterations, tests[iteration as int]) {
            Step::Done(outcome) => outcome,
            Step::Continue => run_from(tests, iteration + 1, max_iterations),
        }
    }
}

/// Stepping through an orbit stops at the first step whose value left the
/// disc, and reports that step; when no step of the budget left it, the
/// pixel is bounded.
pub proof fn lemma_first_escape(tests: Seq<bool>, max_iterations: nat)
    requires
        1 <= max_iterations <= u32::MAX,
        tests.len() >= max_iterations,
    ensures
        run_from(tests, 0, max_iterations) matches EscapeOutcome::Escaped { at_iteration } ==> {
            &&& at_iteration < max_iterations
            &&& tests[at_iteration as int]
            &&& forall|k: int| 0 <= k < at_iteration ==> !tests[k]
        },
        run_from(tests, 0, max_iterations) is Bounded ==> forall|k: int|
            0 <= k < max_iterations ==> !tests[k],
{
    lemma_first_escape_from(tests, 0, max_iterations);
}

proof fn lemma_first_escape_from(tests: Seq<bool>, iteration: nat, max_iterations: nat)
    requires
        iteration < max_iterations <= u32::MAX,
        tests.len() >= max_iterations,
    ensures
        run_from(tests, iteration, max_iterations) matches EscapeOutcome::Escaped { at_iteration } ==> {
            &&& iteration <= at_iteration < max_iterations
            &&& tests[at_iteration as int]
            &&& forall|k: int| iteration <= k < at_iteration ==> !tests[k]
        },
        run_from(tests, iteration, max_iterations) is Bounded ==> forall|k: int|
            iteration <= k < max_iterations ==> !tests[k],
    decreases max_iterations - iteration,
{
    if !tests[iteration as int] && iteration + 1 < max_iterations {
        lemma_first_escape_from(tests, iteration + 1, max_iterations);
    }
}

} // verus!
