//! Runs a plan one step at a time: after each step the caller reports how it
//! went, and the driver says what to do next. The first failure ends the run.

use vstd::prelude::*;

use crate::error::BundleError;
use crate::plan::{strings_view, Action, ActionModel, BundlePlan, StepModel};

verus! {

/// How a performed step went.
pub enum StepOutcome {
    Succeeded,
    /// The step failed; `detail` says why (an I/O error, or a tool's status
    /// and output).
    Failed { detail: String },
}

/// What the caller does next.
pub enum Decision {
    /// Perform the step at `index` of the plan.
    Perform { index: usize },
    /// Every step succeeded: hand `artifacts` back.
    Finish { artifacts: Vec<String> },
    /// Stop: a step failed.
    Abort { error: BundleError },
}

/// The step to perform after step `done` of a plan of `len` steps, which
/// went well when `ok` holds; `None` when the run ends there.
pub open spec fn next_index(len: nat, done: nat, ok: bool) -> Option<nat> {
    if ok && done + 1 < len {
        Some(done + 1)
    } else {
        None
    }
}

/// The error that a failure of `step` with `detail` turns into: a subprocess
/// error for a command, a file system error otherwise, tagged with the step's
/// stage description.
pub open spec fn step_error(e: BundleError, step: StepModel, detail: Seq<char>) -> bool {
    match step.action {
        ActionModel::Run(_, _) => e matches BundleError::Subprocess { context, detail: d }
            && context@ == step.context && d@ == detail,
        _ => e matches BundleError::Filesystem { context, detail: d }
            && context@ == step.context && d@ == detail,
    }
}

fn copy_strings(v: &Vec<String>) -> (r: Vec<String>)
    ensures
        strings_view(r@) == strings_view(v@),
{
    let mut r: Vec<String> = Vec::new();
    for i in 0..v.len()
        invariant
            r@.len() == i,
            forall|k: int| 0 <= k < i ==> #[trigger] r@[k]@ == v@[k]@,
    {
        r.push(v[i].clone());
    }
    assert(strings_view(r@) =~= strings_view(v@));
    r
}

/// How a run of `plan` ends once all its steps have succeeded: with the
/// plan's artifacts, or, where the manifest did not render, with that
/// template error.
pub open spec fn run_end(plan: BundlePlan, r: Decision) -> bool {
    match plan.template_failure {
        Some(d) => r matches Decision::Abort { error } && (error matches BundleError::Template {
            detail,
        } && detail@ == d@),
        None => r matches Decision::Finish { artifacts } && strings_view(artifacts@)
            == strings_view(plan.artifacts@),
    }
}

fn end_of_run(plan: &BundlePlan) -> (r: Decision)
    ensures
        run_end(*plan, r),
{
    match &plan.template_failure {
        Some(d) => Decision::Abort { error: BundleError::Template { detail: d.clone() } },
        None => Decision::Finish { artifacts: copy_strings(&plan.artifacts) },
    }
}

/// The first decision of a run: perform the first step, or end at once when
/// the plan has none.
pub fn start(plan: &BundlePlan) -> (r: Decision)
    ensures
        plan.steps@.len() > 0 ==> r == (Decision::Perform { index: 0 }),
        plan.steps@.len() == 0 ==> run_end(*plan, r),
{
    if plan.steps.len() > 0 {
        Decision::Perform { index: 0 }
    } else {
        end_of_run(plan)
    }
}

/// The decision after step `done` of `plan` ended with `outcome`: the next
/// step after a success, the end of the run after the last one (the plan's
/// artifacts, or its template error), and an error tagged with the step's
/// stage after a failure.
pub fn advance(plan: &BundlePlan, done: usize, outcome: StepOutcome) -> (r: Decision)
    requires
        done < plan.steps@.len(),
    ensures
        r is Perform <==> next_index(plan.steps@.len(), done as nat, outcome is Succeeded) is Some,
        r matches Decision::Perform { index } ==> Some(index as nat) == next_index(
            plan.steps@.len(),
            done as nat,
            outcome is Succeeded,
        ),
        outcome is Succeeded && done + 1 == plan.steps@.len() ==> run_end(*plan, r),
        outcome matches StepOutcome::Failed { detail } ==> (r matches Decision::Abort { error }
            && step_error(error, plan.steps@[done as int]@, detail@)),
{
    match outcome {
        StepOutcome::Succeeded => {
            if done < plan.steps.len() - 1 {
                Decision::Perform { index: done + 1 }
            } else {
                end_of_run(plan)
            }
        },
        StepOutcome::Failed { detail } => {
            let step = &plan.steps[done];
            let context = step.context.clone();
            let error = match &step.action {
                Action::Run { .. } => BundleError::Subprocess { context, detail },
                _ => BundleError::Filesystem { context, detail },
            };
            Decision::Abort { error }
        },
    }
}

} // verus!

verus! {

/// Whether a run of a plan of `len` steps, in which step `k` went well
/// exactly when `results[k]` holds, gets to perform step `j`: the first step
/// is performed when there is one, and each later one when the driver picks
/// it after the step before.
pub open spec fn reaches(len: nat, results: Seq<bool>, j: nat) -> bool
    decreases j,
{
    if j == 0 {
        len > 0
    } else {
        &&& reaches(len, results, (j - 1) as nat)
        &&& j - 1 < results.len()
        &&& next_index(len, (j - 1) as nat, results[j - 1]) == Some(j)
    }
}

/// Once a step fails, no later step is performed: a failing builder keeps the
/// exporter from running.
pub proof fn lemma_failure_stops_later_steps(len: nat, results: Seq<bool>, i: nat, j: nat)
    requires
        i < j,
        i < results.len(),
        !results[i as int],
    ensures
        !reaches(len, results, j),
    decreases j,
{
    if j - 1 == i {
        assert(next_index(len, i, results[i as int]) is None);
    } else {
        lemma_failure_stops_later_steps(len, results, i, (j - 1) as nat);
    }
}

/// When every step succeeds, every step of the plan is performed.
pub proof fn lemma_success_reaches_every_step(len: nat, results: Seq<bool>, j: nat)
    requires
        j < len,
        results.len() >= len,
        forall|k: int| 0 <= k < len ==> #[trigger] results[k],
    ensures
        reaches(len, results, j),
    decreases j,
{
    if j > 0 {
        lemma_success_reaches_every_step(len, results, (j - 1) as nat);
    }
}

} // verus!
