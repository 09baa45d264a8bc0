//! Effects that the shell asks of its host, and runs of them.
//!
//! A run is a plan of effects together with what the host has reported of
//! them so far. The host asks the run for the next effect, carries it out
//! and records the result, until the run has nothing more to ask.

use vstd::prelude::*;
use crate::window::WindowOp;

verus! {

/// Something that the host does for the shell.
#[derive(Clone, Copy, Debug, PartialEq, Eq, Structural)]
pub enum Effect {
    /// Perform an operation on the main window.
    Window(WindowOp),
    /// Suppress the default handling of the close request being served.
    PreventClose,
    /// Kill the backend process whose handle the shell handed out.
    KillBackend,
    /// End the application with this exit code.
    Exit(i32),
}

/// The effects that perform the given window operations, in their order.
pub open spec fn as_effects(ops: Seq<WindowOp>) -> Seq<Effect> {
    Seq::new(ops.len(), |i: int| Effect::Window(ops[i]))
}

/// What a run does when the host reports that an effect failed.
#[derive(Clone, Copy, Debug, PartialEq, Eq, Structural)]
pub enum Policy {
    /// The run stops at the first failure and reports it.
    Strict,
    /// The failure is dropped and the run goes on with the next effect.
    BestEffort,
}

/// A plan of effects in progress.
#[derive(Debug)]
pub struct Run {
    plan: Vec<Effect>,
    policy: Policy,
    attempted: usize,
    failure: Option<String>,
}

impl Run {
    #[verifier::type_invariant]
    spec fn inv(self) -> bool {
        self.wf()
    }

    /// The effects of the run, in the order in which they are asked for.
    pub closed spec fn plan(self) -> Seq<Effect> {
        self.plan@
    }

    /// How the run treats a failure.
    pub closed spec fn policy(self) -> Policy {
        self.policy
    }

    /// How many effects of the plan the host has reported on.
    pub closed spec fn attempted(self) -> nat {
        self.attempted as nat
    }

    /// The failure that stopped the run, if one did.
    pub closed spec fn failure(self) -> Option<String> {
        self.failure
    }

    /// What holds of every run: no more reports than effects, and no
    /// failure kept under the best-effort policy.
    pub open spec fn wf(self) -> bool {
        &&& self.attempted() <= self.plan().len()
        &&& self.policy() is BestEffort ==> self.failure() is None
    }

    /// A run on which nothing has been reported yet.
    pub open spec fn fresh(self, plan: Seq<Effect>, policy: Policy) -> bool {
        &&& self.plan() == plan
        &&& self.policy() == policy
        &&& self.attempted() == 0
        &&& self.failure() is None
    }

    /// The effect that the host is to carry out next: the first one not yet
    /// reported on, unless a failure stopped the run or the plan is used up.
    pub open spec fn spec_next(self) -> Option<Effect> {
        if self.failure() is None && self.attempted() < self.plan().len() {
            Some(self.plan()[self.attempted() as int])
        } else {
            None
        }
    }

    /// The run after the host reported `result` for the effect that
    /// `spec_next` names. On a run with nothing to ask the report is dropped.
    pub open spec fn recorded(self, result: Result<(), String>, after: Run) -> bool {
        if self.spec_next() is None {
            after == self
        } else {
            &&& after.plan() == self.plan()
            &&& after.policy() == self.policy()
            &&& after.attempted() == self.attempted() + 1
            &&& after.failure() == match result {
                Err(reason) if self.policy() is Strict => Some(reason),
                _ => None,
            }
        }
    }

    /// The run after the host's report on the effect that `spec_next` names;
    /// `recorded` says what it is.
    pub closed spec fn after_report(self, result: Result<(), String>) -> Run {
        if self.failure is None && self.attempted < self.plan.len() {
            Run {
                plan: self.plan,
                policy: self.policy,
                attempted: (self.attempted + 1) as usize,
                failure: match result {
                    Err(reason) if self.policy is Strict => Some(reason),
                    _ => None,
                },
            }
        } else {
            self
        }
    }

    /// The run after the host's reports on its effects, first to last.
    pub open spec fn after_reports(self, results: Seq<Result<(), String>>) -> Run
        decreases results.len(),
    {
        if results.len() == 0 {
            self
        } else {
            self.after_reports(results.drop_last()).after_report(results.last())
        }
    }

    /// What the run answers to its caller: nothing while an effect is
    /// still to be asked for, then the failure that stopped it, or success.
    pub open spec fn spec_outcome(self) -> Option<Result<(), String>> {
        if self.spec_next() is Some {
            None
        } else {
            match self.failure() {
                Some(reason) => Some(Err(reason)),
                None => Some(Ok(())),
            }
        }
    }

    /// A run of `plan` on which nothing has been reported yet.
    pub fn new(plan: Vec<Effect>, policy: Policy) -> (r: Run)
        ensures
            r.wf(),
            r.fresh(plan@, policy),
    {
        Run { plan, policy, attempted: 0, failure: None }
    }

    /// The effect to carry out next, if the run has one to ask for.
    pub fn next(&self) -> (r: Option<Effect>)
        ensures
            r == self.spec_next(),
            self.wf(),
    {
        proof {
            use_type_invariant(self);
        }
        if self.failure.is_none() && self.attempted < self.plan.len() {
            Some(self.plan[self.attempted])
        } else {
            None
        }
    }

    /// Takes the host's report on the effect that `next` named.
    pub fn record(self, result: Result<(), String>) -> (r: Run)
        ensures
            self.wf(),
            r.wf(),
            r == self.after_report(result),
            self.recorded(result, r),
    {
        proof {
            use_type_invariant(&self);
        }
        if self.failure.is_none() && self.attempted < self.plan.len() {
            let failure = match result {
                Ok(_) => None,
                Err(reason) => match self.policy {
                    Policy::Strict => Some(reason),
                    Policy::BestEffort => None,
                },
            };
            Run { plan: self.plan, policy: self.policy, attempted: self.attempted + 1, failure }
        } else {
            self
        }
    }

    /// The result of a run that has nothing more to ask.
    pub fn outcome(self) -> (r: Option<Result<(), String>>)
        ensures
            self.wf(),
            r == self.spec_outcome(),
    {
        proof {
            use_type_invariant(&self);
        }
        if self.failure.is_none() && self.attempted < self.plan.len() {
            None
        } else {
            match self.failure {
                Some(reason) => Some(Err(reason)),
                None => Some(Ok(())),
            }
        }
    }
}

/// What a strict run answers once the host has made the given reports, in
/// their order: the first failure among them, or success.
pub open spec fn strict_outcome(results: Seq<Result<(), String>>) -> Result<(), String>
    decreases results.len(),
{
    if results.len() == 0 {
        Ok(())
    } else {
        match strict_outcome(results.drop_last()) {
            Err(reason) => Err(reason),
            Ok(_) => results.last(),
        }
    }
}

/// How many of the given reports a strict run takes: those up to and
/// including the first failure.
pub open spec fn strict_taken(results: Seq<Result<(), String>>) -> nat
    decreases results.len(),
{
    if results.len() == 0 {
        0
    } else if strict_outcome(results.drop_last()) is Err {
        strict_taken(results.drop_last())
    } else {
        strict_taken(results.drop_last()) + 1
    }
}

/// A report changes a run as `recorded` says.
pub proof fn lemma_after_report(run: Run, result: Result<(), String>)
    requires
        run.wf(),
    ensures
        run.recorded(result, run.after_report(result)),
        run.after_report(result).wf(),
{
}

/// Every report keeps a run well formed.
pub proof fn lemma_record_keeps_wf(run: Run, result: Result<(), String>, after: Run)
    requires
        run.wf(),
        run.recorded(result, after),
    ensures
        after.wf(),
{
}

/// A strict run on which the host reports no more often than the plan has
/// effects has taken the reports up to the first failure, holds that
/// failure, and has asked for nothing after it.
pub proof fn lemma_strict_run_keeps_first_failure(
    start: Run,
    plan: Seq<Effect>,
    results: Seq<Result<(), String>>,
)
    requires
        start.wf(),
        start.fresh(plan, Policy::Strict),
        results.len() <= plan.len(),
    ensures
        start.after_reports(results).wf(),
        start.after_reports(results).plan() == plan,
        start.after_reports(results).policy() is Strict,
        start.after_reports(results).attempted() == strict_taken(results),
        strict_taken(results) <= results.len(),
        start.after_reports(results).failure() == match strict_outcome(results) {
            Err(reason) => Some(reason),
            Ok(_) => None,
        },
        strict_outcome(results) is Ok ==> strict_taken(results) == results.len(),
    decreases results.len(),
{
    if results.len() > 0 {
        let earlier = results.drop_last();
        lemma_strict_run_keeps_first_failure(start, plan, earlier);
        lemma_after_report(start.after_reports(earlier), results.last());
    }
}

/// A strict run on which the host has reported once for every effect of
/// the plan answers the first failure among the reports, or success where
/// there was none; reports that follow a failure count for nothing.
pub proof fn lemma_strict_run_answers_first_failure(
    start: Run,
    plan: Seq<Effect>,
    results: Seq<Result<(), String>>,
)
    requires
        start.wf(),
        start.fresh(plan, Policy::Strict),
        results.len() == plan.len(),
    ensures
        start.after_reports(results).spec_outcome() == Some(strict_outcome(results)),
{
    lemma_strict_run_keeps_first_failure(start, plan, results);
    let end = start.after_reports(results);
    match strict_outcome(results) {
        Ok(unit) => {
            assert(unit == ());
            assert(end.spec_next() is None);
        },
        Err(reason) => {
            assert(end.spec_next() is None);
        },
    }
}

/// A best-effort run takes every report, keeps no failure, and answers
/// success once the host has reported on every effect.
pub proof fn lemma_best_effort_run_takes_all(
    start: Run,
    plan: Seq<Effect>,
    results: Seq<Result<(), String>>,
)
    requires
        start.wf(),
        start.fresh(plan, Policy::BestEffort),
        results.len() <= plan.len(),
    ensures
        start.after_reports(results).wf(),
        start.after_reports(results).plan() == plan,
        start.after_reports(results).policy() is BestEffort,
        start.after_reports(results).attempted() == results.len(),
        start.after_reports(results).failure() is None,
        results.len() < plan.len() ==> start.after_reports(results).spec_next() == Some(
            plan[results.len() as int],
        ),
        results.len() == plan.len() ==> start.after_reports(results).spec_outcome() == Some(
            Ok::<(), String>(()),
        ),
    decreases results.len(),
{
    if results.len() > 0 {
        let earlier = results.drop_last();
        lemma_best_effort_run_takes_all(start, plan, earlier);
        lemma_after_report(start.after_reports(earlier), results.last());
    }
}

/// A run that has nothing more to ask and met no failure has had every
/// effect of its plan reported, in order.
pub proof fn lemma_finished_run_covers_plan(run: Run)
    requires
        run.wf(),
        run.spec_outcome() == Some(Ok::<(), String>(())),
    ensures
        run.attempted() == run.plan().len(),
{
}

/// Under the best-effort policy a failure never stops the run: after any
/// report on a pending effect the run goes on to the next one, and it
/// ends in success.
pub proof fn lemma_best_effort_goes_on(run: Run, result: Result<(), String>, after: Run)
    requires
        run.wf(),
        run.policy() is BestEffort,
        run.spec_next() is Some,
        run.recorded(result, after),
    ensures
        after.failure() is None,
        after.attempted() == run.attempted() + 1,
        after.spec_next() is None ==> after.spec_outcome() == Some(Ok::<(), String>(())),
{
}

/// Under the strict policy a failure ends the run with that failure.
pub proof fn lemma_strict_stops_at_failure(run: Run, reason: String, after: Run)
    requires
        run.policy() is Strict,
        run.spec_next() is Some,
        run.recorded(Err(reason), after),
    ensures
        after.spec_next() is None,
        after.spec_outcome() == Some(Err::<(), String>(reason)),
{
}

} // verus!
