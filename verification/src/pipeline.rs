//! Provisioning as a run over the plan: which action the host performs next,
//! and, once a step has failed, which steps are taken back and in what order.

use crate::archive::bundle_view;
use crate::config::Config;
use crate::host::{HostAction, HostActionView, Outcome};
use crate::layout::{
    image_path, image_path_of, instance_key, instance_key_of, is_instance_id, vm_key, vm_key_of,
};
use crate::plan::{
    actions_view, build_plan, plan_of, steps_view, stop_action, stop_action_of, tap_delete_action,
    tap_delete_action_of, unmount_action, unmount_action_of, Stage, Step, StepView,
};
use vstd::prelude::*;

verus! {

/// Why provisioning ended without a running instance.
#[derive(Clone, Copy, Debug, PartialEq, Eq, Structural)]
pub enum ProvisionError {
    /// The registry already marks the instance as provisioned.
    AlreadyExists,
    /// A required step of the given stage failed.
    Failed(Stage),
}

/// Where a run stands.
#[derive(Clone, Copy, Debug, PartialEq, Eq, Structural)]
pub enum Phase {
    /// The step at the cursor is to be carried out.
    Forward,
    /// A step has failed; the step at the cursor is to be taken back.
    Unwinding,
    /// Nothing is left to do.
    Finished,
}

/// What the host is to do now.
#[derive(Clone, Copy, Debug, PartialEq, Eq)]
pub enum Directive {
    /// Carry out the action of the step with this index.
    Perform { step: usize },
    /// Carry out the undo action of the step with this index.
    Revert { step: usize },
    /// Stop: provisioning has ended with this result.
    Finished(Result<(), ProvisionError>),
}

/// The state of a run as plain values. A finished run has cursor 0.
pub struct RunState {
    pub phase: Phase,
    pub cursor: int,
    pub error: Option<ProvisionError>,
}

/// The index of the last step before `k` that has an undo action, or -1.
pub open spec fn last_undo_below(plan: Seq<StepView>, k: int) -> int
    decreases k,
{
    if k <= 0 {
        -1
    } else if plan[k - 1].undo is Some {
        k - 1
    } else {
        last_undo_below(plan, k - 1)
    }
}

/// The steps before `k` that have an undo action, last one first.
pub open spec fn unwind_order(plan: Seq<StepView>, k: int) -> Seq<int>
    decreases k,
    via unwind_order_decreases
{
    let j = last_undo_below(plan, k);
    if j < 0 {
        Seq::empty()
    } else {
        seq![j] + unwind_order(plan, j)
    }
}

#[via_fn]
proof fn unwind_order_decreases(plan: Seq<StepView>, k: int) {
    last_undo_below_bounds(plan, k);
}

/// `last_undo_below` names a step before `k` that has an undo action, or -1.
pub proof fn last_undo_below_bounds(plan: Seq<StepView>, k: int)
    ensures
        -1 <= last_undo_below(plan, k),
        last_undo_below(plan, k) < k || (k <= 0 && last_undo_below(plan, k) == -1),
        last_undo_below(plan, k) >= 0 ==> plan[last_undo_below(plan, k)].undo is Some,
    decreases k,
{
    if k > 0 && !(plan[k - 1].undo is Some) {
        last_undo_below_bounds(plan, k - 1);
    }
}

/// Whether the host's answer lets the run go on after `step`.
pub open spec fn succeeded(step: StepView, outcome: Outcome) -> bool {
    outcome == Outcome::Done || !step.required
}

/// The error that a failed step of `stage` ends the run with.
pub open spec fn failure_of(stage: Stage, outcome: Outcome) -> ProvisionError {
    if stage == Stage::RecordPersist && outcome == Outcome::AlreadyExists {
        ProvisionError::AlreadyExists
    } else {
        ProvisionError::Failed(stage)
    }
}

/// A finished run with the given error, if any.
pub open spec fn finished(error: Option<ProvisionError>) -> RunState {
    RunState { phase: Phase::Finished, cursor: 0, error }
}

/// The state in which the steps before `k` are taken back after `error`.
pub open spec fn unwinding_below(plan: Seq<StepView>, k: int, error: ProvisionError) -> RunState {
    let j = last_undo_below(plan, k);
    if j < 0 {
        finished(Some(error))
    } else {
        RunState { phase: Phase::Unwinding, cursor: j, error: Some(error) }
    }
}

/// The state before anything has been done.
pub open spec fn initial_state(plan: Seq<StepView>) -> RunState {
    if plan.len() == 0 {
        finished(None)
    } else {
        RunState { phase: Phase::Forward, cursor: 0, error: None }
    }
}

/// The states that a run can be in.
pub open spec fn state_wf(plan: Seq<StepView>, s: RunState) -> bool {
    match s.phase {
        Phase::Forward => 0 <= s.cursor < plan.len() && s.error is None,
        Phase::Unwinding => 0 <= s.cursor < plan.len() && plan[s.cursor].undo is Some
            && s.error is Some,
        Phase::Finished => s.cursor == 0,
    }
}

/// The state after the host has answered `outcome` to the directive of `s`.
///
/// Going forward, a success moves to the next step or finishes the run; a
/// failure records its error and turns to the last step before it that can
/// be taken back. While unwinding, the answer is not looked at: the run moves
/// on to the next earlier step that can be taken back, and finishes when none
/// is left. A finished run stays as it is.
pub open spec fn next_state(plan: Seq<StepView>, s: RunState, outcome: Outcome) -> RunState {
    match s.phase {
        Phase::Forward => if succeeded(plan[s.cursor], outcome) {
            if s.cursor + 1 < plan.len() {
                RunState { phase: Phase::Forward, cursor: s.cursor + 1, error: None }
            } else {
                finished(None)
            }
        } else {
            unwinding_below(plan, s.cursor, failure_of(plan[s.cursor].stage, outcome))
        },
        Phase::Unwinding => unwinding_below(plan, s.cursor, s.error->0),
        Phase::Finished => s,
    }
}

/// What the host is to do in state `s`.
pub open spec fn directive_of(s: RunState) -> Directive {
    match s.phase {
        Phase::Forward => Directive::Perform { step: s.cursor as usize },
        Phase::Unwinding => Directive::Revert { step: s.cursor as usize },
        Phase::Finished => Directive::Finished(
            match s.error {
                Some(e) => Err(e),
                None => Ok(()),
            },
        ),
    }
}

/// The action that a directive asks for, if it asks for one.
pub open spec fn action_for(plan: Seq<StepView>, directive: Directive) -> Option<HostActionView> {
    match directive {
        Directive::Perform { step } => if step < plan.len() {
            Some(plan[step as int].action)
        } else {
            None
        },
        Directive::Revert { step } => if step < plan.len() {
            plan[step as int].undo
        } else {
            None
        },
        Directive::Finished(_) => None,
    }
}

/// The state after the host has answered the directives one after another
/// with `outcomes`.
pub open spec fn run(plan: Seq<StepView>, s: RunState, outcomes: Seq<Outcome>) -> RunState
    decreases outcomes.len(),
{
    if outcomes.len() == 0 {
        s
    } else {
        next_state(plan, run(plan, s, outcomes.drop_last()), outcomes.last())
    }
}

/// A run over the plan of one instance.
#[derive(Debug)]
pub struct Provisioning {
    steps: Vec<Step>,
    phase: Phase,
    cursor: usize,
    error: Option<ProvisionError>,
}

impl Provisioning {
    #[verifier::type_invariant]
    spec fn inv(self) -> bool {
        match self.phase {
            Phase::Forward => self.cursor < self.steps@.len() && self.error is None,
            Phase::Unwinding => self.cursor < self.steps@.len()
                && self.steps@[self.cursor as int].undo is Some && self.error is Some,
            Phase::Finished => true,
        }
    }

    /// The plan that the run goes over.
    pub closed spec fn plan(&self) -> Seq<StepView> {
        steps_view(self.steps@)
    }

    /// Where the run stands.
    pub closed spec fn state(&self) -> RunState {
        RunState {
            phase: self.phase,
            cursor: if self.phase == Phase::Finished {
                0
            } else {
                self.cursor as int
            },
            error: self.error,
        }
    }

    /// A run at the start of `steps`.
    pub fn new(steps: Vec<Step>) -> (run: Provisioning)
        ensures
            run.plan() == steps_view(steps@),
            run.state() == initial_state(run.plan()),
    {
        let phase = if steps.len() == 0 {
            Phase::Finished
        } else {
            Phase::Forward
        };
        Provisioning { steps, phase, cursor: 0, error: None }
    }

    /// The steps of the plan.
    pub fn steps(&self) -> (steps: &Vec<Step>)
        ensures
            steps_view(steps@) == self.plan(),
    {
        &self.steps
    }

    /// What the host is to do now.
    pub fn current(&self) -> (directive: Directive)
        ensures
            directive == directive_of(self.state()),
            state_wf(self.plan(), self.state()),
    {
        proof {
            use_type_invariant(self);
        }
        match self.phase {
            Phase::Forward => Directive::Perform { step: self.cursor },
            Phase::Unwinding => Directive::Revert { step: self.cursor },
            Phase::Finished => match self.error {
                Some(e) => Directive::Finished(Err(e)),
                None => Directive::Finished(Ok(())),
            },
        }
    }

    /// The action that `directive` asks for, if it asks for one.
    pub fn action(&self, directive: Directive) -> (action: Option<&HostAction>)
        ensures
            match action {
                Some(a) => action_for(self.plan(), directive) == Some(a@),
                None => action_for(self.plan(), directive) is None,
            },
    {
        match directive {
            Directive::Perform { step } => {
                if step < self.steps.len() {
                    Some(&self.steps[step].action)
                } else {
                    None
                }
            },
            Directive::Revert { step } => {
                if step < self.steps.len() {
                    self.steps[step].undo.as_ref()
                } else {
                    None
                }
            },
            Directive::Finished(_) => None,
        }
    }

    fn undo_below(&self, k: usize) -> (found: Option<usize>)
        requires
            k <= self.steps@.len(),
        ensures
            match found {
                Some(j) => j == last_undo_below(self.plan(), k as int),
                None => last_undo_below(self.plan(), k as int) == -1,
            },
    {
        let mut j: usize = k;
        while j > 0
            invariant
                j <= k <= self.steps@.len(),
                last_undo_below(steps_view(self.steps@), k as int) == last_undo_below(
                    steps_view(self.steps@),
                    j as int,
                ),
            decreases j,
        {
            if self.steps[j - 1].undo.is_some() {
                return Some(j - 1);
            }
            j = j - 1;
        }
        None
    }

    /// Takes the host's answer to the current directive and returns the next
    /// directive.
    pub fn report(&mut self, outcome: Outcome) -> (directive: Directive)
        ensures
            final(self).plan() == old(self).plan(),
            final(self).state() == next_state(old(self).plan(), old(self).state(), outcome),
            directive == directive_of(final(self).state()),
            state_wf(final(self).plan(), final(self).state()),
    {
        proof {
            use_type_invariant(&*self);
        }
        match self.phase {
            Phase::Forward => {
                let k = self.cursor;
                let len = self.steps.len();
                let went_well = match outcome {
                    Outcome::Done => true,
                    _ => !self.steps[k].required,
                };
                if went_well {
                    if k + 1 < len {
                        self.cursor = k + 1;
                    } else {
                        self.phase = Phase::Finished;
                    }
                } else {
                    let stage = self.steps[k].stage;
                    let already = match (stage, outcome) {
                        (Stage::RecordPersist, Outcome::AlreadyExists) => true,
                        _ => false,
                    };
                    let error = if already {
                        ProvisionError::AlreadyExists
                    } else {
                        ProvisionError::Failed(stage)
                    };
                    let target = self.undo_below(k);
                    proof {
                        last_undo_below_bounds(self.plan(), k as int);
                    }
                    self.phase = Phase::Finished;
                    self.error = Some(error);
                    match target {
                        Some(j) => {
                            self.cursor = j;
                            self.phase = Phase::Unwinding;
                        },
                        None => {},
                    }
                }
            },
            Phase::Unwinding => {
                let target = self.undo_below(self.cursor);
                proof {
                    last_undo_below_bounds(self.plan(), self.cursor as int);
                }
                match target {
                    Some(j) => {
                        self.cursor = j;
                    },
                    None => {
                        self.phase = Phase::Finished;
                    },
                }
            },
            Phase::Finished => {},
        }
        self.current()
    }
}

/// Everything that takes an instance down, in the reverse order of its
/// provisioning: stop the hypervisor, delete the tap device, unmount, remove
/// the image, delete the provisioning marker and the configuration record.
pub open spec fn teardown_of(id: Seq<char>) -> Seq<HostActionView> {
    seq![
        stop_action_of(id),
        tap_delete_action_of(id),
        unmount_action_of(id),
        HostActionView::RemoveFile { path: image_path_of(id) },
        HostActionView::Unregister { key: vm_key_of(id) },
        HostActionView::Unregister { key: instance_key_of(id) },
    ]
}

/// Starts the provisioning of `cfg` with the files `user_js`; `record` is the
/// configuration as the registry stores it. Nothing has been done yet: the
/// run stands at the first step of the plan.
pub fn spin(cfg: &Config, user_js: Vec<(String, Vec<u8>)>, record: Vec<u8>) -> (run: Provisioning)
    requires
        cfg.wf(),
    ensures
        run.plan() == plan_of(cfg@, bundle_view(user_js@), record@),
        run.state() == initial_state(run.plan()),
{
    Provisioning::new(build_plan(cfg, user_js, record))
}

/// The actions that take the instance `id` down, in the order in which the
/// host performs them. Each is attempted whatever became of the one before.
pub fn unspin(id: &str) -> (actions: Vec<HostAction>)
    requires
        is_instance_id(id@),
    ensures
        actions_view(actions@) == teardown_of(id@),
{
    let mut actions: Vec<HostAction> = Vec::new();
    actions.push(stop_action(id));
    actions.push(tap_delete_action(id));
    actions.push(unmount_action(id));
    actions.push(HostAction::RemoveFile { path: image_path(id) });
    actions.push(HostAction::Unregister { key: vm_key(id) });
    actions.push(HostAction::Unregister { key: instance_key(id) });
    actions
}

/// If step `j` has an undo action and no step between `j` and `k` has one,
/// then `j` is the step to take back first below `k`; with `j == -1`, none is.
pub proof fn last_undo_below_is(plan: Seq<StepView>, k: int, j: int)
    requires
        -1 <= j < k <= plan.len(),
        j >= 0 ==> plan[j].undo is Some,
        forall|i: int| j < i < k ==> plan[i].undo is None,
    ensures
        last_undo_below(plan, k) == j,
    decreases k - j,
{
    if k - 1 > j {
        last_undo_below_is(plan, k - 1, j);
    }
}

/// A run keeps to the states of `state_wf`.
pub proof fn next_state_is_wf(plan: Seq<StepView>, s: RunState, outcome: Outcome)
    requires
        state_wf(plan, s),
    ensures
        state_wf(plan, next_state(plan, s, outcome)),
{
    last_undo_below_bounds(plan, s.cursor);
}

/// Once a required step has failed, the host is asked to take back exactly
/// the earlier steps that have an undo action, the last one first, whatever
/// it answers in between; then the run is finished with the error of the
/// failed step. `later` holds the answers given after the failure.
pub proof fn rollback_runs_in_reverse(
    plan: Seq<StepView>,
    s: RunState,
    failing: Outcome,
    later: Seq<Outcome>,
)
    requires
        state_wf(plan, s),
        s.phase == Phase::Forward,
        !succeeded(plan[s.cursor], failing),
        later.len() <= unwind_order(plan, s.cursor).len(),
    ensures
        ({
            let order = unwind_order(plan, s.cursor);
            let error = failure_of(plan[s.cursor].stage, failing);
            let reached = run(plan, next_state(plan, s, failing), later);
            if later.len() < order.len() {
                &&& reached == (RunState {
                    phase: Phase::Unwinding,
                    cursor: order[later.len() as int],
                    error: Some(error),
                })
                &&& 0 <= order[later.len() as int] < s.cursor
                &&& plan[order[later.len() as int]].undo is Some
            } else {
                &&& reached == finished(Some(error))
                &&& directive_of(reached) == Directive::Finished(Err(error))
            }
        }),
{
    let error = failure_of(plan[s.cursor].stage, failing);
    unwinding_reaches(plan, s.cursor, error, later);
    let order = unwind_order(plan, s.cursor);
    if later.len() < order.len() {
        unwind_order_members(plan, s.cursor, later.len() as int);
    }
}

/// Every entry of `unwind_order` is a step before `k` with an undo action,
/// and the entries decrease.
pub proof fn unwind_order_members(plan: Seq<StepView>, k: int, i: int)
    requires
        k <= plan.len(),
        0 <= i < unwind_order(plan, k).len(),
    ensures
        0 <= unwind_order(plan, k)[i] < k,
        plan[unwind_order(plan, k)[i]].undo is Some,
        i > 0 ==> unwind_order(plan, k)[i] < unwind_order(plan, k)[i - 1],
    decreases k,
{
    last_undo_below_bounds(plan, k);
    let j = last_undo_below(plan, k);
    if i > 0 {
        unwind_order_members(plan, j, i - 1);
    }
}

/// The state that unwinding below `k` reaches after the answers `later`.
proof fn unwinding_reaches(
    plan: Seq<StepView>,
    k: int,
    error: ProvisionError,
    later: Seq<Outcome>,
)
    requires
        0 <= k <= plan.len(),
        later.len() <= unwind_order(plan, k).len(),
    ensures
        ({
            let order = unwind_order(plan, k);
            let reached = run(plan, unwinding_below(plan, k, error), later);
            if later.len() < order.len() {
                reached == (RunState {
                    phase: Phase::Unwinding,
                    cursor: order[later.len() as int],
                    error: Some(error),
                })
            } else {
                reached == finished(Some(error))
            }
        }),
    decreases later.len(),
{
    let order = unwind_order(plan, k);
    last_undo_below_bounds(plan, k);
    if later.len() == 0 {
    } else {
        let before = later.drop_last();
        unwinding_reaches(plan, k, error, before);
        let n = before.len() as int;
        let j = order[n];
        let at_j = RunState { phase: Phase::Unwinding, cursor: j, error: Some(error) };
        assert(run(plan, unwinding_below(plan, k, error), before) == at_j);
        assert(run(plan, unwinding_below(plan, k, error), later) == next_state(
            plan,
            at_j,
            later.last(),
        ));
        unwind_order_suffix(plan, k, n);
        unwind_order_members(plan, k, n);
        last_undo_below_bounds(plan, j);
        let rest = unwind_order(plan, j);
        assert(rest == order.subrange(n + 1, order.len() as int));
        if later.len() < order.len() {
            assert(rest.len() > 0);
            assert(rest[0] == order[n + 1]);
            assert(last_undo_below(plan, j) >= 0);
            assert(rest[0] == last_undo_below(plan, j));
        } else {
            assert(rest.len() == 0);
            assert(last_undo_below(plan, j) < 0);
        }
    }
}

/// What follows entry `i` of `unwind_order` is the order below that entry.
proof fn unwind_order_suffix(plan: Seq<StepView>, k: int, i: int)
    requires
        k <= plan.len(),
        0 <= i < unwind_order(plan, k).len(),
    ensures
        unwind_order(plan, k).subrange(i + 1, unwind_order(plan, k).len() as int) == unwind_order(
            plan,
            unwind_order(plan, k)[i],
        ),
    decreases k,
{
    last_undo_below_bounds(plan, k);
    let order = unwind_order(plan, k);
    let j = last_undo_below(plan, k);
    if i == 0 {
        assert(order.subrange(1, order.len() as int) =~= unwind_order(plan, j));
    } else {
        unwind_order_suffix(plan, j, i - 1);
        let below = unwind_order(plan, j);
        assert(order.subrange(i + 1, order.len() as int) =~= below.subrange(
            i,
            below.len() as int,
        ));
    }
}

/// While every answer lets the run go on, the host is asked to perform the
/// steps of the plan in order, and after the last one the run is finished
/// without an error.
pub proof fn success_runs_in_order(plan: Seq<StepView>, outcomes: Seq<Outcome>)
    requires
        0 < plan.len(),
        outcomes.len() <= plan.len(),
        forall|i: int| 0 <= i < outcomes.len() ==> succeeded(plan[i], #[trigger] outcomes[i]),
    ensures
        ({
            let reached = run(plan, initial_state(plan), outcomes);
            if outcomes.len() < plan.len() {
                reached == (RunState {
                    phase: Phase::Forward,
                    cursor: outcomes.len() as int,
                    error: None,
                })
            } else {
                reached == finished(None)
            }
        }),
    decreases outcomes.len(),
{
    if outcomes.len() > 0 {
        let before = outcomes.drop_last();
        assert forall|i: int| 0 <= i < before.len() implies succeeded(
            plan[i],
            #[trigger] before[i],
        ) by {
            assert(before[i] == outcomes[i]);
        }
        success_runs_in_order(plan, before);
        assert(succeeded(plan[before.len() as int], outcomes[before.len() as int]));
    }
}

/// A finished run stays finished, whatever the host answers.
pub proof fn finished_run_stays(plan: Seq<StepView>, s: RunState, outcomes: Seq<Outcome>)
    requires
        s.phase == Phase::Finished,
    ensures
        run(plan, s, outcomes) == s,
    decreases outcomes.len(),
{
    if outcomes.len() > 0 {
        finished_run_stays(plan, s, outcomes.drop_last());
    }
}

/// How many answers a run can still take before it is finished, at most.
pub open spec fn reports_left(plan: Seq<StepView>, s: RunState) -> int {
    match s.phase {
        Phase::Forward => 2 * plan.len() - s.cursor,
        Phase::Unwinding => s.cursor + 1,
        Phase::Finished => 0,
    }
}

/// Every answer brings a run that is not finished closer to its end.
pub proof fn report_makes_progress(plan: Seq<StepView>, s: RunState, outcome: Outcome)
    requires
        state_wf(plan, s),
        s.phase != Phase::Finished,
    ensures
        0 <= reports_left(plan, next_state(plan, s, outcome)) < reports_left(plan, s),
{
    last_undo_below_bounds(plan, s.cursor);
}

/// A run is finished after at most twice as many answers as the plan has
/// steps.
pub proof fn run_finishes(plan: Seq<StepView>, s: RunState, outcomes: Seq<Outcome>)
    requires
        state_wf(plan, s),
    ensures
        state_wf(plan, run(plan, s, outcomes)),
        reports_left(plan, run(plan, s, outcomes)) <= reports_left(plan, s),
        reports_left(plan, run(plan, s, outcomes)) == 0 || reports_left(
            plan,
            run(plan, s, outcomes),
        ) <= reports_left(plan, s) - outcomes.len(),
        outcomes.len() >= 2 * plan.len() ==> run(plan, s, outcomes).phase == Phase::Finished,
    decreases outcomes.len(),
{
    if outcomes.len() > 0 {
        let before = run(plan, s, outcomes.drop_last());
        run_finishes(plan, s, outcomes.drop_last());
        next_state_is_wf(plan, before, outcomes.last());
        if before.phase != Phase::Finished {
            report_makes_progress(plan, before, outcomes.last());
        }
    }
}

} // verus!
