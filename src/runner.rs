//! The fail-fast sequencer. It hands out the actions of a stage plan one at
//! a time, in order, and is told how each went. The first failure ends the
//! run: no later action is handed out and no later stage is entered.
use vstd::prelude::*;
use crate::pipeline::{plan_view, Action, ActionView, Stage, StagePlan, StagePlanView};

verus! {

/// What went wrong in an action: the exit code when a command ran, and the
/// captured diagnostic output.
pub struct Failure {
    pub exit_code: Option<i32>,
    pub detail: String,
}

/// How an action went.
pub enum Outcome {
    Success,
    Failed(Failure),
}

/// Where a run stands.
pub enum RunStatus {
    Running,
    /// Every action succeeded; the image is at its durable path.
    Completed,
    Failed { stage: Stage, failure: Failure },
}

pub enum OutcomeView {
    Success,
    Failed { exit_code: Option<i32>, detail: Seq<char> },
}

pub enum StatusView {
    Running,
    Completed,
    Failed { stage: Stage, exit_code: Option<i32>, detail: Seq<char> },
}

impl View for Outcome {
    type V = OutcomeView;

    open spec fn view(&self) -> OutcomeView {
        match self {
            Outcome::Success => OutcomeView::Success,
            Outcome::Failed(f) => OutcomeView::Failed { exit_code: f.exit_code, detail: f.detail@ },
        }
    }
}

impl View for RunStatus {
    type V = StatusView;

    open spec fn view(&self) -> StatusView {
        match self {
            RunStatus::Running => StatusView::Running,
            RunStatus::Completed => StatusView::Completed,
            RunStatus::Failed { stage, failure } => StatusView::Failed {
                stage: *stage,
                exit_code: failure.exit_code,
                detail: failure.detail@,
            },
        }
    }
}

/// The state of a run: the plan, the position of the current action
/// (stage index, action index within it) and the status.
pub struct RunnerView {
    pub plan: Seq<StagePlanView>,
    pub stage: int,
    pub action: int,
    pub status: StatusView,
}

/// The stages of a plan, in order.
pub open spec fn stages_of(plan: Seq<StagePlanView>) -> Seq<Stage> {
    plan.map_values(|s: StagePlanView| s.stage)
}

/// The first stage at index `s` or later that has an action, or the
/// plan's length when there is none.
pub open spec fn first_busy(plan: Seq<StagePlanView>, s: int) -> int
    decreases plan.len() - s,
{
    if s >= plan.len() {
        plan.len() as int
    } else if plan[s].actions.len() > 0 {
        s
    } else {
        first_busy(plan, s + 1)
    }
}

/// A run positioned at the first action at stage index `s` or later, or
/// completed when none is left.
pub open spec fn enter_from(plan: Seq<StagePlanView>, s: int) -> RunnerView {
    let b = first_busy(plan, s);
    if b < plan.len() {
        RunnerView { plan, stage: b, action: 0, status: StatusView::Running }
    } else {
        RunnerView { plan, stage: 0, action: 0, status: StatusView::Completed }
    }
}

/// A fresh run of `plan`.
pub open spec fn spec_start(plan: Seq<StagePlanView>) -> RunnerView {
    enter_from(plan, 0)
}

/// The action to perform next, if the run is still going.
pub open spec fn spec_next(r: RunnerView) -> Option<ActionView> {
    match r.status {
        StatusView::Running => Some(r.plan[r.stage].actions[r.action]),
        _ => None,
    }
}

/// The run after the current action ended with `o`. A finished run stays
/// as it is.
pub open spec fn spec_record(r: RunnerView, o: OutcomeView) -> RunnerView {
    match r.status {
        StatusView::Running => match o {
            OutcomeView::Failed { exit_code, detail } => RunnerView {
                status: StatusView::Failed { stage: r.plan[r.stage].stage, exit_code, detail },
                ..r
            },
            OutcomeView::Success => if r.action + 1 < r.plan[r.stage].actions.len() {
                RunnerView { action: r.action + 1, ..r }
            } else {
                enter_from(r.plan, r.stage + 1)
            },
        },
        _ => r,
    }
}

/// The run after a sequence of outcomes, one per action.
pub open spec fn spec_run(r: RunnerView, outcomes: Seq<OutcomeView>) -> RunnerView
    decreases outcomes.len(),
{
    if outcomes.len() == 0 {
        r
    } else {
        spec_run(spec_record(r, outcomes[0]), outcomes.drop_first())
    }
}

/// The stages entered so far: all of them once the run completed, else
/// every stage up to and including the current one.
pub open spec fn spec_entered(r: RunnerView) -> Seq<Stage> {
    match r.status {
        StatusView::Completed => stages_of(r.plan),
        _ => stages_of(r.plan).subrange(0, r.stage + 1),
    }
}

/// All actions of a plan, stage after stage.
pub open spec fn flatten(plan: Seq<StagePlanView>) -> Seq<ActionView>
    decreases plan.len(),
{
    if plan.len() == 0 {
        Seq::empty()
    } else {
        plan[0].actions + flatten(plan.drop_first())
    }
}

/// The actions still to be handed out, in order, the current one first.
pub open spec fn rest_actions(r: RunnerView) -> Seq<ActionView> {
    match r.status {
        StatusView::Running => r.plan[r.stage].actions.subrange(r.action, r.plan[r.stage].actions.len() as int)
            + flatten(r.plan.subrange(r.stage + 1, r.plan.len() as int)),
        _ => Seq::empty(),
    }
}

/// The actions handed out by `n` successive successful steps from `r`.
pub open spec fn success_trace(r: RunnerView, n: nat) -> Seq<ActionView>
    decreases n,
{
    if n == 0 {
        Seq::empty()
    } else {
        match spec_next(r) {
            Some(a) => seq![a] + success_trace(spec_record(r, OutcomeView::Success), (n - 1) as nat),
            None => Seq::empty(),
        }
    }
}

/// `n` successful outcomes.
pub open spec fn successes(n: nat) -> Seq<OutcomeView> {
    Seq::new(n, |i: int| OutcomeView::Success)
}

pub open spec fn view_wf(r: RunnerView) -> bool {
    match r.status {
        StatusView::Running => 0 <= r.stage < r.plan.len() && 0 <= r.action < r.plan[r.stage].actions.len(),
        StatusView::Completed => true,
        StatusView::Failed { .. } => 0 <= r.stage < r.plan.len(),
    }
}

/// Walks a stage plan action by action, stopping at the first failure.
/// Every action is fatal on failure, init-system enablement included.
pub struct Runner {
    plan: Vec<StagePlan>,
    stage: usize,
    action: usize,
    entered: Vec<Stage>,
    status: RunStatus,
}

impl View for Runner {
    type V = RunnerView;

    closed spec fn view(&self) -> RunnerView {
        RunnerView { plan: plan_view(self.plan@), stage: self.stage as int, action: self.action as int, status: self.status@ }
    }
}

impl Runner {
    /// The position is valid for the status, and the entered stages are
    /// recorded.
    pub closed spec fn wf(&self) -> bool {
        &&& view_wf(self@)
        &&& self.entered@ == spec_entered(self@)
    }

    /// Moves to the first action at stage index `s` or later, entering
    /// every stage passed on the way.
    fn enter(&mut self, s: usize)
        requires
            1 <= s <= old(self).plan@.len(),
            old(self).entered@ == stages_of(plan_view(old(self).plan@)).subrange(0, s as int),
        ensures
            final(self)@ == enter_from(old(self)@.plan, s as int),
            final(self).wf(),
    {
        let n = self.plan.len();
        let mut b: usize = s;
        while b < n && self.plan[b].actions.len() == 0
            invariant
                n == self.plan@.len(),
                s <= b <= n,
                first_busy(plan_view(self.plan@), s as int) == first_busy(plan_view(self.plan@), b as int),
                self.entered@ == stages_of(plan_view(self.plan@)).subrange(0, b as int),
                self.plan == old(self).plan,
            decreases n - b,
        {
            self.entered.push(self.plan[b].stage);
            assert(self.entered@ =~= stages_of(plan_view(self.plan@)).subrange(0, b + 1));
            b = b + 1;
        }
        if b < n {
            self.entered.push(self.plan[b].stage);
            assert(self.entered@ =~= stages_of(plan_view(self.plan@)).subrange(0, b + 1));
            self.stage = b;
            self.action = 0;
            self.status = RunStatus::Running;
        } else {
            assert(self.entered@ =~= stages_of(plan_view(self.plan@)));
            self.stage = 0;
            self.action = 0;
            self.status = RunStatus::Completed;
        }
    }

    /// Starts a run of `plan` at its first action.
    pub fn new(plan: Vec<StagePlan>) -> (r: Runner)
        ensures
            r@ == spec_start(plan_view(plan@)),
            r.wf(),
            view_wf(r@),
    {
        let mut r = Runner { plan, stage: 0, action: 0, entered: Vec::new(), status: RunStatus::Completed };
        let n = r.plan.len();
        if n == 0 {
            assert(r.entered@ =~= stages_of(plan_view(r.plan@)));
            return r;
        }
        if r.plan[0].actions.len() > 0 {
            r.entered.push(r.plan[0].stage);
            assert(r.entered@ =~= stages_of(plan_view(r.plan@)).subrange(0, 1));
            r.status = RunStatus::Running;
            r
        } else {
            r.entered.push(r.plan[0].stage);
            assert(r.entered@ =~= stages_of(plan_view(r.plan@)).subrange(0, 1));
            r.enter(1);
            r
        }
    }

    /// The action to perform next, or `None` once the run has ended.
    pub fn next(&self) -> (r: Option<&Action>)
        requires
            self.wf(),
        ensures
            match r {
                Some(a) => spec_next(self@) == Some(a@),
                None => spec_next(self@) is None,
            },
    {
        match self.status {
            RunStatus::Running => {
                let a = &self.plan[self.stage].actions[self.action];
                Some(a)
            },
            _ => None,
        }
    }

    /// Records how the current action went and moves on: to the next action
    /// on success, to the failed state on failure.
    pub fn record(&mut self, outcome: Outcome)
        requires
            old(self).wf(),
        ensures
            final(self)@ == spec_record(old(self)@, outcome@),
            final(self).wf(),
            view_wf(final(self)@),
    {
        match self.status {
            RunStatus::Running => {},
            _ => return,
        }
        match outcome {
            Outcome::Failed(failure) => {
                let stage = self.plan[self.stage].stage;
                self.status = RunStatus::Failed { stage, failure };
            },
            Outcome::Success => {
                assert(plan_view(self.plan@)[self.stage as int] == self.plan@[self.stage as int]@);
                let n = self.plan.len();
                let m = self.plan[self.stage].actions.len();
                if self.action + 1 < m {
                    self.action = self.action + 1;
                } else {
                    assert(self.stage < n);
                    let next = self.stage + 1;
                    self.enter(next);
                }
            },
        }
    }

    /// The status of the run.
    pub fn status(&self) -> (r: &RunStatus)
        ensures
            r@ == self@.status,
    {
        &self.status
    }

    /// The stages entered so far, in order.
    pub fn entered(&self) -> (r: &Vec<Stage>)
        requires
            self.wf(),
        ensures
            r@ == spec_entered(self@),
    {
        &self.entered
    }
}

} // verus!
