use vstd::prelude::*;
use crate::commands::{Step, StepView, full_plan, iptables_plan, steps_view, tc_plan};
use crate::commands::lemma_tc_plan_shape;
use crate::config::{ConfigView, ShaperConfig};

verus! {

/// What the caller must do next.
pub enum Action {
    /// Run this command as root, then report whether it exited successfully.
    Run(String),
    /// A step failed: stop, reporting this message. Nothing more is run.
    Abort(String),
    /// Every step succeeded.
    Finish,
}

/// Mathematical model of an [`Action`].
pub ghost enum ActionView {
    Run(Seq<char>),
    Abort(Seq<char>),
    Finish,
}

impl View for Action {
    type V = ActionView;

    open spec fn view(&self) -> ActionView {
        match self {
            Action::Run(c) => ActionView::Run(c@),
            Action::Abort(m) => ActionView::Abort(m@),
            Action::Finish => ActionView::Finish,
        }
    }
}

/// Mathematical model of a [`Session`]: the plan, how many of its steps have
/// succeeded, and whether the step after those has failed.
pub ghost struct SessionView {
    pub plan: Seq<StepView>,
    pub done: nat,
    pub failed: bool,
}

/// A session at the beginning of `plan`.
pub open spec fn start(plan: Seq<StepView>) -> SessionView {
    SessionView { plan, done: 0, failed: false }
}

/// Effect of reporting one exit status. Once the session has failed or
/// finished, reports change nothing.
pub open spec fn advance(v: SessionView, ok: bool) -> SessionView {
    if v.failed || v.done >= v.plan.len() {
        v
    } else if ok {
        SessionView { plan: v.plan, done: v.done + 1, failed: false }
    } else {
        SessionView { plan: v.plan, done: v.done, failed: true }
    }
}

/// Effect of reporting `statuses` one after another.
pub open spec fn advance_all(v: SessionView, statuses: Seq<bool>) -> SessionView
    decreases statuses.len(),
{
    if statuses.len() == 0 {
        v
    } else {
        advance(advance_all(v, statuses.drop_last()), statuses.last())
    }
}

/// What a session in state `v` asks for.
pub open spec fn action_of(v: SessionView) -> ActionView {
    if v.failed {
        ActionView::Abort(v.plan[v.done as int].failure)
    } else if v.done < v.plan.len() {
        ActionView::Run(v.plan[v.done as int].command)
    } else {
        ActionView::Finish
    }
}

/// How many commands a session in state `v` has handed out so far: the
/// successful ones, and the failed one if any.
pub open spec fn issued(v: SessionView) -> nat {
    if v.failed {
        v.done + 1
    } else {
        v.done
    }
}

/// Hands out the steps of a plan one at a time, in order, and stops for good
/// at the first step whose command fails.
pub struct Session {
    steps: Vec<Step>,
    done: usize,
    failed: bool,
}

impl View for Session {
    type V = SessionView;

    closed spec fn view(&self) -> SessionView {
        SessionView { plan: steps_view(self.steps@), done: self.done as nat, failed: self.failed }
    }
}

impl Session {
    #[verifier::type_invariant]
    spec fn well_formed(&self) -> bool {
        &&& self.done <= self.steps@.len()
        &&& self.failed ==> self.done < self.steps@.len()
    }

    /// A session at the first step of `steps`.
    pub fn new(steps: Vec<Step>) -> (r: Session)
        ensures
            r@ == start(steps_view(steps@)),
    {
        Session { steps, done: 0, failed: false }
    }

    /// A session over both phases of the shaping setup for `cfg`.
    pub fn for_config(cfg: &ShaperConfig) -> (r: Session)
        ensures
            r@ == start(tc_plan(cfg@) + iptables_plan(cfg@)),
    {
        Session::new(full_plan(cfg))
    }

    /// The next thing to do.
    pub fn next_action(&self) -> (r: Action)
        ensures
            r@ == action_of(self@),
    {
        proof {
            use_type_invariant(self);
        }
        if self.failed {
            Action::Abort(self.steps[self.done].failure.clone())
        } else if self.done < self.steps.len() {
            Action::Run(self.steps[self.done].command.clone())
        } else {
            Action::Finish
        }
    }

    /// Records the exit status of the command last handed out by
    /// [`Session::next_action`].
    pub fn report(&mut self, ok: bool)
        ensures
            final(self)@ == advance(old(self)@, ok),
    {
        proof {
            use_type_invariant(&*self);
        }
        if self.failed || self.done >= self.steps.len() {
        } else if ok {
            self.done = self.done + 1;
        } else {
            self.failed = true;
        }
    }
}

/// Reporting only successes, no more of them than there are steps, leaves a
/// session that has run exactly that many steps and has not failed.
pub proof fn lemma_successes_advance(plan: Seq<StepView>, statuses: Seq<bool>)
    requires
        statuses.len() <= plan.len(),
        forall|j: int| 0 <= j < statuses.len() ==> statuses[j],
    ensures
        advance_all(start(plan), statuses) == (SessionView {
            plan,
            done: statuses.len(),
            failed: false,
        }),
    decreases statuses.len(),
{
    if statuses.len() > 0 {
        lemma_successes_advance(plan, statuses.drop_last());
    }
}

/// A failing command ends the session. If the command of step `i` is the first
/// to fail, then whatever statuses are reported afterwards, exactly the steps
/// `0..=i` have been handed out, and the session asks to abort with the message
/// of step `i`.
pub proof fn lemma_first_failure_is_final(plan: Seq<StepView>, statuses: Seq<bool>, i: int)
    requires
        0 <= i < statuses.len(),
        i < plan.len(),
        !statuses[i],
        forall|j: int| 0 <= j < i ==> statuses[j],
    ensures
        advance_all(start(plan), statuses) == (SessionView {
            plan,
            done: i as nat,
            failed: true,
        }),
        issued(advance_all(start(plan), statuses)) == i + 1,
        action_of(advance_all(start(plan), statuses)) == ActionView::Abort(plan[i].failure),
    decreases statuses.len(),
{
    if statuses.len() == i + 1 {
        lemma_successes_advance(plan, statuses.drop_last());
    } else {
        lemma_first_failure_is_final(plan, statuses.drop_last(), i);
    }
}

/// When every command of the plan succeeds, every step has been handed out,
/// once each, and the session reports completion.
pub proof fn lemma_all_success_finishes(plan: Seq<StepView>, statuses: Seq<bool>)
    requires
        statuses.len() == plan.len(),
        forall|j: int| 0 <= j < statuses.len() ==> statuses[j],
    ensures
        issued(advance_all(start(plan), statuses)) == plan.len(),
        action_of(advance_all(start(plan), statuses)) == ActionView::Finish,
{
    lemma_successes_advance(plan, statuses);
}

/// A failure in the queueing phase also keeps the whole marking phase from
/// running: at most the four queueing commands are ever handed out.
pub proof fn lemma_tc_failure_skips_marking(c: ConfigView, statuses: Seq<bool>, i: int)
    requires
        0 <= i < statuses.len(),
        i < 4,
        !statuses[i],
        forall|j: int| 0 <= j < i ==> statuses[j],
    ensures
        issued(advance_all(start(tc_plan(c) + iptables_plan(c)), statuses)) <= tc_plan(c).len(),
        action_of(advance_all(start(tc_plan(c) + iptables_plan(c)), statuses))
            == ActionView::Abort(tc_plan(c)[i].failure),
{
    lemma_tc_plan_shape(c);
    let plan = tc_plan(c) + iptables_plan(c);
    lemma_first_failure_is_final(plan, statuses, i);
    assert(plan[i] == tc_plan(c)[i]);
}

} // verus!
