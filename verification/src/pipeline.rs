//! The upload phase as a state machine: when the run is announced, which
//! task may start, what each observed outcome changes, when the commit is
//! due and when the run is over. The caller performs the requests and hands
//! every outcome back.

use crate::outcome::UploadOutcome;
use vstd::prelude::*;

verus! {

/// The stages of one run, in the order in which they are passed.
#[derive(Clone, Copy, Debug, PartialEq, Eq, Structural)]
pub enum Phase {
    Idle,
    Scanning,
    Filtering,
    Uploading,
    Committing,
    Done,
}

impl Phase {
    /// The position of the stage in a run.
    pub open spec fn rank(self) -> nat {
        match self {
            Phase::Idle => 0,
            Phase::Scanning => 1,
            Phase::Filtering => 2,
            Phase::Uploading => 3,
            Phase::Committing => 4,
            Phase::Done => 5,
        }
    }

    /// The stage that follows, if there is one.
    pub open spec fn successor(self) -> Option<Phase> {
        match self {
            Phase::Idle => Some(Phase::Scanning),
            Phase::Scanning => Some(Phase::Filtering),
            Phase::Filtering => Some(Phase::Uploading),
            Phase::Uploading => Some(Phase::Committing),
            Phase::Committing => Some(Phase::Done),
            Phase::Done => None,
        }
    }

    /// The stage that follows `self`; `None` once the run is done.
    pub fn next(self) -> (r: Option<Phase>)
        ensures
            r == self.successor(),
    {
        match self {
            Phase::Idle => Some(Phase::Scanning),
            Phase::Scanning => Some(Phase::Filtering),
            Phase::Filtering => Some(Phase::Uploading),
            Phase::Uploading => Some(Phase::Committing),
            Phase::Committing => Some(Phase::Done),
            Phase::Done => None,
        }
    }
}

/// A lifecycle notification for the observer of a run.
#[derive(Clone, Copy, Debug, PartialEq, Eq, Structural)]
pub enum Signal {
    /// The run starts; carries the size of the work set.
    Start(u64),
    /// One more outcome was observed; carries the number observed so far.
    Next(u64),
    /// Every outcome was observed and the commit was attempted.
    Finish,
}

/// One step of the upload phase.
#[derive(Clone, Copy, Debug, PartialEq, Eq, Structural)]
pub enum Step {
    /// The run is announced to the observer.
    Announce,
    /// A task is handed out.
    Start,
    /// The outcome of a task in flight is observed: a success (`true`) or a
    /// failure.
    Outcome(bool),
    /// The commit is requested.
    Commit,
    /// The answer to the commit, or its failure, was seen.
    Finish,
}

/// Bookkeeping of the uploads over a work set of `total` members, of which
/// at most `bound` are in flight at once.
#[derive(Clone, Copy, Debug)]
pub struct UploadPipeline {
    /// The stage the run is in: `Filtering` until it is announced.
    pub phase: Phase,
    /// Size of the work set.
    pub total: usize,
    /// Upper bound on the number of tasks in flight.
    pub bound: usize,
    /// Tasks handed out so far.
    pub started: usize,
    /// Outcomes observed so far, failures among them.
    pub completed: usize,
    /// Outcomes observed so far that were failures.
    pub failed: usize,
}

impl UploadPipeline {
    /// The invariant of the bookkeeping.
    pub open spec fn wf(&self) -> bool {
        &&& self.bound >= 1
        &&& self.failed <= self.completed
        &&& self.completed <= self.started
        &&& self.started <= self.total
        &&& self.started - self.completed <= self.bound
        &&& self.phase.rank() >= Phase::Filtering.rank()
        &&& self.phase == Phase::Filtering ==> self.started == 0
        &&& self.phase == Phase::Committing || self.phase == Phase::Done ==> self.completed
            == self.total
    }

    /// The bookkeeping of a run in which nothing has happened yet.
    pub open spec fn fresh(total: usize, bound: usize) -> UploadPipeline {
        UploadPipeline {
            phase: Phase::Filtering,
            total,
            bound,
            started: 0,
            completed: 0,
            failed: 0,
        }
    }

    /// Number of tasks handed out whose outcome is still awaited.
    pub open spec fn spec_in_flight(&self) -> int {
        self.started - self.completed
    }

    /// Whether every member of the work set has produced its outcome.
    pub open spec fn spec_is_drained(&self) -> bool {
        self.completed == self.total
    }

    /// Whether `step` can be taken now.
    pub open spec fn enabled(&self, step: Step) -> bool {
        match step {
            Step::Announce => self.phase == Phase::Filtering,
            Step::Start => self.phase == Phase::Uploading && self.started < self.total
                && self.spec_in_flight() < self.bound,
            Step::Outcome(_) => self.phase == Phase::Uploading && self.spec_in_flight() > 0,
            Step::Commit => self.phase == Phase::Uploading && self.spec_is_drained(),
            Step::Finish => self.phase == Phase::Committing,
        }
    }

    /// The bookkeeping after `step`; a step that cannot be taken changes
    /// nothing.
    pub open spec fn after(&self, step: Step) -> UploadPipeline {
        if !self.enabled(step) {
            *self
        } else {
            match step {
                Step::Announce => UploadPipeline { phase: Phase::Uploading, ..*self },
                Step::Start => UploadPipeline { started: (self.started + 1) as usize, ..*self },
                Step::Outcome(succeeded) => UploadPipeline {
                    completed: (self.completed + 1) as usize,
                    failed: if succeeded {
                        self.failed
                    } else {
                        (self.failed + 1) as usize
                    },
                    ..*self
                },
                Step::Commit => UploadPipeline { phase: Phase::Committing, ..*self },
                Step::Finish => UploadPipeline { phase: Phase::Done, ..*self },
            }
        }
    }

    /// The notification that `step` gives rise to, taken now: the size of
    /// the work set when the run is announced, the new count for an outcome
    /// that was awaited, the closing notification when the run ends; none
    /// for the other steps and for a step that cannot be taken.
    pub open spec fn reported(&self, step: Step) -> Option<Signal> {
        if !self.enabled(step) {
            None
        } else {
            match step {
                Step::Announce => Some(Signal::Start(self.total as u64)),
                Step::Outcome(_) => Some(Signal::Next((self.completed + 1) as u64)),
                Step::Finish => Some(Signal::Finish),
                _ => None,
            }
        }
    }

    /// The bookkeeping after `steps`, taken one after another.
    pub open spec fn after_all(&self, steps: Seq<Step>) -> UploadPipeline
        decreases steps.len(),
    {
        if steps.len() == 0 {
            *self
        } else {
            self.after_all(steps.drop_last()).after(steps.last())
        }
    }

    /// The notifications given along `steps`, in their order.
    pub open spec fn signals(&self, steps: Seq<Step>) -> Seq<Signal>
        decreases steps.len(),
    {
        if steps.len() == 0 {
            Seq::empty()
        } else {
            let earlier = self.signals(steps.drop_last());
            match self.after_all(steps.drop_last()).reported(steps.last()) {
                Some(signal) => earlier.push(signal),
                None => earlier,
            }
        }
    }

    /// The notifications that a run in this state has given since it was
    /// fresh: nothing before it is announced; then the size of the work set
    /// and the counts 1, 2, 3 up to the number of outcomes seen; and the
    /// closing notification once it is done.
    pub open spec fn signals_so_far(&self) -> Seq<Signal> {
        if self.phase == Phase::Filtering {
            Seq::empty()
        } else {
            seq![Signal::Start(self.total as u64)] + Seq::new(
                self.completed as nat,
                |k: int| Signal::Next((k + 1) as u64),
            ) + if self.phase == Phase::Done {
                seq![Signal::Finish]
            } else {
                Seq::empty()
            }
        }
    }

    /// How many steps the run still has to take.
    pub open spec fn steps_left(&self) -> int {
        (self.total - self.started) + (self.total - self.completed) + (Phase::Done.rank()
            - self.phase.rank())
    }

    /// A pipeline over `total` tasks in which nothing has happened yet;
    /// `None` exactly when `bound` is zero.
    pub fn new(total: usize, bound: usize) -> (r: Option<UploadPipeline>)
        ensures
            r == if bound >= 1 {
                Some(UploadPipeline::fresh(total, bound))
            } else {
                None
            },
            r is Some ==> r.unwrap().wf(),
    {
        if bound == 0 {
            None
        } else {
            Some(
                UploadPipeline {
                    phase: Phase::Filtering,
                    total,
                    bound,
                    started: 0,
                    completed: 0,
                    failed: 0,
                },
            )
        }
    }

    /// Checks the invariant of the bookkeeping.
    pub fn is_well_formed(&self) -> (b: bool)
        ensures
            b == self.wf(),
    {
        let staged = match self.phase {
            Phase::Idle => false,
            Phase::Scanning => false,
            Phase::Filtering => self.started == 0,
            Phase::Uploading => true,
            Phase::Committing => self.completed == self.total,
            Phase::Done => self.completed == self.total,
        };
        staged && self.bound >= 1 && self.failed <= self.completed && self.completed
            <= self.started && self.started <= self.total && self.started - self.completed
            <= self.bound
    }

    /// Number of tasks in flight.
    pub fn in_flight(&self) -> (n: usize)
        requires
            self.wf(),
        ensures
            n == self.spec_in_flight(),
            n <= self.bound,
            n <= self.total,
    {
        self.started - self.completed
    }

    /// Whether every task has produced its outcome.
    pub fn is_drained(&self) -> (b: bool)
        ensures
            b == self.spec_is_drained(),
    {
        self.completed == self.total
    }

    /// Opens the upload phase and returns the notification that carries the
    /// size of the work set. A run is announced once: later calls return
    /// `None` and change nothing.
    pub fn announce(&mut self) -> (r: Option<Signal>)
        requires
            old(self).wf(),
        ensures
            final(self).wf(),
            *final(self) == old(self).after(Step::Announce),
            r == old(self).reported(Step::Announce),
    {
        match self.phase {
            Phase::Filtering => {
                self.phase = Phase::Uploading;
                Some(Signal::Start(self.total as u64))
            },
            _ => None,
        }
    }

    /// Hands out the next task, by its position in the work set, if the
    /// uploads are under way and the bound and the work set allow one;
    /// otherwise changes nothing.
    pub fn next_task(&mut self) -> (r: Option<usize>)
        requires
            old(self).wf(),
        ensures
            final(self).wf(),
            *final(self) == old(self).after(Step::Start),
            r == if old(self).enabled(Step::Start) {
                Some(old(self).started)
            } else {
                None
            },
            final(self).spec_in_flight() <= final(self).bound,
            final(self).spec_in_flight() <= final(self).total,
    {
        match self.phase {
            Phase::Uploading => {
                if self.started < self.total && self.started - self.completed < self.bound {
                    let index: usize = self.started;
                    self.started = self.started + 1;
                    Some(index)
                } else {
                    None
                }
            },
            _ => None,
        }
    }

    /// Records one observed outcome, a success or a failure alike, and
    /// returns the progress notification for it. With nothing in flight there
    /// is no outcome to record: the result is `None` and nothing changes.
    pub fn settle(&mut self, succeeded: bool) -> (r: Option<Signal>)
        requires
            old(self).wf(),
        ensures
            final(self).wf(),
            *final(self) == old(self).after(Step::Outcome(succeeded)),
            r == old(self).reported(Step::Outcome(succeeded)),
    {
        match self.phase {
            Phase::Uploading => {
                if self.started > self.completed {
                    self.completed = self.completed + 1;
                    if !succeeded {
                        self.failed = self.failed + 1;
                    }
                    Some(Signal::Next(self.completed as u64))
                } else {
                    None
                }
            },
            _ => None,
        }
    }

    /// Records the outcome of one upload as `settle` does.
    pub fn observe(&mut self, outcome: &UploadOutcome) -> (r: Option<Signal>)
        requires
            old(self).wf(),
        ensures
            final(self).wf(),
            *final(self) == old(self).after(Step::Outcome(outcome.succeeded())),
            r == old(self).reported(Step::Outcome(outcome.succeeded())),
    {
        self.settle(outcome.is_success())
    }

    /// Moves on to the commit once every task has produced its outcome, and
    /// tells whether the commit is to be requested now. It is due once.
    pub fn begin_commit(&mut self) -> (due: bool)
        requires
            old(self).wf(),
        ensures
            final(self).wf(),
            *final(self) == old(self).after(Step::Commit),
            due == old(self).enabled(Step::Commit),
    {
        match self.phase {
            Phase::Uploading => {
                if self.completed == self.total {
                    self.phase = Phase::Committing;
                    true
                } else {
                    false
                }
            },
            _ => false,
        }
    }

    /// Ends the run after the commit was attempted, whether it succeeded or
    /// not, and returns the closing notification. It is given once.
    pub fn finish(&mut self) -> (r: Option<Signal>)
        requires
            old(self).wf(),
        ensures
            final(self).wf(),
            *final(self) == old(self).after(Step::Finish),
            r == old(self).reported(Step::Finish),
    {
        match self.phase {
            Phase::Committing => {
                self.phase = Phase::Done;
                Some(Signal::Finish)
            },
            _ => None,
        }
    }
}

/// A run never returns to a stage: each move leads to the stage of the next
/// higher rank, and the last stage has no successor.
pub proof fn lemma_phase_advances(p: Phase)
    ensures
        p.successor() is Some ==> p.successor().unwrap().rank() == p.rank() + 1,
        p.successor() is None <==> p == Phase::Done,
{
}

/// The number of tasks in flight never exceeds the bound nor the size of the
/// work set.
pub proof fn lemma_in_flight_bounded(p: UploadPipeline)
    requires
        p.wf(),
    ensures
        0 <= p.spec_in_flight() <= vstd::math::min(p.total as int, p.bound as int),
{
}

/// One step keeps the bookkeeping sound. The count of observed outcomes
/// grows by one with an outcome, whether the upload failed or not, and stays
/// as it is with every other step; the stage stays or moves to its successor.
pub proof fn lemma_step_keeps_invariant(p: UploadPipeline, step: Step)
    requires
        p.wf(),
    ensures
        p.after(step).wf(),
        p.after(step).total == p.total,
        p.after(step).bound == p.bound,
        p.after(step).completed == if p.enabled(step) && step is Outcome {
            p.completed + 1
        } else {
            p.completed as int
        },
        p.after(step).phase == p.phase || Some(p.after(step).phase) == p.phase.successor(),
{
}

/// Every step that can be taken brings the end nearer by one, and the end is
/// reached exactly when the run is done: a run over `n` files takes `2 n + 3`
/// steps, however many uploads fail.
pub proof fn lemma_steps_run_out(p: UploadPipeline, step: Step)
    requires
        p.wf(),
    ensures
        0 <= p.steps_left() <= 2 * p.total + 3,
        p.steps_left() == 0 <==> p.phase == Phase::Done,
        p == UploadPipeline::fresh(p.total, p.bound) ==> p.steps_left() == 2 * p.total + 3,
        p.enabled(step) ==> p.after(step).steps_left() == p.steps_left() - 1,
        !p.enabled(step) ==> p.after(step) == p,
{
}

/// Until the run is done it is never stuck: it can be announced, a task can
/// start or is in flight, the commit is due, or the run can end. Once done,
/// no step can be taken.
pub proof fn lemma_never_stuck(p: UploadPipeline)
    requires
        p.wf(),
    ensures
        p.phase != Phase::Done ==> p.enabled(Step::Announce) || p.enabled(Step::Start)
            || p.spec_in_flight() > 0 || p.enabled(Step::Commit) || p.enabled(Step::Finish),
        p.spec_in_flight() > 0 ==> forall|succeeded: bool| p.enabled(Step::Outcome(succeeded)),
        p.phase == Phase::Done ==> forall|step: Step| !p.enabled(step),
        p.phase == Phase::Done ==> p.completed == p.total && p.spec_in_flight() == 0,
{
}

/// Whatever steps are tried and in whatever order, the bookkeeping stays
/// sound: the work set and the bound are those of the beginning, no more
/// tasks are in flight than the bound or the work set allow, the count of
/// outcomes stays between where it was and the size of the work set, and the
/// stage never goes back.
pub proof fn lemma_runs_stay_bounded(p: UploadPipeline, steps: Seq<Step>)
    requires
        p.wf(),
    ensures
        p.after_all(steps).wf(),
        p.after_all(steps).total == p.total,
        p.after_all(steps).bound == p.bound,
        0 <= p.after_all(steps).spec_in_flight() <= vstd::math::min(
            p.total as int,
            p.bound as int,
        ),
        p.completed <= p.after_all(steps).completed <= p.total,
        p.phase.rank() <= p.after_all(steps).phase.rank(),
        p.after_all(steps).steps_left() <= p.steps_left(),
    decreases steps.len(),
{
    if steps.len() > 0 {
        lemma_runs_stay_bounded(p, steps.drop_last());
    }
}

/// Along any run the count of observed outcomes never falls: after the
/// first `j` steps it is at least what it was after the first `i <= j`.
pub proof fn lemma_completion_grows_along_run(p: UploadPipeline, steps: Seq<Step>, i: int, j: int)
    requires
        p.wf(),
        0 <= i <= j <= steps.len(),
    ensures
        p.after_all(steps.take(i)).completed <= p.after_all(steps.take(j)).completed,
    decreases j - i,
{
    if i < j {
        lemma_completion_grows_along_run(p, steps, i, j - 1);
        assert(steps.take(j).drop_last() =~= steps.take(j - 1));
        lemma_runs_stay_bounded(p, steps.take(j - 1));
    }
}

/// The notifications of a run come in one order only. Whatever steps are
/// tried, what was notified before together with what is notified along the
/// steps is what the state reached calls for: the size of the work set once,
/// then one count per observed outcome, failures among them, rising by one
/// from 1, and the closing notification once, after the last count.
pub proof fn lemma_signals_in_order(p: UploadPipeline, steps: Seq<Step>)
    requires
        p.wf(),
    ensures
        p.signals_so_far() + p.signals(steps) == p.after_all(steps).signals_so_far(),
    decreases steps.len(),
{
    if steps.len() == 0 {
        assert(p.signals_so_far() + p.signals(steps) =~= p.signals_so_far());
    } else {
        let shorter = steps.drop_last();
        let q = p.after_all(shorter);
        let step = steps.last();
        lemma_signals_in_order(p, shorter);
        lemma_runs_stay_bounded(p, shorter);
        let r = q.after(step);
        if q.enabled(step) {
            match step {
                Step::Announce => {
                    assert(r.signals_so_far() =~= q.signals_so_far().push(
                        Signal::Start(q.total as u64),
                    ));
                },
                Step::Start => {
                    assert(r.signals_so_far() =~= q.signals_so_far());
                },
                Step::Outcome(_) => {
                    assert(r.signals_so_far() =~= q.signals_so_far().push(
                        Signal::Next((q.completed + 1) as u64),
                    ));
                },
                Step::Commit => {
                    assert(r.signals_so_far() =~= q.signals_so_far());
                },
                Step::Finish => {
                    assert(r.signals_so_far() =~= q.signals_so_far().push(Signal::Finish));
                },
            }
        }
        assert(p.signals_so_far() + p.signals(steps) =~= r.signals_so_far());
    }
}

/// A run that began fresh and is done has notified exactly this: the size of
/// the work set, the counts from 1 to that size, and the closing notification.
pub proof fn lemma_finished_run_signals(total: usize, bound: usize, steps: Seq<Step>)
    requires
        bound >= 1,
        UploadPipeline::fresh(total, bound).after_all(steps).phase == Phase::Done,
    ensures
        UploadPipeline::fresh(total, bound).signals(steps) == seq![Signal::Start(total as u64)]
            + Seq::new(total as nat, |k: int| Signal::Next((k + 1) as u64)) + seq![
            Signal::Finish,
        ],
        UploadPipeline::fresh(total, bound).after_all(steps).completed == total,
{
    let p = UploadPipeline::fresh(total, bound);
    lemma_signals_in_order(p, steps);
    lemma_runs_stay_bounded(p, steps);
    assert(p.signals_so_far() + p.signals(steps) =~= p.signals(steps));
}

} // verus!
