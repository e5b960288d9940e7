//! The detection run: how the race between the probes and the deadline is
//! resolved.
//!
//! A run takes a snapshot of the registry and hands out one task for each
//! probe. Tasks finish in any order, each with or without a match; the
//! first match is kept in a single slot and the later ones are dropped.
//! Whoever waits for the run polls it, and a poll settles the run as soon
//! as one of three things holds, in this order: a match is in the slot,
//! every task has finished, the time is up.
//!
//! The run itself does not wait, spawn or measure time. The caller does,
//! and tells the run what happened.

use crate::provider_id::ProviderId;
use crate::providers::Probe;
use crate::registry::Registry;
use vstd::prelude::*;

verus! {

/// Maximum time allowed for detection, in seconds, where the caller names
/// none.
pub const DEFAULT_DETECTION_TIMEOUT: u64 = 5;

/// The time allowed for a detection: what the caller asked for, or the
/// default.
pub open spec fn timeout_or_default(timeout: Option<u64>) -> u64 {
    match timeout {
        Some(seconds) => seconds,
        None => DEFAULT_DETECTION_TIMEOUT,
    }
}

/// The time allowed for a detection, in seconds: what the caller asked
/// for, or the default.
pub fn detection_timeout(timeout: Option<u64>) -> (seconds: u64)
    ensures
        seconds == timeout_or_default(timeout),
{
    match timeout {
        Some(seconds) => seconds,
        None => DEFAULT_DETECTION_TIMEOUT,
    }
}

/// Where a detection run stands.
#[derive(Debug, Clone, Copy, PartialEq, Eq, Structural)]
pub enum Phase {
    /// The snapshot is taken; no task has been handed out.
    Idle,
    /// The tasks are out and the run waits for the first of them to
    /// report a match, for the last of them to finish, or for the
    /// deadline.
    FannedOut,
    /// A probe has identified its provider.
    Resolved(ProviderId),
    /// Every task has finished and none has reported a match.
    AllFinishedEmpty,
    /// The time was up before any task reported a match.
    TimedOut,
}

impl Phase {
    /// What a run in this phase returns to its caller: nothing while it is
    /// not settled, then the provider found, or the unknown provider.
    pub open spec fn verdict(self) -> Option<ProviderId> {
        match self {
            Phase::Idle | Phase::FannedOut => None,
            Phase::Resolved(id) => Some(id),
            Phase::AllFinishedEmpty | Phase::TimedOut => Some(ProviderId::Unknown),
        }
    }
}

/// What can happen to a detection run.
pub enum Event {
    /// The caller launches one task for each probe of the snapshot.
    FanOut,
    /// The task that ran the probe number `task` has finished, with or
    /// without a match.
    Finished { task: int, matched: bool },
    /// The time allowed for the run is up.
    Expired,
    /// The caller looks whether the run is settled.
    Poll,
}

/// The state of a detection run.
pub struct Run {
    /// The time allowed, in seconds.
    pub timeout: u64,
    /// The snapshot of the registry: the task number `k` runs `probes[k]`.
    pub probes: Seq<Probe>,
    /// For each task, whether it has finished.
    pub finished: Seq<bool>,
    /// The first match reported, until a poll takes it.
    pub slot: Option<ProviderId>,
    /// Whether the time is up.
    pub expired: bool,
    /// Where the run stands.
    pub phase: Phase,
}

impl Run {
    /// A run that has taken its snapshot and done nothing else.
    pub open spec fn idle(timeout: u64, probes: Seq<Probe>) -> Run {
        Run {
            timeout,
            probes,
            finished: Seq::new(probes.len(), |task: int| false),
            slot: None,
            expired: false,
            phase: Phase::Idle,
        }
    }

    /// Every task has a place in the record of finished tasks.
    pub open spec fn well_formed(self) -> bool {
        self.finished.len() == self.probes.len()
    }

    /// Every task has finished.
    pub open spec fn all_finished(self) -> bool {
        forall|task: int| 0 <= task < self.finished.len() ==> self.finished[task]
    }

    /// What a poll makes of a run whose tasks are out: a match in the slot
    /// comes before everything, the end of all tasks before the deadline.
    pub open spec fn resolution(self) -> Phase {
        match self.slot {
            Some(id) => Phase::Resolved(id),
            None => if self.all_finished() {
                Phase::AllFinishedEmpty
            } else if self.expired {
                Phase::TimedOut
            } else {
                Phase::FannedOut
            },
        }
    }

    /// The run after `event`. A run that is settled stays as it is, and so
    /// does an idle run until its tasks are handed out. A task finishes
    /// once; its match goes into the slot only if the slot is free.
    pub open spec fn apply(self, event: Event) -> Run {
        match self.phase {
            Phase::Idle => match event {
                Event::FanOut => Run { phase: Phase::FannedOut, ..self },
                _ => self,
            },
            Phase::FannedOut => match event {
                Event::FanOut => self,
                Event::Finished { task, matched } => if 0 <= task < self.finished.len()
                    && !self.finished[task] {
                    Run {
                        finished: self.finished.update(task, true),
                        slot: if self.slot is None && matched {
                            Some(self.probes[task].id())
                        } else {
                            self.slot
                        },
                        ..self
                    }
                } else {
                    self
                },
                Event::Expired => Run { expired: true, ..self },
                Event::Poll => Run { phase: self.resolution(), ..self },
            },
            _ => self,
        }
    }

    /// The run after the events of `trace`, one after the other.
    pub open spec fn run(self, trace: Seq<Event>) -> Run
        decreases trace.len(),
    {
        if trace.len() == 0 {
            self
        } else {
            self.run(trace.drop_last()).apply(trace.last())
        }
    }

    /// What the run returns to its caller, once it is settled.
    pub open spec fn verdict(self) -> Option<ProviderId> {
        self.phase.verdict()
    }
}

/// The number of tasks in `finished` that have not finished.
pub open spec fn outstanding(finished: Seq<bool>) -> nat
    decreases finished.len(),
{
    if finished.len() == 0 {
        0
    } else {
        outstanding(finished.drop_last()) + if finished.last() {
            0nat
        } else {
            1nat
        }
    }
}

/// No task is outstanding exactly when every task has finished.
pub proof fn lemma_none_outstanding(finished: Seq<bool>)
    ensures
        outstanding(finished) <= finished.len(),
        outstanding(finished) == 0 <==> forall|task: int|
            0 <= task < finished.len() ==> finished[task],
    decreases finished.len(),
{
    if finished.len() > 0 {
        lemma_none_outstanding(finished.drop_last());
        if outstanding(finished) == 0 {
            assert forall|task: int| 0 <= task < finished.len() implies finished[task] by {
                if task < finished.len() - 1 {
                    assert(finished.drop_last()[task]);
                }
            }
        }
        if forall|task: int| 0 <= task < finished.len() ==> finished[task] {
            let front = finished.drop_last();
            assert forall|task: int| 0 <= task < front.len() implies front[task] by {
                assert(finished[task]);
            }
        }
    }
}

/// A task that finishes takes one off the count of outstanding tasks.
pub proof fn lemma_one_fewer_outstanding(finished: Seq<bool>, task: int)
    requires
        0 <= task < finished.len(),
        !finished[task],
    ensures
        outstanding(finished.update(task, true)) + 1 == outstanding(finished),
    decreases finished.len(),
{
    let after = finished.update(task, true);
    if task == finished.len() - 1 {
        assert(after.drop_last() =~= finished.drop_last());
    } else {
        assert(after.drop_last() =~= finished.drop_last().update(task, true));
        lemma_one_fewer_outstanding(finished.drop_last(), task);
    }
}

/// When the tasks are handed out, every one of them is outstanding.
pub proof fn lemma_all_outstanding(timeout: u64, probes: Seq<Probe>)
    ensures
        outstanding(Run::idle(timeout, probes).finished) == probes.len(),
    decreases probes.len(),
{
    if probes.len() > 0 {
        assert(Run::idle(timeout, probes).finished.drop_last() =~= Run::idle(
            timeout,
            probes.drop_last(),
        ).finished);
        lemma_all_outstanding(timeout, probes.drop_last());
    }
}

/// The event makes a task of the run finish: the tasks are out, and the
/// event reports a task of the run that has not finished before.
pub open spec fn finishes_a_task(run: Run, event: Event) -> bool {
    &&& run.phase is FannedOut
    &&& event matches Event::Finished { task, .. }
    &&& 0 <= task < run.finished.len()
    &&& !run.finished[task]
}

/// The count of outstanding tasks goes down by one each time a task of
/// the run finishes for the first time, and by nothing else.
pub proof fn lemma_countdown(run: Run, event: Event)
    requires
        run.well_formed(),
    ensures
        run.apply(event).well_formed(),
        finishes_a_task(run, event) ==> outstanding(run.apply(event).finished) + 1
            == outstanding(run.finished),
        !finishes_a_task(run, event) ==> outstanding(run.apply(event).finished) == outstanding(
            run.finished,
        ),
{
    if run.phase is FannedOut {
        if let Event::Finished { task, matched } = event {
            if 0 <= task < run.finished.len() && !run.finished[task] {
                lemma_one_fewer_outstanding(run.finished, task);
            }
        }
    }
}

/// One detection run: the timeout, the snapshot of the registry, the
/// record of the tasks, the slot for the first match, and the phase.
pub struct Detection {
    timeout: u64,
    probes: Vec<Probe>,
    finished: Vec<bool>,
    slot: Option<ProviderId>,
    expired: bool,
    phase: Phase,
}

impl View for Detection {
    type V = Run;

    closed spec fn view(&self) -> Run {
        Run {
            timeout: self.timeout,
            probes: self.probes@,
            finished: self.finished@,
            slot: self.slot,
            expired: self.expired,
            phase: self.phase,
        }
    }
}

impl Detection {
    #[verifier::type_invariant]
    spec fn one_record_per_task(self) -> bool {
        self.finished@.len() == self.probes@.len()
    }

    /// Begins a run: fixes the timeout and takes a snapshot of the
    /// registry. What is registered afterwards does not reach this run.
    pub fn new(timeout: Option<u64>, registry: &Registry) -> (detection: Detection)
        ensures
            detection@ == Run::idle(timeout_or_default(timeout), registry@),
    {
        let probes = registry.snapshot_probes();
        let mut finished: Vec<bool> = Vec::new();
        let mut i: usize = 0;
        while i < probes.len()
            invariant
                i <= probes@.len(),
                finished@ == Seq::new(i as nat, |task: int| false),
            decreases probes@.len() - i,
        {
            finished.push(false);
            i += 1;
            assert(finished@ =~= Seq::new(i as nat, |task: int| false));
        }
        Detection {
            timeout: detection_timeout(timeout),
            probes,
            finished,
            slot: None,
            expired: false,
            phase: Phase::Idle,
        }
    }

    /// The time allowed for the run and for each request of its probes,
    /// in seconds.
    pub fn timeout(&self) -> (seconds: u64)
        ensures
            seconds == self@.timeout,
    {
        self.timeout
    }

    /// Where the run stands.
    pub fn phase(&self) -> (phase: Phase)
        ensures
            phase == self@.phase,
    {
        self.phase
    }

    /// The number of tasks that have not finished.
    pub fn outstanding(&self) -> (count: usize)
        ensures
            count == outstanding(self@.finished),
    {
        let mut count: usize = 0;
        let mut i: usize = 0;
        while i < self.finished.len()
            invariant
                i <= self.finished@.len(),
                count <= i,
                count == outstanding(self.finished@.take(i as int)),
            decreases self.finished@.len() - i,
        {
            assert(self.finished@.take(i + 1).drop_last() =~= self.finished@.take(i as int));
            if !self.finished[i] {
                count += 1;
            }
            i += 1;
        }
        assert(self.finished@.take(i as int) =~= self.finished@);
        count
    }

    /// Hands out the tasks: the probes of the snapshot, of which the
    /// caller runs the one at index `k` as task `k`. A run hands out its
    /// tasks once; asked again, it hands out none.
    pub fn fan_out(&mut self) -> (tasks: Vec<Probe>)
        ensures
            final(self)@ == old(self)@.apply(Event::FanOut),
            tasks@ == if old(self)@.phase == Phase::Idle {
                old(self)@.probes
            } else {
                Seq::<Probe>::empty()
            },
    {
        proof {
            use_type_invariant(&*self);
        }
        match self.phase {
            Phase::Idle => {
                let mut tasks: Vec<Probe> = Vec::new();
                let mut i: usize = 0;
                while i < self.probes.len()
                    invariant
                        i <= self.probes@.len(),
                        tasks@ == self.probes@.take(i as int),
                    decreases self.probes@.len() - i,
                {
                    tasks.push(self.probes[i]);
                    i += 1;
                    assert(tasks@ =~= self.probes@.take(i as int));
                }
                assert(self.probes@.take(i as int) =~= self.probes@);
                self.phase = Phase::FannedOut;
                tasks
            },
            _ => Vec::new(),
        }
    }

    /// Records that the task number `task` has finished, and whether its
    /// probe identified its provider. The first match is kept; a task
    /// that is not of this run, or that has finished before, changes
    /// nothing, and neither does a task that finishes after the run is
    /// settled.
    pub fn task_finished(&mut self, task: usize, matched: bool)
        ensures
            final(self)@ == old(self)@.apply(Event::Finished { task: task as int, matched }),
    {
        proof {
            use_type_invariant(&*self);
        }
        match self.phase {
            Phase::FannedOut => {
                if task < self.finished.len() && !self.finished[task] {
                    if self.slot.is_none() && matched {
                        self.slot = Some(self.probes[task].identifier());
                    }
                    self.finished[task] = true;
                }
            },
            _ => {},
        }
    }

    /// Records that the time allowed for the run is up.
    pub fn timer_expired(&mut self)
        ensures
            final(self)@ == old(self)@.apply(Event::Expired),
    {
        proof {
            use_type_invariant(&*self);
        }
        match self.phase {
            Phase::FannedOut => {
                self.expired = true;
            },
            _ => {},
        }
    }

    /// Looks whether the run is settled, and settles it if it can be: the
    /// provider of the first match, or the unknown provider once every
    /// task has finished or the time is up. Returns nothing while the run
    /// has to go on waiting.
    pub fn poll(&mut self) -> (verdict: Option<ProviderId>)
        ensures
            final(self)@ == old(self)@.apply(Event::Poll),
            verdict == final(self)@.verdict(),
    {
        proof {
            use_type_invariant(&*self);
            lemma_none_outstanding(self.finished@);
        }
        match self.phase {
            Phase::FannedOut => {
                match self.slot {
                    Some(id) => {
                        self.phase = Phase::Resolved(id);
                    },
                    None => {
                        if self.outstanding() == 0 {
                            self.phase = Phase::AllFinishedEmpty;
                        } else if self.expired {
                            self.phase = Phase::TimedOut;
                        }
                    },
                }
            },
            _ => {},
        }
        self.verdict()
    }

    /// What the run returns to its caller, once it is settled.
    pub fn verdict(&self) -> (verdict: Option<ProviderId>)
        ensures
            verdict == self@.verdict(),
    {
        match self.phase {
            Phase::Idle | Phase::FannedOut => None,
            Phase::Resolved(id) => Some(id),
            Phase::AllFinishedEmpty | Phase::TimedOut => Some(ProviderId::Unknown),
        }
    }
}

} // verus!
