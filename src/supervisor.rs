//! The lifecycle decisions for one supervised backend process.
//!
//! The supervisor owns an optional handle to the running child. The host
//! keeps it behind a lock, calls one decision at a time, releases the lock,
//! and then performs the action that the decision names (spawn, kill),
//! reporting the outcome back through the next call. A handle is only ever
//! taken out of the slot, never overwritten, so at most one is stored and
//! stopping twice kills at most once.
use vstd::prelude::*;

use crate::notice::{KillError, Level, LogRecord, Notice, NoticeView, RecordView, SpawnError};
use crate::relay::opt_view;

verus! {

/// How the backend is provided.
#[derive(Clone, Copy, Debug, PartialEq, Eq, Structural)]
pub enum RunMode {
    /// The backend is a bundled executable that this application spawns.
    Packaged,
    /// The backend is run by someone else; starting it is a no-op.
    ExternallyManaged,
}

/// Where the supervised process stands in its lifecycle.
#[derive(Clone, Copy, Debug, PartialEq, Eq, Structural)]
pub enum Phase {
    NotStarted,
    Spawning,
    Running,
    Terminating,
    Stopped,
}

/// What the host does after a start request.
#[derive(Clone, Copy, Debug, PartialEq, Eq, Structural)]
pub enum StartAction {
    /// Spawn the backend, then report the outcome.
    Spawn,
    /// Do nothing.
    Skip,
}

/// The mathematical value of a supervisor.
pub ghost struct SupervisorModel<H> {
    pub mode: RunMode,
    pub phase: Phase,
    pub slot: Option<H>,
}

/// A record of the given level and notice.
pub open spec fn record(level: Level, notice: NoticeView) -> RecordView {
    RecordView { level, notice }
}

impl<H> SupervisorModel<H> {
    /// A handle is stored exactly while the process runs, and an externally
    /// managed backend is never started.
    pub open spec fn wf(self) -> bool {
        &&& (self.slot is Some) == (self.phase == Phase::Running)
        &&& self.mode == RunMode::ExternallyManaged ==> self.phase == Phase::NotStarted
    }

    /// A supervisor that has not started anything.
    pub open spec fn initial(mode: RunMode) -> Self {
        SupervisorModel { mode, phase: Phase::NotStarted, slot: None }
    }

    /// Whether a start request leads to a spawn.
    pub open spec fn starts(self) -> bool {
        self.mode == RunMode::Packaged && self.phase == Phase::NotStarted
    }

    /// What the host does after a start request.
    pub open spec fn start_action(self) -> StartAction {
        if self.starts() {
            StartAction::Spawn
        } else {
            StartAction::Skip
        }
    }

    /// What a start request reports.
    pub open spec fn start_record(self) -> Option<RecordView> {
        if self.mode == RunMode::ExternallyManaged {
            Some(record(Level::Info, NoticeView::ExternallyManaged))
        } else if self.starts() {
            Some(record(Level::Info, NoticeView::Launching))
        } else {
            None
        }
    }

    /// The state after a start request.
    pub open spec fn after_start(self) -> Self {
        if self.starts() {
            SupervisorModel { phase: Phase::Spawning, ..self }
        } else {
            self
        }
    }

    /// Whether a freshly spawned handle is stored: only while a spawn is
    /// awaited, so never over a stored one.
    pub open spec fn accepts_handle(self) -> bool {
        self.phase == Phase::Spawning
    }

    /// The state after a spawn succeeded with the given handle.
    pub open spec fn after_spawned(self, h: H) -> Self {
        if self.accepts_handle() {
            SupervisorModel { phase: Phase::Running, slot: Some(h), ..self }
        } else {
            self
        }
    }

    /// The state after a spawn failed: a new attempt may be made.
    pub open spec fn after_spawn_failed(self) -> Self {
        if self.phase == Phase::Spawning {
            SupervisorModel { phase: Phase::NotStarted, ..self }
        } else {
            self
        }
    }

    /// The handle that a stop request takes out of the slot.
    pub open spec fn stop_taken(self) -> Option<H> {
        self.slot
    }

    /// The state after a stop request.
    pub open spec fn after_stop(self) -> Self {
        match self.phase {
            Phase::Running => SupervisorModel { phase: Phase::Terminating, slot: None, ..self },
            Phase::Spawning => SupervisorModel { phase: Phase::Stopped, ..self },
            _ => self,
        }
    }

    /// The state after the kill of a taken handle finished.
    pub open spec fn after_kill(self) -> Self {
        if self.phase == Phase::Terminating {
            SupervisorModel { phase: Phase::Stopped, ..self }
        } else {
            self
        }
    }

    /// The state after the process ended on its own.
    pub open spec fn after_exit(self) -> Self {
        match self.phase {
            Phase::Running => SupervisorModel { phase: Phase::Stopped, slot: None, ..self },
            Phase::Terminating => SupervisorModel { phase: Phase::Stopped, ..self },
            _ => self,
        }
    }
}

/// The record of a failed spawn.
pub open spec fn spawn_failed_record(e: SpawnError) -> RecordView {
    record(Level::Error, NoticeView::SpawnFailed(e@))
}

/// The record of the outcome of a kill.
pub open spec fn kill_record(outcome: Result<(), KillError>) -> RecordView {
    match outcome {
        Ok(()) => record(Level::Info, NoticeView::Killed),
        Err(e) => record(Level::Error, NoticeView::KillFailed(e.message@)),
    }
}

/// The owner of the handle of one supervised backend process.
#[derive(Debug)]
pub struct Supervisor<H> {
    mode: RunMode,
    phase: Phase,
    slot: Option<H>,
}

impl<H> View for Supervisor<H> {
    type V = SupervisorModel<H>;

    closed spec fn view(&self) -> SupervisorModel<H> {
        SupervisorModel { mode: self.mode, phase: self.phase, slot: self.slot }
    }
}

impl<H> Supervisor<H> {
    /// A handle is stored exactly while the process runs.
    #[verifier::type_invariant]
    closed spec fn inv(self) -> bool {
        self@.wf()
    }

    /// A supervisor that has started nothing.
    pub fn new(mode: RunMode) -> (r: Self)
        ensures
            r@ == SupervisorModel::<H>::initial(mode),
            r@.wf(),
    {
        Supervisor { mode, phase: Phase::NotStarted, slot: None }
    }

    /// How the backend is provided.
    pub fn mode(&self) -> (r: RunMode)
        ensures
            r == self@.mode,
    {
        self.mode
    }

    /// Where the process stands in its lifecycle.
    pub fn phase(&self) -> (r: Phase)
        ensures
            r == self@.phase,
    {
        self.phase
    }

    /// Whether a handle is stored.
    pub fn has_handle(&self) -> (r: bool)
        ensures
            r == (self@.slot is Some),
    {
        self.slot.is_some()
    }

    /// A start request: a packaged backend that was not started is to be
    /// spawned; an externally managed one is left alone.
    pub fn start(&mut self) -> (r: (StartAction, Option<LogRecord>))
        ensures
            final(self)@ == old(self)@.after_start(),
            final(self)@.wf(),
            r.0 == old(self)@.start_action(),
            opt_view(r.1) == old(self)@.start_record(),
    {
        proof {
            use_type_invariant(&*self);
        }
        match self.mode {
            RunMode::ExternallyManaged => (
                StartAction::Skip,
                Some(LogRecord::new(Level::Info, Notice::ExternallyManaged)),
            ),
            RunMode::Packaged => {
                if let Phase::NotStarted = self.phase {
                    self.phase = Phase::Spawning;
                    (StartAction::Spawn, Some(LogRecord::new(Level::Info, Notice::Launching)))
                } else {
                    (StartAction::Skip, None)
                }
            },
        }
    }

    /// The spawn succeeded. The handle is stored if a spawn was awaited;
    /// otherwise it is handed back, and the host kills it.
    pub fn spawned(&mut self, h: H) -> (r: Result<LogRecord, H>)
        ensures
            final(self)@ == old(self)@.after_spawned(h),
            final(self)@.wf(),
            old(self)@.accepts_handle() ==> (r matches Ok(rec) && rec@ == record(
                Level::Info,
                NoticeView::Started,
            )),
            !old(self)@.accepts_handle() ==> r == Err::<LogRecord, H>(h),
    {
        proof {
            use_type_invariant(&*self);
        }
        if let Phase::Spawning = self.phase {
            *self = Supervisor { mode: self.mode, phase: Phase::Running, slot: Some(h) };
            Ok(LogRecord::new(Level::Info, Notice::Started))
        } else {
            Err(h)
        }
    }

    /// The spawn failed: no handle is stored, and the failure is reported
    /// once, by the record returned.
    pub fn spawn_failed(&mut self, e: SpawnError) -> (r: LogRecord)
        ensures
            final(self)@ == old(self)@.after_spawn_failed(),
            final(self)@.wf(),
            r@ == spawn_failed_record(e),
    {
        proof {
            use_type_invariant(&*self);
        }
        if let Phase::Spawning = self.phase {
            self.phase = Phase::NotStarted;
        }
        LogRecord::new(Level::Error, Notice::SpawnFailed(e))
    }

    /// A stop request: takes the stored handle, if any, leaving the slot
    /// empty; the host kills what it gets and reports the outcome. A spawn
    /// still awaited will have its handle refused.
    pub fn stop(&mut self) -> (r: Option<H>)
        ensures
            final(self)@ == old(self)@.after_stop(),
            final(self)@.wf(),
            r == old(self)@.stop_taken(),
    {
        proof {
            use_type_invariant(&*self);
        }
        let next = match self.phase {
            Phase::Running => Phase::Terminating,
            Phase::Spawning => Phase::Stopped,
            other => other,
        };
        self.take_slot(next)
    }

    /// The outcome of the kill of a taken handle; a failure is reported and
    /// is not fatal.
    pub fn kill_finished(&mut self, outcome: Result<(), KillError>) -> (r: LogRecord)
        ensures
            final(self)@ == old(self)@.after_kill(),
            final(self)@.wf(),
            r@ == kill_record(outcome),
    {
        proof {
            use_type_invariant(&*self);
        }
        if let Phase::Terminating = self.phase {
            self.phase = Phase::Stopped;
        }
        match outcome {
            Ok(()) => LogRecord::new(Level::Info, Notice::Killed),
            Err(e) => LogRecord::new(Level::Error, Notice::KillFailed(e)),
        }
    }

    /// The relay saw the process end on its own: the handle, if still
    /// stored, is taken out and handed back to be dropped, not killed.
    pub fn child_exited(&mut self) -> (r: Option<H>)
        ensures
            final(self)@ == old(self)@.after_exit(),
            final(self)@.wf(),
            r == old(self)@.slot,
    {
        proof {
            use_type_invariant(&*self);
        }
        let next = match self.phase {
            Phase::Running | Phase::Terminating => Phase::Stopped,
            other => other,
        };
        self.take_slot(next)
    }

    /// Empties the slot, handing back what it held, and moves to a phase
    /// in which no handle is stored.
    fn take_slot(&mut self, next: Phase) -> (r: Option<H>)
        requires
            next != Phase::Running,
            old(self)@.mode == RunMode::ExternallyManaged ==> next == Phase::NotStarted,
        ensures
            final(self)@ == (SupervisorModel { phase: next, slot: None, ..old(self)@ }),
            r == old(self)@.slot,
    {
        let mut rest = Supervisor { mode: self.mode, phase: next, slot: None };
        std::mem::swap(self, &mut rest);
        let Supervisor { slot, .. } = rest;
        slot
    }
}

/// One request or report that a supervisor takes.
pub ghost enum Step<H> {
    Start,
    Spawned(H),
    SpawnFailed,
    Stop,
    KillFinished,
    ChildExited,
}

impl<H> SupervisorModel<H> {
    /// The state after one step.
    pub open spec fn apply(self, step: Step<H>) -> Self {
        match step {
            Step::Start => self.after_start(),
            Step::Spawned(h) => self.after_spawned(h),
            Step::SpawnFailed => self.after_spawn_failed(),
            Step::Stop => self.after_stop(),
            Step::KillFinished => self.after_kill(),
            Step::ChildExited => self.after_exit(),
        }
    }

    /// The state after a sequence of steps, in order.
    pub open spec fn run(self, steps: Seq<Step<H>>) -> Self
        decreases steps.len(),
    {
        if steps.len() == 0 {
            self
        } else {
            self.apply(steps[0]).run(steps.drop_first())
        }
    }
}

proof fn lemma_run_keeps_wf<H>(m: SupervisorModel<H>, steps: Seq<Step<H>>)
    requires
        m.wf(),
    ensures
        m.run(steps).wf(),
    decreases steps.len(),
{
    if steps.len() > 0 {
        lemma_run_keeps_wf(m.apply(steps[0]), steps.drop_first());
    }
}

/// Whatever requests and reports a fresh supervisor takes, in whatever
/// order, every state it reaches stores a handle only while the process
/// runs, and a new handle is never stored over a stored one: at most one
/// live handle exists at any instant.
pub proof fn lemma_single_handle<H>(mode: RunMode, steps: Seq<Step<H>>, h: H)
    ensures
        SupervisorModel::<H>::initial(mode).run(steps).wf(),
        SupervisorModel::<H>::initial(mode).run(steps).slot is Some ==> SupervisorModel::<
            H,
        >::initial(mode).run(steps).after_spawned(h) == SupervisorModel::<H>::initial(
            mode,
        ).run(steps),
{
    lemma_run_keeps_wf(SupervisorModel::<H>::initial(mode), steps);
}

/// A stop request before anything was started takes no handle, so nothing
/// is killed and no kill outcome is reported, and changes nothing.
pub proof fn lemma_stop_before_start<H>(mode: RunMode)
    ensures
        SupervisorModel::<H>::initial(mode).stop_taken() is None,
        SupervisorModel::<H>::initial(mode).after_stop() == SupervisorModel::<H>::initial(mode),
{
}

/// Of two stop requests in succession, only the first takes the stored
/// handle; the second takes nothing and changes nothing.
pub proof fn lemma_stop_twice<H>(m: SupervisorModel<H>)
    requires
        m.wf(),
    ensures
        m.stop_taken() == m.slot,
        m.after_stop().stop_taken() is None,
        m.after_stop().after_stop() == m.after_stop(),
{
}

/// After a failed spawn no handle is stored, so a stop request takes
/// nothing and changes nothing; the failure is reported only by the one
/// record that the failure report returns.
pub proof fn lemma_stop_after_spawn_failure<H>(m: SupervisorModel<H>)
    requires
        m.wf(),
        m.phase == Phase::Spawning,
    ensures
        m.after_spawn_failed().slot is None,
        m.after_spawn_failed().stop_taken() is None,
        m.after_spawn_failed().after_stop() == m.after_spawn_failed(),
{
}

} // verus!
