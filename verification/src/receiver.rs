use vstd::prelude::*;

use crate::conf::WalReceiverConf;
use crate::ids::TenantTimelineId;
use crate::selection::ConnectionManagerStatus;

verus! {

/// Why `start` refused to run.
#[derive(Clone, Copy, PartialEq, Eq, Structural, Debug)]
pub enum StartError {
    /// a manager loop was already started and not yet stopped
    AlreadyStarted,
    /// the owning timeline was dropped concurrently; the caller must
    /// tolerate this failure rather than retry indefinitely
    TimelineGone,
}

/// What one selection-loop step asks of the surrounding loop.
#[derive(Clone, Copy, PartialEq, Eq, Structural, Debug)]
pub enum StepDirective {
    /// the step finished normally: run another one
    KeepRunning,
    /// terminal condition, such as an unrecoverable broker failure: stop
    Stop,
}

/// What the supervising loop observed on one turn: it races the
/// process-wide shutdown signal against one selection step and acts on
/// whichever finishes first.
#[derive(Clone, Copy, PartialEq, Eq, Structural, Debug)]
pub enum ManagerLoopEvent {
    /// the shutdown signal fired
    ShutdownRequested,
    /// one selection step finished with this directive
    StepCompleted(StepDirective),
}

/// Whether the supervising loop runs another turn or tears down.
#[derive(Clone, Copy, PartialEq, Eq, Structural, Debug)]
pub enum LoopFlow {
    Repeat,
    Exit,
}

/// Per-timeline controller for WAL streaming: it starts, stops, and reports
/// on one background manager loop, never more. The owning timeline is only
/// referenced weakly by the embedding program, which resolves that
/// reference and reports the outcome when it calls [`WalReceiver::start`]:
/// the controller must never extend the timeline's lifetime.
pub struct WalReceiver {
    /// identity of the timeline whose WAL is received
    pub timeline: TenantTimelineId,
    /// immutable streaming policy, handed to the manager loop at start
    pub conf: WalReceiverConf,
    /// whether a manager loop has been started and not yet stopped; set
    /// only once the spawn of the loop has succeeded, never before
    pub started: bool,
    /// whether a start was granted and its spawn has not been confirmed or
    /// aborted yet
    pub starting: bool,
    /// the latest status the manager loop published: none before the first
    /// publication and again after teardown
    pub manager_status: Option<ConnectionManagerStatus>,
}

impl WalReceiver {
    /// Status is only ever published by a running manager loop, and a
    /// controller is never both mid-start and running.
    pub open spec fn wf(self) -> bool {
        &&& (self.manager_status is Some ==> self.started)
        &&& !(self.started && self.starting)
    }

    /// `start` hands out permission to spawn a manager loop exactly when
    /// the controller is neither running one nor already mid-start, and the
    /// owning timeline is still alive.
    pub open spec fn start_allowed(self, timeline_resolved: bool) -> bool {
        !self.started && !self.starting && timeline_resolved
    }

    /// The controller after a start attempt, with the attempt's result. The
    /// already-started check comes first; success only grants the spawn —
    /// the controller is then mid-start, and the started flag stays false
    /// until [`WalReceiver::confirm_started`] reports the spawn succeeded,
    /// never before. A failed attempt leaves the controller exactly as it
    /// was.
    pub open spec fn start_spec(self, timeline_resolved: bool) -> (Self, Result<
        (),
        StartError,
    >) {
        if self.started || self.starting {
            (self, Err(StartError::AlreadyStarted))
        } else if !timeline_resolved {
            (self, Err(StartError::TimelineGone))
        } else {
            (WalReceiver { starting: true, ..self }, Ok(()))
        }
    }

    /// The controller once the granted spawn has succeeded: running.
    pub open spec fn confirm_started_spec(self) -> Self {
        WalReceiver { started: true, starting: false, ..self }
    }

    /// The controller once the granted spawn has failed: back to
    /// not-started, as if the start had never been granted.
    pub open spec fn abort_start_spec(self) -> Self {
        WalReceiver { starting: false, ..self }
    }

    /// The controller after a completed stop: not started, no status left.
    pub open spec fn stop_spec(self) -> Self {
        WalReceiver { started: false, starting: false, manager_status: None, ..self }
    }

    /// A fresh controller bound to one timeline and its streaming policy:
    /// pure construction, not started, nothing reported yet.
    pub fn new(timeline: TenantTimelineId, conf: WalReceiverConf) -> (r: Self)
        ensures
            r.timeline == timeline,
            r.conf == conf,
            !r.started,
            !r.starting,
            r.manager_status is None,
            r.wf(),
    {
        WalReceiver { timeline, conf, started: false, starting: false, manager_status: None }
    }

    /// Requests the start of the background manager loop.
    /// `timeline_resolved` reports whether the caller could still resolve
    /// its weak reference to the owning timeline at this moment — that
    /// check-then-use is inherently racy with destruction and accepted as
    /// such. On `Ok` the caller must spawn exactly one manager loop for
    /// this controller, then report the spawn's outcome through
    /// [`WalReceiver::confirm_started`] or [`WalReceiver::abort_start`];
    /// `Ok` cannot come again before that outcome, nor before the next
    /// `stop`. The started flag itself is untouched here: it is set only
    /// after the spawn succeeded, never before.
    pub fn start(&mut self, timeline_resolved: bool) -> (r: Result<(), StartError>)
        ensures
            (*final(self), r) == old(self).start_spec(timeline_resolved),
            r is Ok <==> old(self).start_allowed(timeline_resolved),
            r is Err ==> *final(self) == *old(self),
            final(self).started == old(self).started,
            old(self).wf() ==> final(self).wf(),
    {
        if self.started || self.starting {
            return Err(StartError::AlreadyStarted);
        }
        if !timeline_resolved {
            return Err(StartError::TimelineGone);
        }
        self.starting = true;
        Ok(())
    }

    /// The spawn granted by the last successful `start` has itself
    /// succeeded: only now does the controller count as started.
    pub fn confirm_started(&mut self)
        requires
            old(self).starting,
        ensures
            *final(self) == old(self).confirm_started_spec(),
            final(self).started,
            old(self).wf() ==> final(self).wf(),
    {
        self.starting = false;
        self.started = true;
    }

    /// The spawn granted by the last successful `start` failed: the
    /// controller falls back to not-started, exactly as spelled out for a
    /// spawn or resolution failure mid-start.
    pub fn abort_start(&mut self)
        requires
            old(self).wf(),
            old(self).starting,
        ensures
            *final(self) == old(self).abort_start_spec(),
            !final(self).started,
            !final(self).starting,
            old(self).wf() ==> final(self).wf(),
    {
        self.starting = false;
    }

    /// Completes a stop: the caller has requested cooperative shutdown of
    /// the manager loop and awaited its full exit (there is nothing to wait
    /// for when none was started), and the controller returns to the
    /// not-started state with no status left. Idempotent: stopping a
    /// well-formed controller that is not started changes nothing.
    pub fn stop(&mut self)
        ensures
            *final(self) == old(self).stop_spec(),
            !final(self).started,
            final(self).manager_status is None,
            final(self).wf(),
    {
        self.started = false;
        self.starting = false;
        self.manager_status = None;
    }

    /// An immutable snapshot of the most recently published manager status,
    /// or none if never started or already stopped.
    pub fn status(&self) -> (r: Option<ConnectionManagerStatus>)
        ensures
            r == self.manager_status,
    {
        self.manager_status
    }

    /// The manager loop publishes a fresh status snapshot after each step;
    /// only a running loop does so.
    pub fn publish_status(&mut self, status: ConnectionManagerStatus)
        requires
            old(self).started,
        ensures
            *final(self) == (WalReceiver { manager_status: Some(status), ..*old(self) }),
            old(self).wf() ==> final(self).wf(),
    {
        self.manager_status = Some(status);
    }

    /// On exit for any reason — shutdown signal or a terminal selection
    /// result — the manager loop clears the shared status as part of its
    /// graceful teardown.
    pub fn manager_teardown(&mut self)
        ensures
            *final(self) == (WalReceiver { manager_status: None, ..*old(self) }),
            old(self).wf() ==> final(self).wf(),
    {
        self.manager_status = None;
    }
}

/// One decision of the supervising loop: exit on the shutdown signal or on
/// a terminal selection step, repeat otherwise.
pub fn manager_loop_flow(event: ManagerLoopEvent) -> (f: LoopFlow)
    ensures
        f == LoopFlow::Exit <==> (event is ShutdownRequested || event
            == ManagerLoopEvent::StepCompleted(StepDirective::Stop)),
        f == LoopFlow::Repeat <==> event == ManagerLoopEvent::StepCompleted(
            StepDirective::KeepRunning,
        ),
{
    match event {
        ManagerLoopEvent::ShutdownRequested => LoopFlow::Exit,
        ManagerLoopEvent::StepCompleted(StepDirective::Stop) => LoopFlow::Exit,
        ManagerLoopEvent::StepCompleted(StepDirective::KeepRunning) => LoopFlow::Repeat,
    }
}

/// Law: at most one manager loop — while one is running or mid-start, a
/// further start always fails with the already-started error, hands out no
/// second spawn permission, and changes nothing.
pub proof fn lemma_no_second_start(s: WalReceiver, timeline_resolved: bool)
    requires
        s.started || s.starting,
    ensures
        ({
            let (s1, r) = s.start_spec(timeline_resolved);
            s1 == s && r == Err::<(), StartError>(StartError::AlreadyStarted)
        }),
{
}

/// Law: between any two successful starts a stop must intervene — a
/// granted start leaves the controller mid-start, and neither from there
/// nor from the running state it confirms into does any start succeed,
/// whatever the timeline resolution reports. So at most one manager loop is
/// ever permitted at a time.
pub proof fn lemma_one_loop_at_a_time(s: WalReceiver, r1: bool, r2: bool)
    requires
        s.start_spec(r1).1 is Ok,
    ensures
        s.start_spec(r1).0.starting,
        s.start_spec(r1).0.start_spec(r2).1 == Err::<(), StartError>(StartError::AlreadyStarted),
        s.start_spec(r1).0.confirm_started_spec().start_spec(r2).1 == Err::<(), StartError>(
            StartError::AlreadyStarted,
        ),
{
}

/// Law: the started flag is stored only after the spawn call succeeded,
/// never before — the grant itself leaves the flag untouched; confirming
/// the spawn sets it; aborting a failed spawn returns the controller to the
/// state the grant started from, not started.
pub proof fn lemma_flag_set_only_after_spawn(s: WalReceiver, timeline_resolved: bool)
    ensures
        s.start_spec(timeline_resolved).0.started == s.started,
        s.start_spec(timeline_resolved).1 is Ok ==> ({
            let granted = s.start_spec(timeline_resolved).0;
            granted.confirm_started_spec().started && !granted.abort_start_spec().started
                && granted.abort_start_spec() == s
        }),
{
}

/// Law: stop is idempotent — on a well-formed controller that is not
/// started, stop has no observable effect.
pub proof fn lemma_stop_idempotent(s: WalReceiver)
    requires
        s.wf(),
        !s.started,
        !s.starting,
    ensures
        s.stop_spec() == s,
{
}

/// Law: once a stop has completed, the controller reports no status.
pub proof fn lemma_status_none_after_stop(s: WalReceiver)
    ensures
        s.stop_spec().manager_status is None,
{
}

/// Law: starting against a timeline that no longer resolves always fails
/// and leaves the started flag false.
pub proof fn lemma_start_on_dropped_timeline(s: WalReceiver)
    requires
        !s.started,
    ensures
        ({
            let (s1, r) = s.start_spec(false);
            s1 == s && !s1.started && r is Err && (!s.starting ==> r == Err::<(), StartError>(
                StartError::TimelineGone,
            ))
        }),
{
}

} // verus!
