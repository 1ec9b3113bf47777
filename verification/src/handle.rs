use vstd::prelude::*;

use crate::channel::TaskStateUpdate;

verus! {

/// Declares tokio's join handle so that the library can own and hand over a
/// spawned task's join capability. The library never calls its methods:
/// awaiting it is the embedding program's part.
#[verifier::external_type_specification]
#[verifier::external_body]
#[verifier::reject_recursive_types(T)]
pub struct ExJoinHandle<T>(tokio::task::JoinHandle<T>);

/// Declares tokio's join error, which awaiting a join handle can produce;
/// the embedding program turns it into [`JoinResult`] before the library
/// sees it.
#[verifier::external_type_specification]
#[verifier::external_body]
pub struct ExJoinError(tokio::task::JoinError);

/// Declares tokio-util's cancellation token, which a handle shares with its
/// running task.
#[verifier::external_type_specification]
#[verifier::external_body]
pub struct ExCancellationToken(tokio_util::sync::CancellationToken);

/// Relies on tokio_util::sync::CancellationToken::cancel: requests
/// cooperative, permanent cancellation of this token and all tokens derived
/// from it. The call returns at once and cannot fail; whether and when the
/// task reacts is the task's own business, so nothing is assumed of any
/// later observation.
pub assume_specification[ tokio_util::sync::CancellationToken::cancel ](
    token: &tokio_util::sync::CancellationToken,
);

/// Why a supervised task's result is an error.
#[derive(Clone, PartialEq, Eq, Debug)]
pub enum TaskError {
    /// the task body itself reported failure, with its message
    Failed(String),
    /// the runtime reported the task as aborted after cancellation
    Cancelled,
    /// the task did not run to completion; carries the panic message the
    /// runtime reported
    Panicked(String),
    /// a join was attempted after the join capability had been consumed
    AlreadyJoined,
}

/// What a supervised task leaves behind when it ends.
pub type TaskResult = Result<(), TaskError>;

/// How the runtime reported one awaited join, as plain values. The
/// embedding program translates the runtime's join result into this before
/// handing it back to the handle.
#[derive(PartialEq, Eq, Debug)]
pub enum JoinResult {
    /// the task ran to completion and returned this result
    Completed(TaskResult),
    /// the runtime aborted the task before completion
    Aborted,
    /// the task panicked, with the message the runtime reported
    Panicked(String),
}

/// One lifecycle event observed through a handle: a state update from the
/// still-running task, or its termination with a result.
#[derive(PartialEq, Eq, Debug)]
pub enum TaskEvent<E> {
    Update(TaskStateUpdate<E>),
    End(TaskResult),
}

/// A handle on one spawned background task: the join capability, present
/// until consumed by exactly one join, and the cancellation token the task
/// is expected to observe cooperatively. State updates travel separately,
/// over the task's latest-value event channel.
pub struct TaskHandle {
    /// the join capability; consumed by the first join and never restored
    pub join_handle: Option<tokio::task::JoinHandle<TaskResult>>,
    /// cancellation signal shared with the running task
    pub cancellation: tokio_util::sync::CancellationToken,
}

impl TaskHandle {
    /// Whether the join capability is still available.
    pub open spec fn joinable(self) -> bool {
        self.join_handle is Some
    }

    /// The handle after its join capability was taken, and what was taken.
    pub open spec fn take_join_spec(self) -> (Self, Option<tokio::task::JoinHandle<TaskResult>>) {
        (TaskHandle { join_handle: None, cancellation: self.cancellation }, self.join_handle)
    }

    /// Wraps a freshly spawned task: its join capability and the
    /// cancellation token that was cloned into the task body.
    pub fn new(
        join_handle: tokio::task::JoinHandle<TaskResult>,
        cancellation: tokio_util::sync::CancellationToken,
    ) -> (r: Self)
        ensures
            r.join_handle == Some(join_handle),
            r.cancellation == cancellation,
            r.joinable(),
    {
        TaskHandle { join_handle: Some(join_handle), cancellation }
    }

    /// Consumes the join capability: hands the inner handle to the caller,
    /// who must await it and feed the outcome to [`end_event`]. Yields
    /// nothing when an earlier join already consumed the capability — the
    /// caller then reports the explicit already-joined error instead of
    /// blocking or crashing.
    pub fn take_join_capability(&mut self) -> (r: Option<
        tokio::task::JoinHandle<TaskResult>,
    >)
        ensures
            (*final(self), r) == old(self).take_join_spec(),
            r == old(self).join_handle,
            !final(self).joinable(),
            final(self).cancellation == old(self).cancellation,
    {
        self.join_handle.take()
    }

    /// Shuts the task down: requests cooperative cancellation while the
    /// join capability is still present, and hands that capability back so
    /// that the caller awaits the task's actual exit — shutdown never
    /// assumes immediate abort. When the task was already joined there is
    /// nothing left to wait for.
    pub fn shutdown(self) -> (r: Option<tokio::task::JoinHandle<TaskResult>>)
        ensures
            r == self.join_handle,
    {
        if self.join_handle.is_some() {
            self.cancellation.cancel();
        }
        self.join_handle
    }
}

/// The termination event for one join attempt: `join` carries how the
/// runtime reported the awaited join, or nothing when the join capability
/// had already been consumed.
pub open spec fn end_event_spec<E>(join: Option<JoinResult>) -> TaskEvent<E> {
    match join {
        Some(JoinResult::Completed(r)) => TaskEvent::End(r),
        Some(JoinResult::Aborted) => TaskEvent::End(Err(TaskError::Cancelled)),
        Some(JoinResult::Panicked(m)) => TaskEvent::End(Err(TaskError::Panicked(m))),
        None => TaskEvent::End(Err(TaskError::AlreadyJoined)),
    }
}

/// Builds the termination event a handle yields once the update channel has
/// closed. A join after the capability was consumed is answered with the
/// explicit already-joined error: reported, never a hang or a crash.
pub fn end_event<E>(join: Option<JoinResult>) -> (ev: TaskEvent<E>)
    ensures
        ev == end_event_spec::<E>(join),
{
    match join {
        Some(JoinResult::Completed(r)) => TaskEvent::End(r),
        Some(JoinResult::Aborted) => TaskEvent::End(Err(TaskError::Cancelled)),
        Some(JoinResult::Panicked(m)) => TaskEvent::End(Err(TaskError::Panicked(m))),
        None => TaskEvent::End(Err(TaskError::AlreadyJoined)),
    }
}

/// How one shutdown ended, for reporting: shutdown itself absorbs the
/// outcome rather than propagating it.
#[derive(Clone, PartialEq, Eq, Debug)]
pub enum ShutdownOutcome {
    /// the task exited cleanly
    CleanExit,
    /// the task body reported this error on the way out
    TaskFailed(TaskError),
    /// the runtime aborted the task after the cancellation request
    AbortedByCancellation,
    /// the task panicked, with the message the runtime reported
    JoinFailure(String),
}

/// Classifies the awaited join at the end of a shutdown. The outcome
/// reflects the task's true terminal result — success, failure, or
/// cancellation — exactly as the runtime reported it.
pub fn shutdown_outcome(join: JoinResult) -> (o: ShutdownOutcome)
    ensures
        o == match join {
            JoinResult::Completed(Ok(())) => ShutdownOutcome::CleanExit,
            JoinResult::Completed(Err(e)) => ShutdownOutcome::TaskFailed(e),
            JoinResult::Aborted => ShutdownOutcome::AbortedByCancellation,
            JoinResult::Panicked(m) => ShutdownOutcome::JoinFailure(m),
        },
{
    match join {
        JoinResult::Completed(Ok(())) => ShutdownOutcome::CleanExit,
        JoinResult::Completed(Err(e)) => ShutdownOutcome::TaskFailed(e),
        JoinResult::Aborted => ShutdownOutcome::AbortedByCancellation,
        JoinResult::Panicked(m) => ShutdownOutcome::JoinFailure(m),
    }
}

/// Law: the join capability is consumed exactly once. After any join has
/// taken the capability, a further take yields nothing, and the event built
/// for a join without capability is the explicit already-joined error —
/// never a second capability, a hang, or a crash.
pub proof fn lemma_join_consumed_once<E>(h: TaskHandle)
    ensures
        ({
            let (h1, _first) = h.take_join_spec();
            h1.take_join_spec().1 is None
        }),
        end_event_spec::<E>(None) == TaskEvent::<E>::End(Err(TaskError::AlreadyJoined)),
{
}

} // verus!
