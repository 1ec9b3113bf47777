use vstd::prelude::*;

verus! {

/// One state update flowing from a supervised task to its handle: the task
/// first announces that it has started, then reports application-defined
/// progress snapshots.
#[derive(Clone, Copy, PartialEq, Eq, Debug)]
pub enum TaskStateUpdate<E> {
    Started,
    Progress(E),
}

/// What one poll of the receiving side observes.
#[derive(Clone, Copy, PartialEq, Eq, Debug)]
pub enum ChannelPoll<E> {
    /// no update has arrived since the last observed one
    Pending,
    /// the next update owed to the observer
    Update(TaskStateUpdate<E>),
    /// the sending side is gone and every update was observed
    Closed,
}

/// A latest-value-wins event channel between a background task and its
/// handle, with one exception: the started announcement, placed on the
/// channel at the moment of the spawn, is always the first update
/// delivered — a progress update can never overtake or overwrite it.
/// Progress updates themselves share a single slot: a send overwrites
/// whatever progress the slot held, so a receiver that does not poll
/// promptly misses intermediate progress and only ever sees the most
/// recent. That is a deliberate backpressure-avoidance choice, not a
/// defect; progress updates are never accumulated.
///
/// The sequences of sent and of delivered updates are kept as ghost
/// history, so that the delivery guarantees can be stated exactly.
pub struct StateChannel<E> {
    /// whether the started announcement has been delivered yet
    pub started_delivered: bool,
    /// the most recent progress update not yet observed, if any
    pub pending_progress: Option<E>,
    /// whether the sending side has closed the channel
    pub closed: bool,
    /// every update ever sent, oldest first
    pub history: Ghost<Seq<TaskStateUpdate<E>>>,
    /// every update ever delivered to the observer, oldest first
    pub delivered: Ghost<Seq<TaskStateUpdate<E>>>,
}

impl<E: Copy> StateChannel<E> {
    /// The first update ever sent was the started announcement; the first
    /// update ever delivered is the started announcement too; and whatever
    /// progress is pending is the latest update sent.
    pub open spec fn wf(self) -> bool {
        &&& self.history@.len() >= 1
        &&& self.history@[0] == TaskStateUpdate::<E>::Started
        &&& (self.started_delivered <==> self.delivered@.len() >= 1)
        &&& (self.delivered@.len() >= 1 ==> self.delivered@[0] == TaskStateUpdate::<E>::Started)
        &&& (self.pending_progress matches Some(e) ==> self.history@.last()
            == TaskStateUpdate::<E>::Progress(e))
    }

    /// A fresh channel, created when its task is spawned. It already owes
    /// the observer the started announcement: the spawning side places it
    /// there synchronously, before the task body runs.
    pub fn new() -> (r: Self)
        ensures
            r.wf(),
            !r.started_delivered,
            r.pending_progress is None,
            !r.closed,
            r.history@ == seq![TaskStateUpdate::<E>::Started],
            r.delivered@ == Seq::<TaskStateUpdate<E>>::empty(),
    {
        let ghost initial_history: Seq<TaskStateUpdate<E>> = seq![TaskStateUpdate::<E>::Started];
        let ghost no_deliveries: Seq<TaskStateUpdate<E>> = Seq::empty();
        StateChannel {
            started_delivered: false,
            pending_progress: None,
            closed: false,
            history: Ghost(initial_history),
            delivered: Ghost(no_deliveries),
        }
    }

    /// Sends one progress update: overwrites whatever progress the slot
    /// held, observed or not. The started announcement is not a value the
    /// task can send — it is owed from the spawn and stays owed.
    pub fn send(&mut self, progress: E)
        requires
            !old(self).closed,
        ensures
            final(self).started_delivered == old(self).started_delivered,
            final(self).pending_progress == Some(progress),
            !final(self).closed,
            final(self).history@ == old(self).history@.push(
                TaskStateUpdate::<E>::Progress(progress),
            ),
            final(self).delivered@ == old(self).delivered@,
            old(self).wf() ==> final(self).wf(),
    {
        self.pending_progress = Some(progress);
        self.history = Ghost(self.history@.push(TaskStateUpdate::Progress(progress)));
    }

    /// Drops the sending side: no further update will arrive. Whatever is
    /// still owed — the started announcement, a pending progress update —
    /// stays deliverable.
    pub fn close(&mut self)
        ensures
            *final(self) == (StateChannel { closed: true, ..*old(self) }),
            old(self).wf() ==> final(self).wf(),
    {
        self.closed = true;
    }

    /// One observation by the receiving side. The started announcement is
    /// delivered first, always, even when progress has already arrived or
    /// the sender is already gone; after it, the latest pending progress;
    /// once the sender is gone and nothing is owed, the channel reports
    /// closed; otherwise the caller must wait.
    pub fn poll(&mut self) -> (r: ChannelPoll<E>)
        ensures
            !old(self).started_delivered ==> {
                &&& r == ChannelPoll::Update(TaskStateUpdate::<E>::Started)
                &&& final(self).started_delivered
                &&& final(self).delivered@ == old(self).delivered@.push(
                    TaskStateUpdate::<E>::Started,
                )
                &&& final(self).pending_progress == old(self).pending_progress
                &&& final(self).closed == old(self).closed
                &&& final(self).history@ == old(self).history@
            },
            old(self).started_delivered && old(self).pending_progress is Some ==> {
                &&& r == ChannelPoll::Update(
                    TaskStateUpdate::<E>::Progress(old(self).pending_progress->Some_0),
                )
                &&& final(self).pending_progress is None
                &&& final(self).delivered@ == old(self).delivered@.push(
                    TaskStateUpdate::<E>::Progress(old(self).pending_progress->Some_0),
                )
                &&& final(self).started_delivered
                &&& final(self).closed == old(self).closed
                &&& final(self).history@ == old(self).history@
            },
            old(self).started_delivered && old(self).pending_progress is None && old(self).closed
                ==> r == ChannelPoll::<E>::Closed && *final(self) == *old(self),
            old(self).started_delivered && old(self).pending_progress is None && !old(self).closed
                ==> r == ChannelPoll::<E>::Pending && *final(self) == *old(self),
            old(self).wf() ==> final(self).wf(),
            old(self).wf() ==> (r matches ChannelPoll::Update(u) ==> (u
                == TaskStateUpdate::<E>::Started || u == old(self).history@.last())),
    {
        if !self.started_delivered {
            self.started_delivered = true;
            self.delivered = Ghost(self.delivered@.push(TaskStateUpdate::Started));
            ChannelPoll::Update(TaskStateUpdate::Started)
        } else if let Some(e) = self.pending_progress {
            self.pending_progress = None;
            self.delivered = Ghost(self.delivered@.push(TaskStateUpdate::Progress(e)));
            ChannelPoll::Update(TaskStateUpdate::Progress(e))
        } else if self.closed {
            ChannelPoll::Closed
        } else {
            ChannelPoll::Pending
        }
    }
}

/// Law: a handle always delivers the started announcement before any other
/// update — on every well-formed channel the first update ever delivered is
/// the started announcement, so any delivered progress comes strictly after
/// it.
pub proof fn lemma_started_delivered_first<E: Copy>(c: StateChannel<E>, i: int)
    requires
        c.wf(),
        0 <= i < c.delivered@.len(),
        c.delivered@[i] is Progress,
    ensures
        c.delivered@[0] == TaskStateUpdate::<E>::Started,
        i >= 1,
{
}

/// Law: the channel retains only the most recent progress update —
/// whatever progress is still deliverable is the last update sent, so an
/// intermediate update that was overwritten before being observed can
/// never be seen afterwards.
pub proof fn lemma_latest_progress_only<E: Copy>(c: StateChannel<E>, e: E)
    requires
        c.wf(),
        c.pending_progress == Some(e),
    ensures
        c.history@.last() == TaskStateUpdate::<E>::Progress(e),
{
}

} // verus!
