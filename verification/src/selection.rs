use vstd::prelude::*;

use crate::conf::WalReceiverConf;

verus! {

/// One safekeeper's advertisement, as the broker delivers it: its
/// identifier and the log position it holds.
#[derive(Clone, Copy, PartialEq, Eq, Structural, Debug)]
pub struct SafekeeperCandidate {
    pub safekeeper_id: u64,
    pub commit_position: u64,
}

/// The live streaming connection, as the manager loop sees it.
#[derive(Clone, Copy, PartialEq, Eq, Structural, Debug)]
pub struct ActiveConnection {
    pub safekeeper_id: u64,
    /// the last log position observed on this connection
    pub position: u64,
}

/// Snapshot the manager loop publishes after each step: whether a
/// connection is live, to which safekeeper, and at what observed position.
#[derive(Clone, Copy, PartialEq, Eq, Debug)]
pub struct ConnectionManagerStatus {
    pub connection: Option<ActiveConnection>,
}

/// What one selection step decides to do about the streaming connection.
#[derive(Clone, Copy, PartialEq, Eq, Structural, Debug)]
pub enum SelectionDecision {
    /// keep the current connection, or stay idle when there is neither a
    /// connection nor a candidate
    KeepCurrent,
    /// no connection is live: connect to this safekeeper
    Connect(u64),
    /// the current connection is stale or lagging: tear it down and
    /// connect to this safekeeper
    Reconnect(u64),
}

/// The best candidate of a set: it advertises the most advanced log
/// position, and among equally advanced ones it has the lowest identifier —
/// the stable tie-break this library commits to.
pub open spec fn is_best_candidate(
    candidates: Seq<SafekeeperCandidate>,
    best: SafekeeperCandidate,
) -> bool {
    &&& candidates.contains(best)
    &&& forall|i: int|
        0 <= i < candidates.len() ==> candidates[i].commit_position <= best.commit_position
    &&& forall|i: int|
        0 <= i < candidates.len() && candidates[i].commit_position == best.commit_position
            ==> best.safekeeper_id <= candidates[i].safekeeper_id
}

/// A connection is stale once it has gone at least the configured staleness
/// timeout without observed progress.
pub open spec fn connection_stale(conf: WalReceiverConf, ms_since_last_progress: u64) -> bool {
    ms_since_last_progress >= conf.lagging_wal_timeout
}

/// A connection lags once the best candidate's advertised position runs
/// ahead of it by more than the configured bound.
pub open spec fn connection_lagging(
    conf: WalReceiverConf,
    current: ActiveConnection,
    best: SafekeeperCandidate,
) -> bool {
    &&& best.commit_position > current.position
    &&& best.commit_position - current.position > conf.max_lsn_wal_lag
}

/// The decision owed for one step, given the best candidate of the set.
pub open spec fn selection_decision_for(
    conf: WalReceiverConf,
    current: Option<ActiveConnection>,
    best: SafekeeperCandidate,
    ms_since_last_progress: u64,
) -> SelectionDecision {
    match current {
        None => SelectionDecision::Connect(best.safekeeper_id),
        Some(c) => if connection_stale(conf, ms_since_last_progress) || connection_lagging(
            conf,
            c,
            best,
        ) {
            SelectionDecision::Reconnect(best.safekeeper_id)
        } else {
            SelectionDecision::KeepCurrent
        },
    }
}

/// Two best candidates of the same set are the same candidate: the
/// position maximum is unique, and the lowest identifier among its holders
/// is unique too.
pub proof fn lemma_best_candidate_unique(
    candidates: Seq<SafekeeperCandidate>,
    a: SafekeeperCandidate,
    b: SafekeeperCandidate,
)
    requires
        is_best_candidate(candidates, a),
        is_best_candidate(candidates, b),
    ensures
        a == b,
{
    let ia = choose|i: int| 0 <= i < candidates.len() && candidates[i] == a;
    let ib = choose|i: int| 0 <= i < candidates.len() && candidates[i] == b;
    assert(candidates[ia] == a);
    assert(candidates[ib] == b);
    assert(a.commit_position <= b.commit_position);
    assert(b.commit_position <= a.commit_position);
    assert(a.safekeeper_id <= b.safekeeper_id);
    assert(b.safekeeper_id <= a.safekeeper_id);
}

/// Picks the best candidate of the set: the most advanced position, ties
/// broken towards the lowest identifier. Yields nothing only on an empty
/// set.
pub fn best_candidate(candidates: &Vec<SafekeeperCandidate>) -> (r: Option<SafekeeperCandidate>)
    ensures
        r is Some <==> candidates@.len() > 0,
        r matches Some(b) ==> is_best_candidate(candidates@, b),
{
    if candidates.len() == 0 {
        return None;
    }
    let mut best: SafekeeperCandidate = candidates[0];
    let mut i: usize = 1;
    proof {
        assert(candidates@.take(1)[0] == best);
        assert(candidates@.take(1).contains(best));
    }
    while i < candidates.len()
        invariant
            1 <= i <= candidates@.len(),
            is_best_candidate(candidates@.take(i as int), best),
        decreases candidates@.len() - i,
    {
        let c = candidates[i];
        let ghost prefix = candidates@.take(i as int);
        let ghost extended = candidates@.take(i as int + 1);
        proof {
            assert(extended =~= prefix.push(candidates@[i as int]));
        }
        if c.commit_position > best.commit_position || (c.commit_position == best.commit_position
            && c.safekeeper_id < best.safekeeper_id) {
            best = c;
            proof {
                assert(extended[i as int] == best);
                assert(extended.contains(best));
            }
        } else {
            proof {
                let j = choose|j: int| 0 <= j < prefix.len() && prefix[j] == best;
                assert(extended[j] == best);
                assert(extended.contains(best));
            }
        }
        i += 1;
    }
    proof {
        assert(candidates@.take(candidates@.len() as int) =~= candidates@);
    }
    Some(best)
}

/// Carries out what one selection step decided. Keeping the current
/// connection is literal; connecting and reconnecting both target the
/// decided safekeeper at the position it advertised, or nothing when no
/// candidate carries the decided identifier. Dialing the safekeeper itself
/// is the selection loop's outbound work, out of scope here.
pub fn apply_decision(
    current: Option<ActiveConnection>,
    decision: SelectionDecision,
    candidates: &Vec<SafekeeperCandidate>,
) -> (r: Option<ActiveConnection>)
    ensures
        decision == SelectionDecision::KeepCurrent ==> r == current,
        forall|id: u64|
            (decision == SelectionDecision::Connect(id) || decision
                == SelectionDecision::Reconnect(id)) ==> match r {
                Some(c) => c.safekeeper_id == id && candidates@.contains(
                    SafekeeperCandidate { safekeeper_id: id, commit_position: c.position },
                ),
                None => forall|i: int|
                    0 <= i < candidates@.len() ==> candidates@[i].safekeeper_id != id,
            },
{
    match decision {
        SelectionDecision::KeepCurrent => current,
        SelectionDecision::Connect(id) => candidate_connection(id, candidates),
        SelectionDecision::Reconnect(id) => candidate_connection(id, candidates),
    }
}

/// The connection that dialing the given safekeeper establishes: its
/// identifier at the position it advertised, or nothing when it is not
/// among the candidates.
fn candidate_connection(id: u64, candidates: &Vec<SafekeeperCandidate>) -> (r: Option<
    ActiveConnection,
>)
    ensures
        match r {
            Some(c) => c.safekeeper_id == id && candidates@.contains(
                SafekeeperCandidate { safekeeper_id: id, commit_position: c.position },
            ),
            None => forall|i: int|
                0 <= i < candidates@.len() ==> candidates@[i].safekeeper_id != id,
        },
{
    let mut i: usize = 0;
    while i < candidates.len()
        invariant
            0 <= i <= candidates@.len(),
            forall|j: int| 0 <= j < i ==> candidates@[j].safekeeper_id != id,
        decreases candidates@.len() - i,
    {
        let c = candidates[i];
        if c.safekeeper_id == id {
            proof {
                assert(candidates@[i as int] == (SafekeeperCandidate {
                    safekeeper_id: id,
                    commit_position: c.commit_position,
                }));
                assert(candidates@.contains(
                    SafekeeperCandidate { safekeeper_id: id, commit_position: c.commit_position },
                ));
            }
            return Some(ActiveConnection { safekeeper_id: id, position: c.commit_position });
        }
        i += 1;
    }
    None
}

/// Whether one step's outcome counts as observed progress: a connection
/// came up, moved to another safekeeper, or advanced its position.
pub open spec fn progress_observed(
    before: Option<ActiveConnection>,
    after: Option<ActiveConnection>,
) -> bool {
    match (before, after) {
        (None, Some(_)) => true,
        (Some(b), Some(a)) => a.safekeeper_id != b.safekeeper_id || a.position > b.position,
        (_, None) => false,
    }
}

/// Advances the staleness clock by one step: it resets whenever the step
/// observed progress, and otherwise grows by the step's duration,
/// saturating rather than wrapping.
pub fn advance_staleness_clock(
    ms_since_last_progress: u64,
    step_ms: u64,
    before: Option<ActiveConnection>,
    after: Option<ActiveConnection>,
) -> (r: u64)
    ensures
        progress_observed(before, after) ==> r == 0,
        !progress_observed(before, after) ==> r == if ms_since_last_progress + step_ms
            <= u64::MAX {
            ms_since_last_progress + step_ms
        } else {
            u64::MAX as int
        },
{
    let moved = match (before, after) {
        (None, Some(_)) => true,
        (Some(b), Some(a)) => a.safekeeper_id != b.safekeeper_id || a.position > b.position,
        (_, None) => false,
    };
    if moved {
        0
    } else {
        ms_since_last_progress.saturating_add(step_ms)
    }
}

/// One connection-selection decision, as constrained by the configuration:
/// prefer the candidate advertising the most advanced log position (ties
/// towards the lowest identifier); connect to it when no connection is
/// live; replace the current connection when it has gone the staleness
/// timeout without progress, or trails the best candidate by more than the
/// configured lag bound; with no candidate at all there is nothing to do.
pub fn select_connection(
    conf: &WalReceiverConf,
    current: Option<ActiveConnection>,
    candidates: &Vec<SafekeeperCandidate>,
    ms_since_last_progress: u64,
) -> (d: SelectionDecision)
    requires
        conf.wf(),
    ensures
        candidates@.len() == 0 ==> d == SelectionDecision::KeepCurrent,
        candidates@.len() > 0 ==> exists|b: SafekeeperCandidate| is_best_candidate(candidates@, b),
        forall|b: SafekeeperCandidate|
            is_best_candidate(candidates@, b) ==> d == selection_decision_for(
                *conf,
                current,
                b,
                ms_since_last_progress,
            ),
{
    let best = best_candidate(candidates);
    match best {
        None => SelectionDecision::KeepCurrent,
        Some(b) => {
            proof {
                assert forall|other: SafekeeperCandidate|
                    is_best_candidate(candidates@, other) implies other == b by {
                    lemma_best_candidate_unique(candidates@, other, b);
                }
            }
            match current {
                None => SelectionDecision::Connect(b.safekeeper_id),
                Some(c) => {
                    let stale = ms_since_last_progress >= conf.lagging_wal_timeout;
                    let lagging = b.commit_position > c.position && b.commit_position - c.position
                        > conf.max_lsn_wal_lag;
                    if stale || lagging {
                        SelectionDecision::Reconnect(b.safekeeper_id)
                    } else {
                        SelectionDecision::KeepCurrent
                    }
                },
            }
        },
    }
}

} // verus!
