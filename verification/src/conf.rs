use vstd::prelude::*;

verus! {

/// Immutable per-timeline streaming policy. All durations are in
/// milliseconds; the log-position lag bound is in bytes and must be
/// positive.
#[derive(Clone, Debug)]
pub struct WalReceiverConf {
    /// Timeout on establishing a streaming connection to a safekeeper.
    pub wal_connect_timeout: u64,
    /// How long the current connection may go without observed progress
    /// before it counts as stale and is replaced.
    pub lagging_wal_timeout: u64,
    /// The largest tolerated gap between the current connection's observed
    /// log position and the best candidate's advertised one.
    pub max_lsn_wal_lag: u64,
    /// Credential handed to the selection loop when dialing a safekeeper.
    pub auth_token: Option<String>,
    /// Locality tag used to prefer nearby safekeepers, when set.
    pub availability_zone: Option<String>,
}

impl WalReceiverConf {
    /// A configuration is well formed when its lag bound is positive: a
    /// zero bound would demand a reconnect on every step.
    pub open spec fn wf(self) -> bool {
        self.max_lsn_wal_lag > 0
    }
}

} // verus!
