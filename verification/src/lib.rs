//! Per-timeline WAL-receiver controller and its supervised background task.
//!
//! A timeline streams its write-ahead log from whichever upstream safekeeper
//! currently offers the best data. This crate holds the control logic for
//! that machinery: the [`receiver::WalReceiver`] controller that starts,
//! stops and reports on a single background manager loop, the
//! [`handle::TaskHandle`] abstraction for supervising that loop with
//! cooperative cancellation and exactly-once join, the latest-value event
//! channel the task reports through, and the connection-selection rules the
//! manager loop applies on each step.
//!
//! Everything that must wait on the runtime — spawning, awaiting a join,
//! sleeping between steps — is driven by the embedding program, which feeds
//! the outcomes of those waits back into the state machines defined here.

pub mod conf;
pub mod channel;
pub mod handle;
pub mod ids;
pub mod receiver;
pub mod selection;
