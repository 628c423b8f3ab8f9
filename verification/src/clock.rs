//! The wall clock.
//!
//! Timestamps are epoch milliseconds, refreshed on every read and broadcast.
//! The clock's reading depends on the moment alone, so nothing is promised
//! of the value; every contract that involves a timestamp takes it as a
//! plain argument, and these helpers only bind the two together.

use vstd::prelude::*;
use crate::status::{spec_initial_status, spec_with_timestamp, RemoteStatus, ServerState};

verus! {

/// Relies on chrono's `Utc::now().timestamp_millis()`: the current moment as
/// epoch milliseconds.  The reading depends on the clock, so no value is
/// promised.
#[verifier::external_body]
pub fn now_millis() -> i64 {
    chrono::Utc::now().timestamp_millis()
}

impl RemoteStatus {
    /// The snapshot a fresh server starts with, stamped with this moment.
    pub fn initial_now() -> (r: RemoteStatus)
        ensures
            r@ == spec_initial_status(r@.timestamp),
    {
        RemoteStatus::initial(now_millis())
    }
}

impl ServerState {
    /// A fresh store with the default snapshot, stamped with this moment.
    pub fn new_now() -> (r: ServerState)
        ensures
            r.status@ == spec_initial_status(r.status@.timestamp),
    {
        ServerState::new(now_millis())
    }

    /// A snapshot of the current status, timestamp refreshed to this moment.
    pub fn read_now(&self) -> (r: RemoteStatus)
        ensures
            r@ == spec_with_timestamp(self.status@, r@.timestamp),
    {
        self.read(now_millis())
    }
}

} // verus!
