//! A generator that several threads can share.

use vstd::prelude::*;
use vstd::rwlock::{RwLock, RwLockPredicate};
use crate::error::{CLOCK_MOVED_BACKWARDS, CLOCK_OUT_OF_RANGE, CLOCK_STALLED, ID_OUT_OF_RANGE};
use crate::generator::Snowflake;
use crate::layout::{
    MAX_DATACENTER_ID, MAX_WORKER_ID, datacenter_of, encodable, timestamp_of, worker_of,
};
use crate::model::{Tick, lemma_issued_decodes};

verus! {

/// Whom a shared generator issues for. The lock admits only states of a
/// generator for this worker and datacenter.
pub struct Identity {
    /// The worker.
    pub worker_id: u64,
    /// The datacenter.
    pub datacenter_id: u64,
}

impl RwLockPredicate<Snowflake> for Identity {
    open spec fn inv(self, generator: Snowflake) -> bool {
        &&& generator@.valid()
        &&& generator@.worker_id == self.worker_id
        &&& generator@.datacenter_id == self.datacenter_id
    }
}

/// A generator behind a lock: `next_id` takes `&self`, and calls from any
/// number of threads are served one at a time.
pub struct SnowflakeGenerator {
    lock: RwLock<Snowflake, Identity>,
}

impl SnowflakeGenerator {
    /// The worker this generator issues for.
    pub closed spec fn worker_id(&self) -> u64 {
        self.lock.pred().worker_id
    }

    /// The datacenter this generator issues for.
    pub closed spec fn datacenter_id(&self) -> u64 {
        self.lock.pred().datacenter_id
    }

    /// Makes a shared generator for the given worker and datacenter, each of
    /// which must be at most 31.
    pub fn new(worker_id: u64, datacenter_id: u64) -> (r: Result<Self, &'static str>)
        ensures
            r is Ok <==> worker_id <= MAX_WORKER_ID && datacenter_id <= MAX_DATACENTER_ID,
            r matches Ok(shared) ==> shared.worker_id() == worker_id && shared.datacenter_id()
                == datacenter_id,
            r matches Err(message) ==> message@ == ID_OUT_OF_RANGE@,
    {
        match Snowflake::new(worker_id, datacenter_id) {
            Ok(snowflake) => Ok(
                Self { lock: RwLock::new(snowflake, Ghost(Identity { worker_id, datacenter_id })) },
            ),
            Err(message) => Err(message),
        }
    }

    /// Issues the next identifier. The lock is held for the one call of
    /// [`Snowflake::next_id`] and released whether that call succeeds or fails.
    pub fn next_id(&self) -> (r: Result<u64, &'static str>)
        ensures
            match r {
                Ok(id) => {
                    &&& id < 0x8000_0000_0000_0000
                    &&& worker_of(id) == self.worker_id()
                    &&& datacenter_of(id) == self.datacenter_id()
                    &&& encodable(timestamp_of(id) as u64)
                },
                Err(message) => message@ == CLOCK_MOVED_BACKWARDS@ || message@
                    == CLOCK_OUT_OF_RANGE@ || message@ == CLOCK_STALLED@,
            },
    {
        let (mut snowflake, handle) = self.lock.acquire_write();
        let ghost before = snowflake@;
        let r = snowflake.next_id();
        proof {
            if let Ok(id) = r {
                let now = choose|now: u64|
                    before.tick(now) == Tick::Issued(id) && snowflake@
                        == before.after(now);
                lemma_issued_decodes(before, now);
            }
        }
        handle.release_write(snowflake);
        r
    }
}

} // verus!
