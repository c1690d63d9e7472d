//! The generator: one owned state record and the operation that issues the
//! next identifier from it.

use vstd::prelude::*;
use std::time::SystemTime;
use crate::clock::{reading_of_millis, unix_epoch};
use crate::error::{CLOCK_MOVED_BACKWARDS, CLOCK_OUT_OF_RANGE, CLOCK_STALLED, ID_OUT_OF_RANGE};
use crate::layout::{EPOCH, MAX_DATACENTER_ID, MAX_ELAPSED, MAX_SEQUENCE, MAX_WORKER_ID, compose};
use crate::model::{GeneratorState, Tick};

verus! {

/// How many times the clock is read, at most, while waiting for the next
/// millisecond. The limit is there for the proof that the wait terminates:
/// it is what the loop counts down from. No running program makes 2^64 - 1
/// readings, so in practice a wait on a stopped clock does not end.
pub const SPIN_LIMIT: u64 = 0xFFFF_FFFF_FFFF_FFFF;

/// What one reading of the clock means to a wait for a millisecond after
/// `last_timestamp`: a reading after it ends the wait and is the result;
/// a reading at or before it, or no reading at all, is passed over.
pub fn later_reading(reading: Option<u64>, last_timestamp: u64) -> (later: Option<u64>)
    ensures
        later == (match reading {
            Some(timestamp) => if timestamp > last_timestamp {
                Some(timestamp)
            } else {
                None
            },
            None => None,
        }),
{
    match reading {
        Some(timestamp) => if timestamp > last_timestamp {
            Some(timestamp)
        } else {
            None
        },
        None => None,
    }
}

/// A generator of identifiers for one (worker, datacenter) pair.
///
/// Not for unsynchronised use from several threads: every operation that
/// issues takes `&mut self`.
pub struct Snowflake {
    last_timestamp: u64,
    sequence: u64,
    worker_id: u64,
    datacenter_id: u64,
}

impl View for Snowflake {
    type V = GeneratorState;

    closed spec fn view(&self) -> GeneratorState {
        GeneratorState {
            last_timestamp: self.last_timestamp,
            sequence: self.sequence,
            worker_id: self.worker_id,
            datacenter_id: self.datacenter_id,
        }
    }
}

impl Snowflake {
    /// Every generator is in a valid state, at all times.
    #[verifier::type_invariant]
    spec fn well_formed(self) -> bool {
        self@.valid()
    }

    /// Makes a generator for the given worker and datacenter, each of which
    /// must be at most 31. Larger values are refused, never clamped.
    pub fn new(worker_id: u64, datacenter_id: u64) -> (r: Result<Self, &'static str>)
        ensures
            r is Ok <==> worker_id <= MAX_WORKER_ID && datacenter_id <= MAX_DATACENTER_ID,
            r matches Ok(generator) ==> generator@ == GeneratorState::fresh(
                worker_id,
                datacenter_id,
            ),
            r matches Err(message) ==> message@ == ID_OUT_OF_RANGE@,
    {
        if worker_id > MAX_WORKER_ID || datacenter_id > MAX_DATACENTER_ID {
            return Err(ID_OUT_OF_RANGE);
        }
        Ok(Self { last_timestamp: 0, sequence: 0, worker_id, datacenter_id })
    }

    /// Issues the next identifier, reading the system clock.
    ///
    /// Where the millisecond of the last identifier has no sequence number
    /// left, this waits, reading the clock again and again, for the next
    /// millisecond. A clock that reads before the last identifier's
    /// millisecond is an error, and so is one that the timestamp field cannot
    /// hold or that never moves on; an error leaves the generator untouched.
    pub fn next_id(&mut self) -> (r: Result<u64, &'static str>)
        ensures
            match r {
                Ok(id) => exists|now: u64|
                    old(self)@.tick(now) == Tick::Issued(id) && final(self)@ == old(self)@.after(
                        now,
                    ),
                Err(message) => {
                    &&& final(self)@ == old(self)@
                    &&& {
                        ||| message@ == CLOCK_MOVED_BACKWARDS@ && old(self)@.last_timestamp > 0
                        ||| message@ == CLOCK_OUT_OF_RANGE@
                        ||| message@ == CLOCK_STALLED@ && old(self)@.sequence == MAX_SEQUENCE
                    }
                },
            },
            final(self)@.valid(),
    {
        proof {
            use_type_invariant(&*self);
        }
        let first: u64 = match Self::current_timestamp() {
            Some(reading) => reading,
            None => {
                return Err(CLOCK_OUT_OF_RANGE);
            },
        };
        let last_timestamp: u64 = self.last_timestamp;
        let tick = match self.next_id_at(first) {
            Tick::Exhausted => match self.til_next_millis(last_timestamp) {
                Some(later) => self.next_id_at(later),
                None => Tick::Exhausted,
            },
            tick => tick,
        };
        tick.into_result()
    }

    /// Reads the system clock, in milliseconds since the Unix epoch. `None`
    /// where the clock stands before the Unix epoch, or so far after it that
    /// the milliseconds do not fit in 64 bits.
    pub fn current_timestamp() -> (reading: Option<u64>) {
        // Nothing is known of the clock, so nothing is promised of the
        // reading: every value may be what the clock shows. What becomes of
        // the milliseconds it counts is `reading_of_millis`.
        match SystemTime::now().duration_since(unix_epoch()) {
            Ok(elapsed) => {
                let millis: u128 = elapsed.as_millis();
                reading_of_millis(millis)
            },
            Err(_) => None,
        }
    }

    /// Reads the clock until it shows a millisecond after `last_timestamp`,
    /// and returns the first reading that does. `None` where `SPIN_LIMIT`
    /// readings in a row show none. Whether and when the clock moves on is
    /// the clock's alone to decide, so no reading is promised; what each
    /// reading means to the wait is [`later_reading`].
    fn til_next_millis(&self, last_timestamp: u64) -> (reading: Option<u64>)
        ensures
            reading matches Some(timestamp) ==> timestamp > last_timestamp,
    {
        let mut readings: u64 = 0;
        while readings < SPIN_LIMIT
            invariant
                readings <= SPIN_LIMIT,
            decreases SPIN_LIMIT - readings,
        {
            match later_reading(Self::current_timestamp(), last_timestamp) {
                Some(timestamp) => {
                    return Some(timestamp);
                },
                None => {},
            }
            readings = readings + 1;
        }
        None
    }

    /// Takes one reading of the clock, in milliseconds since the Unix epoch,
    /// and issues the next identifier if the reading allows one. The
    /// generator advances exactly when an identifier is issued.
    pub fn next_id_at(&mut self, now: u64) -> (tick: Tick)
        ensures
            tick == old(self)@.tick(now),
            final(self)@ == old(self)@.after(now),
            final(self)@.valid(),
    {
        proof {
            use_type_invariant(&*self);
        }
        if now < self.last_timestamp {
            return Tick::Regressed;
        }
        if now < EPOCH || now - EPOCH > MAX_ELAPSED {
            return Tick::Unencodable;
        }
        let sequence: u64 = if now == self.last_timestamp {
            let next: u64 = (self.sequence + 1) & MAX_SEQUENCE;
            assert(next == 0 <==> self.sequence == MAX_SEQUENCE) by {
                let s: u64 = self.sequence;
                assert(s <= 4095 ==> ((((s + 1) as u64) & 4095) == 0 <==> s == 4095)) by (bit_vector);
            }
            if next == 0 {
                return Tick::Exhausted;
            }
            assert(next == self.sequence + 1) by {
                let s: u64 = self.sequence;
                assert(s < 4095 ==> (((s + 1) as u64) & 4095) == s + 1) by (bit_vector);
            }
            next
        } else {
            0
        };
        self.sequence = sequence;
        self.last_timestamp = now;
        Tick::Issued(compose(now, self.datacenter_id, self.worker_id, sequence))
    }
}

} // verus!
