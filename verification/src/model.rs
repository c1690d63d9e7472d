//! The generator as a state machine over clock readings.
//!
//! A generator remembers the last millisecond it issued an identifier in and
//! how many it has issued in that millisecond. Each reading of the clock
//! either yields the next identifier or leaves the generator as it was.

use vstd::prelude::*;
use crate::error::{CLOCK_MOVED_BACKWARDS, CLOCK_OUT_OF_RANGE, CLOCK_STALLED};
use crate::layout::{
    MAX_DATACENTER_ID, MAX_SEQUENCE, MAX_WORKER_ID, datacenter_of, encodable, identifier,
    key_before, lemma_fields_round_trip, lemma_identifiers_sort_by_key, sequence_of, timestamp_of,
    worker_of,
};

verus! {

/// What one reading of the clock means to a generator.
#[derive(Clone, Copy, Debug, PartialEq, Eq, Structural)]
pub enum Tick {
    /// The reading yields this identifier.
    Issued(u64),
    /// The reading is the millisecond of the last identifier, and all 4096
    /// sequence numbers of that millisecond are spent: the next identifier
    /// has to wait for a later reading.
    Exhausted,
    /// The reading lies before the millisecond of the last identifier.
    Regressed,
    /// The reading does not fit the timestamp field: it lies before the
    /// epoch, or more than 41 bits of milliseconds after it.
    Unencodable,
}

impl Tick {
    /// The identifier, or the error that stands for a reading without one.
    /// A spent millisecond is an error only to a caller that has given up
    /// waiting for the next.
    pub fn into_result(self) -> (r: Result<u64, &'static str>)
        ensures
            match self {
                Tick::Issued(id) => r == Ok::<u64, &'static str>(id),
                Tick::Exhausted => r matches Err(message) && message@ == CLOCK_STALLED@,
                Tick::Regressed => r matches Err(message) && message@ == CLOCK_MOVED_BACKWARDS@,
                Tick::Unencodable => r matches Err(message) && message@ == CLOCK_OUT_OF_RANGE@,
            },
    {
        match self {
            Tick::Issued(id) => Ok(id),
            Tick::Exhausted => Err(CLOCK_STALLED),
            Tick::Regressed => Err(CLOCK_MOVED_BACKWARDS),
            Tick::Unencodable => Err(CLOCK_OUT_OF_RANGE),
        }
    }
}

/// The state of a generator.
pub struct GeneratorState {
    /// The millisecond of the last identifier issued; 0 before the first.
    pub last_timestamp: u64,
    /// The sequence number of the last identifier issued.
    pub sequence: u64,
    /// The worker this generator issues for.
    pub worker_id: u64,
    /// The datacenter this generator issues for.
    pub datacenter_id: u64,
}

impl GeneratorState {
    /// The state of a generator that has issued nothing yet.
    pub open spec fn fresh(worker_id: u64, datacenter_id: u64) -> GeneratorState {
        GeneratorState { last_timestamp: 0, sequence: 0, worker_id, datacenter_id }
    }

    /// What holds of every state a generator can be in.
    pub open spec fn valid(self) -> bool {
        &&& self.worker_id <= MAX_WORKER_ID
        &&& self.datacenter_id <= MAX_DATACENTER_ID
        &&& self.sequence <= MAX_SEQUENCE
        &&& if self.last_timestamp == 0 {
            self.sequence == 0
        } else {
            encodable(self.last_timestamp)
        }
    }

    /// Whether every sequence number of the millisecond `now` is spent.
    pub open spec fn exhausted_at(self, now: u64) -> bool {
        now == self.last_timestamp && self.sequence == MAX_SEQUENCE
    }

    /// The sequence number of an identifier issued at `now`: one more than
    /// the last within the same millisecond, 0 in a new one.
    pub open spec fn sequence_at(self, now: u64) -> u64 {
        if now == self.last_timestamp {
            (self.sequence + 1) as u64
        } else {
            0
        }
    }

    /// What the reading `now` means in this state.
    pub open spec fn tick(self, now: u64) -> Tick {
        if now < self.last_timestamp {
            Tick::Regressed
        } else if !encodable(now) {
            Tick::Unencodable
        } else if self.exhausted_at(now) {
            Tick::Exhausted
        } else {
            Tick::Issued(
                identifier(now, self.datacenter_id, self.worker_id, self.sequence_at(now)) as u64,
            )
        }
    }

    /// The state after the reading `now`: advanced where an identifier is
    /// issued, unchanged otherwise.
    pub open spec fn after(self, now: u64) -> GeneratorState {
        if self.tick(now) is Issued {
            GeneratorState { last_timestamp: now, sequence: self.sequence_at(now), ..self }
        } else {
            self
        }
    }

    /// The state after a series of readings.
    pub open spec fn after_all(self, readings: Seq<u64>) -> GeneratorState
        decreases readings.len(),
    {
        if readings.len() == 0 {
            self
        } else {
            self.after(readings[0]).after_all(readings.skip(1))
        }
    }

    /// The identifiers that a series of readings yields, in order.
    pub open spec fn issued(self, readings: Seq<u64>) -> Seq<u64>
        decreases readings.len(),
    {
        if readings.len() == 0 {
            Seq::empty()
        } else {
            let rest = self.after(readings[0]).issued(readings.skip(1));
            match self.tick(readings[0]) {
                Tick::Issued(id) => seq![id] + rest,
                _ => rest,
            }
        }
    }

    /// Whether `id` carries this generator's worker and datacenter and a
    /// (timestamp, sequence) key after that of the last identifier issued.
    pub open spec fn precedes(self, id: u64) -> bool {
        &&& id < 0x8000_0000_0000_0000
        &&& worker_of(id) == self.worker_id
        &&& datacenter_of(id) == self.datacenter_id
        &&& encodable(timestamp_of(id) as u64)
        &&& key_before(
            self.last_timestamp as int,
            self.sequence as int,
            timestamp_of(id),
            sequence_of(id),
        )
    }
}

/// A reading never takes a generator out of its valid states, never changes
/// whom it issues for, and never sets its last timestamp back.
pub proof fn lemma_after_valid(s: GeneratorState, now: u64)
    requires
        s.valid(),
    ensures
        s.after(now).valid(),
        s.after(now).worker_id == s.worker_id,
        s.after(now).datacenter_id == s.datacenter_id,
        s.after(now).last_timestamp >= s.last_timestamp,
{
}

/// An identifier just issued decodes to the reading it was issued at, to the
/// generator's worker and datacenter, and to the sequence number the
/// generator then holds.
pub proof fn lemma_issued_decodes(s: GeneratorState, now: u64)
    requires
        s.valid(),
        s.tick(now) is Issued,
    ensures
        s.tick(now)->Issued_0 < 0x8000_0000_0000_0000,
        timestamp_of(s.tick(now)->Issued_0) == now,
        datacenter_of(s.tick(now)->Issued_0) == s.datacenter_id,
        worker_of(s.tick(now)->Issued_0) == s.worker_id,
        sequence_of(s.tick(now)->Issued_0) == s.after(now).sequence,
        s.after(now).last_timestamp == now,
{
    lemma_fields_round_trip(now, s.datacenter_id, s.worker_id, s.sequence_at(now));
}

/// Each identifier has a (timestamp, sequence) key strictly after that of the
/// identifier issued before it.
pub proof fn lemma_key_advances(s: GeneratorState, now: u64)
    requires
        s.valid(),
        s.tick(now) is Issued,
    ensures
        s.precedes(s.tick(now)->Issued_0),
        key_before(
            s.last_timestamp as int,
            s.sequence as int,
            s.after(now).last_timestamp as int,
            s.after(now).sequence as int,
        ),
{
    lemma_issued_decodes(s, now);
}

/// A reading that lies before the last identifier's millisecond is refused
/// and forgotten: the generator then treats every later reading as if the
/// refused one had never been made.
pub proof fn lemma_regression_leaves_no_trace(s: GeneratorState, early: u64, now: u64)
    requires
        early < s.last_timestamp,
    ensures
        s.tick(early) == Tick::Regressed,
        s.after(early) == s,
        s.after(early).tick(now) == s.tick(now),
        s.after(early).after(now) == s.after(now),
{
}

/// One more reading at the end of a series is one more step from the state
/// the series led to: it adds the identifier of that step, if there is one,
/// to those issued before.
pub proof fn lemma_one_more_reading(s: GeneratorState, readings: Seq<u64>, now: u64)
    ensures
        s.after_all(readings.push(now)) == s.after_all(readings).after(now),
        s.issued(readings.push(now)) == s.issued(readings) + match s.after_all(readings).tick(now) {
            Tick::Issued(id) => seq![id],
            _ => Seq::empty(),
        },
    decreases readings.len(),
{
    let longer = readings.push(now);
    let last = match s.after_all(readings).tick(now) {
        Tick::Issued(id) => seq![id],
        _ => Seq::<u64>::empty(),
    };
    if readings.len() == 0 {
        assert(longer.skip(1) =~= Seq::<u64>::empty());
        assert(s.after(now).after_all(longer.skip(1)) == s.after(now));
        assert(s.after(now).issued(longer.skip(1)) =~= Seq::<u64>::empty());
        assert(s.issued(longer) =~= s.issued(readings) + last);
    } else {
        let next = s.after(readings[0]);
        assert(longer[0] == readings[0]);
        assert(longer.skip(1) =~= readings.skip(1).push(now));
        lemma_one_more_reading(next, readings.skip(1), now);
        assert(s.after_all(longer) == next.after_all(longer.skip(1)));
        assert(s.issued(longer) =~= s.issued(readings) + last);
    }
}

/// Every identifier that a series of readings yields carries the
/// generator's worker and datacenter, and a key after the one the generator
/// started from.
pub proof fn lemma_issued_follow(s: GeneratorState, readings: Seq<u64>, k: int)
    requires
        s.valid(),
        0 <= k < s.issued(readings).len(),
    ensures
        s.precedes(s.issued(readings)[k]),
    decreases readings.len(),
{
    let now = readings[0];
    let next = s.after(now);
    let rest = next.issued(readings.skip(1));
    lemma_after_valid(s, now);
    if s.tick(now) is Issued {
        lemma_key_advances(s, now);
        if k > 0 {
            lemma_issued_follow(next, readings.skip(1), k - 1);
            assert(s.issued(readings)[k] == rest[k - 1]);
        }
    } else {
        lemma_issued_follow(next, readings.skip(1), k);
    }
}

/// Whatever the clock reads, the identifiers of one generator come out in
/// strictly increasing order, both as numbers and by their (timestamp,
/// sequence) keys.
pub proof fn lemma_issued_strictly_increasing(
    s: GeneratorState,
    readings: Seq<u64>,
    i: int,
    j: int,
)
    requires
        s.valid(),
        0 <= i < j < s.issued(readings).len(),
    ensures
        s.issued(readings)[i] < s.issued(readings)[j],
        key_before(
            timestamp_of(s.issued(readings)[i]),
            sequence_of(s.issued(readings)[i]),
            timestamp_of(s.issued(readings)[j]),
            sequence_of(s.issued(readings)[j]),
        ),
    decreases readings.len(),
{
    let now = readings[0];
    let next = s.after(now);
    let rest = next.issued(readings.skip(1));
    lemma_after_valid(s, now);
    lemma_issued_follow(s, readings, i);
    lemma_issued_follow(s, readings, j);
    if s.tick(now) is Issued {
        assert(s.issued(readings)[j] == rest[j - 1]);
        if i == 0 {
            lemma_issued_decodes(s, now);
            lemma_issued_follow(next, readings.skip(1), j - 1);
        } else {
            assert(s.issued(readings)[i] == rest[i - 1]);
            lemma_issued_strictly_increasing(next, readings.skip(1), i - 1, j - 1);
        }
    } else {
        lemma_issued_strictly_increasing(next, readings.skip(1), i, j);
    }
    lemma_identifiers_sort_by_key(s.issued(readings)[i], s.issued(readings)[j]);
}

/// A generator never issues the same identifier twice.
pub proof fn lemma_issued_distinct(s: GeneratorState, readings: Seq<u64>, i: int, j: int)
    requires
        s.valid(),
        0 <= i < s.issued(readings).len(),
        0 <= j < s.issued(readings).len(),
        i != j,
    ensures
        s.issued(readings)[i] != s.issued(readings)[j],
{
    if i < j {
        lemma_issued_strictly_increasing(s, readings, i, j);
    } else {
        lemma_issued_strictly_increasing(s, readings, j, i);
    }
}

/// Two generators for different (worker, datacenter) pairs never issue the
/// same identifier, whatever their clocks read.
pub proof fn lemma_generators_never_collide(
    s1: GeneratorState,
    readings1: Seq<u64>,
    i: int,
    s2: GeneratorState,
    readings2: Seq<u64>,
    j: int,
)
    requires
        s1.valid(),
        s2.valid(),
        s1.worker_id != s2.worker_id || s1.datacenter_id != s2.datacenter_id,
        0 <= i < s1.issued(readings1).len(),
        0 <= j < s2.issued(readings2).len(),
    ensures
        s1.issued(readings1)[i] != s2.issued(readings2)[j],
{
    lemma_issued_follow(s1, readings1, i);
    lemma_issued_follow(s2, readings2, j);
}

/// While sequence numbers are left in the millisecond of the last
/// identifier, each further reading of that millisecond yields the
/// identifier with the next sequence number.
pub proof fn lemma_same_millisecond(s: GeneratorState, n: nat)
    requires
        s.valid(),
        encodable(s.last_timestamp),
        s.sequence + n <= MAX_SEQUENCE,
    ensures
        ({
            let readings = Seq::new(n, |i: int| s.last_timestamp);
            &&& s.issued(readings).len() == n
            &&& forall|k: int|
                0 <= k < n ==> s.issued(readings)[k] == identifier(
                    s.last_timestamp,
                    s.datacenter_id,
                    s.worker_id,
                    (s.sequence + 1 + k) as u64,
                )
            &&& s.after_all(readings) == GeneratorState { sequence: (s.sequence + n) as u64, ..s }
        }),
    decreases n,
{
    let now = s.last_timestamp;
    let readings = Seq::new(n, |i: int| now);
    if n > 0 {
        let next = s.after(now);
        lemma_after_valid(s, now);
        lemma_same_millisecond(next, (n - 1) as nat);
        assert(readings.skip(1) =~= Seq::new((n - 1) as nat, |i: int| now));
        let rest = next.issued(readings.skip(1));
        assert forall|k: int| 0 <= k < n implies s.issued(readings)[k] == identifier(
            now,
            s.datacenter_id,
            s.worker_id,
            (s.sequence + 1 + k) as u64,
        ) by {
            lemma_fields_round_trip(now, s.datacenter_id, s.worker_id, s.sequence_at(now));
            if k > 0 {
                assert(s.issued(readings)[k] == rest[k - 1]);
            }
        }
    }
}

/// One millisecond holds 4096 identifiers and no more. A generator that
/// reads the same new millisecond again and again issues sequence numbers 0
/// to 4095 for it; the reading after those issues nothing and changes
/// nothing; and the first later reading issues sequence number 0 of its own
/// millisecond.
pub proof fn lemma_sequence_rolls_over(s: GeneratorState, now: u64, later: u64)
    requires
        s.valid(),
        s.last_timestamp < now < later,
        encodable(now),
        encodable(later),
    ensures
        ({
            let readings = Seq::new(4096, |i: int| now);
            let full = s.after_all(readings);
            &&& s.issued(readings).len() == 4096
            &&& forall|k: int|
                0 <= k < 4096 ==> s.issued(readings)[k] == identifier(
                    now,
                    s.datacenter_id,
                    s.worker_id,
                    k as u64,
                )
            &&& full.tick(now) == Tick::Exhausted
            &&& full.after(now) == full
            &&& full.tick(later) == Tick::Issued(
                identifier(later, s.datacenter_id, s.worker_id, 0) as u64,
            )
            &&& full.after(later).last_timestamp == later
            &&& full.after(later).sequence == 0
        }),
{
    let readings = Seq::new(4096, |i: int| now);
    let first = s.after(now);
    lemma_after_valid(s, now);
    lemma_same_millisecond(first, 4095);
    assert(readings.skip(1) =~= Seq::new(4095, |i: int| first.last_timestamp));
    let rest = first.issued(readings.skip(1));
    lemma_fields_round_trip(now, s.datacenter_id, s.worker_id, 0);
    lemma_fields_round_trip(later, s.datacenter_id, s.worker_id, 0);
    assert forall|k: int| 0 <= k < 4096 implies s.issued(readings)[k] == identifier(
        now,
        s.datacenter_id,
        s.worker_id,
        k as u64,
    ) by {
        if k > 0 {
            assert(s.issued(readings)[k] == rest[k - 1]);
        }
    }
}

/// A generator whose millisecond is spent issues next in a later
/// millisecond, with sequence number 0.
pub proof fn lemma_spent_millisecond_is_left(s: GeneratorState, now: u64)
    requires
        s.valid(),
        s.sequence == MAX_SEQUENCE,
        s.tick(now) is Issued,
    ensures
        now > s.last_timestamp,
        timestamp_of(s.tick(now)->Issued_0) == now,
        sequence_of(s.tick(now)->Issued_0) == 0,
{
    lemma_issued_decodes(s, now);
}

} // verus!
