//! The bit layout of an identifier.
//!
//! From the most significant bit down, an identifier holds one unused bit,
//! 41 bits of milliseconds since [`EPOCH`], 5 bits of datacenter, 5 bits of
//! worker and a 12-bit sequence number. The layout is stated here as plain
//! arithmetic; the shifts and masks that compute it are proved against that
//! statement.

use vstd::prelude::*;
use vstd::arithmetic::div_mod::lemma_fundamental_div_mod_converse;

verus! {

/// 2021-01-01T00:00:00Z in milliseconds since the Unix epoch. Every
/// identifier's timestamp field counts from this instant, so the field lasts
/// until the year 2090.
pub const EPOCH: u64 = 1609459200000;

/// Width of the worker field.
pub const WORKER_ID_BITS: u64 = 5;

/// Width of the datacenter field.
pub const DATACENTER_ID_BITS: u64 = 5;

/// Width of the sequence field.
pub const SEQUENCE_BITS: u64 = 12;

/// Width of the timestamp field.
pub const TIMESTAMP_BITS: u64 = 41;

/// Largest worker identifier.
pub const MAX_WORKER_ID: u64 = 31;

/// Largest datacenter identifier.
pub const MAX_DATACENTER_ID: u64 = 31;

/// Largest sequence number within one millisecond.
pub const MAX_SEQUENCE: u64 = 4095;

/// Largest number of milliseconds since [`EPOCH`] that the timestamp field holds.
pub const MAX_ELAPSED: u64 = 2199023255551;

/// Position of the timestamp field.
pub const TIMESTAMP_SHIFT: u64 = 22;

/// Position of the datacenter field.
pub const DATACENTER_ID_SHIFT: u64 = 17;

/// Position of the worker field.
pub const WORKER_ID_SHIFT: u64 = 12;

/// Whether a wall-clock reading, in milliseconds since the Unix epoch, can be
/// written into the timestamp field.
pub open spec fn encodable(timestamp: u64) -> bool {
    EPOCH <= timestamp <= EPOCH + MAX_ELAPSED
}

/// Whether the three small fields are within their widths.
pub open spec fn fields_fit(datacenter_id: u64, worker_id: u64, sequence: u64) -> bool {
    &&& datacenter_id <= MAX_DATACENTER_ID
    &&& worker_id <= MAX_WORKER_ID
    &&& sequence <= MAX_SEQUENCE
}

/// The identifier made of the four fields.
pub open spec fn identifier(timestamp: u64, datacenter_id: u64, worker_id: u64, sequence: u64) -> int {
    (timestamp - EPOCH) * 0x40_0000 + datacenter_id * 0x2_0000 + worker_id * 0x1000 + sequence
}

/// The wall-clock millisecond that an identifier was issued in.
pub open spec fn timestamp_of(id: u64) -> int {
    id as int / 0x40_0000 + EPOCH
}

/// The datacenter that issued an identifier.
pub open spec fn datacenter_of(id: u64) -> int {
    (id as int / 0x2_0000) % 32
}

/// The worker that issued an identifier.
pub open spec fn worker_of(id: u64) -> int {
    (id as int / 0x1000) % 32
}

/// The sequence number of an identifier within its millisecond.
pub open spec fn sequence_of(id: u64) -> int {
    id as int % 0x1000
}

/// Whether `(t1, s1)` comes before `(t2, s2)` when compared first by
/// timestamp and then by sequence number.
pub open spec fn key_before(t1: int, s1: int, t2: int, s2: int) -> bool {
    t1 < t2 || (t1 == t2 && s1 < s2)
}

/// The constants fit together: each field's largest value is all ones of
/// its width, each field starts where the one below it ends, the four fields
/// fill 63 bits, and the factors in [`identifier`] are the fields' positions.
pub proof fn lemma_layout_fits_together()
    ensures
        MAX_SEQUENCE == (1u64 << SEQUENCE_BITS) - 1,
        MAX_WORKER_ID == (1u64 << WORKER_ID_BITS) - 1,
        MAX_DATACENTER_ID == (1u64 << DATACENTER_ID_BITS) - 1,
        MAX_ELAPSED == (1u64 << TIMESTAMP_BITS) - 1,
        WORKER_ID_SHIFT == SEQUENCE_BITS,
        DATACENTER_ID_SHIFT == WORKER_ID_SHIFT + WORKER_ID_BITS,
        TIMESTAMP_SHIFT == DATACENTER_ID_SHIFT + DATACENTER_ID_BITS,
        TIMESTAMP_SHIFT + TIMESTAMP_BITS == 63,
        0x1000 == 1u64 << WORKER_ID_SHIFT,
        0x2_0000 == 1u64 << DATACENTER_ID_SHIFT,
        0x40_0000 == 1u64 << TIMESTAMP_SHIFT,
        EPOCH + MAX_ELAPSED <= u64::MAX,
{
    assert((1u64 << 12) - 1 == 4095) by (bit_vector);
    assert((1u64 << 5) - 1 == 31) by (bit_vector);
    assert((1u64 << 41) - 1 == 2199023255551) by (bit_vector);
    assert(0x1000 == 1u64 << 12) by (bit_vector);
    assert(0x2_0000 == 1u64 << 17) by (bit_vector);
    assert(0x40_0000 == 1u64 << 22) by (bit_vector);
}

/// Packs the four fields into an identifier.
pub(crate) fn compose(timestamp: u64, datacenter_id: u64, worker_id: u64, sequence: u64) -> (id: u64)
    requires
        encodable(timestamp),
        fields_fit(datacenter_id, worker_id, sequence),
    ensures
        id == identifier(timestamp, datacenter_id, worker_id, sequence),
{
    let elapsed: u64 = timestamp - EPOCH;
    assert(((elapsed << 22) | (datacenter_id << 17) | (worker_id << 12) | sequence) == elapsed
        * 0x40_0000 + datacenter_id * 0x2_0000 + worker_id * 0x1000 + sequence) by (bit_vector)
        requires
            elapsed <= 2199023255551,
            datacenter_id <= 31,
            worker_id <= 31,
            sequence <= 4095,
    ;
    (elapsed << TIMESTAMP_SHIFT) | (datacenter_id << DATACENTER_ID_SHIFT) | (worker_id
        << WORKER_ID_SHIFT) | sequence
}

/// An identifier fits in 63 bits: as a signed 64-bit number it is never negative.
pub proof fn lemma_identifier_fits(timestamp: u64, datacenter_id: u64, worker_id: u64, sequence: u64)
    requires
        encodable(timestamp),
        fields_fit(datacenter_id, worker_id, sequence),
    ensures
        0 <= identifier(timestamp, datacenter_id, worker_id, sequence) < 0x8000_0000_0000_0000,
{
}

/// Every field can be read back from an identifier.
pub proof fn lemma_fields_round_trip(timestamp: u64, datacenter_id: u64, worker_id: u64, sequence: u64)
    requires
        encodable(timestamp),
        fields_fit(datacenter_id, worker_id, sequence),
    ensures
        timestamp_of(identifier(timestamp, datacenter_id, worker_id, sequence) as u64) == timestamp,
        datacenter_of(identifier(timestamp, datacenter_id, worker_id, sequence) as u64)
            == datacenter_id,
        worker_of(identifier(timestamp, datacenter_id, worker_id, sequence) as u64) == worker_id,
        sequence_of(identifier(timestamp, datacenter_id, worker_id, sequence) as u64) == sequence,
{
    let elapsed: int = timestamp - EPOCH;
    let id: int = identifier(timestamp, datacenter_id, worker_id, sequence);
    lemma_fundamental_div_mod_converse(
        id,
        0x40_0000,
        elapsed,
        datacenter_id * 0x2_0000 + worker_id * 0x1000 + sequence,
    );
    lemma_fundamental_div_mod_converse(
        id,
        0x2_0000,
        elapsed * 32 + datacenter_id,
        worker_id * 0x1000 + sequence,
    );
    lemma_fundamental_div_mod_converse(elapsed * 32 + datacenter_id, 32, elapsed, datacenter_id as int);
    lemma_fundamental_div_mod_converse(
        id,
        0x1000,
        elapsed * 1024 + datacenter_id * 32 + worker_id,
        sequence as int,
    );
    lemma_fundamental_div_mod_converse(
        elapsed * 1024 + datacenter_id * 32 + worker_id,
        32,
        elapsed * 32 + datacenter_id,
        worker_id as int,
    );
}

/// The fields are the bit ranges of the layout: the sequence is the low 12
/// bits, the worker the next 5, the datacenter the next 5, and the elapsed
/// milliseconds everything above.
pub proof fn lemma_fields_are_bit_ranges(id: u64)
    ensures
        timestamp_of(id) == (id >> 22) + EPOCH,
        datacenter_of(id) == (id >> 17) & 31,
        worker_of(id) == (id >> 12) & 31,
        sequence_of(id) == id & 4095,
{
    assert(id / 0x40_0000 == id >> 22) by (bit_vector);
    assert((id / 0x2_0000) % 32 == (id >> 17) & 31) by (bit_vector);
    assert((id / 0x1000) % 32 == (id >> 12) & 31) by (bit_vector);
    assert(id % 0x1000 == id & 4095) by (bit_vector);
}

/// Two identifiers are equal only if all four of their fields are: generators
/// with different (datacenter, worker) pairs never issue the same identifier.
pub proof fn lemma_identifier_injective(
    t1: u64,
    d1: u64,
    w1: u64,
    s1: u64,
    t2: u64,
    d2: u64,
    w2: u64,
    s2: u64,
)
    requires
        encodable(t1),
        fields_fit(d1, w1, s1),
        encodable(t2),
        fields_fit(d2, w2, s2),
        identifier(t1, d1, w1, s1) == identifier(t2, d2, w2, s2),
    ensures
        t1 == t2,
        d1 == d2,
        w1 == w2,
        s1 == s2,
{
    lemma_fields_round_trip(t1, d1, w1, s1);
    lemma_fields_round_trip(t2, d2, w2, s2);
}

/// Every 64-bit number is made of the four fields it decodes to, and the
/// three small fields are within their widths.
pub proof fn lemma_identifier_of_fields(id: u64)
    ensures
        id == (timestamp_of(id) - EPOCH) * 0x40_0000 + datacenter_of(id) * 0x2_0000 + worker_of(id)
            * 0x1000 + sequence_of(id),
        EPOCH <= timestamp_of(id),
        0 <= datacenter_of(id) <= MAX_DATACENTER_ID,
        0 <= worker_of(id) <= MAX_WORKER_ID,
        0 <= sequence_of(id) <= MAX_SEQUENCE,
{
    assert(id == (id / 0x40_0000) * 0x40_0000 + ((id / 0x2_0000) % 32) * 0x2_0000 + ((id / 0x1000)
        % 32) * 0x1000 + id % 0x1000) by (bit_vector);
    assert((id / 0x2_0000) % 32 <= 31 && (id / 0x1000) % 32 <= 31 && id % 0x1000 <= 4095)
        by (bit_vector);
}

/// Identifiers of one worker and datacenter sort as their (timestamp,
/// sequence) keys do.
pub proof fn lemma_identifiers_sort_by_key(a: u64, b: u64)
    requires
        datacenter_of(a) == datacenter_of(b),
        worker_of(a) == worker_of(b),
    ensures
        a < b <==> key_before(timestamp_of(a), sequence_of(a), timestamp_of(b), sequence_of(b)),
{
    lemma_identifier_of_fields(a);
    lemma_identifier_of_fields(b);
}

} // verus!
