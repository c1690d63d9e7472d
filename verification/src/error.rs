//! The error messages.
//!
//! Every error is a static text. Each text names one condition, and no two
//! conditions share a text.

use vstd::prelude::*;

verus! {

/// A worker or datacenter identifier is above 31.
pub const ID_OUT_OF_RANGE: &'static str = "Worker ID or Datacenter ID is out of range";

/// The clock reads earlier than the millisecond of the last identifier issued.
pub const CLOCK_MOVED_BACKWARDS: &'static str = "Clock moved backwards. Refusing to generate id.";

/// The clock reads before the epoch of the timestamp field, or beyond what
/// the field can hold.
pub const CLOCK_OUT_OF_RANGE: &'static str =
    "Clock is outside the range of the timestamp field. Refusing to generate id.";

/// The clock does not move on from a millisecond whose sequence numbers are
/// all spent.
pub const CLOCK_STALLED: &'static str = "Clock did not advance. Refusing to generate id.";

/// The four messages are four different texts: a caller can tell the errors
/// apart by comparing against the constants.
pub proof fn lemma_errors_differ()
    ensures
        ID_OUT_OF_RANGE@ != CLOCK_MOVED_BACKWARDS@,
        ID_OUT_OF_RANGE@ != CLOCK_OUT_OF_RANGE@,
        ID_OUT_OF_RANGE@ != CLOCK_STALLED@,
        CLOCK_MOVED_BACKWARDS@ != CLOCK_OUT_OF_RANGE@,
        CLOCK_MOVED_BACKWARDS@ != CLOCK_STALLED@,
        CLOCK_OUT_OF_RANGE@ != CLOCK_STALLED@,
{
    reveal_strlit("Worker ID or Datacenter ID is out of range");
    reveal_strlit("Clock moved backwards. Refusing to generate id.");
    reveal_strlit("Clock is outside the range of the timestamp field. Refusing to generate id.");
    reveal_strlit("Clock did not advance. Refusing to generate id.");
    assert(ID_OUT_OF_RANGE@[0] == 'W');
    assert(CLOCK_MOVED_BACKWARDS@[6] == 'm');
    assert(CLOCK_OUT_OF_RANGE@[6] == 'i');
    assert(CLOCK_STALLED@[6] == 'd');
}

} // verus!
