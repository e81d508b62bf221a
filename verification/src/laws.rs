//! The registry's laws, stated over the spec-level views of its state.

use vstd::prelude::*;

use crate::registry::Contract;
use crate::types::{Booking, ParkingSlot};

verus! {

/// Slot identifiers are dense and monotonic: in every well-formed registry,
/// the slot at position `i` carries identifier `i`.
pub proof fn lemma_slot_ids_match_positions(c: Contract)
    requires
        c.wf(),
    ensures
        forall|i: int|
            0 <= i < c.spec_slots().len() ==> (#[trigger] c.spec_slots()[i].slot_id) == i,
{
}

/// Ticket numbers are dense and monotonic: in every well-formed registry,
/// the booking at position `i` carries ticket number `i`.
pub proof fn lemma_ticket_numbers_match_positions(c: Contract)
    requires
        c.wf(),
    ensures
        forall|i: int|
            0 <= i < c.spec_bookings().len() ==> (#[trigger] c.spec_bookings()[i].ticket_no) == i,
{
}

/// Reads are idempotent: two projections of the same registry state, with no
/// intervening mutation, observe identical sequences.
pub proof fn lemma_reads_idempotent(
    c: Contract,
    slots1: Seq<ParkingSlot>,
    slots2: Seq<ParkingSlot>,
    bookings1: Seq<Booking>,
    bookings2: Seq<Booking>,
)
    requires
        slots1 == c.spec_slots(),
        slots2 == c.spec_slots(),
        bookings1 == c.spec_bookings(),
        bookings2 == c.spec_bookings(),
    ensures
        slots1 == slots2,
        bookings1 == bookings2,
{
}

} // verus!
