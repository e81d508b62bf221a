//! Data model of the registry: slots, bookings, outcomes, and the spec
//! functions that state their invariants and the fee computation.

use vstd::prelude::*;

verus! {

/// An account identity, as free-form text.
pub type AccountId = String;

/// Conversion factor from a fee unit to the payment channel's base unit.
pub const YOCTO_PER_UNIT: u128 = 1_000_000_000_000_000_000_000_000;

/// A reservable parking slot. `slot_id` equals the slot's position in the
/// registry at the moment of insertion and is never reassigned.
#[derive(Debug)]
pub struct ParkingSlot {
    pub slot_id: u32,
    pub price: u128,
    pub location: String,
    pub status: String,
}

/// A recorded reservation against a slot. `ticket_no` equals the ledger's
/// size at the moment of insertion and is never reused.
#[derive(Debug)]
pub struct Booking {
    pub ticket_no: u32,
    pub slot_id: u32,
    pub reg_no: String,
    pub duration: u128,
    pub amount_paid: u128,
    pub owner: AccountId,
}

/// A vehicle record: part of the data model, not consulted by any operation.
#[derive(Debug)]
pub struct Vehicle {
    pub reg_no: String,
    pub owner: AccountId,
    pub phone_no: String,
}

/// A request to the payment channel: move `amount` base units into the
/// custody of `destination`. The registry issues these; the host performs
/// them and never reports back.
#[derive(Debug)]
pub struct TransferRequest {
    pub amount: u128,
    pub destination: AccountId,
}

/// Outcome of a slot-creation attempt.
#[derive(Debug, PartialEq, Eq, Structural)]
pub enum CreateOutcome {
    /// The caller was the controller and the slot was appended.
    Applied,
    /// The caller was not the controller; the registry is unchanged.
    Denied,
}

/// Outcome of a booking attempt.
#[derive(Debug)]
pub enum BookOutcome {
    /// A slot matched: the booking was appended and this transfer request
    /// must be handed to the payment channel.
    Booked(TransferRequest),
    /// A slot matched but the fee would not fit in 128 bits, scaled to base
    /// units; the booking was rejected and the ledger is unchanged.
    RejectedOverflow,
    /// No slot carries the requested identifier; the ledger is unchanged.
    NotFound,
}

/// Slot identifiers are dense and match their positions.
pub open spec fn slot_ids_dense(slots: Seq<ParkingSlot>) -> bool {
    forall|i: int| 0 <= i < slots.len() ==> (#[trigger] slots[i].slot_id) == i
}

/// Ticket numbers are dense and match their positions.
pub open spec fn ticket_numbers_dense(bookings: Seq<Booking>) -> bool {
    forall|i: int| 0 <= i < bookings.len() ==> (#[trigger] bookings[i].ticket_no) == i
}

/// Some slot in the sequence carries the identifier `slot_id`.
pub open spec fn spec_has_slot(slots: Seq<ParkingSlot>, slot_id: u32) -> bool {
    exists|i: int| 0 <= i < slots.len() && (#[trigger] slots[i].slot_id) == slot_id
}

/// The fee of a booking: the slot's price times the requested duration.
pub open spec fn spec_fee(price: u128, duration: u128) -> int {
    price * duration
}

/// The fee scaled to the payment channel's base unit.
pub open spec fn spec_scaled_fee(price: u128, duration: u128) -> int {
    price * duration * (YOCTO_PER_UNIT as int)
}

/// Both the fee and its scaled form fit in 128 bits. Bookings whose fee does
/// not fit are rejected outright rather than silently wrapped.
pub open spec fn fee_fits(price: u128, duration: u128) -> bool {
    &&& spec_fee(price, duration) <= u128::MAX
    &&& spec_scaled_fee(price, duration) <= u128::MAX
}

/// The slot that a successful creation appends: identifier `id`, the given
/// price and location, and the `"available"` status.
pub open spec fn is_fresh_slot(slot: ParkingSlot, id: u32, price: u128, location: String) -> bool {
    &&& slot.slot_id == id
    &&& slot.price == price
    &&& slot.location == location
    &&& slot.status@ == "available"@
}

/// The booking that a successful match appends: the next ticket number, the
/// caller as owner, and a fee of exactly the matched slot's price times the
/// requested duration.
pub open spec fn spec_booked_entry(
    slots: Seq<ParkingSlot>,
    bookings: Seq<Booking>,
    caller: AccountId,
    slot_id: u32,
    reg_no: String,
    duration: u128,
) -> Booking {
    Booking {
        ticket_no: bookings.len() as u32,
        slot_id,
        reg_no,
        duration,
        amount_paid: spec_fee(slots[slot_id as int].price, duration) as u128,
        owner: caller,
    }
}

/// The transfer request that a successful match issues: the fee scaled to
/// base units, destined for the registry's custodial identity.
pub open spec fn spec_transfer(
    slots: Seq<ParkingSlot>,
    destination: AccountId,
    slot_id: u32,
    duration: u128,
) -> TransferRequest {
    TransferRequest {
        amount: spec_scaled_fee(slots[slot_id as int].price, duration) as u128,
        destination,
    }
}

/// Under dense identifiers, a slot with identifier `slot_id` exists exactly
/// when `slot_id` is a position of the sequence.
pub proof fn lemma_has_slot_iff_in_range(slots: Seq<ParkingSlot>, slot_id: u32)
    requires
        slot_ids_dense(slots),
    ensures
        spec_has_slot(slots, slot_id) <==> (slot_id as int) < slots.len(),
{
    if (slot_id as int) < slots.len() {
        assert(slots[slot_id as int].slot_id == slot_id);
    }
}

} // verus!
