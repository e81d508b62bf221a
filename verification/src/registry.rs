//! The registry itself: controller identity, slot collection, booking
//! ledger, and the mutating and read-only operations over them.

use vstd::prelude::*;

use crate::types::{
    fee_fits, is_fresh_slot, lemma_has_slot_iff_in_range, slot_ids_dense, spec_booked_entry,
    spec_has_slot, spec_transfer, ticket_numbers_dense, AccountId, BookOutcome, Booking,
    CreateOutcome, ParkingSlot, TransferRequest, YOCTO_PER_UNIT,
};

verus! {

/// The registry state: the controlling identity fixed at construction, the
/// append-only slot collection, and the append-only booking ledger. The
/// collections are never exposed for external mutation, only for read-only
/// projection.
pub struct Contract {
    owner: AccountId,
    parking_slots: Vec<ParkingSlot>,
    bookings: Vec<Booking>,
}

impl Contract {
    /// The identity the registry was constructed with.
    pub closed spec fn spec_owner(self) -> AccountId {
        self.owner
    }

    /// The current slot collection, in insertion order.
    pub closed spec fn spec_slots(self) -> Seq<ParkingSlot> {
        self.parking_slots@
    }

    /// The current booking ledger, in insertion order.
    pub closed spec fn spec_bookings(self) -> Seq<Booking> {
        self.bookings@
    }

    /// Well-formedness: slot identifiers and ticket numbers are dense and
    /// match positions, and both collections are small enough that the next
    /// identifier still fits in 32 bits.
    pub open spec fn wf(self) -> bool {
        &&& slot_ids_dense(self.spec_slots())
        &&& ticket_numbers_dense(self.spec_bookings())
        &&& self.spec_slots().len() <= u32::MAX
        &&& self.spec_bookings().len() <= u32::MAX
    }

    /// Creates a registry controlled by `owner`, with no slots and no
    /// bookings.
    pub fn new(owner: AccountId) -> (result: Contract)
        ensures
            result.wf(),
            result.spec_owner() == owner,
            result.spec_slots().len() == 0,
            result.spec_bookings().len() == 0,
    {
        let parking_slots: Vec<ParkingSlot> = Vec::new();
        let bookings: Vec<Booking> = Vec::new();
        Contract { owner, parking_slots, bookings }
    }

    /// Reassembles a registry from persisted parts, accepting them exactly
    /// when they satisfy the registry's invariants: dense slot identifiers,
    /// dense ticket numbers, and collections small enough that the next
    /// identifier still fits in 32 bits.
    pub fn from_parts(
        owner: AccountId,
        parking_slots: Vec<ParkingSlot>,
        bookings: Vec<Booking>,
    ) -> (result: Option<Contract>)
        ensures
            result matches Some(c) ==> {
                &&& c.wf()
                &&& c.spec_owner() == owner
                &&& c.spec_slots() == parking_slots@
                &&& c.spec_bookings() == bookings@
            },
            (result is Some) <==> {
                &&& slot_ids_dense(parking_slots@)
                &&& ticket_numbers_dense(bookings@)
                &&& parking_slots@.len() <= u32::MAX
                &&& bookings@.len() <= u32::MAX
            },
    {
        if parking_slots.len() > u32::MAX as usize {
            return None;
        }
        if bookings.len() > u32::MAX as usize {
            return None;
        }
        let mut i: usize = 0;
        while i < parking_slots.len()
            invariant
                i <= parking_slots@.len() <= u32::MAX,
                forall|j: int| 0 <= j < i ==> (#[trigger] parking_slots@[j].slot_id) == j,
            decreases parking_slots@.len() - i,
        {
            if parking_slots[i].slot_id as usize != i {
                return None;
            }
            i += 1;
        }
        let mut k: usize = 0;
        while k < bookings.len()
            invariant
                k <= bookings@.len() <= u32::MAX,
                slot_ids_dense(parking_slots@),
                parking_slots@.len() <= u32::MAX,
                forall|j: int| 0 <= j < k ==> (#[trigger] bookings@[j].ticket_no) == j,
            decreases bookings@.len() - k,
        {
            if bookings[k].ticket_no as usize != k {
                return None;
            }
            k += 1;
        }
        Some(Contract { owner, parking_slots, bookings })
    }

    /// Appends a slot priced `price` at `location` when `caller` is
    /// `controller`; any other caller leaves the registry unchanged. The new
    /// slot takes the next position as its identifier and starts with the
    /// `"available"` status. The ledger and the controller never change.
    pub fn add_parking_slot(
        &mut self,
        caller: &AccountId,
        controller: &AccountId,
        price: u128,
        location: String,
    ) -> (result: CreateOutcome)
        requires
            old(self).wf(),
            old(self).spec_slots().len() < u32::MAX,
        ensures
            final(self).wf(),
            final(self).spec_owner() == old(self).spec_owner(),
            final(self).spec_bookings() == old(self).spec_bookings(),
            (result == CreateOutcome::Applied) <==> caller@ == controller@,
            caller@ != controller@ ==> *final(self) == *old(self),
            caller@ == controller@ ==> {
                &&& final(self).spec_slots().len() == old(self).spec_slots().len() + 1
                &&& final(self).spec_slots().drop_last() == old(self).spec_slots()
                &&& is_fresh_slot(
                    final(self).spec_slots().last(),
                    old(self).spec_slots().len() as u32,
                    price,
                    location,
                )
            },
    {
        let slot_id: u32 = self.parking_slots.len() as u32;
        let slot = ParkingSlot { slot_id, price, location, status: "available".to_owned() };

        if caller.eq(controller) {
            self.parking_slots.push(slot);
            proof {
                assert(self.spec_slots().drop_last() =~= old(self).spec_slots());
            }
            CreateOutcome::Applied
        } else {
            CreateOutcome::Denied
        }
    }

    /// Books the slot carrying `slot_id`, scanning the whole collection and
    /// processing every slot that matches; under well-formedness at most one
    /// does. Each match appends a booking owned by `caller`, with the next
    /// ticket number and a fee of exactly the slot's price times `duration`,
    /// and issues a transfer request of the fee, scaled to base units, to the
    /// registry's custodial identity `controller`. A fee that does not fit in
    /// 128 bits, before or after scaling, rejects the match outright: nothing
    /// is appended and no transfer is issued. An unknown `slot_id` changes
    /// nothing. No caller is ever refused: there is no access control here.
    pub fn book_a_slot(
        &mut self,
        caller: &AccountId,
        controller: &AccountId,
        slot_id: u32,
        reg_no: String,
        duration: u128,
    ) -> (result: BookOutcome)
        requires
            old(self).wf(),
            old(self).spec_bookings().len() < u32::MAX,
        ensures
            final(self).wf(),
            final(self).spec_owner() == old(self).spec_owner(),
            final(self).spec_slots() == old(self).spec_slots(),
            (result is NotFound) <==> !spec_has_slot(old(self).spec_slots(), slot_id),
            !spec_has_slot(old(self).spec_slots(), slot_id) ==> *final(self) == *old(self),
            spec_has_slot(old(self).spec_slots(), slot_id) ==> ({
                let price = old(self).spec_slots()[slot_id as int].price;
                &&& ((result is Booked) <==> fee_fits(price, duration))
                &&& ((result is RejectedOverflow) <==> !fee_fits(price, duration))
                &&& (fee_fits(price, duration) ==> final(self).spec_bookings()
                    == old(self).spec_bookings().push(
                    spec_booked_entry(
                        old(self).spec_slots(),
                        old(self).spec_bookings(),
                        *caller,
                        slot_id,
                        reg_no,
                        duration,
                    ),
                ))
                &&& (!fee_fits(price, duration) ==> *final(self) == *old(self))
            }),
            result matches BookOutcome::Booked(transfer) ==> transfer == spec_transfer(
                old(self).spec_slots(),
                *controller,
                slot_id,
                duration,
            ),
    {
        let ghost s = self.parking_slots@;
        let ghost b0 = self.bookings@;
        let mut matched = false;
        let mut overflowed = false;
        let mut transfer: Option<TransferRequest> = None;
        let n = self.parking_slots.len();
        let mut idx: usize = 0;
        while idx < n
            invariant
                idx <= n,
                n == self.parking_slots@.len(),
                self.parking_slots == old(self).parking_slots,
                s == self.parking_slots@,
                self.owner == old(self).owner,
                b0 == old(self).bookings@,
                slot_ids_dense(s),
                ticket_numbers_dense(b0),
                b0.len() < u32::MAX,
                matched <==> (slot_id as int) < idx,
                !matched ==> self.bookings == old(self).bookings && transfer is None
                    && !overflowed,
                matched ==> overflowed == !fee_fits(s[slot_id as int].price, duration),
                matched && !overflowed ==> self.bookings@ == b0.push(
                    spec_booked_entry(s, b0, *caller, slot_id, reg_no, duration),
                ) && transfer == Some(spec_transfer(s, *controller, slot_id, duration)),
                matched && overflowed ==> self.bookings == old(self).bookings && transfer is None,
            decreases n - idx,
        {
            proof {
                assert(s[idx as int].slot_id == idx as u32);
            }
            if self.parking_slots[idx].slot_id == slot_id {
                let price = self.parking_slots[idx].price;
                match price.checked_mul(duration) {
                    Some(amount) => match amount.checked_mul(YOCTO_PER_UNIT) {
                        Some(scaled) => {
                            let ticket_no: u32 = self.bookings.len() as u32;
                            let booking = Booking {
                                ticket_no,
                                slot_id,
                                reg_no: reg_no.clone(),
                                duration,
                                amount_paid: amount,
                                owner: caller.clone(),
                            };
                            transfer = Some(
                                TransferRequest { amount: scaled, destination: controller.clone() },
                            );
                            self.bookings.push(booking);
                            matched = true;
                        },
                        None => {
                            matched = true;
                            overflowed = true;
                        },
                    },
                    None => {
                        matched = true;
                        overflowed = true;
                    },
                }
            }
            idx += 1;
        }
        proof {
            lemma_has_slot_iff_in_range(s, slot_id);
            if matched && !overflowed {
                assert forall|i: int| 0 <= i < self.bookings@.len() implies (#[trigger] self
                    .bookings@[i].ticket_no) == i by {
                    if i < b0.len() {
                        assert(self.bookings@[i] == b0[i]);
                    }
                }
            }
        }
        if matched {
            if overflowed {
                BookOutcome::RejectedOverflow
            } else {
                BookOutcome::Booked(transfer.unwrap())
            }
        } else {
            BookOutcome::NotFound
        }
    }

    /// The full slot collection, in insertion order; callable by anyone.
    pub fn view_parking_slots(&self) -> (result: &Vec<ParkingSlot>)
        ensures
            result@ == self.spec_slots(),
    {
        &self.parking_slots
    }

    /// The full booking ledger, in insertion order; callable by anyone.
    pub fn view_bookings(&self) -> (result: &Vec<Booking>)
        ensures
            result@ == self.spec_bookings(),
    {
        &self.bookings
    }

    /// The registry's controlling identity.
    pub fn view_owner(&self) -> (result: &AccountId)
        ensures
            result == self.spec_owner(),
    {
        &self.owner
    }
}

} // verus!
