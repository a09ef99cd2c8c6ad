//! The mutable domain model of the shop and its transition operations:
//! chairs, the barber registry, the waiting queues, the open flag and the
//! customer counter. No knowledge of scheduling lives here.

use vstd::prelude::*;

use crate::barber_shop::Barber;
use crate::barber_shop::BarberId;
use crate::barber_shop::BarberShiftState;
use crate::barber_shop::Chair;
use crate::barber_shop::ClosingState;
use crate::barber_shop::CustomerArrivalResult;
use crate::barber_shop::CustomerId;
use crate::barber_shop::Haircut;

verus! {

/// Chairs in the shop under the default configuration.
pub const NUM_CHAIRS: usize = 4;

/// Seats in the waiting area under the default configuration.
pub const WAITING_ROOM_CAPACITY: usize = 4;

/// How many distinct barber names exist: a hard cap on the barbers ever
/// created in one run.
pub const NAME_POOL_SIZE: usize = 8;

/// The display name for the barber with the given sequential id.
pub open spec fn spec_barber_name(i: int) -> Seq<char> {
    if i == 0 {
        "Pat"@
    } else if i == 1 {
        "Kara"@
    } else if i == 2 {
        "Vanessa"@
    } else if i == 3 {
        "Arnold"@
    } else if i == 4 {
        "Kelly"@
    } else if i == 5 {
        "Russ"@
    } else if i == 6 {
        "Sidney"@
    } else {
        "Saul"@
    }
}

/// The name pool, as executable code.
pub fn barber_name(i: usize) -> (s: String)
    requires
        i < NAME_POOL_SIZE,
    ensures
        s@ == spec_barber_name(i as int),
{
    let n: &str = if i == 0 {
        "Pat"
    } else if i == 1 {
        "Kara"
    } else if i == 2 {
        "Vanessa"
    } else if i == 3 {
        "Arnold"
    } else if i == 4 {
        "Kelly"
    } else if i == 5 {
        "Russ"
    } else if i == 6 {
        "Sidney"
    } else {
        "Saul"
    };
    n.to_owned()
}

/// Chair index `i` is the first one whose customer slot is empty.
pub open spec fn is_first_free(chairs: Seq<Chair>, i: int) -> bool {
    &&& 0 <= i < chairs.len()
    &&& chairs[i].customer is None
    &&& forall|j: int| 0 <= j < i ==> (#[trigger] chairs[j]).customer is Some
}

/// Chair index `i` is the first one with no barber assigned.
pub open spec fn is_first_unstaffed(chairs: Seq<Chair>, i: int) -> bool {
    &&& 0 <= i < chairs.len()
    &&& chairs[i].barber is None
    &&& forall|j: int| 0 <= j < i ==> (#[trigger] chairs[j]).barber is Some
}

/// Some chair has an empty customer slot.
pub open spec fn has_free_chair(chairs: Seq<Chair>) -> bool {
    exists|i: int| 0 <= i < chairs.len() && (#[trigger] chairs[i]).customer is None
}

/// Some chair has no barber assigned.
pub open spec fn has_unstaffed_chair(chairs: Seq<Chair>) -> bool {
    exists|i: int| 0 <= i < chairs.len() && (#[trigger] chairs[i]).barber is None
}

/// Some chair still holds a customer.
pub open spec fn has_seated_customer(chairs: Seq<Chair>) -> bool {
    exists|i: int| 0 <= i < chairs.len() && (#[trigger] chairs[i]).customer is Some
}

/// Position `i` holds the first occurrence of `id` in the waiting queue.
pub open spec fn is_first_occurrence(q: Seq<CustomerId>, id: CustomerId, i: int) -> bool {
    &&& 0 <= i < q.len()
    &&& q[i] == id
    &&& forall|j: int| 0 <= j < i ==> #[trigger] q[j] != id
}

/// What a stale or live wait timer found.
#[derive(Clone, Copy, Debug, PartialEq, Eq, Structural)]
pub enum CustomerWaitOutcome {
    /// The customer was no longer in the queue: already seated or otherwise
    /// resolved. The timer fires unconditionally and this is its no-op case.
    Serviced,
    /// The customer was still waiting and has now left.
    Leaves,
}

/// The whole state of the shop for one simulated day.
#[derive(Debug)]
pub struct BarberShopState {
    /// Every barber ever created, indexed by their sequential id.
    pub barbers: Vec<Barber>,
    /// The fixed service stations.
    pub chairs: Vec<Chair>,
    /// Customers waiting for a chair, in arrival order; bounded.
    pub customers_waiting: Vec<CustomerId>,
    /// Barbers waiting for a chair, in hire order; unbounded.
    pub barbers_waiting: Vec<BarberId>,
    /// True between shop-open and shop-close.
    pub open: bool,
    /// Monotonically increasing source of customer ids; ids are never reused.
    pub customer_count: u32,
    /// Capacity of the waiting area.
    pub waiting_room_capacity: usize,
}

impl BarberShopState {
    /// Well-formedness: the waiting area respects its capacity, barber ids
    /// are sequential registry indices, and every barber id held by a chair
    /// or by the barber queue is present in the registry.
    pub open spec fn wf(self) -> bool {
        &&& self.customers_waiting@.len() <= self.waiting_room_capacity
        &&& self.barbers@.len() <= NAME_POOL_SIZE
        &&& forall|i: int|
            0 <= i < self.barbers@.len() ==> (#[trigger] self.barbers@[i]).id == BarberId(
                i as usize,
            )
        &&& forall|i: int|
            0 <= i < self.chairs@.len() ==> ((#[trigger] self.chairs@[i]).barber matches Some(b)
                ==> b.0 < self.barbers@.len())
        &&& forall|i: int|
            0 <= i < self.barbers_waiting@.len() ==> (#[trigger] self.barbers_waiting@[i]).0
                < self.barbers@.len()
    }

    /// Every occupied customer slot has a barber behind it.
    pub open spec fn chairs_staffed(self) -> bool {
        forall|i: int|
            0 <= i < self.chairs@.len() ==> ((#[trigger] self.chairs@[i]).customer is Some
                ==> self.chairs@[i].barber is Some)
    }

    /// An empty, closed shop with the given layout.
    pub fn with_layout(num_chairs: usize, waiting_room_capacity: usize) -> (s: BarberShopState)
        ensures
            s.wf(),
            s.chairs_staffed(),
            s.barbers@.len() == 0,
            s.chairs@.len() == num_chairs,
            forall|i: int|
                0 <= i < num_chairs ==> (#[trigger] s.chairs@[i]).barber is None
                    && s.chairs@[i].customer is None,
            s.customers_waiting@.len() == 0,
            s.barbers_waiting@.len() == 0,
            !s.open,
            s.customer_count == 0,
            s.waiting_room_capacity == waiting_room_capacity,
    {
        let mut chairs: Vec<Chair> = Vec::new();
        let mut i: usize = 0;
        while i < num_chairs
            invariant
                i <= num_chairs,
                chairs@.len() == i,
                forall|j: int|
                    0 <= j < i ==> (#[trigger] chairs@[j]).barber is None && chairs@[j].customer
                        is None,
            decreases num_chairs - i,
        {
            chairs.push(Chair::empty());
            i += 1;
        }
        BarberShopState {
            barbers: Vec::new(),
            chairs,
            customers_waiting: Vec::new(),
            barbers_waiting: Vec::new(),
            open: false,
            customer_count: 0,
            waiting_room_capacity,
        }
    }

    /// An empty, closed shop with the default layout.
    pub fn new() -> (s: BarberShopState)
        ensures
            s.wf(),
            s.chairs_staffed(),
            s.barbers@.len() == 0,
            s.chairs@.len() == NUM_CHAIRS,
            forall|i: int|
                0 <= i < NUM_CHAIRS ==> (#[trigger] s.chairs@[i]).barber is None
                    && s.chairs@[i].customer is None,
            s.customers_waiting@.len() == 0,
            s.barbers_waiting@.len() == 0,
            !s.open,
            s.customer_count == 0,
            s.waiting_room_capacity == WAITING_ROOM_CAPACITY,
    {
        BarberShopState::with_layout(NUM_CHAIRS, WAITING_ROOM_CAPACITY)
    }

    /// Creates the next barber. The first chair without a barber gets them
    /// (`Working`); with no such chair they queue (`WaitingForChair`).
    pub fn add_barber(&mut self) -> (b: Barber)
        requires
            old(self).wf(),
            old(self).barbers@.len() < NAME_POOL_SIZE,
        ensures
            final(self).wf(),
            b.id == BarberId(old(self).barbers@.len() as usize),
            b.name@ == spec_barber_name(old(self).barbers@.len() as int),
            final(self).barbers@ == old(self).barbers@.push(b),
            final(self).customers_waiting == old(self).customers_waiting,
            final(self).open == old(self).open,
            final(self).customer_count == old(self).customer_count,
            final(self).waiting_room_capacity == old(self).waiting_room_capacity,
            if has_unstaffed_chair(old(self).chairs@) {
                &&& b.shift_state == BarberShiftState::Working
                &&& final(self).barbers_waiting == old(self).barbers_waiting
                &&& forall|i: int|
                    is_first_unstaffed(old(self).chairs@, i) ==> final(self).chairs@ == old(
                        self,
                    ).chairs@.update(
                        i,
                        Chair { barber: Some(b.id), customer: old(self).chairs@[i].customer },
                    )
            } else {
                &&& b.shift_state == BarberShiftState::WaitingForChair
                &&& final(self).barbers_waiting@ == old(self).barbers_waiting@.push(b.id)
                &&& final(self).chairs == old(self).chairs
            },
            old(self).chairs_staffed() ==> final(self).chairs_staffed(),
    {
        let id = BarberId(self.barbers.len());

        let n = self.chairs.len();
        let mut i: usize = 0;
        while i < n && self.chairs[i].barber.is_some()
            invariant
                i <= n,
                n == self.chairs@.len(),
                forall|j: int| 0 <= j < i ==> (#[trigger] self.chairs@[j]).barber is Some,
            decreases n - i,
        {
            i += 1;
        }

        let shift_state = if i < n {
            let c = &mut self.chairs[i];
            c.barber = Some(id);
            BarberShiftState::Working
        } else {
            self.barbers_waiting.push(id);
            BarberShiftState::WaitingForChair
        };

        let name = barber_name(id.0);
        let stored = Barber { id, name, shift_state };
        let b = Barber { id, name: stored.name.clone(), shift_state };
        self.barbers.push(stored);
        b
    }

    /// Sets the open flag; nothing else changes.
    pub fn open_shop(&mut self)
        ensures
            *final(self) == (BarberShopState { open: true, ..*old(self) }),
    {
        self.open = true;
    }

    /// Clears the open flag and drains the waiting area, returning the
    /// evicted customers in their queue order.
    pub fn close_shop(&mut self) -> (evicted: Vec<CustomerId>)
        ensures
            evicted@ == old(self).customers_waiting@,
            final(self).customers_waiting@.len() == 0,
            !final(self).open,
            final(self).barbers == old(self).barbers,
            final(self).chairs == old(self).chairs,
            final(self).barbers_waiting == old(self).barbers_waiting,
            final(self).customer_count == old(self).customer_count,
            final(self).waiting_room_capacity == old(self).waiting_room_capacity,
            old(self).wf() ==> final(self).wf(),
            old(self).chairs_staffed() ==> final(self).chairs_staffed(),
    {
        self.open = false;
        let mut evicted: Vec<CustomerId> = Vec::new();
        core::mem::swap(&mut evicted, &mut self.customers_waiting);
        evicted
    }

    /// The shop is closed and fully idle: no waiting customer and no chair
    /// with a customer in it.
    pub open spec fn spec_lights_off(self) -> bool {
        &&& !self.open
        &&& self.customers_waiting@.len() == 0
        &&& !has_seated_customer(self.chairs@)
    }

    /// Whether the lights can go off right now.
    pub fn lights_off(&self) -> (r: bool)
        ensures
            r == self.spec_lights_off(),
    {
        if self.open {
            return false;
        }
        if self.customers_waiting.len() > 0 {
            return false;
        }
        let n = self.chairs.len();
        let mut i: usize = 0;
        while i < n && self.chairs[i].customer.is_none()
            invariant
                i <= n,
                n == self.chairs@.len(),
                forall|j: int| 0 <= j < i ==> (#[trigger] self.chairs@[j]).customer is None,
            decreases n - i,
        {
            i += 1;
        }
        i == n
    }

    /// Allocates the next customer id and tries to serve the arrival: turned
    /// away if the shop is closed, seated at the first free chair if any,
    /// queued if the waiting area has room, otherwise `NoRoom`.
    pub fn add_customer(&mut self) -> (r: (CustomerId, CustomerArrivalResult))
        requires
            old(self).wf(),
            old(self).customer_count < u32::MAX,
            old(self).open ==> (forall|i: int|
                is_first_free(old(self).chairs@, i) ==> old(self).chairs@[i].barber is Some),
        ensures
            final(self).wf(),
            r.0 == CustomerId(old(self).customer_count),
            final(self).customer_count == old(self).customer_count + 1,
            final(self).open == old(self).open,
            final(self).barbers == old(self).barbers,
            final(self).barbers_waiting == old(self).barbers_waiting,
            final(self).waiting_room_capacity == old(self).waiting_room_capacity,
            (!old(self).open) ==> ({
                &&& final(self).chairs == old(self).chairs
                &&& final(self).customers_waiting == old(self).customers_waiting
                &&& (r.1 matches CustomerArrivalResult::Closed(cs) && (cs
                    == ClosingState::LightsOn <==> has_seated_customer(old(self).chairs@)))
            }),
            (old(self).open && has_free_chair(old(self).chairs@)) ==> (r.1 is Serviced && (forall|
                i: int
            |
                is_first_free(old(self).chairs@, i) ==> {
                    &&& final(self).chairs@ == old(self).chairs@.update(
                        i,
                        Chair { barber: old(self).chairs@[i].barber, customer: Some(r.0) },
                    )
                    &&& final(self).customers_waiting == old(self).customers_waiting
                    &&& (r.1 matches CustomerArrivalResult::Serviced(h) ==> h.chair == i && (old(
                        self,
                    ).chairs@[i].barber matches Some(bid) && h.barber_name@ == old(
                        self,
                    ).barbers@[bid.0 as int].name@))
                })),
            (old(self).open && !has_free_chair(old(self).chairs@) && old(
                self,
            ).customers_waiting@.len() < old(self).waiting_room_capacity) ==> ({
                &&& final(self).chairs == old(self).chairs
                &&& final(self).customers_waiting@ == old(self).customers_waiting@.push(r.0)
                &&& r.1 is Waiting
            }),
            (old(self).open && !has_free_chair(old(self).chairs@) && old(
                self,
            ).customers_waiting@.len() >= old(self).waiting_room_capacity) ==> ({
                &&& final(self).chairs == old(self).chairs
                &&& final(self).customers_waiting == old(self).customers_waiting
                &&& r.1 is NoRoom
            }),
            old(self).chairs_staffed() ==> final(self).chairs_staffed(),
    {
        let id = CustomerId(self.customer_count);
        self.customer_count = self.customer_count + 1;

        if !self.open {
            let n = self.chairs.len();
            let mut i: usize = 0;
            while i < n && self.chairs[i].customer.is_none()
                invariant
                    i <= n,
                    n == self.chairs@.len(),
                    forall|j: int| 0 <= j < i ==> (#[trigger] self.chairs@[j]).customer is None,
                decreases n - i,
            {
                i += 1;
            }
            let closing_state = if i < n {
                ClosingState::LightsOn
            } else {
                ClosingState::LightsOff
            };
            return (id, CustomerArrivalResult::Closed(closing_state));
        }
        let n = self.chairs.len();
        let mut i: usize = 0;
        while i < n && self.chairs[i].customer.is_some()
            invariant
                i <= n,
                n == self.chairs@.len(),
                forall|j: int| 0 <= j < i ==> (#[trigger] self.chairs@[j]).customer is Some,
            decreases n - i,
        {
            i += 1;
        }
        if i < n {
            proof {
                assert(is_first_free(old(self).chairs@, i as int));
                assert(old(self).chairs@[i as int].barber is Some);
            }
            let barber_id = self.chairs[i].barber.unwrap();
            let c = &mut self.chairs[i];
            c.customer = Some(id);
            let barber_name = self.barbers[barber_id.0].name.clone();
            return (id, CustomerArrivalResult::Serviced(Haircut { barber_name, chair: i }));
        }
        if self.customers_waiting.len() < self.waiting_room_capacity {
            self.customers_waiting.push(id);
            (id, CustomerArrivalResult::Waiting)
        } else {
            (id, CustomerArrivalResult::NoRoom)
        }
    }

    /// The wait timer fired. If the customer is still queued, they leave;
    /// otherwise they were already resolved and nothing changes.
    pub fn customer_wait_expired(&mut self, customer_id: CustomerId) -> (r: CustomerWaitOutcome)
        requires
            old(self).wf(),
        ensures
            final(self).wf(),
            final(self).barbers == old(self).barbers,
            final(self).chairs == old(self).chairs,
            final(self).barbers_waiting == old(self).barbers_waiting,
            final(self).open == old(self).open,
            final(self).customer_count == old(self).customer_count,
            final(self).waiting_room_capacity == old(self).waiting_room_capacity,
            (!old(self).customers_waiting@.contains(customer_id)) ==> (*final(self) == *old(self)
                && r == CustomerWaitOutcome::Serviced),
            old(self).customers_waiting@.contains(customer_id) ==> (r
                == CustomerWaitOutcome::Leaves && (forall|i: int|
                is_first_occurrence(old(self).customers_waiting@, customer_id, i)
                    ==> final(self).customers_waiting@ == old(self).customers_waiting@.remove(i))),
            old(self).chairs_staffed() ==> final(self).chairs_staffed(),
    {
        let n = self.customers_waiting.len();
        let mut i: usize = 0;
        while i < n && !(self.customers_waiting[i] == customer_id)
            invariant
                i <= n,
                n == self.customers_waiting@.len(),
                forall|j: int| 0 <= j < i ==> #[trigger] self.customers_waiting@[j] != customer_id,
            decreases n - i,
        {
            i += 1;
        }
        if i < n {
            self.customers_waiting.remove(i);
            CustomerWaitOutcome::Leaves
        } else {
            CustomerWaitOutcome::Serviced
        }
    }

    /// The barber's shift is over: they switch to `FinishingUp` but keep
    /// their chair until the haircut in progress completes.
    pub fn barber_shift_ends(&mut self, barber_id: BarberId)
        requires
            old(self).wf(),
            barber_id.0 < old(self).barbers@.len(),
        ensures
            final(self).wf(),
            final(self).barbers@ == old(self).barbers@.update(
                barber_id.0 as int,
                (Barber {
                    id: old(self).barbers@[barber_id.0 as int].id,
                    name: old(self).barbers@[barber_id.0 as int].name,
                    shift_state: BarberShiftState::FinishingUp,
                }),
            ),
            final(self).chairs == old(self).chairs,
            final(self).customers_waiting == old(self).customers_waiting,
            final(self).barbers_waiting == old(self).barbers_waiting,
            final(self).open == old(self).open,
            final(self).customer_count == old(self).customer_count,
            final(self).waiting_room_capacity == old(self).waiting_room_capacity,
            old(self).chairs_staffed() ==> final(self).chairs_staffed(),
    {
        let b = &mut self.barbers[barber_id.0];
        b.shift_state = BarberShiftState::FinishingUp;
    }

    /// Finishes the haircut at the given chair. The departing barber either
    /// keeps the chair (still on shift), hands it to the first waiting
    /// barber (`FinishingUp` with a successor), or leaves it idle. The first
    /// waiting customer, if any, is then seated in this chair.
    pub fn complete_haircut(&mut self, chair_id: usize) -> (r: (
        CustomerId,
        Barber,
        Option<CustomerId>,
        Option<Barber>,
        bool,
    ))
        requires
            old(self).wf(),
            chair_id < old(self).chairs@.len(),
            old(self).chairs@[chair_id as int].barber is Some,
            old(self).chairs@[chair_id as int].customer is Some,
        ensures
            final(self).wf(),
            final(self).open == old(self).open,
            final(self).customer_count == old(self).customer_count,
            final(self).waiting_room_capacity == old(self).waiting_room_capacity,
            final(self).chairs@.len() == old(self).chairs@.len(),
            (forall|j: int|
                0 <= j < old(self).chairs@.len() && j != chair_id ==> final(self).chairs@[j] == old(
                    self,
                ).chairs@[j]),
            (old(self).chairs@[chair_id as int].customer matches Some(cid) ==> r.0 == cid),
            (old(self).chairs@[chair_id as int].barber matches Some(bid) ==> {
                &&& r.1 == old(self).barbers@[bid.0 as int]
                &&& if old(self).barbers@[bid.0 as int].shift_state
                    == BarberShiftState::FinishingUp {
                    if old(self).barbers_waiting@.len() > 0 {
                        let nb = old(self).barbers_waiting@[0];
                        &&& final(self).barbers_waiting@ == old(self).barbers_waiting@.remove(0)
                        &&& final(self).barbers@ == old(self).barbers@.update(
                            nb.0 as int,
                            (Barber {
                                id: old(self).barbers@[nb.0 as int].id,
                                name: old(self).barbers@[nb.0 as int].name,
                                shift_state: BarberShiftState::Working,
                            }),
                        )
                        &&& final(self).chairs@[chair_id as int].barber == Some(nb)
                        &&& (r.3 matches Some(b2) && b2 == final(self).barbers@[nb.0 as int])
                    } else {
                        &&& final(self).barbers == old(self).barbers
                        &&& final(self).barbers_waiting == old(self).barbers_waiting
                        &&& final(self).chairs@[chair_id as int].barber is None
                        &&& r.3 is None
                    }
                } else {
                    &&& final(self).barbers == old(self).barbers
                    &&& final(self).barbers_waiting == old(self).barbers_waiting
                    &&& final(self).chairs@[chair_id as int].barber == Some(bid)
                    &&& r.3 is None
                }
            }),
            if old(self).customers_waiting@.len() > 0 {
                &&& final(self).customers_waiting@ == old(self).customers_waiting@.remove(0)
                &&& final(self).chairs@[chair_id as int].customer == Some(
                    old(self).customers_waiting@[0],
                )
                &&& r.2 == Some(old(self).customers_waiting@[0])
            } else {
                &&& final(self).customers_waiting == old(self).customers_waiting
                &&& final(self).chairs@[chair_id as int].customer is None
                &&& r.2 is None
            },
            r.4 == final(self).spec_lights_off(),
            (old(self).chairs_staffed() && !(old(self).chairs@[chair_id as int].barber matches Some(
                bid,
            ) && old(self).barbers@[bid.0 as int].shift_state == BarberShiftState::FinishingUp
                && old(self).barbers_waiting@.len() == 0 && old(self).customers_waiting@.len() > 0))
                ==> final(self).chairs_staffed(),
    {
        let chair0 = self.chairs[chair_id];
        let barber_id = chair0.barber.unwrap();
        let customer_id = chair0.customer.unwrap();

        let departing = Barber {
            id: self.barbers[barber_id.0].id,
            name: self.barbers[barber_id.0].name.clone(),
            shift_state: self.barbers[barber_id.0].shift_state,
        };

        {
            let c = &mut self.chairs[chair_id];
            c.barber = None;
            c.customer = None;
        }

        let mut next_barber: Option<Barber> = None;
        if departing.shift_state == BarberShiftState::FinishingUp {
            if self.barbers_waiting.len() > 0 {
                let next_barber_id = self.barbers_waiting.remove(0);
                {
                    let b = &mut self.barbers[next_barber_id.0];
                    b.shift_state = BarberShiftState::Working;
                }
                {
                    let c = &mut self.chairs[chair_id];
                    c.barber = Some(next_barber_id);
                }
                next_barber = Some(
                    Barber {
                        id: self.barbers[next_barber_id.0].id,
                        name: self.barbers[next_barber_id.0].name.clone(),
                        shift_state: self.barbers[next_barber_id.0].shift_state,
                    },
                );
            }
        } else {
            let c = &mut self.chairs[chair_id];
            c.barber = Some(barber_id);
        }

        let mut next_customer: Option<CustomerId> = None;
        if self.customers_waiting.len() > 0 {
            let next_customer_id = self.customers_waiting.remove(0);
            let c = &mut self.chairs[chair_id];
            c.customer = Some(next_customer_id);
            next_customer = Some(next_customer_id);
        }

        let off = self.lights_off();
        (customer_id, departing, next_customer, next_barber, off)
    }
}

} // verus!
