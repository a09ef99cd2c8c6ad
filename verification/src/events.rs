//! The unit-of-work abstraction: a closed union over the event variants,
//! each carrying only its payload, with one dispatch function `apply` that
//! takes the state by ownership, mutates it, and hands back the next state,
//! the spawned follow-up events, and what happened (for the caller's
//! notification sink).

use vstd::prelude::*;

use crate::barber_shop::Barber;
use crate::barber_shop::BarberId;
use crate::barber_shop::BarberShiftState;
use crate::barber_shop::Chair;
use crate::barber_shop::ClosingState;
use crate::barber_shop::CustomerArrivalResult;
use crate::barber_shop::CustomerId;
use crate::state::is_first_free;
use crate::state::is_first_unstaffed;
use crate::state::is_first_occurrence;
use crate::state::has_free_chair;
use crate::state::has_seated_customer;
use crate::state::has_unstaffed_chair;
use crate::state::spec_barber_name;
use crate::state::BarberShopState;
use crate::state::CustomerWaitOutcome;
use crate::state::NAME_POOL_SIZE;

verus! {

/// Minutes between one customer arrival and the next.
pub const CUSTOMER_ARRIVAL_INTERVAL_MINUTES: u64 = 5;

/// Shortest haircut, in minutes.
pub const MIN_HAIRCUT_DURATION_MINUTES: u64 = 20;

/// Longest haircut, in minutes.
pub const MAX_HAIRCUT_DURATION_MINUTES: u64 = 40;

/// How long a queued customer waits before giving up, in minutes.
pub const MAX_WAIT_DURATION_MINUTES: u64 = 20;

/// Length of one barber shift, in minutes.
pub const BARBER_SHIFT_DURATION_MINUTES: u64 = 240;

/// The largest delta any event application schedules into the future.
pub const MAX_EVENT_DELTA_MINUTES: u64 = 240;

/// Latest instant an event may be applied at without the simulation clock
/// overflowing when follow-up events are scheduled.
pub const MAX_SIM_TIME: u64 = u64::MAX - MAX_EVENT_DELTA_MINUTES;

/// Relies on rand::random_range over an inclusive integer range: the sample
/// lies within the bounds; the range must be non-empty or the call panics.
#[verifier::external_body]
fn sample_minutes(min: u64, max: u64) -> (r: u64)
    requires
        min <= max,
    ensures
        min <= r <= max,
{
    rand::random_range(min..=max)
}

/// A fatal fault: an internal invariant violation or a machine limit,
/// terminating the run with a diagnostic.
#[derive(Clone, Copy, Debug, PartialEq, Eq, Structural)]
pub enum SimError {
    /// A haircut completed at a chair index the shop does not have.
    UnknownChair,
    /// A haircut completed at a chair with no assigned barber, or a
    /// customer was about to be seated at one.
    ChairWithoutBarber,
    /// A haircut completed at a chair with no customer in it.
    ChairWithoutCustomer,
    /// A barber id was referenced but is absent from the registry.
    UnknownBarber,
    /// More barbers were requested than the name pool can serve.
    NamePoolExhausted,
    /// The customer id counter ran out.
    CustomerIdsExhausted,
    /// An event was scheduled too close to the end of representable time.
    ClockOverflow,
    /// The driver's step budget ran out before the timeline drained.
    StepLimitReached,
}

/// A pending unit of work, with the parameters of one domain transition.
#[derive(Clone, Copy, Debug, PartialEq, Eq, Structural)]
#[allow(inconsistent_fields)]
pub enum Event {
    /// The shop opens its doors.
    ShopOpen,
    /// The shop closes and evicts the waiting area.
    ShopClose,
    /// A new barber starts a shift.
    BarberShiftStart,
    /// A barber's shift is over.
    BarberShiftEnd { id: BarberId },
    /// A customer walks in; reschedules itself while the day is not done.
    CustomerArrival,
    /// A queued customer's patience timer fires; may be stale.
    CustomerWaitExpired { id: CustomerId },
    /// Pure notification that a customer was evicted at closing time.
    CustomerKickedOut { id: CustomerId },
    /// The haircut at the given chair is done.
    HaircutComplete { chair: usize },
}

/// A scheduled-time-plus-event pairing inserted into the timeline.
#[derive(Clone, Copy, Debug, PartialEq, Eq, Structural)]
pub struct EventEnvelope {
    pub time: u64,
    pub event: Event,
}

impl EventEnvelope {
    pub fn new(time: u64, event: Event) -> (e: EventEnvelope)
        ensures
            e == (EventEnvelope { time, event }),
    {
        EventEnvelope { time, event }
    }
}

/// What one event application did: the externally observable occurrence
/// that a notification sink can report.
#[derive(Debug)]
pub enum ApplyOutcome {
    /// The shop opened.
    ShopOpened,
    /// The shop closed; evicted customers are notified by spawned events.
    ShopClosed,
    /// A barber started a shift.
    ShiftStarted { name: String },
    /// A barber's shift ended; they will finish the haircut in progress.
    ShiftEnded,
    /// A customer arrived, with the id they drew and what they got.
    CustomerArrived { id: CustomerId, result: CustomerArrivalResult },
    /// A wait timer fired, live or stale.
    WaitExpired { id: CustomerId, outcome: CustomerWaitOutcome },
    /// A customer was evicted at closing time.
    KickedOut { id: CustomerId },
    /// A haircut completed: who was served and by whom, whether that barber
    /// was finishing their shift, who follows on this chair, and whether
    /// the lights can now go off.
    HaircutFinished {
        customer: CustomerId,
        barber_name: String,
        finishing: bool,
        next_customer: Option<CustomerId>,
        next_barber_name: Option<String>,
        lights_off: bool,
    },
}

impl Event {
    /// Performs this event's domain transition at its scheduled time,
    /// returning the next state, the spawned follow-up events (each with an
    /// absolute future time no further out than `MAX_EVENT_DELTA_MINUTES`),
    /// and the observable outcome; or the invariant violation it found.
    pub fn apply(self, state: BarberShopState, time: u64) -> (r: Result<
        (BarberShopState, Vec<EventEnvelope>, ApplyOutcome),
        SimError,
    >)
        requires
            state.wf(),
            time <= MAX_SIM_TIME,
        ensures
            r matches Ok(t) ==> t.0.wf() && (forall|i: int|
                0 <= i < t.1@.len() ==> time <= (#[trigger] t.1@[i]).time <= time
                    + MAX_EVENT_DELTA_MINUTES),
            r matches Ok(t) ==> (state.chairs_staffed() && !(self matches Event::HaircutComplete {
                chair,
            } && chair < state.chairs@.len() && (state.chairs@[chair as int].barber matches Some(
                bid,
            ) && state.barbers@[bid.0 as int].shift_state == BarberShiftState::FinishingUp)
                && state.barbers_waiting@.len() == 0 && state.customers_waiting@.len() > 0) ==> t.0.chairs_staffed()),
            self is ShopOpen ==> (r matches Ok(t) && t.0 == (BarberShopState {
                open: true,
                ..state
            }) && t.1@.len() == 0 && t.2 is ShopOpened),
            self is ShopClose ==> (r matches Ok(t) && {
                &&& !t.0.open
                &&& t.0.customers_waiting@.len() == 0
                &&& t.0.chairs == state.chairs
                &&& t.0.barbers == state.barbers
                &&& t.0.barbers_waiting == state.barbers_waiting
                &&& t.0.customer_count == state.customer_count
                &&& t.0.waiting_room_capacity == state.waiting_room_capacity
                &&& t.1@.len() == state.customers_waiting@.len()
                &&& (forall|i: int|
                    0 <= i < t.1@.len() ==> #[trigger] t.1@[i] == (EventEnvelope {
                        time,
                        event: Event::CustomerKickedOut { id: state.customers_waiting@[i] },
                    }))
                &&& t.2 is ShopClosed
            }),
            self is BarberShiftStart ==> (if state.barbers@.len() < NAME_POOL_SIZE {
                r matches Ok(t) && {
                    &&& t.0.barbers@.len() == state.barbers@.len() + 1
                    &&& t.0.barbers@[state.barbers@.len() as int].name@ == spec_barber_name(
                        state.barbers@.len() as int,
                    )
                    &&& t.0.customers_waiting == state.customers_waiting
                    &&& t.0.open == state.open
                    &&& t.0.customer_count == state.customer_count
                    &&& t.1@.len() == 1
                    &&& t.1@[0] == (EventEnvelope {
                        time: (time + BARBER_SHIFT_DURATION_MINUTES) as u64,
                        event: Event::BarberShiftEnd {
                            id: BarberId(state.barbers@.len() as usize),
                        },
                    })
                    &&& (t.2 matches ApplyOutcome::ShiftStarted { name } && name@
                        == spec_barber_name(state.barbers@.len() as int))
                    &&& (has_unstaffed_chair(state.chairs@) ==> t.0.barbers@[state.barbers@.len() as int].shift_state
                        == BarberShiftState::Working && t.0.barbers_waiting
                        == state.barbers_waiting && (forall|i: int|
                        is_first_unstaffed(state.chairs@, i) ==> t.0.chairs@
                            == state.chairs@.update(
                            i,
                            (Chair {
                                barber: Some(BarberId(state.barbers@.len() as usize)),
                                customer: state.chairs@[i].customer,
                            }),
                        )))
                    &&& (!has_unstaffed_chair(state.chairs@)
                        ==> t.0.barbers@[state.barbers@.len() as int].shift_state
                        == BarberShiftState::WaitingForChair && t.0.barbers_waiting@
                        == state.barbers_waiting@.push(BarberId(state.barbers@.len() as usize))
                        && t.0.chairs == state.chairs)
                }
            } else {
                r matches Err(e) && e == SimError::NamePoolExhausted
            }),
            self matches Event::BarberShiftEnd { id } ==> (if id.0 < state.barbers@.len() {
                r matches Ok(t) && {
                    &&& t.0.barbers@ == state.barbers@.update(
                        id.0 as int,
                        (Barber {
                            id: state.barbers@[id.0 as int].id,
                            name: state.barbers@[id.0 as int].name,
                            shift_state: BarberShiftState::FinishingUp,
                        }),
                    )
                    &&& t.0.chairs == state.chairs
                    &&& t.0.customers_waiting == state.customers_waiting
                    &&& t.0.barbers_waiting == state.barbers_waiting
                    &&& t.0.open == state.open
                    &&& t.0.customer_count == state.customer_count
                    &&& t.1@.len() == 0
                    &&& t.2 is ShiftEnded
                }
            } else {
                r matches Err(e) && e == SimError::UnknownBarber
            }),
            self is CustomerArrival ==> (if state.customer_count == u32::MAX {
                r matches Err(e) && e == SimError::CustomerIdsExhausted
            } else if state.open && (exists|i: int|
                is_first_free(state.chairs@, i) && (#[trigger] state.chairs@[i]).barber is None) {
                r matches Err(e) && e == SimError::ChairWithoutBarber
            } else {
                r matches Ok(t) && (t.2 matches ApplyOutcome::CustomerArrived { id, result } && {
                    &&& id == CustomerId(state.customer_count)
                    &&& t.0.customer_count == state.customer_count + 1
                    &&& t.0.open == state.open
                    &&& t.0.barbers == state.barbers
                    &&& t.0.barbers_waiting == state.barbers_waiting
                    &&& (!state.open ==> t.0.chairs == state.chairs && t.0.customers_waiting
                        == state.customers_waiting && (result
                        matches CustomerArrivalResult::Closed(cs) && (cs == ClosingState::LightsOn
                        <==> has_seated_customer(state.chairs@))))
                    &&& (state.open && has_free_chair(state.chairs@) ==> result is Serviced
                        && t.0.customers_waiting == state.customers_waiting && (forall|i: int|
                        is_first_free(state.chairs@, i) ==> t.0.chairs@ == state.chairs@.update(
                            i,
                            (Chair { barber: state.chairs@[i].barber, customer: Some(id) }),
                        ) && (result matches CustomerArrivalResult::Serviced(h) ==> h.chair == i
                            && (state.chairs@[i].barber matches Some(bid) && h.barber_name@
                            == state.barbers@[bid.0 as int].name@))))
                    &&& (state.open && !has_free_chair(state.chairs@)
                        && state.customers_waiting@.len() < state.waiting_room_capacity ==> result
                        is Waiting && t.0.customers_waiting@ == state.customers_waiting@.push(id))
                    &&& (state.open && !has_free_chair(state.chairs@)
                        && state.customers_waiting@.len() >= state.waiting_room_capacity ==> result
                        is NoRoom && t.0.customers_waiting == state.customers_waiting)
                    &&& (result matches CustomerArrivalResult::Serviced(h) ==> t.1@.len() == 2
                        && t.1@[0].event == (Event::HaircutComplete { chair: h.chair }) && time
                        + MIN_HAIRCUT_DURATION_MINUTES <= t.1@[0].time <= time
                        + MAX_HAIRCUT_DURATION_MINUTES && t.1@[1] == (EventEnvelope {
                        time: (time + CUSTOMER_ARRIVAL_INTERVAL_MINUTES) as u64,
                        event: Event::CustomerArrival,
                    }))
                    &&& (result is Waiting ==> t.1@.len() == 2 && t.1@[0] == (EventEnvelope {
                        time: (time + MAX_WAIT_DURATION_MINUTES) as u64,
                        event: Event::CustomerWaitExpired { id },
                    }) && t.1@[1] == (EventEnvelope {
                        time: (time + CUSTOMER_ARRIVAL_INTERVAL_MINUTES) as u64,
                        event: Event::CustomerArrival,
                    }))
                    &&& (result is NoRoom ==> t.1@.len() == 1 && t.1@[0] == (EventEnvelope {
                        time: (time + CUSTOMER_ARRIVAL_INTERVAL_MINUTES) as u64,
                        event: Event::CustomerArrival,
                    }))
                    &&& (result matches CustomerArrivalResult::Closed(cs) ==> (cs
                        == ClosingState::LightsOn ==> t.1@.len() == 1 && t.1@[0]
                        == (EventEnvelope {
                        time: (time + CUSTOMER_ARRIVAL_INTERVAL_MINUTES) as u64,
                        event: Event::CustomerArrival,
                    })) && (cs == ClosingState::LightsOff ==> t.1@.len() == 0))
                })
            }),
            self matches Event::CustomerWaitExpired { id } ==> (r matches Ok(t) && t.1@.len() == 0
                && (t.2 matches ApplyOutcome::WaitExpired { id: wid, outcome } && {
                &&& wid == id
                &&& (!state.customers_waiting@.contains(id) ==> t.0 == state && outcome
                    == CustomerWaitOutcome::Serviced)
                &&& (state.customers_waiting@.contains(id) ==> outcome
                    == CustomerWaitOutcome::Leaves && (forall|k: int|
                    is_first_occurrence(state.customers_waiting@, id, k)
                        ==> t.0.customers_waiting@ == state.customers_waiting@.remove(k)))
                &&& t.0.chairs == state.chairs
                &&& t.0.barbers == state.barbers
                &&& t.0.barbers_waiting == state.barbers_waiting
                &&& t.0.open == state.open
                &&& t.0.customer_count == state.customer_count
            })),
            self matches Event::CustomerKickedOut { id } ==> (r matches Ok(t) && t.0 == state
                && t.1@.len() == 0 && (t.2 matches ApplyOutcome::KickedOut { id: kid } && kid
                == id)),
            self matches Event::HaircutComplete { chair } ==> (if chair >= state.chairs@.len() {
                r matches Err(e) && e == SimError::UnknownChair
            } else if state.chairs@[chair as int].barber is None {
                r matches Err(e) && e == SimError::ChairWithoutBarber
            } else if state.chairs@[chair as int].customer is None {
                r matches Err(e) && e == SimError::ChairWithoutCustomer
            } else {
                r matches Ok(t) && (state.chairs@[chair as int].barber matches Some(bid) && (t.2
                    matches ApplyOutcome::HaircutFinished {
                    customer,
                    barber_name,
                    finishing,
                    next_customer,
                    next_barber_name,
                    lights_off,
                } && {
                    &&& (state.chairs@[chair as int].customer matches Some(cid) ==> customer
                        == cid)
                    &&& barber_name == state.barbers@[bid.0 as int].name
                    &&& finishing == (state.barbers@[bid.0 as int].shift_state
                        == BarberShiftState::FinishingUp)
                    &&& (state.customers_waiting@.len() > 0 ==> next_customer == Some(
                        state.customers_waiting@[0],
                    ) && t.0.customers_waiting@ == state.customers_waiting@.remove(0)
                        && t.0.chairs@[chair as int].customer == Some(state.customers_waiting@[0]))
                    &&& (state.customers_waiting@.len() == 0 ==> next_customer is None
                        && t.0.customers_waiting == state.customers_waiting
                        && t.0.chairs@[chair as int].customer is None)
                    &&& (finishing && state.barbers_waiting@.len() > 0
                        ==> t.0.chairs@[chair as int].barber == Some(state.barbers_waiting@[0])
                        && t.0.barbers_waiting@ == state.barbers_waiting@.remove(0)
                        && (next_barber_name matches Some(nm) && nm
                        == state.barbers@[state.barbers_waiting@[0].0 as int].name)
                        && t.0.barbers@[state.barbers_waiting@[0].0 as int].shift_state
                        == BarberShiftState::Working)
                    &&& (finishing && state.barbers_waiting@.len() == 0
                        ==> t.0.chairs@[chair as int].barber is None && next_barber_name is None
                        && t.0.barbers == state.barbers && t.0.barbers_waiting
                        == state.barbers_waiting)
                    &&& (!finishing ==> t.0.chairs@[chair as int].barber == Some(bid)
                        && next_barber_name is None && t.0.barbers == state.barbers
                        && t.0.barbers_waiting == state.barbers_waiting)
                    &&& (forall|j: int|
                        0 <= j < state.chairs@.len() && j != chair ==> #[trigger] t.0.chairs@[j]
                            == state.chairs@[j])
                    &&& lights_off == t.0.spec_lights_off()
                    &&& t.0.open == state.open
                    &&& t.0.customer_count == state.customer_count
                    &&& (next_customer is Some ==> t.1@.len() == 1 && t.1@[0].event
                        == (Event::HaircutComplete { chair }) && time
                        + MIN_HAIRCUT_DURATION_MINUTES <= t.1@[0].time <= time
                        + MAX_HAIRCUT_DURATION_MINUTES)
                    &&& (next_customer is None ==> t.1@.len() == 0)
                }))
            }),
    {
        match self {
            Event::ShopOpen => {
                let mut s = state;
                s.open_shop();
                Ok((s, Vec::new(), ApplyOutcome::ShopOpened))
            },
            Event::ShopClose => {
                let mut s = state;
                let evicted = s.close_shop();
                let mut events: Vec<EventEnvelope> = Vec::new();
                let n = evicted.len();
                let mut i: usize = 0;
                while i < n
                    invariant
                        i <= n,
                        n == evicted@.len(),
                        events@.len() == i,
                        forall|j: int|
                            0 <= j < i ==> #[trigger] events@[j] == (EventEnvelope {
                                time,
                                event: Event::CustomerKickedOut { id: evicted@[j] },
                            }),
                    decreases n - i,
                {
                    events.push(
                        EventEnvelope { time, event: Event::CustomerKickedOut { id: evicted[i] } },
                    );
                    i += 1;
                }
                Ok((s, events, ApplyOutcome::ShopClosed))
            },
            Event::BarberShiftStart => {
                let mut s = state;
                if s.barbers.len() >= NAME_POOL_SIZE {
                    return Err(SimError::NamePoolExhausted);
                }
                let b = s.add_barber();
                let id = b.id;
                let mut events: Vec<EventEnvelope> = Vec::new();
                events.push(
                    EventEnvelope {
                        time: time + BARBER_SHIFT_DURATION_MINUTES,
                        event: Event::BarberShiftEnd { id },
                    },
                );
                Ok((s, events, ApplyOutcome::ShiftStarted { name: b.name }))
            },
            Event::BarberShiftEnd { id } => {
                let mut s = state;
                if id.0 >= s.barbers.len() {
                    return Err(SimError::UnknownBarber);
                }
                s.barber_shift_ends(id);
                Ok((s, Vec::new(), ApplyOutcome::ShiftEnded))
            },
            Event::CustomerArrival => {
                let mut s = state;
                if s.customer_count == u32::MAX {
                    return Err(SimError::CustomerIdsExhausted);
                }
                if s.open {
                    let n = s.chairs.len();
                    let mut i: usize = 0;
                    while i < n && s.chairs[i].customer.is_some()
                        invariant
                            i <= n,
                            n == s.chairs@.len(),
                            forall|j: int|
                                0 <= j < i ==> (#[trigger] s.chairs@[j]).customer is Some,
                        decreases n - i,
                    {
                        i += 1;
                    }
                    if i < n && s.chairs[i].barber.is_none() {
                        proof {
                            assert(is_first_free(s.chairs@, i as int));
                        }
                        return Err(SimError::ChairWithoutBarber);
                    }
                    proof {
                        if i < n {
                            assert(is_first_free(s.chairs@, i as int));
                        } else {
                            assert(!has_free_chair(s.chairs@));
                        }
                        assert forall|j: int|
                            is_first_free(s.chairs@, j) implies s.chairs@[j].barber is Some by {
                            if i < n {
                                if j < i {
                                    assert(s.chairs@[j].customer is Some);
                                } else if j > i {
                                    assert(s.chairs@[i as int].customer is Some);
                                }
                                assert(j == i);
                            } else {
                                assert(s.chairs@[j].customer is Some);
                            }
                        }
                    }
                }
                let (id, result) = s.add_customer();
                let mut events: Vec<EventEnvelope> = Vec::new();
                match &result {
                    CustomerArrivalResult::Serviced(h) => {
                        let d = sample_minutes(
                            MIN_HAIRCUT_DURATION_MINUTES,
                            MAX_HAIRCUT_DURATION_MINUTES,
                        );
                        events.push(
                            EventEnvelope {
                                time: time + d,
                                event: Event::HaircutComplete { chair: h.chair },
                            },
                        );
                    },
                    CustomerArrivalResult::Waiting => {
                        events.push(
                            EventEnvelope {
                                time: time + MAX_WAIT_DURATION_MINUTES,
                                event: Event::CustomerWaitExpired { id },
                            },
                        );
                    },
                    CustomerArrivalResult::NoRoom => {},
                    CustomerArrivalResult::Closed(_) => {},
                }
                let halt = match &result {
                    CustomerArrivalResult::Closed(cs) => *cs == ClosingState::LightsOff,
                    _ => false,
                };
                if !halt {
                    events.push(
                        EventEnvelope {
                            time: time + CUSTOMER_ARRIVAL_INTERVAL_MINUTES,
                            event: Event::CustomerArrival,
                        },
                    );
                }
                Ok((s, events, ApplyOutcome::CustomerArrived { id, result }))
            },
            Event::CustomerWaitExpired { id } => {
                let mut s = state;
                let outcome = s.customer_wait_expired(id);
                Ok((s, Vec::new(), ApplyOutcome::WaitExpired { id, outcome }))
            },
            Event::CustomerKickedOut { id } => {
                Ok((state, Vec::new(), ApplyOutcome::KickedOut { id }))
            },
            Event::HaircutComplete { chair } => {
                let mut s = state;
                if chair >= s.chairs.len() {
                    return Err(SimError::UnknownChair);
                }
                if s.chairs[chair].barber.is_none() {
                    return Err(SimError::ChairWithoutBarber);
                }
                if s.chairs[chair].customer.is_none() {
                    return Err(SimError::ChairWithoutCustomer);
                }
                let (customer, barber, next_customer, next_barber, off) = s.complete_haircut(
                    chair,
                );
                let finishing = barber.shift_state == BarberShiftState::FinishingUp;
                let next_barber_name = match next_barber {
                    Some(b) => Some(b.name),
                    None => None,
                };
                let mut events: Vec<EventEnvelope> = Vec::new();
                if next_customer.is_some() {
                    let d = sample_minutes(
                        MIN_HAIRCUT_DURATION_MINUTES,
                        MAX_HAIRCUT_DURATION_MINUTES,
                    );
                    events.push(
                        EventEnvelope { time: time + d, event: Event::HaircutComplete { chair } },
                    );
                }
                Ok(
                    (
                        s,
                        events,
                        ApplyOutcome::HaircutFinished {
                            customer,
                            barber_name: barber.name,
                            finishing,
                            next_customer,
                            next_barber_name,
                            lights_off: off,
                        },
                    ),
                )
            },
        }
    }

}

} // verus!
