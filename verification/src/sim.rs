//! The simulation loop and the construction of the initial event list:
//! repeatedly extract the earliest pending entry, apply it to the state,
//! and schedule whatever it spawned, until the timeline is empty.

use vstd::prelude::*;

use crate::events::ApplyOutcome;
use crate::events::Event;
use crate::events::SimError;
use crate::events::BARBER_SHIFT_DURATION_MINUTES;
use crate::events::MAX_SIM_TIME;
use crate::state::BarberShopState;
use crate::state::NAME_POOL_SIZE;
use crate::timeline::Timeline;

verus! {

/// Minutes in an hour.
pub const MINUTES_PER_HOUR: u64 = 60;

/// The shop opens at nine.
pub const OPENING_TIME_HOUR: u64 = 9;

/// The shop closes at five.
pub const CLOSING_TIME_HOUR: u64 = 17;

/// Opening time as minutes since midnight.
pub const OPENING_TIME_MINUTES: u64 = OPENING_TIME_HOUR * MINUTES_PER_HOUR;

/// Closing time as minutes since midnight.
pub const CLOSING_TIME_MINUTES: u64 = CLOSING_TIME_HOUR * MINUTES_PER_HOUR;

/// Start of the second shift: one shift length after opening.
pub const SECOND_SHIFT_MINUTES: u64 = OPENING_TIME_MINUTES + BARBER_SHIFT_DURATION_MINUTES;

/// Barbers hired at the start of each of the two shifts.
pub const BARBERS_PER_SHIFT: usize = 4;

/// Builds the initial timeline for one simulated day: shop open and close,
/// `barbers_per_shift` shift starts at opening and again one shift later,
/// and the first customer arrival. Validates at startup that the two
/// shifts' barbers fit the name pool, and rejects the configuration
/// otherwise.
pub fn bootstrap_events(barbers_per_shift: usize) -> (r: Result<Timeline, SimError>)
    ensures
        r is Ok <==> 2 * barbers_per_shift <= NAME_POOL_SIZE,
        r matches Err(e) ==> e == SimError::NamePoolExhausted,
        r matches Ok(t) ==> ({
            &&& t.wf()
            &&& t.inserted().len() == 2 * barbers_per_shift + 3
            &&& t.pending().len() == t.inserted().len()
            &&& t.inserted()[0] == (OPENING_TIME_MINUTES, Event::ShopOpen)
            &&& t.inserted()[1] == (CLOSING_TIME_MINUTES, Event::ShopClose)
            &&& (forall|i: int|
                2 <= i < 2 + barbers_per_shift ==> #[trigger] t.inserted()[i] == (
                    OPENING_TIME_MINUTES,
                    Event::BarberShiftStart,
                ))
            &&& (forall|i: int|
                2 + barbers_per_shift <= i < 2 + 2 * barbers_per_shift ==> #[trigger] t.inserted()[i]
                    == (SECOND_SHIFT_MINUTES, Event::BarberShiftStart))
            &&& t.inserted()[2 * barbers_per_shift + 2] == (
                OPENING_TIME_MINUTES,
                Event::CustomerArrival,
            )
        }),
{
    if barbers_per_shift > NAME_POOL_SIZE / 2 {
        return Err(SimError::NamePoolExhausted);
    }
    let mut t = Timeline::new();
    t.insert(OPENING_TIME_MINUTES, Event::ShopOpen);
    t.insert(CLOSING_TIME_MINUTES, Event::ShopClose);
    let mut i: usize = 0;
    while i < barbers_per_shift
        invariant
            i <= barbers_per_shift,
            t.wf(),
            t.inserted().len() == 2 + i,
            t.pending().len() == t.inserted().len(),
            t.inserted()[0] == (OPENING_TIME_MINUTES, Event::ShopOpen),
            t.inserted()[1] == (CLOSING_TIME_MINUTES, Event::ShopClose),
            forall|j: int|
                2 <= j < 2 + i ==> #[trigger] t.inserted()[j] == (
                    OPENING_TIME_MINUTES,
                    Event::BarberShiftStart,
                ),
        decreases barbers_per_shift - i,
    {
        t.insert(OPENING_TIME_MINUTES, Event::BarberShiftStart);
        i += 1;
    }
    let mut i2: usize = 0;
    while i2 < barbers_per_shift
        invariant
            i2 <= barbers_per_shift,
            t.wf(),
            t.inserted().len() == 2 + barbers_per_shift + i2,
            t.pending().len() == t.inserted().len(),
            t.inserted()[0] == (OPENING_TIME_MINUTES, Event::ShopOpen),
            t.inserted()[1] == (CLOSING_TIME_MINUTES, Event::ShopClose),
            forall|j: int|
                2 <= j < 2 + barbers_per_shift ==> #[trigger] t.inserted()[j] == (
                    OPENING_TIME_MINUTES,
                    Event::BarberShiftStart,
                ),
            forall|j: int|
                2 + barbers_per_shift <= j < 2 + barbers_per_shift + i2 ==> #[trigger] t.inserted()[j]
                    == (SECOND_SHIFT_MINUTES, Event::BarberShiftStart),
        decreases barbers_per_shift - i2,
    {
        t.insert(SECOND_SHIFT_MINUTES, Event::BarberShiftStart);
        i2 += 1;
    }
    t.insert(OPENING_TIME_MINUTES, Event::CustomerArrival);
    Ok(t)
}

/// Drives the simulation to completion: extracts the earliest pending
/// entry, applies it, inserts the spawned events, and repeats until the
/// timeline is empty. Returns the final state together with the trace of
/// `(time, outcome)` pairs in application order; the trace times are
/// non-decreasing, so events were applied in chronological order. Stops
/// with the fault instead if an event application finds an invariant
/// violation, if the clock would overflow, or if more than `max_steps`
/// events would have to be applied.
pub fn run(state: BarberShopState, timeline: Timeline, max_steps: u64) -> (r: Result<
    (BarberShopState, Vec<(u64, ApplyOutcome)>),
    SimError,
>)
    requires
        state.wf(),
        timeline.wf(),
    ensures
        r matches Ok(t) ==> t.0.wf() && (forall|i: int, j: int|
            0 <= i <= j < t.1@.len() ==> (#[trigger] t.1@[i]).0 <= (#[trigger] t.1@[j]).0),
        r matches Ok(t) ==> t.1@.len() >= timeline.pending().len(),
        r matches Ok(t) ==> (timeline.pending().len() > 0 ==> t.1@.len() > 0 && t.1@[0].0
            == timeline.pending()[0].0),
        timeline.pending().len() == 0 ==> r is Ok,
        (max_steps == 0 && timeline.pending().len() > 0) ==> r == Err::<
            (BarberShopState, Vec<(u64, ApplyOutcome)>),
            SimError,
        >(SimError::StepLimitReached),
        (max_steps > 0 && timeline.pending().len() > 0 && timeline.pending()[0].0 > MAX_SIM_TIME)
            ==> r == Err::<(BarberShopState, Vec<(u64, ApplyOutcome)>), SimError>(
            SimError::ClockOverflow,
        ),
{
    let mut s = state;
    let mut tl = timeline;
    let mut trace: Vec<(u64, ApplyOutcome)> = Vec::new();
    let mut fuel: u64 = max_steps;
    while !tl.is_empty()
        invariant
            s.wf(),
            tl.wf(),
            forall|i: int, j: int|
                0 <= i <= j < trace@.len() ==> (#[trigger] trace@[i]).0 <= (
                #[trigger] trace@[j]).0,
            forall|k: int, i: int|
                0 <= k < tl.pending().len() && 0 <= i < trace@.len() ==> (#[trigger] trace@[i]).0
                    <= (#[trigger] tl.pending()[k]).0,
            trace@.len() + tl.pending().len() >= timeline.pending().len(),
            trace@.len() == 0 ==> tl.pending() == timeline.pending(),
            (trace@.len() > 0 && timeline.pending().len() > 0) ==> trace@[0].0
                == timeline.pending()[0].0,
            fuel + trace@.len() == max_steps,
            timeline.pending().len() == 0 ==> tl.pending().len() == 0,
            (trace@.len() > 0 && timeline.pending().len() > 0) ==> timeline.pending()[0].0
                <= MAX_SIM_TIME,
        decreases fuel,
    {
        if fuel == 0 {
            return Err(SimError::StepLimitReached);
        }
        fuel = fuel - 1;
        let (now, ev) = tl.extract_min();
        if now > MAX_SIM_TIME {
            return Err(SimError::ClockOverflow);
        }
        match ev.apply(s, now) {
            Err(e) => {
                return Err(e);
            },
            Ok(res) => {
                let (s2, new_events, outcome) = res;
                s = s2;
                trace.push((now, outcome));
                let n = new_events.len();
                let mut i: usize = 0;
                while i < n
                    invariant
                        i <= n,
                        n == new_events@.len(),
                        tl.wf(),
                        forall|j: int| 0 <= j < n ==> now <= (#[trigger] new_events@[j]).time,
                        forall|j: int| 0 <= j < trace@.len() ==> (#[trigger] trace@[j]).0 <= now,
                        forall|i2: int, j2: int|
                            0 <= i2 <= j2 < trace@.len() ==> (#[trigger] trace@[i2]).0 <= (
                            #[trigger] trace@[j2]).0,
                        forall|k: int|
                            0 <= k < tl.pending().len() ==> now <= (#[trigger] tl.pending()[k]).0,
                        trace@.len() + tl.pending().len() >= timeline.pending().len(),
                        (trace@.len() > 0 && timeline.pending().len() > 0) ==> trace@[0].0
                            == timeline.pending()[0].0,
                        fuel + trace@.len() == max_steps,
                        trace@.len() > 0,
                        timeline.pending().len() > 0,
                        timeline.pending()[0].0 <= MAX_SIM_TIME,
                    decreases n - i,
                {
                    let e = new_events[i];
                    tl.insert(e.time, e.event);
                    i += 1;
                }
            },
        }
    }
    Ok((s, trace))
}

} // verus!
