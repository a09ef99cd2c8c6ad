use barber_shop::ApplyOutcome;
use barber_shop::BarberId;
use barber_shop::BarberShiftState;
use barber_shop::BarberShopState;
use barber_shop::ClosingState;
use barber_shop::CustomerArrivalResult;
use barber_shop::CustomerId;
use barber_shop::CustomerWaitOutcome;
use barber_shop::Event;
use barber_shop::EventEnvelope;
use barber_shop::SimError;
use barber_shop::Timeline;
use barber_shop::bootstrap_events;
use barber_shop::run;

/// Scenario: 1 chair, 1 barber seated, waiting capacity 1; the first
/// customer is seated at once with that barber's name.
#[test]
fn immediate_service() {
    let mut s = BarberShopState::with_layout(1, 1);
    let b = s.add_barber();
    assert_eq!(b.id, BarberId(0));
    assert_eq!(b.name, "Pat");
    assert_eq!(b.shift_state, BarberShiftState::Working);
    s.open_shop();

    let (id, result) = s.add_customer();
    assert_eq!(id, CustomerId(0));
    match result {
        CustomerArrivalResult::Serviced(h) => {
            assert_eq!(h.chair, 0);
            assert_eq!(h.barber_name, "Pat");
        }
        _ => panic!("expected Serviced"),
    }
    assert_eq!(s.chairs[0].customer, Some(CustomerId(0)));
}

/// Scenario: with the chair occupied, the next customer queues; with the
/// queue full, the one after is turned away and the queue is unchanged.
#[test]
fn queueing_then_rejection() {
    let mut s = BarberShopState::with_layout(1, 1);
    s.add_barber();
    s.open_shop();
    s.add_customer();

    let (id1, r1) = s.add_customer();
    assert_eq!(id1, CustomerId(1));
    assert!(matches!(r1, CustomerArrivalResult::Waiting));
    assert_eq!(s.customers_waiting, vec![CustomerId(1)]);

    let (id2, r2) = s.add_customer();
    assert_eq!(id2, CustomerId(2));
    assert!(matches!(r2, CustomerArrivalResult::NoRoom));
    assert_eq!(s.customers_waiting, vec![CustomerId(1)]);
}

/// Scenario: closing the shop evicts the queued customer, producing one
/// CustomerKickedOut event at the close time, and empties the queue.
#[test]
fn closing_eviction() {
    let mut s = BarberShopState::with_layout(1, 1);
    s.add_barber();
    s.open_shop();
    s.add_customer();
    s.add_customer(); // Customer-1 queues

    let (s2, events, outcome) = Event::ShopClose.apply(s, 1020).unwrap();
    assert!(matches!(outcome, ApplyOutcome::ShopClosed));
    assert!(s2.customers_waiting.is_empty());
    assert!(!s2.open);
    assert_eq!(events.len(), 1);
    assert_eq!(
        events[0],
        EventEnvelope {
            time: 1020,
            event: Event::CustomerKickedOut { id: CustomerId(1) },
        }
    );
}

/// Scenario: a FinishingUp barber hands the chair to the first waiting
/// barber, who becomes Working, and the head waiting customer is seated.
#[test]
fn shift_handoff() {
    let mut s = BarberShopState::with_layout(1, 1);
    let a = s.add_barber(); // takes chair 0
    let b = s.add_barber(); // waits for a chair
    assert_eq!(b.shift_state, BarberShiftState::WaitingForChair);
    s.open_shop();
    s.add_customer(); // Customer-0 seated
    let (_, r1) = s.add_customer(); // Customer-1 queues
    assert!(matches!(r1, CustomerArrivalResult::Waiting));
    s.barber_shift_ends(a.id);

    let (done, departing, next_customer, next_barber, lights_off) = s.complete_haircut(0);
    assert_eq!(done, CustomerId(0));
    assert_eq!(departing.shift_state, BarberShiftState::FinishingUp);
    assert_eq!(departing.name, "Pat");
    let nb = next_barber.expect("successor barber");
    assert_eq!(nb.id, BarberId(1));
    assert_eq!(nb.name, "Kara");
    assert_eq!(nb.shift_state, BarberShiftState::Working);
    assert_eq!(s.chairs[0].barber, Some(BarberId(1)));
    assert_eq!(s.chairs[0].customer, Some(CustomerId(1)));
    assert_eq!(next_customer, Some(CustomerId(1)));
    assert!(!lights_off);
}

/// Scenario: a FinishingUp barber with no waiting successor leaves the
/// chair's barber slot empty, until a future shift start claims it.
#[test]
fn shift_end_without_successor() {
    let mut s = BarberShopState::with_layout(1, 1);
    let a = s.add_barber();
    s.open_shop();
    s.add_customer();
    s.barber_shift_ends(a.id);

    let (done, departing, next_customer, next_barber, _) = s.complete_haircut(0);
    assert_eq!(done, CustomerId(0));
    assert_eq!(departing.shift_state, BarberShiftState::FinishingUp);
    assert!(next_barber.is_none());
    assert!(next_customer.is_none());
    assert_eq!(s.chairs[0].barber, None);
    assert_eq!(s.chairs[0].customer, None);

    // A future shift start claims the idle chair.
    let (s2, spawned, _) = Event::BarberShiftStart.apply(s, 800).unwrap();
    assert_eq!(s2.chairs[0].barber, Some(BarberId(1)));
    assert_eq!(spawned.len(), 1);
    assert_eq!(
        spawned[0],
        EventEnvelope {
            time: 800 + 240,
            event: Event::BarberShiftEnd { id: BarberId(1) },
        }
    );
}

/// A customer who queues while the barber is finishing up with nobody to
/// take over ends up seated at a chair whose barber slot is empty: the one
/// transition after which a chair can hold a customer without a barber.
#[test]
fn handoff_without_successor_still_seats_waiting_customer() {
    let mut s = BarberShopState::with_layout(1, 1);
    let a = s.add_barber();
    s.open_shop();
    s.add_customer(); // Customer-0 seated
    s.add_customer(); // Customer-1 queues
    s.barber_shift_ends(a.id);

    let (_, _, next_customer, next_barber, _) = s.complete_haircut(0);
    assert!(next_barber.is_none());
    assert_eq!(next_customer, Some(CustomerId(1)));
    assert_eq!(s.chairs[0].barber, None);
    assert_eq!(s.chairs[0].customer, Some(CustomerId(1)));
}

/// Idempotence of the wait timer: firing it for a customer who is no
/// longer queued changes nothing and reports the no-op outcome.
#[test]
fn stale_wait_timer_is_idempotent() {
    let mut s = BarberShopState::with_layout(1, 1);
    s.add_barber();
    s.open_shop();
    s.add_customer(); // Customer-0 seated, never queued

    let before_waiting = s.customers_waiting.clone();
    let before_count = s.customer_count;
    let outcome = s.customer_wait_expired(CustomerId(0));
    assert_eq!(outcome, CustomerWaitOutcome::Serviced);
    assert_eq!(s.customers_waiting, before_waiting);
    assert_eq!(s.customer_count, before_count);
    assert_eq!(s.chairs[0].customer, Some(CustomerId(0)));
}

/// A live wait timer removes exactly the queued customer.
#[test]
fn live_wait_timer_removes_customer() {
    let mut s = BarberShopState::with_layout(1, 2);
    s.add_barber();
    s.open_shop();
    s.add_customer(); // seated
    s.add_customer(); // Customer-1 queues
    s.add_customer(); // Customer-2 queues

    let outcome = s.customer_wait_expired(CustomerId(1));
    assert_eq!(outcome, CustomerWaitOutcome::Leaves);
    assert_eq!(s.customers_waiting, vec![CustomerId(2)]);
}

/// Arrivals after closing are turned away, with the lights flag telling
/// whether a haircut is still finishing.
#[test]
fn closed_arrivals() {
    let mut s = BarberShopState::with_layout(1, 1);
    s.add_barber();
    s.open_shop();
    s.add_customer(); // seated
    s.close_shop();

    let (_, r) = s.add_customer();
    assert!(matches!(
        r,
        CustomerArrivalResult::Closed(ClosingState::LightsOn)
    ));

    s.complete_haircut(0);
    let (_, r2) = s.add_customer();
    assert!(matches!(
        r2,
        CustomerArrivalResult::Closed(ClosingState::LightsOff)
    ));
    assert!(s.lights_off());
}

/// Timeline ordering: entries come out by time, and entries with equal
/// times come out in insertion order.
#[test]
fn timeline_orders_by_time_then_insertion() {
    let mut t = Timeline::new();
    t.insert(10, Event::ShopOpen);
    t.insert(10, Event::ShopClose);
    t.insert(5, Event::CustomerArrival);
    t.insert(10, Event::BarberShiftStart);
    assert_eq!(t.len(), 4);
    assert!(!t.is_empty());

    assert_eq!(t.extract_min(), (5, Event::CustomerArrival));
    assert_eq!(t.extract_min(), (10, Event::ShopOpen));
    assert_eq!(t.extract_min(), (10, Event::ShopClose));
    assert_eq!(t.extract_min(), (10, Event::BarberShiftStart));
    assert!(t.is_empty());
}

/// A serviced arrival schedules the haircut's completion between the
/// shortest and longest duration, and the next arrival five minutes out.
#[test]
fn arrival_schedules_follow_ups() {
    let mut s = BarberShopState::with_layout(1, 1);
    s.add_barber();
    s.open_shop();

    let (s2, events, outcome) = Event::CustomerArrival.apply(s, 540).unwrap();
    match outcome {
        ApplyOutcome::CustomerArrived { id, result } => {
            assert_eq!(id, CustomerId(0));
            assert!(matches!(result, CustomerArrivalResult::Serviced(_)));
        }
        _ => panic!("expected CustomerArrived"),
    }
    assert_eq!(events.len(), 2);
    assert_eq!(events[0].event, Event::HaircutComplete { chair: 0 });
    assert!(events[0].time >= 540 + 20 && events[0].time <= 540 + 40);
    assert_eq!(
        events[1],
        EventEnvelope {
            time: 545,
            event: Event::CustomerArrival,
        }
    );

    // The queued customer's patience timer is scheduled twenty minutes out.
    let (s3, events2, _) = Event::CustomerArrival.apply(s2, 545).unwrap();
    assert_eq!(events2.len(), 2);
    assert_eq!(
        events2[0],
        EventEnvelope {
            time: 545 + 20,
            event: Event::CustomerWaitExpired { id: CustomerId(1) },
        }
    );

    // With the queue full the arrival still reschedules itself, alone.
    let (_, events3, _) = Event::CustomerArrival.apply(s3, 550).unwrap();
    assert_eq!(
        events3,
        vec![EventEnvelope {
            time: 555,
            event: Event::CustomerArrival,
        }]
    );
}

/// An arrival at a closed, fully idle shop does not reschedule itself:
/// that is how the arrival stream ends the day.
#[test]
fn arrival_stream_halts_when_closed_and_idle() {
    let s = BarberShopState::with_layout(1, 1);
    let (_, events, outcome) = Event::CustomerArrival.apply(s, 1030).unwrap();
    match outcome {
        ApplyOutcome::CustomerArrived { result, .. } => {
            assert!(matches!(
                result,
                CustomerArrivalResult::Closed(ClosingState::LightsOff)
            ));
        }
        _ => panic!("expected CustomerArrived"),
    }
    assert!(events.is_empty());

    // Closed but still cutting: the stream keeps going.
    let mut busy = BarberShopState::with_layout(1, 1);
    busy.add_barber();
    busy.open_shop();
    busy.add_customer();
    busy.close_shop();
    let (_, events2, _) = Event::CustomerArrival.apply(busy, 1030).unwrap();
    assert_eq!(
        events2,
        vec![EventEnvelope {
            time: 1035,
            event: Event::CustomerArrival,
        }]
    );
}

/// Each invariant violation or limit is reported as its own fault.
#[test]
fn fault_reporting() {
    let s = BarberShopState::with_layout(1, 1);
    let r = Event::HaircutComplete { chair: 99 }.apply(s, 0);
    assert_eq!(r.unwrap_err(), SimError::UnknownChair);

    let s = BarberShopState::with_layout(1, 1);
    let r = Event::HaircutComplete { chair: 0 }.apply(s, 0);
    assert_eq!(r.unwrap_err(), SimError::ChairWithoutBarber);

    let mut s = BarberShopState::with_layout(1, 1);
    s.add_barber();
    let r = Event::HaircutComplete { chair: 0 }.apply(s, 0);
    assert_eq!(r.unwrap_err(), SimError::ChairWithoutCustomer);

    let s = BarberShopState::with_layout(1, 1);
    let r = Event::BarberShiftEnd { id: BarberId(5) }.apply(s, 0);
    assert_eq!(r.unwrap_err(), SimError::UnknownBarber);

    // An open shop with an unstaffed free chair cannot seat an arrival.
    let mut s = BarberShopState::with_layout(1, 1);
    s.open_shop();
    let r = Event::CustomerArrival.apply(s, 0);
    assert_eq!(r.unwrap_err(), SimError::ChairWithoutBarber);

    // The customer id counter cannot wrap around.
    let mut s = BarberShopState::with_layout(1, 1);
    s.customer_count = u32::MAX;
    let r = Event::CustomerArrival.apply(s, 0);
    assert_eq!(r.unwrap_err(), SimError::CustomerIdsExhausted);
}

/// The bounded name pool: the ninth barber cannot be created, and a
/// configuration asking for too many per shift is rejected at startup.
#[test]
fn name_pool_is_a_hard_cap() {
    let mut s = BarberShopState::with_layout(1, 1);
    for i in 0..8u32 {
        let (s2, _, _) = Event::BarberShiftStart.apply(s, u64::from(i)).unwrap();
        s = s2;
    }
    assert_eq!(s.barbers.len(), 8);
    let r = Event::BarberShiftStart.apply(s, 9);
    assert_eq!(r.unwrap_err(), SimError::NamePoolExhausted);

    assert!(bootstrap_events(4).is_ok());
    let r = bootstrap_events(5);
    assert_eq!(r.unwrap_err(), SimError::NamePoolExhausted);
}

/// All eight pool names come out in hire order.
#[test]
fn barber_names_in_hire_order() {
    let mut s = BarberShopState::with_layout(8, 1);
    let expected = [
        "Pat", "Kara", "Vanessa", "Arnold", "Kelly", "Russ", "Sidney", "Saul",
    ];
    for name in expected {
        let b = s.add_barber();
        assert_eq!(b.name, name);
    }
}

/// The bootstrap schedule for the default day.
#[test]
fn bootstrap_schedule() {
    let t = bootstrap_events(4).unwrap();
    assert_eq!(t.len(), 11);
}

/// A whole default day runs to completion: the trace is chronological,
/// the day starts at opening time, and the shop ends dark and empty.
#[test]
fn full_day_runs_to_completion() {
    let state = BarberShopState::new();
    let timeline = bootstrap_events(4).unwrap();
    let (end, trace) = run(state, timeline, 100_000).unwrap();

    assert!(!trace.is_empty());
    assert_eq!(trace[0].0, 540);
    assert!(matches!(trace[0].1, ApplyOutcome::ShopOpened));
    for w in trace.windows(2) {
        assert!(w[0].0 <= w[1].0);
    }
    assert!(!end.open);
    assert!(end.customers_waiting.is_empty());
    assert!(end.lights_off());
    assert_eq!(end.barbers.len(), 8);
    // The chairs respect the staffing rule at the end of the day.
    for c in &end.chairs {
        assert!(c.customer.is_none() || c.barber.is_some());
    }
}

/// The driver's guards: an empty budget and an overflowing clock are
/// reported rather than run into.
#[test]
fn driver_guards() {
    let state = BarberShopState::new();
    let timeline = bootstrap_events(4).unwrap();
    let r = run(state, timeline, 0);
    assert_eq!(r.unwrap_err(), SimError::StepLimitReached);

    let state = BarberShopState::new();
    let mut timeline = Timeline::new();
    timeline.insert(u64::MAX, Event::ShopOpen);
    let r = run(state, timeline, 10);
    assert_eq!(r.unwrap_err(), SimError::ClockOverflow);

    // With nothing pending the driver succeeds at once, whatever the budget.
    let state = BarberShopState::new();
    let (end, trace) = run(state, Timeline::new(), 0).unwrap();
    assert!(trace.is_empty());
    assert!(end.barbers.is_empty());
}
