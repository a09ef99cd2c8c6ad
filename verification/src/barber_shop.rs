//! Domain types of the shop: chairs, barbers, customers, and the outcome
//! values that the state transitions report.

use vstd::prelude::*;

verus! {

/// Identity of a customer: a sequential number, never reused within a run.
#[derive(Clone, Copy, Debug, PartialEq, Eq, Structural)]
pub struct CustomerId(pub u32);

/// Identity of a barber: a sequential number, also its index in the registry.
#[derive(Clone, Copy, Debug, PartialEq, Eq, Structural)]
pub struct BarberId(pub usize);

/// One service station. Both occupants are optional and independent; the
/// chair itself persists for the whole simulated day.
#[derive(Clone, Copy, Debug)]
pub struct Chair {
    pub barber: Option<BarberId>,
    pub customer: Option<CustomerId>,
}

/// A barber's lifecycle phase.
#[derive(Clone, Copy, Debug, PartialEq, Eq, Structural)]
pub enum BarberShiftState {
    /// Hired while every chair already had a barber; queued for one.
    WaitingForChair,
    /// Occupying a chair and accepting customers.
    Working,
    /// Shift over, but still completing the haircut in progress.
    FinishingUp,
}

/// A barber: identity, display name drawn from a bounded pool, and phase.
#[derive(Debug)]
pub struct Barber {
    pub id: BarberId,
    pub name: String,
    pub shift_state: BarberShiftState,
}

/// What an arriving customer got.
#[derive(Debug)]
pub enum CustomerArrivalResult {
    /// Seated at once; carries the chair index and the barber's name.
    Serviced(Haircut),
    /// No free chair, but room in the waiting area.
    Waiting,
    /// No free chair and the waiting area is full; turned away.
    NoRoom,
    /// The shop is closed; carries whether any haircut is still finishing.
    Closed(ClosingState),
}

/// A haircut that just started: which chair, and who is cutting.
#[derive(Debug)]
pub struct Haircut {
    pub barber_name: String,
    pub chair: usize,
}

/// Seen by a customer who arrives after closing time.
#[derive(Clone, Copy, Debug, PartialEq, Eq, Structural)]
pub enum ClosingState {
    /// Some chair still has a customer: haircuts are being finished.
    LightsOn,
    /// No chair is occupied: the shop is fully idle.
    LightsOff,
}

impl Chair {
    /// A chair with neither occupant.
    pub fn empty() -> (c: Chair)
        ensures
            c.barber is None,
            c.customer is None,
    {
        Chair { barber: None, customer: None }
    }
}

} // verus!
