//! Discrete-event simulation of a bounded-capacity barber shop: a fixed set
//! of chairs staffed by barbers on shifts, a finite waiting room, and a
//! priority-ordered event timeline with deterministic tie-breaking.

mod barber_shop;
mod events;
mod state;
mod sim;
mod timeline;

pub use crate::barber_shop::Barber;
pub use crate::barber_shop::BarberId;
pub use crate::barber_shop::BarberShiftState;
pub use crate::barber_shop::Chair;
pub use crate::barber_shop::ClosingState;
pub use crate::barber_shop::CustomerArrivalResult;
pub use crate::barber_shop::CustomerId;
pub use crate::barber_shop::Haircut;
pub use crate::events::ApplyOutcome;
pub use crate::events::Event;
pub use crate::events::EventEnvelope;
pub use crate::events::SimError;
pub use crate::sim::bootstrap_events;
pub use crate::sim::run;
pub use crate::sim::BARBERS_PER_SHIFT;
pub use crate::state::BarberShopState;
pub use crate::state::CustomerWaitOutcome;
pub use crate::timeline::Timeline;
