//! A dual-redundant radio-altimeter subsystem for a large-aircraft simulation:
//! two independently powered altimeter channels, each driven by a transmit and
//! a receive antenna mounted at distinct airframe locations, advanced in
//! lockstep once per simulation tick and exposed to the simulation's
//! state-visitation pass in a deterministic child-before-parent order.

pub mod ala52b;
pub mod navigation;
pub mod radio_altimeter;
pub mod shared;
pub mod simulation;
