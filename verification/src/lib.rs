//! Cyclic control core of a three-stage feeder machine driven over a fieldbus.
//!
//! Once per bus cycle the transport hands the core one process-data frame.
//! The core reads the servo feedback and the digital inputs from it, advances
//! its state machines by one tick and writes the next servo commands and the
//! digital outputs back into the same frame.  Every reaction is synchronous,
//! bounded and free of allocation; all timing is counted in cycles.
//!
//! Each state machine has a ghost model (its view) and a transition function
//! over that model; the executable `update`/`react` methods are proved to
//! compute exactly that transition.

pub mod bits;
pub mod codec;
pub mod servo;
pub mod feeder;
pub mod top_level;
