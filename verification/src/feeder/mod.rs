//! The three feeder stages of the machine.

pub mod feeder1st;
pub mod feeder2nd;
pub mod feeder3rd;
