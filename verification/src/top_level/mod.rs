//! The process-data frame and the machine's top-level state machines.

pub mod top_level;
