//! Servo drive process data and the two drive state machines.

pub mod servo;
pub mod servo_pdo;
