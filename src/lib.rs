//! Interrupt-driven LED blinker: a button starts and stops a periodic timer,
//! and each timer expiry toggles the LED.
//!
//! `control` holds the decision the button interrupt makes, `board` a model of
//! the whole system (pins, timer, interrupt masking, simulated time) built on
//! it, and `laws` the properties proved of that model.
pub mod level;
pub mod control;
pub mod board;
pub mod laws;
