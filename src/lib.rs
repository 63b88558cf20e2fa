//! Cooperative multitasking core for small firmware: task state machines,
//! a fixed task table, event latches and a guard for a shared bus.
pub mod level;
pub mod time;
pub mod quadrature;
pub mod scheduler;
pub mod button;
pub mod joystick;
pub mod blink;
pub mod poll;
pub mod scan;
pub mod bus;
