//! Hardware layer of an 8080-based arcade machine: the address space with its
//! mirrored work RAM, the bit-shifter peripheral, the input latch, the queue
//! of pending interrupt vectors and the cycle-driven timing rules.

pub mod bus;
pub mod input;
pub mod interrupts;
pub mod memory;
pub mod shifter;
pub mod timing;
pub mod video;

pub use bus::InvadersBus;
pub use input::{Button, InvadersInputState};
