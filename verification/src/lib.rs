//! Core of a one-button LED blinker: an edge-interrupt handler flips a shared
//! toggle flag, and a periodic loop reads that flag to either blink an output
//! line or hold it off. Both sides touch the shared state only inside a
//! critical section, so every handler run and every loop iteration is one
//! atomic step with respect to the other.
//!
//! The hardware lines are modelled by plain values (`lines`), the protected
//! region by `state`, the two critical-section bodies by `controller`, and
//! the possible interleavings of those atomic steps by `interleaving`.

pub mod controller;
pub mod interleaving;
pub mod lines;
pub mod state;
