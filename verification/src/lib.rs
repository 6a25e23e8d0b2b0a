//! A small, fully specified core for a terminal progress dashboard.
//!
//! The library models the application as an explicit state machine: input
//! key events and progress ticks arrive over a channel, each one is folded
//! into the state, and every state can be turned into a pure description of
//! the frame to draw. Terminal input and output live outside the library;
//! the state transitions, the progress bookkeeping, and the frame model are
//! verified here.

pub mod events;
pub mod render;
pub mod screen;
pub mod state;
