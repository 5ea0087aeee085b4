//! A small library modelling the state of a single-window GPU demo:
//! the window's size, the surface configuration kept in sync with it,
//! the background clear colour, the one render pipeline built at startup,
//! and the event-loop decisions (resize, input, frame-error recovery).

pub mod color;
pub mod events;
pub mod pipeline;
pub mod size;
pub mod state;
pub mod text;
