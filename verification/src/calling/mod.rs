//! Voice calling: the coarse call lifecycle shown to the UI, the mapping
//! between call signalling and Signal's `CallMessage`, and the rules that
//! move the lifecycle along.
pub mod state;
pub mod signaling;
pub mod bridge;

pub use state::{CallDirection, CallEvent, CallState};
