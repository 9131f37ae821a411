//! Navigation core of a terminal music browser: a three-pane focus and
//! selection state machine fed by one ordered stream of key presses, ticks
//! and fetch completions.
use vstd::prelude::*;

pub mod events;
pub mod gateway;
pub mod keys;
pub mod laws;
pub mod nav;
pub mod state;
pub mod types;

verus! {

} // verus!
