//! Frame-difference viewer core: a capture loop that moves decoded camera
//! frames into a pair of textures (current and previous), and a render loop
//! that redraws on request, coalescing wake-ups and clamping resizes.
//!
//! - `layout`: frame and staging-buffer sizes, row padding.
//! - `store`: the current/previous pair and its one-generation shift.
//! - `capture`: the capture thread's decisions, from event to next action.
//! - `render`: the event loop's decisions, from event to next action.
use vstd::prelude::*;

pub mod capture;
pub mod layout;
pub mod render;
pub mod store;

verus! {

} // verus!
