//! Input synthesis: what to post to the system for an effect, a held chord, a scroll step or a
//! browser navigation.
use vstd::prelude::*;

pub mod effect;
pub mod hotkey;
pub mod keys;
pub mod laws;
pub mod navigate;
pub mod shortcut;
pub mod wheel_event;

verus! {

} // verus!
