//! Touchpad gestures, from raw touch reports to what is posted to the system.
//!
//! - [`capture`] assembles raw reports into logical frames, and [`touchpad`] tells gestures in them:
//!   per frame with physical units, and as a classifier of whole strokes.
//! - [`defaults`], [`binding`] and [`key_combo`] say which action a gesture has.
//! - [`runtime`] follows one device's strokes, [`swipe`] and [`dockswipe`] stream a swipe into the
//!   native animation, [`scroll`] scrolls and glides, [`wheel`] counts a wheel's rotation.
//! - [`dispatch`] turns the input of all capture sessions into commands.
//! - [`capture_plan`], [`session`] and [`manager`] decide which capture sessions run.
//! - [`inject`] says which system events an action comes to.
//! - [`diag`] reports on a touchpad, and [`panel`] is what its settings show.
//!
//! Each type with private fields has a view, and each step of its state is a spec function on the
//! view: an executable function's contract equates its effect with that step. What holds across
//! several steps is stated by the public proof functions whose names begin with `law_`.
use vstd::prelude::*;

pub mod binding;
pub mod capture;
pub mod capture_plan;
pub mod defaults;
pub mod diag;
pub mod dispatch;
pub mod dispatch_laws;
pub mod dockswipe;
pub mod inject;
pub mod key_combo;
pub mod manager;
pub mod manager_laws;
pub mod math;
pub mod panel;
pub mod plan;
pub mod runtime;
pub mod runtime_laws;
pub mod scroll;
pub mod session;
pub mod swipe;
pub mod table;
pub mod text;
pub mod touchpad;
pub mod wheel;

verus! {

} // verus!
