// Per-device mouse button remapping: the configuration model, the resolver that turns
// (configuration, attached devices, button) into an action, the interception hook's
// decisions and the replacement input it emits, and device identity and listing.
use vstd::prelude::*;

pub mod text;
pub mod action;
pub mod config;
pub mod device;
pub mod state;
pub mod synth;
pub mod hook;
pub mod laws;

verus! {

} // verus!
