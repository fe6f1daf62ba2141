//! The names of `bevy_egui` nodes.
use vstd::prelude::*;

verus! {

/// The main egui pass.
pub const EGUI_PASS: &'static str = "egui_pass";

} // verus!
