//! The colour of a gizmo.

use vstd::prelude::*;

verus! {

/// `bevy_color::Color`, declared so that builders and draw commands can
/// carry it. The library never looks inside a colour: it hands on the value
/// that it was given.
#[verifier::external_type_specification]
#[verifier::external_body]
pub struct ExColor(bevy_color::Color);

} // verus!
