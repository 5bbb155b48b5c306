//! MIDI note numbers bound to triggers.
use vstd::prelude::*;

verus! {

/// C2: toggle feedback auto-pilot.
pub const FB_AUTO_TOGGLE: u8 = 36;
/// D2: toggle the crystal tour.
pub const TOUR_TOGGLE: u8 = 38;
/// E2: toggle the sequencer.
pub const SEQ_TOGGLE: u8 = 40;
/// F2: sequencer manual previous step.
pub const SEQ_PREV: u8 = 41;
/// G2: sequencer manual next step.
pub const SEQ_NEXT: u8 = 43;
/// A2: capture the current state into a new step.
pub const SEQ_CAPTURE: u8 = 45;

} // verus!
