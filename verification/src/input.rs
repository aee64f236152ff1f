//! Per-tick player intent, as the input collaborator hands it to the core.
//!
//! Axis values are fixed-point in `[-FX_ONE, FX_ONE]` or absent; fire intents
//! are booleans.  The core reads these read-only each tick.

use vstd::prelude::*;
use crate::components::Side;
use crate::fx::FX_ONE;

verus! {

/// One faction's axis values and fire intent for the current tick.
#[derive(Clone, Copy, Debug)]
pub struct SideInput {
    pub rotate: Option<i64>,
    pub accelerate: Option<i64>,
    pub drift: Option<i64>,
    pub shoot: bool,
}

/// Both factions' intent for the current tick.
#[derive(Clone, Copy, Debug)]
pub struct InputState {
    pub light: SideInput,
    pub dark: SideInput,
}

impl SideInput {
    /// No axis present and no fire intent.
    pub fn none() -> (r: SideInput)
        ensures
            r.rotate is None,
            r.accelerate is None,
            r.drift is None,
            !r.shoot,
    {
        SideInput { rotate: None, accelerate: None, drift: None, shoot: false }
    }
}

/// An axis value, when present, lies in `[-FX_ONE, FX_ONE]`.
pub open spec fn axis_wf(a: Option<i64>) -> bool {
    a is Some ==> -FX_ONE <= a->0 <= FX_ONE
}

pub open spec fn side_input_wf(s: SideInput) -> bool {
    &&& axis_wf(s.rotate)
    &&& axis_wf(s.accelerate)
    &&& axis_wf(s.drift)
}

pub open spec fn input_wf(i: InputState) -> bool {
    &&& side_input_wf(i.light)
    &&& side_input_wf(i.dark)
}

/// The lookup from a faction to its own named axes and fire intent.
pub open spec fn input_for_side(i: InputState, side: Side) -> SideInput {
    match side {
        Side::Light => i.light,
        Side::Dark => i.dark,
    }
}

impl InputState {
    /// The intent of one faction (the faction-to-axis lookup table).
    pub fn for_side(&self, side: Side) -> (r: SideInput)
        ensures
            r == input_for_side(*self, side),
    {
        match side {
            Side::Light => self.light,
            Side::Dark => self.dark,
        }
    }
}

} // verus!
