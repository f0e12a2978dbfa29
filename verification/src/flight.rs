//! The flight step's choice of drag configuration.
use vstd::prelude::*;

verus! {

/// Which body's drag acts on the flight in a step.
#[derive(Debug, Clone, Copy, PartialEq, Eq, Structural)]
pub enum DragConfig {
    /// The intact balloon, with its projected area and drag coefficient.
    Balloon,
    /// The open parachute.
    Parachute,
    /// The payload box in free fall.
    Box,
}

/// The drag configuration of a step: the balloon's while it is intact;
/// once it has burst, the parachute's at or below the parachute's opening
/// altitude, the box's above it. `at_or_below_open_altitude` tells whether
/// the altitude is at most the opening altitude.
pub fn drag_configuration(balloon_intact: bool, at_or_below_open_altitude: bool) -> (c: DragConfig)
    ensures
        balloon_intact ==> c == DragConfig::Balloon,
        !balloon_intact && at_or_below_open_altitude ==> c == DragConfig::Parachute,
        !balloon_intact && !at_or_below_open_altitude ==> c == DragConfig::Box,
{
    if balloon_intact {
        DragConfig::Balloon
    } else if at_or_below_open_altitude {
        DragConfig::Parachute
    } else {
        DragConfig::Box
    }
}

} // verus!
