//! Run state of the simulation and the pause control's decision on it.
use vstd::prelude::*;

verus! {

/// The run state of the simulation.
#[derive(Debug, Clone, Copy, PartialEq, Eq, Structural)]
pub enum SimState {
    Stopped,
    Running,
    Faulted,
}

impl Default for SimState {
    /// A simulation starts stopped.
    fn default() -> (s: Self)
        ensures
            s == SimState::Stopped,
    {
        SimState::Stopped
    }
}

/// The state requested when the pause key is pressed in state `current`:
/// a stopped or faulted simulation is set running, a running one is stopped.
pub open spec fn spec_toggled(current: SimState) -> SimState {
    match current {
        SimState::Stopped => SimState::Running,
        SimState::Running => SimState::Stopped,
        SimState::Faulted => SimState::Running,
    }
}

/// Decides the next simulation state requested by the pause key.
/// Nothing is requested when the key was not pressed.
pub fn toggle_pause(current: SimState, pressed: bool) -> (next: Option<SimState>)
    ensures
        pressed ==> next == Some(spec_toggled(current)),
        !pressed ==> next is None,
{
    if pressed {
        match current {
            SimState::Stopped => Some(SimState::Running),
            SimState::Running => Some(SimState::Stopped),
            SimState::Faulted => Some(SimState::Running),
        }
    } else {
        None
    }
}

/// Pressing the pause key twice brings a stopped or running simulation back
/// to the state it was in, and always leaves the simulation running or
/// stopped, never faulted.
pub proof fn lemma_toggle_twice(s: SimState)
    ensures
        s != SimState::Faulted ==> spec_toggled(spec_toggled(s)) == s,
        spec_toggled(s) != SimState::Faulted,
        s == SimState::Faulted ==> spec_toggled(spec_toggled(s)) == SimState::Stopped,
{
}

/// The state requested after checking the simulated bodies' positions:
/// faulted as soon as one body is out of the atmosphere model's bounds,
/// nothing otherwise. `out_of_bounds[i]` tells whether body `i` is out of
/// bounds.
pub fn fault_if_out_of_bounds(out_of_bounds: &Vec<bool>) -> (next: Option<SimState>)
    ensures
        (exists|i: int| 0 <= i < out_of_bounds@.len() && out_of_bounds@[i]) ==> next == Some(
            SimState::Faulted,
        ),
        (forall|i: int| 0 <= i < out_of_bounds@.len() ==> !out_of_bounds@[i]) ==> next is None,
{
    let mut i: usize = 0;
    while i < out_of_bounds.len()
        invariant
            i <= out_of_bounds@.len(),
            forall|j: int| 0 <= j < i ==> !out_of_bounds@[j],
        decreases out_of_bounds@.len() - i,
    {
        if out_of_bounds[i] {
            return Some(SimState::Faulted);
        }
        i = i + 1;
    }
    None
}

/// The pause key sets a stopped simulation running, stops a running one,
/// and sets a faulted one running.
pub proof fn lemma_pause_key(s: SimState)
    ensures
        s == SimState::Stopped ==> spec_toggled(s) == SimState::Running,
        s == SimState::Running ==> spec_toggled(s) == SimState::Stopped,
        s == SimState::Faulted ==> spec_toggled(s) == SimState::Running,
{
}

} // verus!
