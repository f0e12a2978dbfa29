//! Deployment of a parachute: stowed, then partially open while it unfolds,
//! then fully open.
//!
//! The forces and the unfolding progress are real-valued and measured by the
//! caller; this module decides the deployment state from the two comparisons
//! the caller makes: whether the pulling force has reached the deploy force,
//! and whether the unfolding progress has reached completion.
use vstd::prelude::*;

verus! {

/// How far a parachute is deployed.
#[derive(Debug, Clone, Copy, PartialEq, Eq, Structural)]
pub enum ParachuteState {
    Stowed,
    PartiallyOpen,
    FullyOpen,
}

/// Which drag area a parachute presents in a state.
#[derive(Debug, Clone, Copy, PartialEq, Eq, Structural)]
pub enum DragAreaMode {
    /// No area: the parachute is packed away.
    Zero,
    /// The full area scaled by the unfolding progress.
    ScaledByProgress,
    /// The full area.
    Full,
}

/// The deployment order of a state.
pub open spec fn rank(s: ParachuteState) -> int {
    match s {
        ParachuteState::Stowed => 0,
        ParachuteState::PartiallyOpen => 1,
        ParachuteState::FullyOpen => 2,
    }
}

/// The state after one deployment step: a stowed parachute opens partially
/// once the pulling force reaches its deploy force; a partially open one
/// opens fully once its progress reaches completion; a fully open one stays
/// so.
pub open spec fn spec_deploy(s: ParachuteState, force_reached: bool, progress_complete: bool) -> ParachuteState {
    match s {
        ParachuteState::Stowed => if force_reached {
            ParachuteState::PartiallyOpen
        } else {
            ParachuteState::Stowed
        },
        ParachuteState::PartiallyOpen => if progress_complete {
            ParachuteState::FullyOpen
        } else {
            ParachuteState::PartiallyOpen
        },
        ParachuteState::FullyOpen => ParachuteState::FullyOpen,
    }
}

/// One deployment step. `force_reached` tells whether the pulling force is at
/// least the deploy force; `progress_complete` whether the unfolding progress,
/// advanced by this step, has reached completion.
pub fn deploy(state: ParachuteState, force_reached: bool, progress_complete: bool) -> (next: ParachuteState)
    ensures
        next == spec_deploy(state, force_reached, progress_complete),
{
    match state {
        ParachuteState::Stowed => {
            if force_reached {
                ParachuteState::PartiallyOpen
            } else {
                ParachuteState::Stowed
            }
        },
        ParachuteState::PartiallyOpen => {
            if progress_complete {
                ParachuteState::FullyOpen
            } else {
                ParachuteState::PartiallyOpen
            }
        },
        ParachuteState::FullyOpen => ParachuteState::FullyOpen,
    }
}

/// Whether a deployment step advances the unfolding progress: only while the
/// parachute is partially open.
pub fn advances_progress(state: ParachuteState) -> (r: bool)
    ensures
        r == (state == ParachuteState::PartiallyOpen),
{
    match state {
        ParachuteState::PartiallyOpen => true,
        _ => false,
    }
}

/// The drag area a parachute presents in a state.
pub fn drag_area_mode(state: ParachuteState) -> (m: DragAreaMode)
    ensures
        state == ParachuteState::Stowed ==> m == DragAreaMode::Zero,
        state == ParachuteState::PartiallyOpen ==> m == DragAreaMode::ScaledByProgress,
        state == ParachuteState::FullyOpen ==> m == DragAreaMode::Full,
{
    match state {
        ParachuteState::Stowed => DragAreaMode::Zero,
        ParachuteState::PartiallyOpen => DragAreaMode::ScaledByProgress,
        ParachuteState::FullyOpen => DragAreaMode::Full,
    }
}

/// A parachute never folds back up: each step keeps its state or moves it
/// one stage further; a fully open parachute stays fully open; a stowed one
/// stays stowed until the deploy force is reached.
pub proof fn lemma_deploy_monotone(s: ParachuteState, force_reached: bool, progress_complete: bool)
    ensures
        rank(s) <= rank(spec_deploy(s, force_reached, progress_complete)) <= rank(s) + 1,
        s == ParachuteState::FullyOpen ==> spec_deploy(s, force_reached, progress_complete)
            == ParachuteState::FullyOpen,
        s == ParachuteState::Stowed && !force_reached ==> spec_deploy(
            s,
            force_reached,
            progress_complete,
        ) == ParachuteState::Stowed,
{
}

/// The state after a sequence of steps, each given by its two comparisons.
pub open spec fn spec_deploy_all(s: ParachuteState, steps: Seq<(bool, bool)>) -> ParachuteState
    decreases steps.len(),
{
    if steps.len() == 0 {
        s
    } else {
        spec_deploy(spec_deploy_all(s, steps.drop_last()), steps.last().0, steps.last().1)
    }
}

/// Over any sequence of steps the deployment only moves forward, by at most
/// one stage per step.
pub proof fn lemma_deploy_all_monotone(s: ParachuteState, steps: Seq<(bool, bool)>)
    ensures
        rank(s) <= rank(spec_deploy_all(s, steps)) <= rank(s) + steps.len(),
    decreases steps.len(),
{
    if steps.len() > 0 {
        lemma_deploy_all_monotone(s, steps.drop_last());
        lemma_deploy_monotone(
            spec_deploy_all(s, steps.drop_last()),
            steps.last().0,
            steps.last().1,
        );
    }
}

/// What a deployment step does, stage by stage: a stowed parachute opens
/// partially exactly when the pulling force has reached its deploy force,
/// whatever its progress; a partially open one opens fully exactly when its
/// progress is complete, whatever the force; a fully open one stays so.
pub proof fn lemma_deploy_stages(force_reached: bool, progress_complete: bool)
    ensures
        spec_deploy(ParachuteState::Stowed, force_reached, progress_complete) == (if force_reached {
            ParachuteState::PartiallyOpen
        } else {
            ParachuteState::Stowed
        }),
        spec_deploy(ParachuteState::PartiallyOpen, force_reached, progress_complete) == (
        if progress_complete {
            ParachuteState::FullyOpen
        } else {
            ParachuteState::PartiallyOpen
        }),
        spec_deploy(ParachuteState::FullyOpen, force_reached, progress_complete)
            == ParachuteState::FullyOpen,
{
}

} // verus!
