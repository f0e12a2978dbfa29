//! Debug overlays: which of them are shown, and how the debug keys switch
//! them.
use vstd::prelude::*;

verus! {

/// Which debug overlays are shown.
#[derive(Debug, Clone, Copy, PartialEq, Eq, Structural)]
pub struct DebugState {
    pub wireframe: bool,
    pub forces: bool,
    pub physics: bool,
}

impl Default for DebugState {
    /// Force arrows shown, wireframes and physics gizmos hidden.
    fn default() -> (s: Self)
        ensures
            s == (DebugState { wireframe: false, forces: true, physics: false }),
    {
        DebugState { wireframe: false, forces: true, physics: false }
    }
}

/// The gizmo configuration a debug flag selects.
#[derive(Debug, Clone, Copy, PartialEq, Eq, Structural)]
pub enum GizmoPreset {
    /// Every rendering option enabled (the `all` configuration).
    All,
    /// Every option turned off (the `none` configuration).
    Off,
}

/// The preset a debug flag selects.
pub open spec fn spec_preset(shown: bool) -> GizmoPreset {
    if shown {
        GizmoPreset::All
    } else {
        GizmoPreset::Off
    }
}

/// The debug state after a frame in which the three debug keys were (or were
/// not) pressed: each pressed key flips its overlay.
pub open spec fn spec_after_keys(s: DebugState, toggle_1: bool, toggle_2: bool, toggle_3: bool) -> DebugState {
    DebugState {
        wireframe: if toggle_1 { !s.wireframe } else { s.wireframe },
        forces: if toggle_2 { !s.forces } else { s.forces },
        physics: if toggle_3 { !s.physics } else { s.physics },
    }
}

impl DebugState {
    /// Flips the wireframe overlay.
    pub fn toggle_wireframe(&mut self)
        ensures
            *final(self) == (DebugState { wireframe: !old(self).wireframe, ..*old(self) }),
    {
        self.wireframe = !self.wireframe;
    }

    /// Flips the force arrows.
    pub fn toggle_forces(&mut self)
        ensures
            *final(self) == (DebugState { forces: !old(self).forces, ..*old(self) }),
    {
        self.forces = !self.forces;
    }

    /// Flips the physics gizmos.
    pub fn toggle_physics(&mut self)
        ensures
            *final(self) == (DebugState { physics: !old(self).physics, ..*old(self) }),
    {
        self.physics = !self.physics;
    }

    /// Applies a frame's debug key presses. Returns whether the global
    /// wireframe setting must be flipped too, which it must exactly when the
    /// wireframe key was pressed.
    pub fn toggle_debug_ui(&mut self, toggle_1: bool, toggle_2: bool, toggle_3: bool) -> (flip_wireframe: bool)
        ensures
            *final(self) == spec_after_keys(*old(self), toggle_1, toggle_2, toggle_3),
            flip_wireframe == toggle_1,
    {
        if toggle_1 {
            self.toggle_wireframe();
        }
        if toggle_2 {
            self.toggle_forces();
        }
        if toggle_3 {
            self.toggle_physics();
        }
        toggle_1
    }

    /// The force-arrow gizmo preset the state selects.
    pub fn show_force_gizmos(&self) -> (p: GizmoPreset)
        ensures
            p == spec_preset(self.forces),
    {
        if self.forces {
            GizmoPreset::All
        } else {
            GizmoPreset::Off
        }
    }

    /// The physics gizmo preset the state selects.
    pub fn show_physics_gizmos(&self) -> (p: GizmoPreset)
        ensures
            p == spec_preset(self.physics),
    {
        if self.physics {
            GizmoPreset::All
        } else {
            GizmoPreset::Off
        }
    }
}

/// Pressing the same debug keys in two frames leaves every overlay as it was.
pub proof fn lemma_keys_twice_restore(s: DebugState, toggle_1: bool, toggle_2: bool, toggle_3: bool)
    ensures
        spec_after_keys(spec_after_keys(s, toggle_1, toggle_2, toggle_3), toggle_1, toggle_2, toggle_3)
            == s,
{
}

/// Each overlay flips exactly when its own key is pressed, whatever the
/// other keys do.
pub proof fn lemma_keys_independent(s: DebugState, toggle_1: bool, toggle_2: bool, toggle_3: bool)
    ensures
        spec_after_keys(s, toggle_1, toggle_2, toggle_3).wireframe == (s.wireframe != toggle_1),
        spec_after_keys(s, toggle_1, toggle_2, toggle_3).forces == (s.forces != toggle_2),
        spec_after_keys(s, toggle_1, toggle_2, toggle_3).physics == (s.physics != toggle_3),
{
}

/// A shown overlay selects the full gizmo configuration, a hidden one the
/// configuration with every option off.
pub proof fn lemma_presets()
    ensures
        spec_preset(true) == GizmoPreset::All,
        spec_preset(false) == GizmoPreset::Off,
{
}

} // verus!
