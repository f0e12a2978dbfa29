//! Camera targeting and free-flight controls: which entity the camera
//! follows next, which targeting requests a frame's key presses raise, and
//! which way and how fast the movement keys fly the camera.
//!
//! Entities are identified by their integer identifiers.
use vstd::prelude::*;

verus! {

/// A targeting request raised by the camera controls.
#[derive(Debug, Clone, Copy, PartialEq, Eq, Structural)]
pub enum TargetEvent {
    /// Point the camera at the current target.
    FocusOnTarget,
    /// Move to the next target and follow it.
    CycleToNextTarget,
    /// Stop following any target.
    ClearTarget,
}

/// The requests raised when the focus, cycle and clear keys were (or were
/// not) just pressed, in that order.
pub open spec fn spec_targeting_events(focus: bool, cycle: bool, clear: bool) -> Seq<TargetEvent> {
    (if focus { seq![TargetEvent::FocusOnTarget] } else { Seq::empty() }) + (if cycle {
        seq![TargetEvent::CycleToNextTarget]
    } else {
        Seq::empty()
    }) + (if clear { seq![TargetEvent::ClearTarget] } else { Seq::empty() })
}

/// The targeting requests raised by a frame's key presses.
pub fn handle_camera_targeting_inputs(focus: bool, cycle: bool, clear: bool) -> (events: Vec<
    TargetEvent,
>)
    ensures
        events@ == spec_targeting_events(focus, cycle, clear),
{
    let mut events: Vec<TargetEvent> = Vec::new();
    if focus {
        events.push(TargetEvent::FocusOnTarget);
    }
    if cycle {
        events.push(TargetEvent::CycleToNextTarget);
    }
    if clear {
        events.push(TargetEvent::ClearTarget);
    }
    assert(events@ =~= spec_targeting_events(focus, cycle, clear));
    events
}

/// The first position of `e` in `s`, or `s.len()` when `e` does not occur.
pub open spec fn first_index(s: Seq<u64>, e: u64) -> int
    decreases s.len(),
{
    if s.len() == 0 {
        0
    } else if s[0] == e {
        0
    } else {
        1 + first_index(s.drop_first(), e)
    }
}

/// The target that follows `old`: the candidate after the first occurrence of
/// `old` in `targets`, wrapping around; the candidate after the first one
/// when `old` is not a candidate; the first candidate when there is no old
/// target; nothing when there are no candidates.
pub open spec fn spec_next_target(targets: Seq<u64>, old: Option<u64>) -> Option<u64> {
    if targets.len() == 0 {
        None
    } else {
        match old {
            None => Some(targets[0]),
            Some(e) => {
                let i = first_index(targets, e);
                let start = if i < targets.len() { i } else { 0 };
                Some(targets[(start + 1) % (targets.len() as int)])
            },
        }
    }
}

proof fn lemma_first_index(s: Seq<u64>, e: u64)
    ensures
        0 <= first_index(s, e) <= s.len(),
        first_index(s, e) < s.len() ==> s[first_index(s, e)] == e,
        forall|j: int| 0 <= j < first_index(s, e) ==> s[j] != e,
    decreases s.len(),
{
    if s.len() > 0 && s[0] != e {
        lemma_first_index(s.drop_first(), e);
        assert forall|j: int| 0 <= j < first_index(s, e) implies s[j] != e by {
            if j > 0 {
                assert(s[j] == s.drop_first()[j - 1]);
            }
        }
    }
}

/// Picks the camera's next target among `targets`, given the entity it
/// targeted before.
pub fn next_target(targets: &Vec<u64>, old: Option<u64>) -> (next: Option<u64>)
    ensures
        next == spec_next_target(targets@, old),
{
    let n = targets.len();
    if n == 0 {
        return None;
    }
    match old {
        None => Some(targets[0]),
        Some(e) => {
            let mut i: usize = 0;
            while i < n && targets[i] != e
                invariant
                    n == targets@.len(),
                    i <= n,
                    forall|j: int| 0 <= j < i ==> targets@[j] != e,
                decreases n - i,
            {
                i = i + 1;
            }
            proof {
                lemma_first_index(targets@, e);
                if i < n {
                    assert(targets@[i as int] == e);
                }
            }
            let start = if i < n { i } else { 0 };
            let next_index = if start + 1 < n { start + 1 } else { 0 };
            assert(next_index == (start + 1) % (n as int)) by (nonlinear_arith)
                requires
                    start < n,
                    next_index == if start + 1 < n { start + 1 } else { 0 },
            ;
            Some(targets[next_index])
        },
    }
}

/// When the entity targeted before is not among the candidates (as when the
/// candidates are gathered without the currently targeted entity), the next
/// target is the candidate at position 1, wrapping around to the first when
/// there is only one.
pub proof fn lemma_next_of_unlisted(targets: Seq<u64>, old: u64)
    requires
        targets.len() > 0,
        !targets.contains(old),
    ensures
        spec_next_target(targets, Some(old)) == Some(targets[1int % (targets.len() as int)]),
{
    lemma_first_index(targets, old);
    if first_index(targets, old) < targets.len() {
        assert(targets[first_index(targets, old)] == old);
    }
}

/// When the candidates are given with the entity targeted before among them,
/// and they are distinct, the target after the one at position `k` is the one
/// at position `k + 1`, wrapping around to the first.
pub proof fn lemma_next_of_listed(targets: Seq<u64>, k: int)
    requires
        0 <= k < targets.len(),
        forall|a: int, b: int| 0 <= a < b < targets.len() ==> targets[a] != targets[b],
    ensures
        spec_next_target(targets, Some(targets[k])) == Some(
            targets[(k + 1) % (targets.len() as int)],
        ),
{
    lemma_first_index(targets, targets[k]);
}

/// The target reached from the target `start` after `steps` cycles, each
/// given the same candidate list (which may hold `start`).
pub open spec fn cycle_from(targets: Seq<u64>, start: u64, steps: nat) -> Option<u64>
    decreases steps,
{
    if steps == 0 {
        Some(start)
    } else {
        match cycle_from(targets, start, (steps - 1) as nat) {
            Some(t) => spec_next_target(targets, Some(t)),
            None => None,
        }
    }
}

/// When each cycle is given the same distinct candidates, the current target
/// among them, cycling visits them in list order: after `steps` cycles from
/// the candidate at position `k` the camera targets the one at position
/// `(k + steps) mod n`.
pub proof fn lemma_cycle_visits_in_order(targets: Seq<u64>, k: int, steps: nat)
    requires
        0 <= k < targets.len(),
        forall|a: int, b: int| 0 <= a < b < targets.len() ==> targets[a] != targets[b],
    ensures
        cycle_from(targets, targets[k], steps) == Some(
            targets[(k + steps) % (targets.len() as int)],
        ),
    decreases steps,
{
    let n = targets.len() as int;
    if steps == 0 {
        assert((k + steps) % n == k) by (nonlinear_arith)
            requires
                0 <= k < n,
                steps == 0,
        ;
    } else {
        lemma_cycle_visits_in_order(targets, k, (steps - 1) as nat);
        let m = (k + steps - 1) % n;
        assert(0 <= m < n) by (nonlinear_arith)
            requires
                m == (k + steps - 1) % n,
                n > 0,
        ;
        lemma_next_of_listed(targets, m);
        assert((m + 1) % n == (k + steps) % n) by (nonlinear_arith)
            requires
                m == (k + steps - 1) % n,
                n > 0,
        ;
    }
}

/// When each cycle is given the same `n` distinct candidates, the current
/// target among them, cycling `n` times comes back to the candidate it
/// started from.
pub proof fn lemma_full_cycle_returns(targets: Seq<u64>, k: int)
    requires
        0 <= k < targets.len(),
        forall|a: int, b: int| 0 <= a < b < targets.len() ==> targets[a] != targets[b],
    ensures
        cycle_from(targets, targets[k], targets.len()) == Some(targets[k]),
{
    let n = targets.len() as int;
    lemma_cycle_visits_in_order(targets, k, targets.len());
    assert((k + n) % n == k) by (nonlinear_arith)
        requires
            0 <= k < n,
    ;
}

/// The direction the movement keys ask for, one component per axis: `+1`,
/// `-1`, or `0` when neither or both keys of the axis are held.
#[derive(Debug, Clone, Copy, PartialEq, Eq, Structural)]
pub struct MoveAxis {
    pub x: i8,
    pub y: i8,
    pub z: i8,
}

/// `1` for a held key, `0` otherwise.
pub open spec fn key_value(held: bool) -> int {
    if held {
        1
    } else {
        0
    }
}

/// The direction asked for by the forward/back, right/left and up/down keys:
/// forward and back on `z`, right and left on `x`, up and down on `y`.
pub fn movement_axis(forward: bool, back: bool, right: bool, left: bool, up: bool, down: bool) -> (a: MoveAxis)
    ensures
        a.z == key_value(forward) - key_value(back),
        a.x == key_value(right) - key_value(left),
        a.y == key_value(up) - key_value(down),
{
    let mut a = MoveAxis { x: 0, y: 0, z: 0 };
    if forward {
        a.z = a.z + 1;
    }
    if back {
        a.z = a.z - 1;
    }
    if right {
        a.x = a.x + 1;
    }
    if left {
        a.x = a.x - 1;
    }
    if up {
        a.y = a.y + 1;
    }
    if down {
        a.y = a.y - 1;
    }
    a
}

/// How the camera moves in a frame.
#[derive(Debug, Clone, Copy, PartialEq, Eq, Structural)]
pub enum MoveMode {
    /// Fly in the asked direction at the run speed.
    Run,
    /// Fly in the asked direction at the walk speed.
    Walk,
    /// No direction asked for: slow down by friction.
    Coast,
}

/// How the camera moves: at the run speed while the run key is held and a
/// direction is asked for, at the walk speed when a direction is asked for
/// without it, and coasting when no direction is asked for.
pub fn movement_mode(axis: MoveAxis, run: bool) -> (m: MoveMode)
    ensures
        (axis.x == 0 && axis.y == 0 && axis.z == 0) ==> m == MoveMode::Coast,
        !(axis.x == 0 && axis.y == 0 && axis.z == 0) ==> m == (if run {
            MoveMode::Run
        } else {
            MoveMode::Walk
        }),
{
    if axis.x == 0 && axis.y == 0 && axis.z == 0 {
        MoveMode::Coast
    } else if run {
        MoveMode::Run
    } else {
        MoveMode::Walk
    }
}

/// The position of a request in the order the requests are raised.
pub open spec fn event_order(e: TargetEvent) -> int {
    match e {
        TargetEvent::FocusOnTarget => 0,
        TargetEvent::CycleToNextTarget => 1,
        TargetEvent::ClearTarget => 2,
    }
}

/// Each targeting key raises its own request, independently of the others:
/// a request is raised exactly when its key was pressed, once, and the
/// requests come in focus, cycle, clear order.
pub proof fn lemma_targeting_keys_independent(focus: bool, cycle: bool, clear: bool)
    ensures
        spec_targeting_events(focus, cycle, clear).contains(TargetEvent::FocusOnTarget) == focus,
        spec_targeting_events(focus, cycle, clear).contains(TargetEvent::CycleToNextTarget)
            == cycle,
        spec_targeting_events(focus, cycle, clear).contains(TargetEvent::ClearTarget) == clear,
        spec_targeting_events(focus, cycle, clear).len() == key_value(focus) + key_value(cycle)
            + key_value(clear),
        forall|i: int, j: int|
            0 <= i < j < spec_targeting_events(focus, cycle, clear).len() ==> event_order(
                #[trigger] spec_targeting_events(focus, cycle, clear)[i],
            ) < event_order(#[trigger] spec_targeting_events(focus, cycle, clear)[j]),
{
    let ev = spec_targeting_events(focus, cycle, clear);
    let a: Seq<TargetEvent> = if focus { seq![TargetEvent::FocusOnTarget] } else { Seq::empty() };
    let b: Seq<TargetEvent> = if cycle { seq![TargetEvent::CycleToNextTarget] } else { Seq::empty() };
    let c: Seq<TargetEvent> = if clear { seq![TargetEvent::ClearTarget] } else { Seq::empty() };
    assert(ev == a + b + c);
    assert forall|i: int| 0 <= i < ev.len() implies (#[trigger] ev[i] == TargetEvent::FocusOnTarget
        ==> focus) && (ev[i] == TargetEvent::CycleToNextTarget ==> cycle) && (ev[i]
        == TargetEvent::ClearTarget ==> clear) && (ev[i] == TargetEvent::FocusOnTarget ==> i == 0)
        && (ev[i] == TargetEvent::CycleToNextTarget ==> i == a.len()) && (ev[i]
        == TargetEvent::ClearTarget ==> i == a.len() + b.len()) by {
        if i < a.len() {
            assert(ev[i] == a[i]);
        } else if i < a.len() + b.len() {
            assert(ev[i] == b[i - a.len()]);
        } else {
            assert(ev[i] == c[i - a.len() - b.len()]);
        }
    }
    if focus {
        assert(ev[0] == TargetEvent::FocusOnTarget);
    }
    if cycle {
        assert(ev[a.len() as int] == TargetEvent::CycleToNextTarget);
    }
    if clear {
        assert(ev[(a.len() + b.len()) as int] == TargetEvent::ClearTarget);
    }
}

/// With no previous target the camera takes the first candidate; with no
/// candidate it takes none.
pub proof fn lemma_first_pick(targets: Seq<u64>, old: Option<u64>)
    ensures
        targets.len() > 0 ==> spec_next_target(targets, None) == Some(targets[0]),
        targets.len() == 0 ==> spec_next_target(targets, old) is None,
{
}

/// Whatever the candidates, the next target after an entity that first
/// occurs at position `k` is the candidate at position `k + 1`, wrapping
/// around to the first; and any next target is one of the candidates.
pub proof fn lemma_next_after_first_occurrence(targets: Seq<u64>, k: int, old: Option<u64>)
    requires
        0 <= k < targets.len(),
        forall|j: int| 0 <= j < k ==> targets[j] != targets[k],
    ensures
        spec_next_target(targets, Some(targets[k])) == Some(
            targets[(k + 1) % (targets.len() as int)],
        ),
        spec_next_target(targets, old) matches Some(t) ==> targets.contains(t),
{
    lemma_first_index(targets, targets[k]);
    let n = targets.len() as int;
    assert(0 <= (k + 1) % n < n) by (nonlinear_arith)
        requires
            n > 0,
    ;
    match old {
        None => {
            assert(targets[0] == targets[0]);
        },
        Some(e) => {
            lemma_first_index(targets, e);
            let i = first_index(targets, e);
            let start = if i < n { i } else { 0 };
            assert(0 <= (start + 1) % n < n) by (nonlinear_arith)
                requires
                    n > 0,
            ;
            assert(targets[(start + 1) % n] == targets[(start + 1) % n]);
        },
    }
}

} // verus!
