//! The time-scale controls: which adjustments a frame's key presses ask for,
//! and what they do to real-time mode.
use vstd::prelude::*;

verus! {

/// An adjustment of the simulation's time scale.
#[derive(Debug, Clone, Copy, PartialEq, Eq, Structural)]
pub enum TimeScaleOp {
    /// Raise the speed multiplier by one step.
    Faster,
    /// Lower the speed multiplier by one step.
    Slower,
    /// Restore the default multiplier and leave real-time mode.
    Reset,
    /// Switch real-time mode on or off.
    ToggleRealTime,
}

/// The adjustments asked for when the faster, slower, reset and real-time
/// keys were (or were not) just pressed, in the order they are applied.
pub open spec fn spec_time_scale_ops(faster: bool, slower: bool, reset: bool, toggle_real_time: bool) -> Seq<TimeScaleOp> {
    (if faster { seq![TimeScaleOp::Faster] } else { Seq::empty() }) + (if slower {
        seq![TimeScaleOp::Slower]
    } else {
        Seq::empty()
    }) + (if reset { seq![TimeScaleOp::Reset] } else { Seq::empty() }) + (if toggle_real_time {
        seq![TimeScaleOp::ToggleRealTime]
    } else {
        Seq::empty()
    })
}

/// The time-scale adjustments a frame's key presses ask for.
pub fn modify_time_scale(faster: bool, slower: bool, reset: bool, toggle_real_time: bool) -> (ops: Vec<TimeScaleOp>)
    ensures
        ops@ == spec_time_scale_ops(faster, slower, reset, toggle_real_time),
{
    let mut ops: Vec<TimeScaleOp> = Vec::new();
    if faster {
        ops.push(TimeScaleOp::Faster);
    }
    if slower {
        ops.push(TimeScaleOp::Slower);
    }
    if reset {
        ops.push(TimeScaleOp::Reset);
    }
    if toggle_real_time {
        ops.push(TimeScaleOp::ToggleRealTime);
    }
    assert(ops@ =~= spec_time_scale_ops(faster, slower, reset, toggle_real_time));
    ops
}

/// Real-time mode after one adjustment: a reset leaves real-time mode, the
/// real-time key switches it, and the speed steps leave it as it is.
pub open spec fn spec_real_time_after_op(real_time: bool, op: TimeScaleOp) -> bool {
    match op {
        TimeScaleOp::Reset => false,
        TimeScaleOp::ToggleRealTime => !real_time,
        _ => real_time,
    }
}

/// Real-time mode after the adjustments `ops`, applied in order.
pub open spec fn spec_real_time_after(real_time: bool, ops: Seq<TimeScaleOp>) -> bool
    decreases ops.len(),
{
    if ops.len() == 0 {
        real_time
    } else {
        spec_real_time_after_op(spec_real_time_after(real_time, ops.drop_last()), ops.last())
    }
}

/// Applies the adjustments `ops`, in order, to real-time mode.
pub fn real_time_after(real_time: bool, ops: &Vec<TimeScaleOp>) -> (r: bool)
    ensures
        r == spec_real_time_after(real_time, ops@),
{
    let mut r = real_time;
    let mut i: usize = 0;
    while i < ops.len()
        invariant
            i <= ops@.len(),
            r == spec_real_time_after(real_time, ops@.take(i as int)),
        decreases ops@.len() - i,
    {
        assert(ops@.take(i + 1).drop_last() =~= ops@.take(i as int));
        r = match ops[i] {
            TimeScaleOp::Reset => false,
            TimeScaleOp::ToggleRealTime => !r,
            _ => r,
        };
        i = i + 1;
    }
    assert(ops@.take(ops@.len() as int) =~= ops@);
    r
}

proof fn lemma_real_time_after_append(real_time: bool, a: Seq<TimeScaleOp>, b: Seq<TimeScaleOp>)
    ensures
        spec_real_time_after(real_time, a + b) == spec_real_time_after(
            spec_real_time_after(real_time, a),
            b,
        ),
    decreases b.len(),
{
    if b.len() == 0 {
        assert(a + b =~= a);
    } else {
        assert((a + b).drop_last() =~= a + b.drop_last());
        lemma_real_time_after_append(real_time, a, b.drop_last());
    }
}

/// The adjustment `op` when its key was pressed, nothing otherwise.
pub open spec fn key_op(pressed: bool, op: TimeScaleOp) -> Seq<TimeScaleOp> {
    if pressed {
        seq![op]
    } else {
        Seq::empty()
    }
}

proof fn lemma_key_op(real_time: bool, pressed: bool, op: TimeScaleOp)
    ensures
        spec_real_time_after(real_time, key_op(pressed, op)) == if pressed {
            spec_real_time_after_op(real_time, op)
        } else {
            real_time
        },
{
    if pressed {
        let e = Seq::<TimeScaleOp>::empty();
        assert(key_op(pressed, op).drop_last() =~= e);
        assert(key_op(pressed, op).last() == op);
        assert(spec_real_time_after(real_time, e) == real_time);
    }
}

/// A frame's keys act on real-time mode as follows: the reset key leaves
/// real-time mode, then the real-time key switches it; the speed keys do not
/// touch it.
pub proof fn lemma_keys_real_time(
    real_time: bool,
    faster: bool,
    slower: bool,
    reset: bool,
    toggle_real_time: bool,
)
    ensures
        spec_real_time_after(real_time, spec_time_scale_ops(faster, slower, reset, toggle_real_time))
            == {
            let after_reset = if reset {
                false
            } else {
                real_time
            };
            if toggle_real_time {
                !after_reset
            } else {
                after_reset
            }
        },
{
    let f = key_op(faster, TimeScaleOp::Faster);
    let s = key_op(slower, TimeScaleOp::Slower);
    let r = key_op(reset, TimeScaleOp::Reset);
    let t = key_op(toggle_real_time, TimeScaleOp::ToggleRealTime);
    assert(spec_time_scale_ops(faster, slower, reset, toggle_real_time) == f + s + r + t);
    lemma_real_time_after_append(real_time, f + s + r, t);
    lemma_real_time_after_append(real_time, f + s, r);
    lemma_real_time_after_append(real_time, f, s);
    lemma_key_op(real_time, faster, TimeScaleOp::Faster);
    let a1 = spec_real_time_after(real_time, f);
    lemma_key_op(a1, slower, TimeScaleOp::Slower);
    let a2 = spec_real_time_after(a1, s);
    lemma_key_op(a2, reset, TimeScaleOp::Reset);
    let a3 = spec_real_time_after(a2, r);
    lemma_key_op(a3, toggle_real_time, TimeScaleOp::ToggleRealTime);
}

/// The position of an adjustment in the order adjustments are applied.
pub open spec fn op_order(op: TimeScaleOp) -> int {
    match op {
        TimeScaleOp::Faster => 0,
        TimeScaleOp::Slower => 1,
        TimeScaleOp::Reset => 2,
        TimeScaleOp::ToggleRealTime => 3,
    }
}

/// `1` for a pressed key, `0` otherwise.
pub open spec fn pressed_count(pressed: bool) -> int {
    if pressed {
        1
    } else {
        0
    }
}

/// Each time-scale key asks for its own adjustment, independently of the
/// others: an adjustment is asked for exactly when its key was pressed, once,
/// and the adjustments come in faster, slower, reset, real-time order.
pub proof fn lemma_time_scale_keys_independent(faster: bool, slower: bool, reset: bool, toggle_real_time: bool)
    ensures
        spec_time_scale_ops(faster, slower, reset, toggle_real_time).contains(TimeScaleOp::Faster)
            == faster,
        spec_time_scale_ops(faster, slower, reset, toggle_real_time).contains(TimeScaleOp::Slower)
            == slower,
        spec_time_scale_ops(faster, slower, reset, toggle_real_time).contains(TimeScaleOp::Reset)
            == reset,
        spec_time_scale_ops(faster, slower, reset, toggle_real_time).contains(
            TimeScaleOp::ToggleRealTime,
        ) == toggle_real_time,
        spec_time_scale_ops(faster, slower, reset, toggle_real_time).len() == pressed_count(faster)
            + pressed_count(slower) + pressed_count(reset) + pressed_count(toggle_real_time),
        forall|i: int, j: int|
            0 <= i < j < spec_time_scale_ops(faster, slower, reset, toggle_real_time).len()
                ==> op_order(#[trigger] spec_time_scale_ops(faster, slower, reset, toggle_real_time)[i])
                < op_order(#[trigger] spec_time_scale_ops(faster, slower, reset, toggle_real_time)[j]),
{
    let ops = spec_time_scale_ops(faster, slower, reset, toggle_real_time);
    let f = key_op(faster, TimeScaleOp::Faster);
    let s = key_op(slower, TimeScaleOp::Slower);
    let r = key_op(reset, TimeScaleOp::Reset);
    let t = key_op(toggle_real_time, TimeScaleOp::ToggleRealTime);
    assert(ops == f + s + r + t);
    let o1 = f.len();
    let o2 = f.len() + s.len();
    let o3 = f.len() + s.len() + r.len();
    assert forall|i: int| 0 <= i < ops.len() implies (#[trigger] ops[i] == TimeScaleOp::Faster
        ==> faster && i == 0) && (ops[i] == TimeScaleOp::Slower ==> slower && i == o1) && (ops[i]
        == TimeScaleOp::Reset ==> reset && i == o2) && (ops[i] == TimeScaleOp::ToggleRealTime
        ==> toggle_real_time && i == o3) by {
        if i < o1 {
            assert(ops[i] == f[i]);
        } else if i < o2 {
            assert(ops[i] == s[i - o1]);
        } else if i < o3 {
            assert(ops[i] == r[i - o2]);
        } else {
            assert(ops[i] == t[i - o3]);
        }
    }
    if faster {
        assert(ops[0] == TimeScaleOp::Faster);
    }
    if slower {
        assert(ops[o1 as int] == TimeScaleOp::Slower);
    }
    if reset {
        assert(ops[o2 as int] == TimeScaleOp::Reset);
    }
    if toggle_real_time {
        assert(ops[o3 as int] == TimeScaleOp::ToggleRealTime);
    }
}

} // verus!
