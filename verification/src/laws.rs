//! The laws the viewport obeys, proved once and for all states.
//!
//! The handlers' own contracts pin each single step down exactly; the proof
//! functions here state the properties that relate several steps: the event
//! remap inverts the paint transform, commands are idempotent, a wheel step
//! exactly halves or doubles the scale, a drag accumulates the sum of its
//! pointer deltas, and a released drag accumulates nothing.

use vstd::prelude::*;

use crate::canvas::{canvas_wf, step_move, step_up, step_wheel, CanvasV};
use crate::event::Command;
use crate::geom::{
    forward_v2, remap_v2, v2_add, v2_eq, v2_sub, v2_wf, v2_zero, V2,
};
use crate::rat::{
    forward_rat, rat_add, rat_div, rat_eq, rat_mul, rat_pos, rat_sub, rat_two, rat_wf,
    rat_halved, rat_doubled, remap_rat, Rat,
};
use crate::transform::{apply_command, TransformV};

verus! {

/// Equal-valued fractions stay equal-valued across a third one, as long as
/// the middle denominator is not zero.
proof fn lemma_rat_eq_trans(a: Rat, b: Rat, c: Rat)
    requires
        rat_eq(a, b),
        rat_eq(b, c),
        b.d != 0,
    ensures
        rat_eq(a, c),
{
    assert(a.n * c.d == c.n * a.d) by (nonlinear_arith)
        requires
            a.n * b.d == b.n * a.d,
            b.n * c.d == c.n * b.d,
            b.d != 0,
    ;
}

/// Fraction addition is associative up to value equality.
#[verifier::rlimit(50)]
proof fn lemma_rat_add_assoc(a: Rat, b: Rat, c: Rat)
    ensures
        rat_eq(rat_add(rat_add(a, b), c), rat_add(a, rat_add(b, c))),
{
    let l = rat_add(rat_add(a, b), c);
    let r = rat_add(a, rat_add(b, c));
    assert(l.n == (a.n * b.d + b.n * a.d) * c.d + c.n * (a.d * b.d));
    assert(l.d == (a.d * b.d) * c.d);
    assert(r.n == a.n * (b.d * c.d) + (b.n * c.d + c.n * b.d) * a.d);
    assert(r.d == a.d * (b.d * c.d));
    assert(((a.n * b.d + b.n * a.d) * c.d + c.n * (a.d * b.d)) * (a.d * (b.d * c.d)) == (a.n * (
    b.d * c.d) + (b.n * c.d + c.n * b.d) * a.d) * ((a.d * b.d) * c.d)) by (nonlinear_arith);
}

/// The round trip of one coordinate: painting a child-local coordinate
/// (scale then translate) and remapping the resulting screen coordinate
/// (un-translate then un-scale) recovers the coordinate exactly, for any
/// translation and any positive scale.
#[verifier::rlimit(50)]
pub proof fn lemma_round_trip_scalar(q: Rat, t: Rat, s: Rat)
    requires
        rat_wf(q),
        rat_wf(t),
        rat_wf(s),
        rat_pos(s),
    ensures
        rat_eq(remap_rat(forward_rat(q, t, s), t, s), q),
{
    let w = forward_rat(q, t, s);
    let b = rat_sub(w, t);
    let r = rat_div(b, s);
    assert(w.n == (q.n * s.n) * t.d + t.n * (q.d * s.d));
    assert(w.d == (q.d * s.d) * t.d);
    assert(b.n == w.n * t.d - t.n * w.d);
    assert(b.d == w.d * t.d);
    assert(r.n == b.n * s.d);
    assert(r.d == b.d * s.n);
    assert(b.n == ((q.n * s.n) * t.d) * t.d) by (nonlinear_arith)
        requires
            b.n == ((q.n * s.n) * t.d + t.n * (q.d * s.d)) * t.d - t.n * ((q.d * s.d) * t.d),
    ;
    assert(((((q.n * s.n) * t.d) * t.d) * s.d) * q.d == q.n * ((((q.d * s.d) * t.d) * t.d)
        * s.n)) by (nonlinear_arith);
}

/// The round trip of a whole point: for any point `p`, any translation `t`
/// and any positive scale `s`, the event remap applied to the painted
/// position recovers `p` exactly.
pub proof fn lemma_round_trip(p: V2, t: V2, s: Rat)
    requires
        v2_wf(p),
        v2_wf(t),
        rat_wf(s),
        rat_pos(s),
    ensures
        v2_eq(remap_v2(forward_v2(p, t, s), t, s), p),
{
    lemma_round_trip_scalar(p.x, t.x, s);
    lemma_round_trip_scalar(p.y, t.y, s);
}

/// Commands are idempotent: applying the same command twice leaves exactly
/// the state one application leaves.
pub proof fn lemma_command_idempotent(st: TransformV, c: Command)
    ensures
        apply_command(apply_command(st, c), c) == apply_command(st, c),
{
}

/// A wheel step with a positive vertical delta leaves exactly half the
/// scale, and any other wheel step leaves exactly twice the scale.
pub proof fn lemma_zoom_step(st: CanvasV, delta_y: Rat)
    requires
        rat_wf(st.scale),
    ensures
        rat_pos(delta_y) ==> rat_eq(
            step_wheel(st, delta_y).scale,
            rat_div(st.scale, rat_two()),
        ),
        !rat_pos(delta_y) ==> rat_eq(
            step_wheel(st, delta_y).scale,
            rat_mul(st.scale, rat_two()),
        ),
{
    assert(rat_eq(rat_halved(st.scale), rat_div(st.scale, rat_two())));
    assert(rat_eq(rat_doubled(st.scale), rat_mul(st.scale, rat_two())));
}

/// A wheel step keeps the scale strictly positive: starting positive, the
/// zoom gesture can never reach zero or turn the viewport inside out.
pub proof fn lemma_zoom_keeps_scale_positive(st: CanvasV, delta_y: Rat)
    requires
        rat_wf(st.scale),
        rat_pos(st.scale),
    ensures
        rat_wf(step_wheel(st, delta_y).scale),
        rat_pos(step_wheel(st, delta_y).scale),
{
}

/// The state a sequence of pointer moves leaves, each handled in turn.
pub open spec fn run_moves(st: CanvasV, ps: Seq<V2>) -> CanvasV
    decreases ps.len(),
{
    if ps.len() == 0 {
        st
    } else {
        run_moves(step_move(st, ps[0]), ps.drop_first())
    }
}

/// The sum of the consecutive pointer deltas of a move sequence, starting
/// from the last recorded position `l`.
pub open spec fn delta_sum(l: V2, ps: Seq<V2>) -> V2
    decreases ps.len(),
{
    if ps.len() == 0 {
        v2_zero()
    } else {
        v2_add(v2_sub(ps[0], l), delta_sum(ps[0], ps.drop_first()))
    }
}

proof fn lemma_delta_sum_wf(l: V2, ps: Seq<V2>)
    requires
        v2_wf(l),
        forall|i: int| 0 <= i < ps.len() ==> v2_wf(#[trigger] ps[i]),
    ensures
        v2_wf(delta_sum(l, ps)),
    decreases ps.len(),
{
    if ps.len() > 0 {
        let p0 = ps[0];
        let rest = ps.drop_first();
        assert(v2_wf(p0));
        assert forall|i: int| 0 <= i < rest.len() implies v2_wf(#[trigger] rest[i]) by {
            assert(rest[i] == ps[i + 1]);
        }
        lemma_delta_sum_wf(p0, rest);
        let d = delta_sum(p0, rest);
        assert((p0.x.d * l.x.d) * d.x.d > 0) by (nonlinear_arith)
            requires
                p0.x.d > 0,
                l.x.d > 0,
                d.x.d > 0,
        ;
        assert((p0.y.d * l.y.d) * d.y.d > 0) by (nonlinear_arith)
            requires
                p0.y.d > 0,
                l.y.d > 0,
                d.y.d > 0,
        ;
    }
}

/// Drag accumulation: while a drag is active, a sequence of pointer moves
/// adds exactly the sum of its consecutive deltas to the translation, and
/// touches neither the scale nor the drag flag.
pub proof fn lemma_drag_accumulates(st: CanvasV, ps: Seq<V2>)
    requires
        canvas_wf(st),
        st.is_move_action_active,
        forall|i: int| 0 <= i < ps.len() ==> v2_wf(#[trigger] ps[i]),
    ensures
        run_moves(st, ps).is_move_action_active,
        run_moves(st, ps).scale == st.scale,
        v2_wf(run_moves(st, ps).translation),
        v2_eq(
            run_moves(st, ps).translation,
            v2_add(st.translation, delta_sum(st.last_mouse_pos, ps)),
        ),
    decreases ps.len(),
{
    let t = st.translation;
    let l = st.last_mouse_pos;
    if ps.len() == 0 {
        assert(t.x.n * (t.x.d * 1) == (t.x.n * 1 + 0 * t.x.d) * t.x.d) by (nonlinear_arith);
        assert(t.y.n * (t.y.d * 1) == (t.y.n * 1 + 0 * t.y.d) * t.y.d) by (nonlinear_arith);
        assert(v2_eq(t, v2_add(t, v2_zero())));
    } else {
        let p0 = ps[0];
        let rest = ps.drop_first();
        assert(v2_wf(p0));
        assert forall|i: int| 0 <= i < rest.len() implies v2_wf(#[trigger] rest[i]) by {
            assert(rest[i] == ps[i + 1]);
        }
        let st1 = step_move(st, p0);
        let sd = v2_sub(p0, l);
        assert(st1.translation == v2_add(t, sd));
        assert(t.x.d * (p0.x.d * l.x.d) > 0) by (nonlinear_arith)
            requires
                t.x.d > 0,
                p0.x.d > 0,
                l.x.d > 0,
        ;
        assert(t.y.d * (p0.y.d * l.y.d) > 0) by (nonlinear_arith)
            requires
                t.y.d > 0,
                p0.y.d > 0,
                l.y.d > 0,
        ;
        assert(canvas_wf(st1));
        lemma_drag_accumulates(st1, rest);
        lemma_delta_sum_wf(p0, rest);
        let d = delta_sum(p0, rest);
        let run = run_moves(st, ps);
        assert(run == run_moves(st1, rest));
        lemma_rat_add_assoc(t.x, sd.x, d.x);
        lemma_rat_add_assoc(t.y, sd.y, d.y);
        assert((t.x.d * sd.x.d) * d.x.d != 0) by (nonlinear_arith)
            requires
                t.x.d > 0,
                sd.x.d > 0,
                d.x.d > 0,
        ;
        assert((t.y.d * sd.y.d) * d.y.d != 0) by (nonlinear_arith)
            requires
                t.y.d > 0,
                sd.y.d > 0,
                d.y.d > 0,
        ;
        lemma_rat_eq_trans(
            run.translation.x,
            rat_add(rat_add(t.x, sd.x), d.x),
            rat_add(t.x, rat_add(sd.x, d.x)),
        );
        lemma_rat_eq_trans(
            run.translation.y,
            rat_add(rat_add(t.y, sd.y), d.y),
            rat_add(t.y, rat_add(sd.y, d.y)),
        );
    }
}

/// Pointer moves without an active drag change nothing at all.
pub proof fn lemma_moves_without_drag(st: CanvasV, ps: Seq<V2>)
    requires
        !st.is_move_action_active,
    ensures
        run_moves(st, ps) == st,
    decreases ps.len(),
{
    if ps.len() > 0 {
        assert(step_move(st, ps[0]) == st);
        lemma_moves_without_drag(st, ps.drop_first());
    }
}

/// Drag boundary: after a drag ends, the very next pointer move (and any
/// number after it) leaves the translation untouched.
pub proof fn lemma_drag_end_stops_accumulation(st: CanvasV, p: V2)
    ensures
        step_move(step_up(st), p) == step_up(st),
        step_move(step_up(st), p).translation == st.translation,
{
}

} // verus!
