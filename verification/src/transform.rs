//! The viewport.
//!
//! `Transform` holds the authoritative affine state — a translation vector
//! and a strictly positive uniform scale — and applies it at the library's
//! three boundaries: it consumes [`Command`]s to update the state, remaps
//! incoming pointer events into the wrapped child's own coordinate space,
//! and describes the paint transform (scale, then translate) that the host
//! shell pushes before the child draws. The event remap is the exact inverse
//! of the paint transform; see [`crate::laws`].

use vstd::prelude::*;

use crate::event::{event_ok, Command, Event, MouseEvent};
use crate::geom::{
    div_v2, divide_point, forward_point, forward_v2, remap_point, remap_v2, v2_in_range, v2_wf,
    Vec2, V2,
};
use crate::rat::{rat_in_range, rat_pos, rat_wf, Frac, Rat};

verus! {

/// Mathematical state of the viewport.
pub ghost struct TransformV {
    /// Offset of the child's origin in screen space.
    pub translation: V2,
    /// Uniform scale applied to the child.
    pub scale: Rat,
}

/// Denominators are positive and the scale is strictly positive.
pub open spec fn transform_wf(s: TransformV) -> bool {
    &&& v2_wf(s.translation)
    &&& rat_wf(s.scale)
    &&& rat_pos(s.scale)
}

/// Every component is inside the operating range.
pub open spec fn transform_in_range(s: TransformV) -> bool {
    &&& v2_in_range(s.translation)
    &&& rat_in_range(s.scale)
}

/// How a command changes the viewport: each one overwrites the field it
/// carries and touches nothing else.
pub open spec fn apply_command(s: TransformV, c: Command) -> TransformV {
    match c {
        Command::SetScale(v) => TransformV { translation: s.translation, scale: v@ },
        Command::SetTranslation(v) => TransformV { translation: v@, scale: s.scale },
    }
}

/// What [`Transform::transform_event_scale`] returns: pointer events get
/// their position divided by the scale, everything else gets `None`.
pub open spec fn scales_event(s: TransformV, ev: Event, r: Option<Event>) -> bool {
    match ev {
        Event::MouseDown(m) => r matches Some(e) && e matches Event::MouseDown(m2)
            && m2.pos@ == div_v2(m.pos@, s.scale) && m2.button == m.button
            && m2.wheel_delta == m.wheel_delta,
        Event::MouseUp(m) => r matches Some(e) && e matches Event::MouseUp(m2)
            && m2.pos@ == div_v2(m.pos@, s.scale) && m2.button == m.button
            && m2.wheel_delta == m.wheel_delta,
        Event::MouseMove(m) => r matches Some(e) && e matches Event::MouseMove(m2)
            && m2.pos@ == div_v2(m.pos@, s.scale) && m2.button == m.button
            && m2.wheel_delta == m.wheel_delta,
        _ => r is None,
    }
}

/// What [`Transform::event`] forwards to the child for a non-command event:
/// pointer events arrive with their position remapped through the full
/// inverse transform `(pos - translation) / scale`; anything else arrives
/// unchanged.
pub open spec fn routes_event(s: TransformV, ev: Event, r: Option<Event>) -> bool {
    match ev {
        Event::MouseDown(m) => r matches Some(e) && e matches Event::MouseDown(m2)
            && m2.pos@ == remap_v2(m.pos@, s.translation, s.scale) && m2.button == m.button
            && m2.wheel_delta == m.wheel_delta,
        Event::MouseUp(m) => r matches Some(e) && e matches Event::MouseUp(m2)
            && m2.pos@ == remap_v2(m.pos@, s.translation, s.scale) && m2.button == m.button
            && m2.wheel_delta == m.wheel_delta,
        Event::MouseMove(m) => r matches Some(e) && e matches Event::MouseMove(m2)
            && m2.pos@ == remap_v2(m.pos@, s.translation, s.scale) && m2.button == m.button
            && m2.wheel_delta == m.wheel_delta,
        Event::Command(_) => true,
        _ => r == Some(ev),
    }
}

/// The viewport: the affine state between screen space and child-local
/// space. The wrapped child widget itself lives with the host shell; this
/// type owns only the transform.
pub struct Transform {
    translation: Vec2,
    scale: Frac,
}

impl View for Transform {
    type V = TransformV;

    closed spec fn view(&self) -> TransformV {
        TransformV { translation: self.translation@, scale: self.scale@ }
    }
}

impl Transform {
    /// A fresh viewport: zero translation, unit scale.
    pub fn new() -> (r: Transform)
        ensures
            r@.translation == (V2 { x: Rat { n: 0, d: 1 }, y: Rat { n: 0, d: 1 } }),
            r@.scale == (Rat { n: 1, d: 1 }),
            transform_wf(r@),
            transform_in_range(r@),
    {
        Transform { translation: Vec2::zero(), scale: Frac::from_int(1) }
    }

    /// Current translation.
    pub fn translation(&self) -> (r: Vec2)
        ensures
            r@ == self@.translation,
    {
        self.translation
    }

    /// Current scale.
    pub fn scale(&self) -> (r: Frac)
        ensures
            r@ == self@.scale,
    {
        self.scale
    }

    /// Whether the state is inside the operating range; callers outside
    /// verified code can test the precondition of [`Transform::event`] with
    /// this.
    pub fn in_range(&self) -> (r: bool)
        ensures
            r == transform_in_range(self@),
    {
        self.translation.in_range() && self.scale.in_range()
    }

    /// The scale-only half of the event remap: divide a pointer event's
    /// position by the current scale; any other event yields `None`.
    pub fn transform_event_scale(&self, event: &Event) -> (r: Option<Event>)
        requires
            transform_wf(self@),
            transform_in_range(self@),
            event_ok(*event),
        ensures
            scales_event(self@, *event, r),
    {
        match event {
            Event::MouseDown(m) => Some(
                Event::MouseDown(
                    MouseEvent {
                        pos: divide_point(&m.pos, &self.scale),
                        button: m.button,
                        wheel_delta: m.wheel_delta,
                    },
                ),
            ),
            Event::MouseUp(m) => Some(
                Event::MouseUp(
                    MouseEvent {
                        pos: divide_point(&m.pos, &self.scale),
                        button: m.button,
                        wheel_delta: m.wheel_delta,
                    },
                ),
            ),
            Event::MouseMove(m) => Some(
                Event::MouseMove(
                    MouseEvent {
                        pos: divide_point(&m.pos, &self.scale),
                        button: m.button,
                        wheel_delta: m.wheel_delta,
                    },
                ),
            ),
            _ => None,
        }
    }

    /// A screen-space point in the child's own coordinate space: the full
    /// inverse transform, un-translate then un-scale.
    pub fn to_local(&self, p: &Vec2) -> (r: Vec2)
        requires
            transform_wf(self@),
            transform_in_range(self@),
            v2_in_range(p@),
        ensures
            r@ == remap_v2(p@, self@.translation, self@.scale),
            r.wf(),
    {
        remap_point(p, &self.translation, &self.scale)
    }

    /// A child-local point in screen space: the paint transform, scale then
    /// translate. This is the map the host shell pushes before the child
    /// paints.
    pub fn to_screen(&self, p: &Vec2) -> (r: Vec2)
        requires
            transform_wf(self@),
            transform_in_range(self@),
            v2_in_range(p@),
        ensures
            r@ == forward_v2(p@, self@.translation, self@.scale),
            r.wf(),
    {
        forward_point(p, &self.translation, &self.scale)
    }

    /// Handle one event. A command overwrites the field it carries, is
    /// consumed (`None`: nothing reaches the child, and the host shell must
    /// re-run layout). Every other event is returned for the child, with
    /// pointer positions remapped into child-local space.
    pub fn event(&mut self, ev: &Event) -> (r: Option<Event>)
        requires
            transform_wf(old(self)@),
            transform_in_range(old(self)@),
            event_ok(*ev),
        ensures
            *ev matches Event::Command(c) ==> {
                &&& final(self)@ == apply_command(old(self)@, c)
                &&& r is None
                &&& transform_wf(final(self)@)
            },
            !(*ev matches Event::Command(_)) ==> {
                &&& final(self)@ == old(self)@
                &&& routes_event(old(self)@, *ev, r)
            },
    {
        match ev {
            Event::Command(c) => {
                match c {
                    Command::SetScale(v) => {
                        self.scale = *v;
                    },
                    Command::SetTranslation(v) => {
                        self.translation = *v;
                    },
                }
                None
            },
            Event::MouseDown(m) => Some(
                Event::MouseDown(
                    MouseEvent {
                        pos: remap_point(&m.pos, &self.translation, &self.scale),
                        button: m.button,
                        wheel_delta: m.wheel_delta,
                    },
                ),
            ),
            Event::MouseUp(m) => Some(
                Event::MouseUp(
                    MouseEvent {
                        pos: remap_point(&m.pos, &self.translation, &self.scale),
                        button: m.button,
                        wheel_delta: m.wheel_delta,
                    },
                ),
            ),
            Event::MouseMove(m) => Some(
                Event::MouseMove(
                    MouseEvent {
                        pos: remap_point(&m.pos, &self.translation, &self.scale),
                        button: m.button,
                        wheel_delta: m.wheel_delta,
                    },
                ),
            ),
            _ => Some(*ev),
        }
    }
}

} // verus!
