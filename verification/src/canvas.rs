//! The gesture tracker.
//!
//! `Canvas` watches raw pointer and wheel input and turns it into viewport
//! commands: a middle-button drag accumulates a translation, and each wheel
//! event halves or doubles the scale. It owns no viewport state of the
//! wrapped child; it only emits [`Command`]s for the viewport to consume.

use vstd::prelude::*;

use crate::event::{event_ok, Command, Event, MouseButton};
use crate::geom::{shift_point, shift_v2, v2_in_range, v2_wf, Vec2, V2};
use crate::rat::{
    rat_doubled, rat_halved, rat_in_range, rat_pos, rat_wf, Frac, Rat,
};

verus! {

/// Mathematical state of the gesture tracker.
pub ghost struct CanvasV {
    /// Translation accumulated by drags so far.
    pub translation: V2,
    /// Scale reached by wheel steps so far.
    pub scale: Rat,
    /// Pointer position recorded at drag start and at every drag move.
    pub last_mouse_pos: V2,
    /// Whether a middle-button drag is in progress.
    pub is_move_action_active: bool,
}

/// Denominators are positive and the scale is strictly positive.
pub open spec fn canvas_wf(s: CanvasV) -> bool {
    &&& v2_wf(s.translation)
    &&& rat_wf(s.scale)
    &&& rat_pos(s.scale)
    &&& v2_wf(s.last_mouse_pos)
}

/// Every component is inside the operating range.
pub open spec fn canvas_in_range(s: CanvasV) -> bool {
    &&& v2_in_range(s.translation)
    &&& rat_in_range(s.scale)
    &&& v2_in_range(s.last_mouse_pos)
}

/// Middle-button press at `p`: start dragging there.
pub open spec fn step_down(s: CanvasV, p: V2) -> CanvasV {
    CanvasV {
        translation: s.translation,
        scale: s.scale,
        last_mouse_pos: p,
        is_move_action_active: true,
    }
}

/// Middle-button release: stop dragging; nothing else changes.
pub open spec fn step_up(s: CanvasV) -> CanvasV {
    CanvasV {
        translation: s.translation,
        scale: s.scale,
        last_mouse_pos: s.last_mouse_pos,
        is_move_action_active: false,
    }
}

/// Pointer move to `p`: while dragging, add the delta since the last
/// recorded position to the translation and record `p`; otherwise nothing
/// changes.
pub open spec fn step_move(s: CanvasV, p: V2) -> CanvasV {
    if s.is_move_action_active {
        CanvasV {
            translation: shift_v2(s.translation, p, s.last_mouse_pos),
            scale: s.scale,
            last_mouse_pos: p,
            is_move_action_active: s.is_move_action_active,
        }
    } else {
        s
    }
}

/// Wheel step: a positive vertical delta halves the scale, any other delta
/// doubles it.
pub open spec fn step_wheel(s: CanvasV, delta_y: Rat) -> CanvasV {
    CanvasV {
        translation: s.translation,
        scale: if rat_pos(delta_y) {
            rat_halved(s.scale)
        } else {
            rat_doubled(s.scale)
        },
        last_mouse_pos: s.last_mouse_pos,
        is_move_action_active: s.is_move_action_active,
    }
}

/// The whole gesture step: how one input event changes the tracker state.
pub open spec fn canvas_step(s: CanvasV, ev: Event) -> CanvasV {
    match ev {
        Event::MouseDown(m) => if m.button == MouseButton::Middle {
            step_down(s, m.pos@)
        } else {
            s
        },
        Event::MouseUp(m) => if m.button == MouseButton::Middle {
            step_up(s)
        } else {
            s
        },
        Event::MouseMove(m) => step_move(s, m.pos@),
        Event::Wheel(m) => step_wheel(s, m.wheel_delta@.y),
        _ => s,
    }
}

/// The command one input event makes the tracker emit, if any: the new
/// translation after a drag move, the new scale after a wheel step.
pub open spec fn canvas_emits(s: CanvasV, ev: Event, r: Option<Command>) -> bool {
    match ev {
        Event::MouseMove(m) => if s.is_move_action_active {
            r matches Some(c) && c matches Command::SetTranslation(v)
                && v@ == canvas_step(s, ev).translation
        } else {
            r is None
        },
        Event::Wheel(_) => r matches Some(c) && c matches Command::SetScale(v)
            && v@ == canvas_step(s, ev).scale,
        _ => r is None,
    }
}

/// The gesture tracker: drag bookkeeping plus the translation and scale the
/// gestures have reached so far.
pub struct Canvas {
    translation: Vec2,
    scale: Frac,
    last_mouse_pos: Vec2,
    is_move_action_active: bool,
}

impl View for Canvas {
    type V = CanvasV;

    closed spec fn view(&self) -> CanvasV {
        CanvasV {
            translation: self.translation@,
            scale: self.scale@,
            last_mouse_pos: self.last_mouse_pos@,
            is_move_action_active: self.is_move_action_active,
        }
    }
}

impl Canvas {
    /// A fresh tracker: no translation, unit scale, not dragging.
    pub fn new() -> (r: Canvas)
        ensures
            r@.translation == (V2 { x: Rat { n: 0, d: 1 }, y: Rat { n: 0, d: 1 } }),
            r@.scale == (Rat { n: 1, d: 1 }),
            r@.last_mouse_pos == (V2 { x: Rat { n: 0, d: 1 }, y: Rat { n: 0, d: 1 } }),
            !r@.is_move_action_active,
            canvas_wf(r@),
            canvas_in_range(r@),
    {
        Canvas {
            translation: Vec2::zero(),
            scale: Frac::from_int(1),
            last_mouse_pos: Vec2::zero(),
            is_move_action_active: false,
        }
    }

    /// Translation the gestures have accumulated.
    pub fn translation(&self) -> (r: Vec2)
        ensures
            r@ == self@.translation,
    {
        self.translation
    }

    /// Scale the gestures have reached.
    pub fn scale(&self) -> (r: Frac)
        ensures
            r@ == self@.scale,
    {
        self.scale
    }

    /// Pointer position last recorded by the drag gesture.
    pub fn last_mouse_pos(&self) -> (r: Vec2)
        ensures
            r@ == self@.last_mouse_pos,
    {
        self.last_mouse_pos
    }

    /// Whether a middle-button drag is in progress.
    pub fn is_move_action_active(&self) -> (r: bool)
        ensures
            r == self@.is_move_action_active,
    {
        self.is_move_action_active
    }

    /// Whether the state is inside the operating range; callers outside
    /// verified code can test the precondition of [`Canvas::event`] with this.
    pub fn in_range(&self) -> (r: bool)
        ensures
            r == canvas_in_range(self@),
    {
        self.translation.in_range() && self.scale.in_range() && self.last_mouse_pos.in_range()
    }

    /// Handle one input event: update the drag and zoom state exactly as
    /// [`canvas_step`] says, and return the command to deliver to the
    /// viewport, if this event produces one.
    pub fn event(&mut self, ev: &Event) -> (r: Option<Command>)
        requires
            canvas_wf(old(self)@),
            canvas_in_range(old(self)@),
            event_ok(*ev),
        ensures
            final(self)@ == canvas_step(old(self)@, *ev),
            canvas_wf(final(self)@),
            canvas_emits(old(self)@, *ev, r),
    {
        match ev {
            Event::MouseDown(m) => {
                if m.button == MouseButton::Middle {
                    self.is_move_action_active = true;
                    self.last_mouse_pos = m.pos;
                }
                None
            },
            Event::MouseUp(m) => {
                if m.button == MouseButton::Middle {
                    self.is_move_action_active = false;
                }
                None
            },
            Event::MouseMove(m) => {
                if self.is_move_action_active {
                    self.translation = shift_point(
                        &self.translation,
                        &m.pos,
                        &self.last_mouse_pos,
                    );
                    self.last_mouse_pos = m.pos;
                    Some(Command::SetTranslation(self.translation))
                } else {
                    None
                }
            },
            Event::Wheel(m) => {
                if m.wheel_delta.y.is_positive() {
                    self.scale = self.scale.halved();
                } else {
                    self.scale = self.scale.doubled();
                }
                Some(Command::SetScale(self.scale))
            },
            _ => None,
        }
    }
}

} // verus!
