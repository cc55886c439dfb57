//! Input events and viewport commands.
//!
//! The host toolkit delivers pointer and wheel input; the unverified shell
//! converts each into an [`Event`] before handing it to the library, and
//! performs the [`Command`]s the library returns. Anything the viewport does
//! not interpret (keyboard, focus, ...) arrives as [`Event::Other`] and is
//! passed through unchanged.

use vstd::prelude::*;

use crate::geom::{v2_in_range, v2_wf, Vec2};
use crate::rat::{rat_in_range, rat_pos, rat_wf, Frac};

verus! {

/// The pointer button a mouse event reports. Only the middle button drives
/// the pan gesture; the others pass through.
#[derive(Clone, Copy, PartialEq, Eq, Structural, Debug)]
pub enum MouseButton {
    Left,
    Middle,
    Right,
    Other,
}

/// A pointer event: position, the button involved (if any), and the wheel
/// delta (zero unless this is a wheel event).
#[derive(Clone, Copy, PartialEq, Eq, Structural, Debug)]
pub struct MouseEvent {
    pub pos: Vec2,
    pub button: MouseButton,
    pub wheel_delta: Vec2,
}

/// A viewport command: the gesture tracker emits these and the viewport
/// consumes them.
#[derive(Clone, Copy, PartialEq, Eq, Structural, Debug)]
pub enum Command {
    SetScale(Frac),
    SetTranslation(Vec2),
}

/// An input event as the viewport sees it.
#[derive(Clone, Copy, PartialEq, Eq, Structural, Debug)]
pub enum Event {
    MouseDown(MouseEvent),
    MouseUp(MouseEvent),
    MouseMove(MouseEvent),
    Wheel(MouseEvent),
    Command(Command),
    Other,
}

/// Every fraction inside the event is well-formed and inside the operating
/// range, and a scale command carries a positive scale. This is the machine
/// limit the handlers ask of their callers.
pub open spec fn event_ok(ev: Event) -> bool {
    match ev {
        Event::MouseDown(m) | Event::MouseUp(m) | Event::MouseMove(m) | Event::Wheel(m) => {
            &&& v2_wf(m.pos@)
            &&& v2_in_range(m.pos@)
            &&& v2_wf(m.wheel_delta@)
        },
        Event::Command(c) => match c {
            Command::SetScale(v) => rat_wf(v@) && rat_in_range(v@) && rat_pos(v@),
            Command::SetTranslation(v) => v2_wf(v@) && v2_in_range(v@),
        },
        Event::Other => true,
    }
}

/// Executable mirror of [`event_ok`], so an unverified caller can test the
/// precondition before handing an event in.
pub fn check_event(ev: &Event) -> (r: bool)
    ensures
        r == event_ok(*ev),
{
    match ev {
        Event::MouseDown(m) | Event::MouseUp(m) | Event::MouseMove(m) | Event::Wheel(m) => {
            m.pos.x.den > 0 && m.pos.y.den > 0 && m.pos.in_range() && m.wheel_delta.x.den > 0
                && m.wheel_delta.y.den > 0
        },
        Event::Command(c) => match c {
            Command::SetScale(v) => v.den > 0 && v.in_range() && v.num > 0,
            Command::SetTranslation(v) => v.x.den > 0 && v.y.den > 0 && v.in_range(),
        },
        Event::Other => true,
    }
}

} // verus!
