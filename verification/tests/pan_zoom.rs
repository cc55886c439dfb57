use pan_zoom::canvas::Canvas;
use pan_zoom::event::{check_event, Command, Event, MouseButton, MouseEvent};
use pan_zoom::geom::Vec2;
use pan_zoom::rat::Frac;
use pan_zoom::transform::Transform;

fn point(x: i64, y: i64) -> Vec2 {
    Vec2::new(Frac::from_int(x), Frac::from_int(y))
}

fn mouse(x: i64, y: i64, button: MouseButton) -> MouseEvent {
    MouseEvent {
        pos: point(x, y),
        button,
        wheel_delta: Vec2::zero(),
    }
}

fn wheel(dy: i64) -> Event {
    Event::Wheel(MouseEvent {
        pos: Vec2::zero(),
        button: MouseButton::Other,
        wheel_delta: Vec2::new(Frac::from_int(0), Frac::from_int(dy)),
    })
}

#[test]
fn frac_construction() {
    let a = Frac::from_int(7);
    assert_eq!(a.num, 7);
    assert_eq!(a.den, 1);
    let b = Frac::new(-3, 4);
    assert_eq!(b.num, -3);
    assert_eq!(b.den, 4);
    assert!(b.in_range());
    assert!(!b.is_positive());
    assert!(Frac::new(1, 2).is_positive());
}

#[test]
fn frac_halve_and_double_are_exact() {
    let one = Frac::from_int(1);
    let half = one.halved();
    assert_eq!(half, Frac::new(1, 2));
    let back = half.doubled();
    assert_eq!(back, Frac::new(2, 2));
    assert!(back.same_value(&one));
}

#[test]
fn frac_same_value_is_cross_multiplication() {
    assert!(Frac::new(1, 2).same_value(&Frac::new(2, 4)));
    assert!(!Frac::new(1, 2).same_value(&Frac::new(2, 3)));
    assert!(Frac::new(-6, 4).same_value(&Frac::new(-3, 2)));
}

#[test]
fn canvas_starts_at_identity() {
    let c = Canvas::new();
    assert_eq!(c.translation(), Vec2::zero());
    assert_eq!(c.scale(), Frac::from_int(1));
    assert!(!c.is_move_action_active());
    assert!(c.in_range());
}

#[test]
fn canvas_middle_down_starts_drag() {
    let mut c = Canvas::new();
    let r = c.event(&Event::MouseDown(mouse(10, 10, MouseButton::Middle)));
    assert!(r.is_none());
    assert!(c.is_move_action_active());
    assert_eq!(c.last_mouse_pos(), point(10, 10));
    assert_eq!(c.translation(), Vec2::zero());
}

#[test]
fn canvas_other_buttons_do_not_drag() {
    let mut c = Canvas::new();
    assert!(c.event(&Event::MouseDown(mouse(10, 10, MouseButton::Left))).is_none());
    assert!(!c.is_move_action_active());
    assert!(c.event(&Event::MouseDown(mouse(10, 10, MouseButton::Right))).is_none());
    assert!(!c.is_move_action_active());
}

#[test]
fn canvas_drag_accumulates_consecutive_deltas() {
    let mut c = Canvas::new();
    c.event(&Event::MouseDown(mouse(10, 10, MouseButton::Middle)));

    let r1 = c.event(&Event::MouseMove(mouse(13, 11, MouseButton::Other)));
    match r1 {
        Some(Command::SetTranslation(v)) => assert_eq!(v, point(3, 1)),
        _ => panic!("expected a translation command"),
    }

    let r2 = c.event(&Event::MouseMove(mouse(20, 5, MouseButton::Other)));
    match r2 {
        Some(Command::SetTranslation(v)) => assert_eq!(v, point(10, -5)),
        _ => panic!("expected a translation command"),
    }

    let r3 = c.event(&Event::MouseMove(mouse(2, 2, MouseButton::Other)));
    match r3 {
        Some(Command::SetTranslation(v)) => assert_eq!(v, point(-8, -8)),
        _ => panic!("expected a translation command"),
    }

    assert_eq!(c.translation(), point(-8, -8));
    assert_eq!(c.last_mouse_pos(), point(2, 2));
}

#[test]
fn canvas_move_without_drag_changes_nothing() {
    let mut c = Canvas::new();
    let r = c.event(&Event::MouseMove(mouse(42, 17, MouseButton::Other)));
    assert!(r.is_none());
    assert_eq!(c.translation(), Vec2::zero());
    assert_eq!(c.last_mouse_pos(), Vec2::zero());
    assert!(!c.is_move_action_active());
}

#[test]
fn canvas_drag_end_stops_accumulation() {
    let mut c = Canvas::new();
    c.event(&Event::MouseDown(mouse(0, 0, MouseButton::Middle)));
    c.event(&Event::MouseMove(mouse(5, 5, MouseButton::Other)));
    assert_eq!(c.translation(), point(5, 5));

    let up = c.event(&Event::MouseUp(mouse(5, 5, MouseButton::Middle)));
    assert!(up.is_none());
    assert!(!c.is_move_action_active());

    let after = c.event(&Event::MouseMove(mouse(100, 100, MouseButton::Other)));
    assert!(after.is_none());
    assert_eq!(c.translation(), point(5, 5));
}

#[test]
fn canvas_wheel_halves_and_doubles_exactly() {
    let mut c = Canvas::new();

    let r1 = c.event(&wheel(1));
    match r1 {
        Some(Command::SetScale(v)) => assert_eq!(v, Frac::new(1, 2)),
        _ => panic!("expected a scale command"),
    }

    let r2 = c.event(&wheel(3));
    match r2 {
        Some(Command::SetScale(v)) => assert_eq!(v, Frac::new(1, 4)),
        _ => panic!("expected a scale command"),
    }

    let r3 = c.event(&wheel(-1));
    match r3 {
        Some(Command::SetScale(v)) => assert!(v.same_value(&Frac::new(1, 2))),
        _ => panic!("expected a scale command"),
    }
    assert!(c.scale().is_positive());
}

#[test]
fn canvas_wheel_zero_delta_doubles() {
    let mut c = Canvas::new();
    let r = c.event(&wheel(0));
    match r {
        Some(Command::SetScale(v)) => assert_eq!(v, Frac::from_int(2)),
        _ => panic!("expected a scale command"),
    }
}

#[test]
fn transform_starts_at_identity() {
    let t = Transform::new();
    assert_eq!(t.translation(), Vec2::zero());
    assert_eq!(t.scale(), Frac::from_int(1));
    assert!(t.in_range());
}

#[test]
fn transform_commands_overwrite_and_are_idempotent() {
    let mut t = Transform::new();

    let c = Event::Command(Command::SetScale(Frac::new(3, 4)));
    assert!(t.event(&c).is_none());
    assert_eq!(t.scale(), Frac::new(3, 4));
    assert!(t.event(&c).is_none());
    assert_eq!(t.scale(), Frac::new(3, 4));

    let m = Event::Command(Command::SetTranslation(point(9, -2)));
    assert!(t.event(&m).is_none());
    assert_eq!(t.translation(), point(9, -2));
    assert!(t.event(&m).is_none());
    assert_eq!(t.translation(), point(9, -2));
    assert_eq!(t.scale(), Frac::new(3, 4));
}

#[test]
fn transform_event_scale_divides_by_scale_only() {
    let mut t = Transform::new();
    t.event(&Event::Command(Command::SetScale(Frac::new(1, 2))));
    t.event(&Event::Command(Command::SetTranslation(point(5, 5))));

    let r = t.transform_event_scale(&Event::MouseMove(mouse(10, 20, MouseButton::Other)));
    match r {
        Some(Event::MouseMove(m)) => {
            assert!(m.pos.same_value(&point(20, 40)));
            assert_eq!(m.button, MouseButton::Other);
        }
        _ => panic!("expected a scaled pointer event"),
    }

    assert!(t.transform_event_scale(&wheel(1)).is_none());
    assert!(t.transform_event_scale(&Event::Other).is_none());
}

#[test]
fn transform_routes_non_pointer_events_unchanged() {
    let mut t = Transform::new();
    t.event(&Event::Command(Command::SetScale(Frac::new(1, 2))));

    let w = wheel(1);
    assert_eq!(t.event(&w), Some(w));
    assert_eq!(t.event(&Event::Other), Some(Event::Other));
}

#[test]
fn transform_remaps_pointer_events() {
    let mut t = Transform::new();
    t.event(&Event::Command(Command::SetTranslation(point(50, 20))));
    t.event(&Event::Command(Command::SetScale(Frac::new(1, 2))));

    let r = t.event(&Event::MouseUp(mouse(200, 120, MouseButton::Left)));
    match r {
        Some(Event::MouseUp(m)) => {
            assert!(m.pos.same_value(&point(300, 200)));
            assert_eq!(m.button, MouseButton::Left);
        }
        _ => panic!("expected a remapped pointer event"),
    }
}

#[test]
fn round_trip_recovers_child_local_point() {
    let mut t = Transform::new();
    t.event(&Event::Command(Command::SetTranslation(point(7, -3))));
    t.event(&Event::Command(Command::SetScale(Frac::new(3, 4))));

    let p = point(5, 9);
    let screen = t.to_screen(&p);
    let back = t.to_local(&screen);
    assert!(back.same_value(&p));

    let q = Vec2::new(Frac::new(-11, 2), Frac::new(1, 3));
    assert!(t.to_local(&t.to_screen(&q)).same_value(&q));
}

#[test]
fn end_to_end_pan_then_zoom_then_remap() {
    let mut c = Canvas::new();
    let mut t = Transform::new();

    assert!(c.event(&Event::MouseDown(mouse(100, 100, MouseButton::Middle))).is_none());

    let cmd = c.event(&Event::MouseMove(mouse(150, 120, MouseButton::Other)));
    match cmd {
        Some(Command::SetTranslation(v)) => {
            assert_eq!(v, point(50, 20));
            assert!(t.event(&Event::Command(Command::SetTranslation(v))).is_none());
        }
        _ => panic!("expected a translation command"),
    }

    let cmd2 = c.event(&wheel(1));
    match cmd2 {
        Some(Command::SetScale(v)) => {
            assert!(v.same_value(&Frac::new(1, 2)));
            assert!(t.event(&Event::Command(Command::SetScale(v))).is_none());
        }
        _ => panic!("expected a scale command"),
    }

    let r = t.event(&Event::MouseDown(mouse(200, 120, MouseButton::Left)));
    match r {
        Some(Event::MouseDown(m)) => {
            assert!(m.pos.same_value(&point(300, 200)));
        }
        _ => panic!("expected a remapped pointer event"),
    }
}

#[test]
fn check_event_guards_the_preconditions() {
    assert!(check_event(&Event::MouseDown(mouse(100, 100, MouseButton::Middle))));
    assert!(check_event(&Event::Other));
    assert!(check_event(&Event::Command(Command::SetScale(Frac::new(1, 2)))));

    // A scale command must carry a strictly positive scale.
    assert!(!check_event(&Event::Command(Command::SetScale(Frac::from_int(0)))));
    assert!(!check_event(&Event::Command(Command::SetScale(Frac::from_int(-1)))));

    // Positions beyond the operating range are refused.
    let far = Vec2::new(Frac::from_int(0x20_0000), Frac::from_int(0));
    assert!(!check_event(&Event::MouseMove(MouseEvent {
        pos: far,
        button: MouseButton::Other,
        wheel_delta: Vec2::zero(),
    })));
}
