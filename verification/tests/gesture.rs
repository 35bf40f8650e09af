//! The seek bar's press/drag/release gesture machine: one seek per drag,
//! one suppression pair per drag, and nothing emitted mid-drag.

use thump::seeker::{seeker, Bounds, Point, PointerEvent, SeekPos, SeekSignal};

fn bar() -> Bounds {
    Bounds { x: 10, y: 20, width: 200, height: 12 }
}

#[test]
fn press_then_release_emits_one_seek() {
    // A press inside the bar followed at once by a release, with no move in
    // between, emits exactly one begin/end pair and one press-derived seek.
    let b = bar();
    let mut s = seeker(SeekPos::zero());

    let moved = s.on_event(PointerEvent::CursorMoved(Point { x: 110, y: 25 }), b);
    assert!(moved.seek.is_none());
    assert!(moved.signal.is_none());

    let pressed = s.on_event(PointerEvent::LeftPressed, b);
    assert!(pressed.captured);
    assert!(matches!(pressed.signal, Some(SeekSignal::Begin)));
    assert!(pressed.seek.is_none());
    assert!(s.is_dragging());

    let released = s.on_event(PointerEvent::LeftReleased, b);
    assert!(matches!(released.signal, Some(SeekSignal::End)));
    let seek = released.seek.expect("release inside the bar must emit a seek");
    assert_eq!(seek.get(), 500_000); // offset 100 of width 200
    assert!(!s.is_dragging());
}

#[test]
fn moves_while_dragging_emit_no_seek() {
    // However many moves happen mid-drag, none emits a seek or a signal;
    // only the release does, carrying the last in-bounds offset.
    let b = bar();
    let mut s = seeker(SeekPos::zero());
    s.on_event(PointerEvent::CursorMoved(Point { x: 10, y: 20 }), b);
    s.on_event(PointerEvent::LeftPressed, b);

    for x in [30, 60, 90, 120, 160] {
        let out = s.on_event(PointerEvent::CursorMoved(Point { x, y: 25 }), b);
        assert!(out.captured);
        assert!(out.seek.is_none());
        assert!(out.signal.is_none());
        assert!(s.is_dragging());
    }

    let released = s.on_event(PointerEvent::LeftReleased, b);
    assert!(matches!(released.signal, Some(SeekSignal::End)));
    assert_eq!(released.seek.expect("one seek on release").get(), 750_000); // offset 150 of 200
}

#[test]
fn move_outside_bounds_is_ignored() {
    let b = bar();
    let mut s = seeker(SeekPos::zero());
    s.on_event(PointerEvent::CursorMoved(Point { x: 110, y: 25 }), b);
    s.on_event(PointerEvent::LeftPressed, b);
    let before = s.position().get();

    let out = s.on_event(PointerEvent::CursorMoved(Point { x: 500, y: 500 }), b);
    assert!(!out.captured);
    assert_eq!(s.position().get(), before);
    assert!(s.is_dragging());
}

#[test]
fn release_outside_bounds_ends_drag_without_seek() {
    let b = bar();
    let mut s = seeker(SeekPos::zero());
    s.on_event(PointerEvent::CursorMoved(Point { x: 110, y: 25 }), b);
    s.on_event(PointerEvent::LeftPressed, b);
    s.on_event(PointerEvent::CursorMoved(Point { x: 500, y: 500 }), b);

    let released = s.on_event(PointerEvent::LeftReleased, b);
    assert!(matches!(released.signal, Some(SeekSignal::End)));
    assert!(released.seek.is_none());
    assert!(!s.is_dragging());
}

#[test]
fn press_outside_bounds_is_ignored() {
    let b = bar();
    let mut s = seeker(SeekPos::zero());
    s.on_event(PointerEvent::CursorMoved(Point { x: 0, y: 0 }), b);
    let pressed = s.on_event(PointerEvent::LeftPressed, b);
    assert!(!pressed.captured);
    assert!(pressed.signal.is_none());
    assert!(!s.is_dragging());

    // And the matching release emits nothing either: no drag, no pair.
    let released = s.on_event(PointerEvent::LeftReleased, b);
    assert!(released.signal.is_none());
    assert!(released.seek.is_none());
}

#[test]
fn press_clamps_to_bar_edges() {
    let b = bar();
    let mut s = seeker(SeekPos::zero());
    s.on_event(PointerEvent::CursorMoved(Point { x: 10, y: 20 }), b);
    s.on_event(PointerEvent::LeftPressed, b);
    assert_eq!(s.position().get(), 0); // left edge
    s.on_event(PointerEvent::CursorMoved(Point { x: 209, y: 25 }), b);
    assert_eq!(s.position().get(), 995_000); // offset 199 of 200
}

#[test]
fn displayed_position_follows_drag() {
    let b = bar();
    let mut s = seeker(SeekPos::zero());
    let engine_pos = SeekPos::from_ppm(100_000);

    // Idle: the engine-reported position is shown.
    assert_eq!(s.displayed(engine_pos).get(), 100_000);

    // Mid-drag: the local position is shown instead, so polling cannot
    // snap the thumb back.
    s.on_event(PointerEvent::CursorMoved(Point { x: 110, y: 25 }), b);
    s.on_event(PointerEvent::LeftPressed, b);
    assert_eq!(s.displayed(engine_pos).get(), 500_000);
}
