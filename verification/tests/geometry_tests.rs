use keynest::event::{Failure, FocusEvent, Frame, Role};
use keynest::geometry::{
    center_position, monitor_at, monitor_by_id, scale, Monitor, Point, Rect, Size,
    DEFAULT_OVERLAY_HEIGHT, DEFAULT_OVERLAY_WIDTH,
};
use keynest::resolver::{resolve, resolve_frame, to_global, Candidate, Confidence};

fn screen(id: u32, left: i32, top: i32, right: i32, bottom: i32) -> Monitor {
    let bounds = Rect { left, top, right, bottom };
    Monitor { id, bounds, work_area: Rect { left, top: top + 30, right, bottom } }
}

fn two_monitors() -> Vec<Monitor> {
    vec![screen(1, 0, 0, 1920, 1080), screen(2, 1920, 0, 4480, 1440)]
}

fn global(rect: Rect, fresh: bool) -> Frame {
    Frame { rect, scale_permille: 1000, origin: Point { x: 0, y: 0 }, fresh }
}

fn event(frame: Option<Frame>) -> FocusEvent {
    FocusEvent { role: Role::SecureText, masked: false, pid: 5, field: 1, frame, timestamp: 0, seq: 0 }
}

#[test]
fn rect_from_origin_and_extent() {
    assert_eq!(
        Rect::from_origin(10, 20, 300, 40),
        Some(Rect { left: 10, top: 20, right: 310, bottom: 60 })
    );
    assert_eq!(Rect::from_origin(i32::MAX, 0, 1, 1), None);
    assert_eq!(Rect::from_origin(0, i32::MAX - 1, 1, 2), None);
    assert_eq!(
        Rect::from_origin(-5, -5, 0, 0),
        Some(Rect { left: -5, top: -5, right: -5, bottom: -5 })
    );
}

#[test]
fn rect_emptiness_and_containment() {
    let r = Rect { left: 0, top: 0, right: 10, bottom: 5 };
    assert!(!r.is_empty());
    assert!(Rect { left: 0, top: 0, right: 0, bottom: 5 }.is_empty());
    assert!(Rect { left: 3, top: 0, right: 2, bottom: 5 }.is_empty());
    assert!(r.contains(Point { x: 0, y: 0 }));
    assert!(r.contains(Point { x: 9, y: 4 }));
    assert!(!r.contains(Point { x: 10, y: 4 }));
    assert!(!r.contains(Point { x: 9, y: 5 }));
    assert!(!r.contains(Point { x: -1, y: 0 }));
}

#[test]
fn rect_translate_checks_the_range() {
    let r = Rect { left: 0, top: 0, right: 10, bottom: 10 };
    assert_eq!(r.translate(5, -7), Some(Rect { left: 5, top: -7, right: 15, bottom: 3 }));
    assert_eq!(r.translate(i32::MAX, 0), None);
    assert_eq!(r.translate(0, i32::MIN), Some(Rect { left: 0, top: i32::MIN, right: 10, bottom: i32::MIN + 10 }));
    assert_eq!(Rect { left: 0, top: -1, right: 10, bottom: 10 }.translate(0, i32::MIN), None);
}

#[test]
fn scaling_rounds_down() {
    assert_eq!(scale(10, 1000), Some(10));
    assert_eq!(scale(10, 1500), Some(15));
    assert_eq!(scale(3, 1500), Some(4));
    assert_eq!(scale(-3, 1500), Some(-5));
    assert_eq!(scale(-10, 2000), Some(-20));
    assert_eq!(scale(7, 0), Some(0));
    assert_eq!(scale(i32::MAX, 1001), None);
    assert_eq!(scale(i32::MIN, 1000), Some(i32::MIN));
    assert_eq!(scale(i32::MIN, 1001), None);
    assert_eq!(
        Rect { left: 10, top: 20, right: 110, bottom: 50 }.scale(2000),
        Some(Rect { left: 20, top: 40, right: 220, bottom: 100 })
    );
    assert_eq!(Rect { left: 10, top: 20, right: i32::MAX, bottom: 50 }.scale(2000), None);
}

#[test]
fn centered_position_on_the_primary_monitor() {
    let p = center_position(
        Rect { left: 0, top: 0, right: 1920, bottom: 1080 },
        Size { width: DEFAULT_OVERLAY_WIDTH, height: DEFAULT_OVERLAY_HEIGHT },
    );
    assert_eq!(p, Point { x: 750, y: 270 });
    assert_eq!((DEFAULT_OVERLAY_WIDTH, DEFAULT_OVERLAY_HEIGHT), (420, 480));
}

#[test]
fn centered_position_on_a_second_monitor() {
    let p = center_position(
        Rect { left: 1920, top: -200, right: 4480, bottom: 1240 },
        Size { width: 420, height: 480 },
    );
    assert_eq!(p, Point { x: 1920 + 1070, y: -200 + 360 });
}

#[test]
fn centered_position_of_a_window_wider_than_the_monitor() {
    let p = center_position(Rect { left: 0, top: 0, right: 400, bottom: 300 }, Size { width: 421, height: 480 });
    assert_eq!(p, Point { x: -10, y: 75 });
    let q = center_position(Rect { left: 0, top: 0, right: 400, bottom: 303 }, Size { width: 420, height: 480 });
    assert_eq!(q, Point { x: -10, y: 75 });
}

#[test]
fn centered_position_stays_in_the_coordinate_range() {
    let p = center_position(
        Rect { left: i32::MIN, top: 0, right: i32::MIN, bottom: 0 },
        Size { width: u32::MAX, height: 1 },
    );
    assert_eq!(p, Point { x: i32::MIN, y: 0 });
}

#[test]
fn monitors_are_found_by_point_and_by_id() {
    let ms = two_monitors();
    assert_eq!(monitor_at(&ms, Point { x: 100, y: 100 }).map(|m| m.id), Some(1));
    assert_eq!(monitor_at(&ms, Point { x: 1920, y: 100 }).map(|m| m.id), Some(2));
    assert_eq!(monitor_at(&ms, Point { x: 100, y: 1200 }), None);
    assert_eq!(monitor_by_id(&ms, 2), Some(ms[1]));
    assert_eq!(monitor_by_id(&ms, 3), None);
    assert_eq!(monitor_at(&Vec::new(), Point { x: 0, y: 0 }), None);
}

#[test]
fn the_first_of_overlapping_monitors_is_taken() {
    let ms = vec![screen(4, 0, 0, 100, 100), screen(5, 50, 50, 200, 200)];
    assert_eq!(monitor_at(&ms, Point { x: 60, y: 60 }).map(|m| m.id), Some(4));
    assert_eq!(monitor_at(&ms, Point { x: 150, y: 60 }).map(|m| m.id), Some(5));
}

#[test]
fn local_frame_becomes_global() {
    let f = Frame {
        rect: Rect { left: 10, top: 20, right: 210, bottom: 50 },
        scale_permille: 1000,
        origin: Point { x: 2000, y: 100 },
        fresh: true,
    };
    assert_eq!(to_global(&f), Some(Rect { left: 2010, top: 120, right: 2210, bottom: 150 }));
}

#[test]
fn scaled_frame_becomes_global() {
    let f = Frame {
        rect: Rect { left: 10, top: 20, right: 210, bottom: 50 },
        scale_permille: 2000,
        origin: Point { x: 1920, y: 0 },
        fresh: true,
    };
    assert_eq!(to_global(&f), Some(Rect { left: 1940, top: 40, right: 2340, bottom: 100 }));
}

#[test]
fn frame_out_of_range_has_no_global_form() {
    let f = Frame {
        rect: Rect { left: 10, top: 20, right: 210, bottom: 50 },
        scale_permille: 1000,
        origin: Point { x: i32::MAX - 100, y: 0 },
        fresh: true,
    };
    assert_eq!(to_global(&f), None);
    assert_eq!(resolve_frame(&Some(f), &two_monitors(), 9), Err(Failure::FrameUnavailable));
}

#[test]
fn fresh_frame_resolves_exactly() {
    let rect = Rect { left: 100, top: 200, right: 400, bottom: 230 };
    let c = resolve(&event(Some(global(rect, true))), &two_monitors(), 9, 1234);
    assert_eq!(c, Candidate { frame: rect, monitor: 1, confidence: Confidence::Exact, resolved_at: 1234 });
}

#[test]
fn cached_frame_resolves_approximately() {
    let rect = Rect { left: 2000, top: 200, right: 2300, bottom: 230 };
    let c = resolve(&event(Some(global(rect, false))), &two_monitors(), 9, 1234);
    assert_eq!(
        c,
        Candidate { frame: rect, monitor: 2, confidence: Confidence::Approximate, resolved_at: 1234 }
    );
}

#[test]
fn missing_frame_resolves_to_unknown_on_the_fallback_monitor() {
    let c = resolve(&event(None), &two_monitors(), 9, 77);
    assert_eq!(
        c,
        Candidate {
            frame: Rect { left: 0, top: 0, right: 0, bottom: 0 },
            monitor: 9,
            confidence: Confidence::Unknown,
            resolved_at: 77,
        }
    );
    assert_eq!(resolve_frame(&None, &two_monitors(), 77), Err(Failure::FrameUnavailable));
}

#[test]
fn empty_frame_is_unavailable() {
    let rect = Rect { left: 100, top: 200, right: 100, bottom: 230 };
    assert_eq!(resolve_frame(&Some(global(rect, true)), &two_monitors(), 0), Err(Failure::FrameUnavailable));
    assert_eq!(resolve(&event(Some(global(rect, true))), &two_monitors(), 3, 0).confidence, Confidence::Unknown);
}

#[test]
fn frame_on_no_monitor_is_unavailable() {
    let rect = Rect { left: -500, top: 200, right: -100, bottom: 230 };
    assert_eq!(resolve_frame(&Some(global(rect, true)), &two_monitors(), 0), Err(Failure::FrameUnavailable));
    assert_eq!(resolve_frame(&Some(global(rect, true)), &Vec::new(), 0), Err(Failure::FrameUnavailable));
}

#[test]
fn frame_is_placed_on_the_monitor_of_its_top_left_corner() {
    let rect = Rect { left: 1900, top: 200, right: 2100, bottom: 230 };
    let c = resolve_frame(&Some(global(rect, true)), &two_monitors(), 0);
    assert_eq!(c.map(|c| c.monitor), Ok(1));
}
