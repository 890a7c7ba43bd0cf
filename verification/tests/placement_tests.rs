use keynest::geometry::{Monitor, Point, Rect, Size};
use keynest::placement::{anchor, place, Accepted, Placement, PlacementEngine, Policy, Proposal};
use keynest::resolver::{Candidate, Confidence};

const OVERLAY: Size = Size { width: 420, height: 480 };

fn work() -> Rect {
    Rect { left: 0, top: 30, right: 1920, bottom: 1080 }
}

fn monitors() -> Vec<Monitor> {
    vec![
        Monitor { id: 1, bounds: Rect { left: 0, top: 0, right: 1920, bottom: 1080 }, work_area: work() },
        Monitor {
            id: 2,
            bounds: Rect { left: 1920, top: 0, right: 2320, bottom: 600 },
            work_area: Rect { left: 1920, top: 0, right: 2320, bottom: 600 },
        },
    ]
}

fn candidate(frame: Rect, monitor: u32, confidence: Confidence) -> Candidate {
    Candidate { frame, monitor, confidence, resolved_at: 50 }
}

#[test]
fn default_policy() {
    assert_eq!(
        Policy::default(),
        Policy { margin: 8, debounce_ms: 150, staleness_ms: 300, suppress_ms: 0 }
    );
}

#[test]
fn overlay_goes_below_the_field() {
    let field = Rect { left: 100, top: 200, right: 400, bottom: 230 };
    assert_eq!(anchor(field, work(), OVERLAY, 8), Some(Point { x: 100, y: 238 }));
}

#[test]
fn overlay_is_clamped_at_the_right_edge() {
    let field = Rect { left: 1800, top: 200, right: 1900, bottom: 230 };
    let p = anchor(field, work(), OVERLAY, 8).unwrap();
    assert_eq!(p, Point { x: 1492, y: 238 });
    assert_eq!(p.x + 420, 1920 - 8);
}

#[test]
fn overlay_is_clamped_at_the_left_and_top_edges() {
    let field = Rect { left: -50, top: -100, right: 50, bottom: -80 };
    assert_eq!(anchor(field, work(), OVERLAY, 8), Some(Point { x: 8, y: 38 }));
}

#[test]
fn overlay_flips_above_a_field_near_the_bottom() {
    let field = Rect { left: 100, top: 900, right: 400, bottom: 930 };
    assert_eq!(anchor(field, work(), OVERLAY, 8), Some(Point { x: 100, y: 412 }));
}

#[test]
fn overlay_stays_inside_when_the_field_fills_the_work_area() {
    let field = Rect { left: 0, top: 30, right: 1920, bottom: 1080 };
    assert_eq!(anchor(field, work(), OVERLAY, 8), Some(Point { x: 8, y: 38 }));
}

#[test]
fn overlay_below_a_field_under_the_work_area_is_clamped_without_a_flip() {
    let field = Rect { left: 100, top: 1100, right: 400, bottom: 1130 };
    assert_eq!(anchor(field, work(), OVERLAY, 8), Some(Point { x: 100, y: 592 }));
}

#[test]
fn overlay_that_fits_exactly() {
    let tight = Rect { left: 0, top: 0, right: 436, bottom: 496 };
    let field = Rect { left: 500, top: 0, right: 600, bottom: 20 };
    assert_eq!(anchor(field, tight, OVERLAY, 8), Some(Point { x: 8, y: 8 }));
    let narrow = Rect { left: 0, top: 0, right: 435, bottom: 496 };
    assert_eq!(anchor(field, narrow, OVERLAY, 8), None);
    let low = Rect { left: 0, top: 0, right: 436, bottom: 495 };
    assert_eq!(anchor(field, low, OVERLAY, 8), None);
}

#[test]
fn anchor_with_extreme_values() {
    let field = Rect { left: i32::MIN, top: i32::MIN, right: i32::MAX, bottom: i32::MAX };
    let all = Rect { left: i32::MIN, top: i32::MIN, right: i32::MAX, bottom: i32::MAX };
    assert_eq!(
        anchor(field, all, Size { width: u32::MAX, height: u32::MAX }, u32::MAX),
        None
    );
    assert_eq!(
        anchor(field, all, Size { width: 10, height: 10 }, 0),
        Some(Point { x: i32::MIN, y: i32::MIN })
    );
}

#[test]
fn unknown_confidence_is_centered() {
    let c = candidate(Rect { left: 100, top: 200, right: 400, bottom: 230 }, 1, Confidence::Unknown);
    assert_eq!(place(Some(c), &monitors(), 2, OVERLAY, 8), Placement::Center { monitor: 1 });
}

#[test]
fn no_candidate_is_centered_on_the_current_monitor() {
    assert_eq!(place(None, &monitors(), 2, OVERLAY, 8), Placement::Center { monitor: 2 });
}

#[test]
fn exact_and_approximate_candidates_are_anchored() {
    let frame = Rect { left: 100, top: 200, right: 400, bottom: 230 };
    let expected = Placement::AnchorNear { point: Point { x: 100, y: 238 }, monitor: 1 };
    assert_eq!(place(Some(candidate(frame, 1, Confidence::Exact)), &monitors(), 2, OVERLAY, 8), expected);
    assert_eq!(place(Some(candidate(frame, 1, Confidence::Approximate)), &monitors(), 2, OVERLAY, 8), expected);
}

#[test]
fn candidate_on_a_monitor_without_room_is_centered() {
    let frame = Rect { left: 2000, top: 100, right: 2100, bottom: 130 };
    assert_eq!(
        place(Some(candidate(frame, 2, Confidence::Exact)), &monitors(), 1, OVERLAY, 8),
        Placement::Center { monitor: 2 }
    );
}

#[test]
fn candidate_on_a_monitor_that_is_gone_is_centered() {
    let frame = Rect { left: 100, top: 200, right: 400, bottom: 230 };
    assert_eq!(
        place(Some(candidate(frame, 7, Confidence::Exact)), &monitors(), 1, OVERLAY, 8),
        Placement::Center { monitor: 7 }
    );
}

#[test]
fn repeat_on_the_same_field_is_coalesced_within_the_window() {
    let mut e = PlacementEngine::new(Policy::default());
    assert!(!e.record(11, 1000));
    assert_eq!(e.last_accepted, Some(Accepted { field: 11, at: 1000 }));
    assert!(e.record(11, 1000));
    assert!(e.record(11, 1150));
    assert!(e.record(11, 900));
    assert_eq!(e.last_accepted, Some(Accepted { field: 11, at: 1000 }));
    assert!(!e.record(11, 1151));
    assert_eq!(e.last_accepted, Some(Accepted { field: 11, at: 1151 }));
}

#[test]
fn another_field_is_never_coalesced() {
    let mut e = PlacementEngine::new(Policy::default());
    assert!(!e.record(11, 1000));
    assert!(!e.record(12, 1001));
    assert_eq!(e.last_accepted, Some(Accepted { field: 12, at: 1001 }));
    assert!(!e.record(11, 1002));
}

#[test]
fn debounce_times_at_the_ends_of_the_range() {
    let mut e = PlacementEngine::new(Policy { debounce_ms: u64::MAX, ..Policy::default() });
    assert!(!e.record(1, u64::MAX));
    assert!(e.record(1, 0));
    let mut f = PlacementEngine::new(Policy { debounce_ms: 0, ..Policy::default() });
    assert!(!f.record(1, 5));
    assert!(f.record(1, 5));
    assert!(!f.record(1, 6));
}

#[test]
fn proposal_carries_placement_and_event() {
    let mut e = PlacementEngine::new(Policy::default());
    let c = candidate(Rect { left: 100, top: 200, right: 400, bottom: 230 }, 1, Confidence::Exact);
    let p = e.propose(c, 11, 1000, 4, &monitors(), OVERLAY);
    assert_eq!(
        p,
        Proposal {
            placement: Placement::AnchorNear { point: Point { x: 100, y: 238 }, monitor: 1 },
            coalesced: false,
            resolved_at: 50,
            seq: 4,
        }
    );
    let q = e.propose(c, 11, 1100, 5, &monitors(), OVERLAY);
    assert!(q.coalesced);
    assert_eq!(q.seq, 5);
    assert_eq!(q.placement, p.placement);
}
