use keynest::geometry::Point;
use keynest::machine::{Action, Command, Input, OverlayMachine, OverlayState, Visibility};
use keynest::placement::{Placement, Policy, Proposal};

fn anchored(x: i32, y: i32) -> Placement {
    Placement::AnchorNear { point: Point { x, y }, monitor: 1 }
}

fn proposal(placement: Placement, resolved_at: u64, seq: u64) -> Proposal {
    Proposal { placement, coalesced: false, resolved_at, seq }
}

#[test]
fn machine_starts_hidden() {
    let m = OverlayMachine::new(Policy::default());
    assert_eq!(
        m.state(),
        OverlayState { visibility: Visibility::Hidden, last_shown_at: 0, suppressed_until: None }
    );
    assert!(!m.is_visible());
    assert_eq!(m.latest_seq(), 0);
    assert_eq!(m.policy(), Policy::default());
}

#[test]
fn hotkey_shows_the_hidden_overlay_centered() {
    let mut m = OverlayMachine::new(Policy::default());
    let a = m.apply(Command::Toggle { monitor: 2 }, 500);
    assert_eq!(a, Action::Show(Placement::Center { monitor: 2 }));
    assert_eq!(
        m.state(),
        OverlayState {
            visibility: Visibility::Showing(Placement::Center { monitor: 2 }),
            last_shown_at: 500,
            suppressed_until: None,
        }
    );
}

#[test]
fn hotkey_hides_an_anchored_overlay_and_then_shows_it_centered() {
    let mut m = OverlayMachine::new(Policy::default());
    assert_eq!(m.apply(Command::Place(proposal(anchored(100, 238), 1000, 1)), 1000), Action::Show(anchored(100, 238)));
    assert_eq!(m.state().visibility, Visibility::Showing(anchored(100, 238)));
    assert_eq!(m.apply(Command::Toggle { monitor: 1 }, 2000), Action::Hide);
    assert_eq!(m.state().visibility, Visibility::Hidden);
    assert_eq!(m.apply(Command::Toggle { monitor: 1 }, 3000), Action::Show(Placement::Center { monitor: 1 }));
    assert_eq!(m.state().visibility, Visibility::Showing(Placement::Center { monitor: 1 }));
    assert_eq!(m.state().last_shown_at, 3000);
}

#[test]
fn tray_open_shows_or_focuses() {
    let mut m = OverlayMachine::new(Policy::default());
    assert_eq!(m.apply(Command::Open { monitor: 1 }, 10), Action::Show(Placement::Center { monitor: 1 }));
    assert_eq!(m.apply(Command::Open { monitor: 2 }, 20), Action::Focus);
    assert_eq!(m.state().visibility, Visibility::Showing(Placement::Center { monitor: 1 }));
    assert_eq!(m.state().last_shown_at, 10);
}

#[test]
fn hide_and_dismiss() {
    let mut m = OverlayMachine::new(Policy::default());
    assert_eq!(m.apply(Command::Hide, 5), Action::Nothing);
    assert_eq!(m.apply(Command::Dismiss, 6), Action::Nothing);
    assert_eq!(m.state().suppressed_until, None);
    m.apply(Command::Open { monitor: 1 }, 10);
    assert_eq!(m.apply(Command::Hide, 20), Action::Hide);
    assert_eq!(
        m.state(),
        OverlayState { visibility: Visibility::Hidden, last_shown_at: 10, suppressed_until: Some(20) }
    );
    m.apply(Command::Open { monitor: 1 }, 30);
    assert_eq!(m.state().suppressed_until, None);
    assert_eq!(m.apply(Command::Dismiss, 40), Action::Hide);
    assert!(!m.is_visible());
}

#[test]
fn a_visible_overlay_is_moved_not_hidden_and_shown() {
    let mut m = OverlayMachine::new(Policy::default());
    m.apply(Command::Place(proposal(anchored(100, 238), 1000, 1)), 1000);
    assert_eq!(m.apply(Command::Place(proposal(anchored(300, 500), 1010, 2)), 1010), Action::Move(anchored(300, 500)));
    assert_eq!(m.state().visibility, Visibility::Showing(anchored(300, 500)));
    assert_eq!(m.state().last_shown_at, 1000);
    assert_eq!(m.apply(Command::Place(proposal(anchored(300, 500), 1020, 3)), 1020), Action::Nothing);
    assert_eq!(m.latest_seq(), 3);
}

#[test]
fn a_stale_position_falls_back_to_the_center() {
    let mut m = OverlayMachine::new(Policy::default());
    let a = m.apply(Command::Place(proposal(anchored(100, 238), 1000, 1)), 1301);
    assert_eq!(a, Action::Show(Placement::Center { monitor: 1 }));
    assert_eq!(m.state().visibility, Visibility::Showing(Placement::Center { monitor: 1 }));
}

#[test]
fn a_position_at_the_end_of_the_staleness_window_is_used() {
    let mut m = OverlayMachine::new(Policy::default());
    let a = m.apply(Command::Place(proposal(anchored(100, 238), 1000, 1)), 1300);
    assert_eq!(a, Action::Show(anchored(100, 238)));
    let mut n = OverlayMachine::new(Policy::default());
    assert_eq!(n.apply(Command::Place(proposal(anchored(1, 2), 1000, 1)), 900), Action::Show(anchored(1, 2)));
}

#[test]
fn a_coalesced_proposal_does_not_show_a_hidden_overlay() {
    let mut m = OverlayMachine::new(Policy::default());
    let p = Proposal { placement: anchored(100, 238), coalesced: true, resolved_at: 1000, seq: 1 };
    assert_eq!(m.apply(Command::Place(p), 1000), Action::Nothing);
    assert_eq!(m.state().visibility, Visibility::Hidden);
    assert_eq!(m.latest_seq(), 1);
}

#[test]
fn a_coalesced_proposal_refines_a_visible_overlay() {
    let mut m = OverlayMachine::new(Policy::default());
    m.apply(Command::Place(proposal(anchored(100, 238), 1000, 1)), 1000);
    let p = Proposal { placement: anchored(101, 239), coalesced: true, resolved_at: 1050, seq: 2 };
    assert_eq!(m.apply(Command::Place(p), 1050), Action::Move(anchored(101, 239)));
}

#[test]
fn an_older_proposal_is_discarded() {
    let mut m = OverlayMachine::new(Policy::default());
    m.apply(Command::Place(proposal(anchored(300, 500), 1010, 2)), 1010);
    assert_eq!(m.apply(Command::Place(proposal(anchored(100, 238), 1000, 1)), 1020), Action::Nothing);
    assert_eq!(m.state().visibility, Visibility::Showing(anchored(300, 500)));
    assert_eq!(m.latest_seq(), 2);
}

#[test]
fn focus_changes_are_suppressed_after_a_hide() {
    let policy = Policy { suppress_ms: 1000, ..Policy::default() };
    let mut m = OverlayMachine::new(policy);
    m.apply(Command::Toggle { monitor: 1 }, 100);
    assert_eq!(m.apply(Command::Toggle { monitor: 1 }, 200), Action::Hide);
    assert_eq!(m.state().suppressed_until, Some(1200));
    assert_eq!(m.apply(Command::Place(proposal(anchored(100, 238), 1199, 1)), 1199), Action::Nothing);
    assert_eq!(m.state().visibility, Visibility::Hidden);
    assert_eq!(m.latest_seq(), 1);
    assert_eq!(m.apply(Command::Place(proposal(anchored(100, 238), 1200, 2)), 1200), Action::Show(anchored(100, 238)));
}

#[test]
fn suppression_end_saturates() {
    let policy = Policy { suppress_ms: u64::MAX, ..Policy::default() };
    let mut m = OverlayMachine::new(policy);
    m.apply(Command::Open { monitor: 1 }, 100);
    m.apply(Command::Hide, 200);
    assert_eq!(m.state().suppressed_until, Some(u64::MAX));
    assert_eq!(m.apply(Command::Toggle { monitor: 1 }, 300), Action::Show(Placement::Center { monitor: 1 }));
}

#[test]
fn inputs_are_applied_in_the_order_given() {
    let mut m = OverlayMachine::new(Policy::default());
    let inputs = vec![
        Input { command: Command::Toggle { monitor: 1 }, now: 10 },
        Input { command: Command::Place(proposal(anchored(5, 6), 20, 1)), now: 20 },
        Input { command: Command::Hide, now: 30 },
        Input { command: Command::Hide, now: 40 },
    ];
    let actions = m.apply_all(&inputs);
    assert_eq!(
        actions,
        vec![
            Action::Show(Placement::Center { monitor: 1 }),
            Action::Move(anchored(5, 6)),
            Action::Hide,
            Action::Nothing,
        ]
    );
    assert_eq!(m.state().visibility, Visibility::Hidden);
    assert_eq!(m.apply_all(&Vec::new()), Vec::new());
}
