//! The overlay's state machine: the one owner of the overlay's visibility,
//! changed only by commands that are applied one at a time.

use vstd::prelude::*;
use crate::placement::{Placement, Policy, Proposal};

verus! {

/// Whether the overlay is on screen, and where.
#[derive(Clone, Copy, Debug, PartialEq, Eq, Structural)]
pub enum Visibility {
    Hidden,
    Showing(Placement),
}

/// The overlay's state.
#[derive(Clone, Copy, Debug, PartialEq, Eq, Structural)]
pub struct OverlayState {
    pub visibility: Visibility,
    /// When the overlay last went from hidden to showing, in milliseconds.
    pub last_shown_at: u64,
    /// Until when focus changes do not bring the overlay back.
    pub suppressed_until: Option<u64>,
}

/// A command to the state machine, from any of its trigger sources.
#[derive(Clone, Copy, Debug, PartialEq, Eq, Structural)]
pub enum Command {
    /// A focus-driven placement, from the placement engine.
    Place(Proposal),
    /// The global hotkey was pressed; `monitor` is the monitor that the
    /// overlay's window is on.
    Toggle { monitor: u32 },
    /// The tray asked for the overlay; `monitor` as for `Toggle`.
    Open { monitor: u32 },
    /// An explicit request to hide the overlay.
    Hide,
    /// The user dismissed the overlay.
    Dismiss,
}

/// What the window manager is to do after a command.
#[derive(Clone, Copy, Debug, PartialEq, Eq, Structural)]
pub enum Action {
    /// Nothing: what is on screen stays as it is.
    Nothing,
    /// Position the overlay, then show and focus it.
    Show(Placement),
    /// Move the visible overlay.
    Move(Placement),
    /// Bring the visible overlay to the front.
    Focus,
    /// Hide the overlay.
    Hide,
}

/// Everything that the next transition depends on.
#[derive(Clone, Copy, Debug, PartialEq, Eq, Structural)]
pub struct Model {
    pub state: OverlayState,
    /// The highest sequence number of a focus-driven command seen so far.
    pub latest_seq: u64,
    pub policy: Policy,
}

/// A transition's result: the machine after it, and the action to perform.
#[derive(Clone, Copy, Debug, PartialEq, Eq, Structural)]
pub struct Outcome {
    pub model: Model,
    pub action: Action,
}

/// The machine at startup: hidden, never shown, not suppressed.
pub open spec fn initial(policy: Policy) -> Model {
    Model {
        state: OverlayState { visibility: Visibility::Hidden, last_shown_at: 0, suppressed_until: None },
        latest_seq: 0,
        policy,
    }
}

/// Whether focus changes are kept from showing the overlay at time `now`.
pub open spec fn suppressed(state: OverlayState, now: u64) -> bool {
    state.suppressed_until matches Some(until) && now < until
}

/// Whether a position resolved at `resolved_at` is too old at time `now`.
pub open spec fn is_stale(policy: Policy, resolved_at: u64, now: u64) -> bool {
    now - resolved_at > policy.staleness_ms
}

/// The placement that a proposal has when it is applied at time `now`: its
/// own, unless that is an anchored position that has gone stale, which falls
/// back to the center of its monitor.
pub open spec fn effective(policy: Policy, proposal: Proposal, now: u64) -> Placement {
    match proposal.placement {
        Placement::AnchorNear { point, monitor } => if is_stale(policy, proposal.resolved_at, now) {
            Placement::Center { monitor }
        } else {
            proposal.placement
        },
        Placement::Center { monitor } => proposal.placement,
    }
}

/// The end of the suppression that a hide at time `now` starts.
pub open spec fn suppression_end(policy: Policy, now: u64) -> u64 {
    if now + policy.suppress_ms > u64::MAX {
        u64::MAX
    } else {
        (now + policy.suppress_ms) as u64
    }
}

/// The transition from hidden to showing centered.
pub open spec fn reveal_centered(m: Model, monitor: u32, now: u64) -> Outcome {
    Outcome {
        model: Model {
            state: OverlayState {
                visibility: Visibility::Showing(Placement::Center { monitor }),
                last_shown_at: now,
                suppressed_until: None,
            },
            ..m
        },
        action: Action::Show(Placement::Center { monitor }),
    }
}

/// The transition from showing to hidden.
pub open spec fn conceal(m: Model, now: u64) -> Outcome {
    Outcome {
        model: Model {
            state: OverlayState {
                visibility: Visibility::Hidden,
                last_shown_at: m.state.last_shown_at,
                suppressed_until: Some(suppression_end(m.policy, now)),
            },
            ..m
        },
        action: Action::Hide,
    }
}

/// The transition for a focus-driven proposal.
///
/// A proposal older in sequence than one already seen is discarded. While
/// focus changes are suppressed nothing is shown or moved. A hidden overlay
/// is shown, unless the proposal is coalesced; a visible one is moved where
/// the position differs, and is never hidden and shown again.
pub open spec fn place_step(m: Model, proposal: Proposal, now: u64) -> Outcome {
    if proposal.seq < m.latest_seq {
        Outcome { model: m, action: Action::Nothing }
    } else {
        let seen = Model { latest_seq: proposal.seq, ..m };
        let target = effective(m.policy, proposal, now);
        if suppressed(m.state, now) {
            Outcome { model: seen, action: Action::Nothing }
        } else {
            match m.state.visibility {
                Visibility::Hidden => if proposal.coalesced {
                    Outcome { model: seen, action: Action::Nothing }
                } else {
                    Outcome {
                        model: Model {
                            state: OverlayState {
                                visibility: Visibility::Showing(target),
                                last_shown_at: now,
                                suppressed_until: m.state.suppressed_until,
                            },
                            ..seen
                        },
                        action: Action::Show(target),
                    }
                },
                Visibility::Showing(current) => if current == target {
                    Outcome { model: seen, action: Action::Nothing }
                } else {
                    Outcome {
                        model: Model {
                            state: OverlayState { visibility: Visibility::Showing(target), ..m.state },
                            ..seen
                        },
                        action: Action::Move(target),
                    }
                },
            }
        }
    }
}

/// The machine's transition function: the machine and the action after
/// `command` is applied at time `now`.
pub open spec fn step(m: Model, command: Command, now: u64) -> Outcome {
    match command {
        Command::Place(proposal) => place_step(m, proposal, now),
        Command::Toggle { monitor } => match m.state.visibility {
            Visibility::Hidden => reveal_centered(m, monitor, now),
            Visibility::Showing(_) => conceal(m, now),
        },
        Command::Open { monitor } => match m.state.visibility {
            Visibility::Hidden => reveal_centered(m, monitor, now),
            Visibility::Showing(_) => Outcome { model: m, action: Action::Focus },
        },
        Command::Hide | Command::Dismiss => match m.state.visibility {
            Visibility::Hidden => Outcome { model: m, action: Action::Nothing },
            Visibility::Showing(_) => conceal(m, now),
        },
    }
}

/// The overlay's state machine.
///
/// The state is reached through `apply` alone, which takes the machine by
/// unique reference: two commands cannot be applied at once, and each sees
/// the state that the one before it left.
pub struct OverlayMachine {
    state: OverlayState,
    latest_seq: u64,
    policy: Policy,
}

impl View for OverlayMachine {
    type V = Model;

    closed spec fn view(&self) -> Model {
        Model { state: self.state, latest_seq: self.latest_seq, policy: self.policy }
    }
}

impl OverlayMachine {
    /// The machine at startup.
    pub fn new(policy: Policy) -> (machine: OverlayMachine)
        ensures
            machine@ == initial(policy),
    {
        OverlayMachine {
            state: OverlayState { visibility: Visibility::Hidden, last_shown_at: 0, suppressed_until: None },
            latest_seq: 0,
            policy,
        }
    }

    /// The overlay's state.
    pub fn state(&self) -> (state: OverlayState)
        ensures
            state == self@.state,
    {
        self.state
    }

    /// Whether the overlay is on screen.
    pub fn is_visible(&self) -> (visible: bool)
        ensures
            visible == (self@.state.visibility is Showing),
    {
        match self.state.visibility {
            Visibility::Hidden => false,
            Visibility::Showing(_) => true,
        }
    }

    /// The highest sequence number of a focus-driven command seen so far.
    pub fn latest_seq(&self) -> (seq: u64)
        ensures
            seq == self@.latest_seq,
    {
        self.latest_seq
    }

    /// The policy that the machine was made with.
    pub fn policy(&self) -> (policy: Policy)
        ensures
            policy == self@.policy,
    {
        self.policy
    }

    fn reveal_centered(&mut self, monitor: u32, now: u64) -> (action: Action)
        ensures
            (Outcome { model: final(self)@, action }) == reveal_centered(old(self)@, monitor, now),
    {
        self.state = OverlayState {
            visibility: Visibility::Showing(Placement::Center { monitor }),
            last_shown_at: now,
            suppressed_until: None,
        };
        Action::Show(Placement::Center { monitor })
    }

    fn conceal(&mut self, now: u64) -> (action: Action)
        ensures
            (Outcome { model: final(self)@, action }) == conceal(old(self)@, now),
    {
        let until: u64 = match now.checked_add(self.policy.suppress_ms) {
            Some(t) => t,
            None => u64::MAX,
        };
        self.state = OverlayState {
            visibility: Visibility::Hidden,
            last_shown_at: self.state.last_shown_at,
            suppressed_until: Some(until),
        };
        Action::Hide
    }

    fn place(&mut self, proposal: Proposal, now: u64) -> (action: Action)
        ensures
            (Outcome { model: final(self)@, action }) == place_step(old(self)@, proposal, now),
    {
        if proposal.seq < self.latest_seq {
            return Action::Nothing;
        }
        let held = match self.state.suppressed_until {
            Some(until) => now < until,
            None => false,
        };
        let stale = now > proposal.resolved_at && now - proposal.resolved_at > self.policy.staleness_ms;
        let target = match proposal.placement {
            Placement::AnchorNear { point, monitor } => if stale {
                Placement::Center { monitor }
            } else {
                proposal.placement
            },
            Placement::Center { monitor } => proposal.placement,
        };
        self.latest_seq = proposal.seq;
        if held {
            return Action::Nothing;
        }
        match self.state.visibility {
            Visibility::Hidden => {
                if proposal.coalesced {
                    Action::Nothing
                } else {
                    self.state = OverlayState {
                        visibility: Visibility::Showing(target),
                        last_shown_at: now,
                        suppressed_until: self.state.suppressed_until,
                    };
                    Action::Show(target)
                }
            },
            Visibility::Showing(current) => {
                if current == target {
                    Action::Nothing
                } else {
                    self.state = OverlayState {
                        visibility: Visibility::Showing(target),
                        last_shown_at: self.state.last_shown_at,
                        suppressed_until: self.state.suppressed_until,
                    };
                    Action::Move(target)
                }
            },
        }
    }

    /// Applies one command at time `now` and says what the window manager is
    /// to do.
    pub fn apply(&mut self, command: Command, now: u64) -> (action: Action)
        ensures
            (Outcome { model: final(self)@, action }) == step(old(self)@, command, now),
    {
        match command {
            Command::Place(proposal) => self.place(proposal, now),
            Command::Toggle { monitor } => {
                if self.is_visible() {
                    self.conceal(now)
                } else {
                    self.reveal_centered(monitor, now)
                }
            },
            Command::Open { monitor } => {
                if self.is_visible() {
                    Action::Focus
                } else {
                    self.reveal_centered(monitor, now)
                }
            },
            Command::Hide | Command::Dismiss => {
                if self.is_visible() {
                    self.conceal(now)
                } else {
                    Action::Nothing
                }
            },
        }
    }
}

/// A command together with the time at which it is applied.
#[derive(Clone, Copy, Debug, PartialEq, Eq, Structural)]
pub struct Input {
    pub command: Command,
    pub now: u64,
}

/// The machine after the inputs are applied in order.
pub open spec fn run(m: Model, inputs: Seq<Input>) -> Model
    decreases inputs.len(),
{
    if inputs.len() == 0 {
        m
    } else {
        step(run(m, inputs.drop_last()), inputs.last().command, inputs.last().now).model
    }
}

/// The actions that the inputs give, applied in order.
pub open spec fn trace(m: Model, inputs: Seq<Input>) -> Seq<Action>
    decreases inputs.len(),
{
    if inputs.len() == 0 {
        Seq::empty()
    } else {
        trace(m, inputs.drop_last()).push(
            step(run(m, inputs.drop_last()), inputs.last().command, inputs.last().now).action,
        )
    }
}

/// How many of the actions show the overlay.
pub open spec fn shows(actions: Seq<Action>) -> nat
    decreases actions.len(),
{
    if actions.len() == 0 {
        0
    } else {
        shows(actions.drop_last()) + if actions.last() is Show {
            1nat
        } else {
            0nat
        }
    }
}

/// How many of the actions change what is on screen.
pub open spec fn changes(actions: Seq<Action>) -> nat
    decreases actions.len(),
{
    if actions.len() == 0 {
        0
    } else {
        changes(actions.drop_last()) + if actions.last() == Action::Nothing {
            0nat
        } else {
            1nat
        }
    }
}

impl OverlayMachine {
    /// Applies the inputs one after the other, in the order given, and
    /// returns their actions in that order.
    pub fn apply_all(&mut self, inputs: &Vec<Input>) -> (actions: Vec<Action>)
        ensures
            final(self)@ == run(old(self)@, inputs@),
            actions@ == trace(old(self)@, inputs@),
    {
        let mut actions: Vec<Action> = Vec::new();
        let mut i: usize = 0;
        while i < inputs.len()
            invariant
                i <= inputs.len(),
                self@ == run(old(self)@, inputs@.take(i as int)),
                actions@ == trace(old(self)@, inputs@.take(i as int)),
            decreases inputs.len() - i,
        {
            let input = inputs[i];
            let action = self.apply(input.command, input.now);
            actions.push(action);
            proof {
                let next = inputs@.take(i + 1);
                assert(next.drop_last() == inputs@.take(i as int));
                assert(next.last() == input);
            }
            i += 1;
        }
        proof {
            assert(inputs@.take(inputs@.len() as int) == inputs@);
        }
        actions
    }
}

/// A hidden overlay is shown centered by the hotkey, whatever else the state
/// holds; a visible one is hidden by it, wherever it was.
pub proof fn lemma_toggle_flips(m: Model, monitor: u32, now: u64)
    ensures
        m.state.visibility is Hidden ==> step(m, Command::Toggle { monitor }, now).model.state.visibility
            == Visibility::Showing(Placement::Center { monitor }) && step(
            m,
            Command::Toggle { monitor },
            now,
        ).action == Action::Show(Placement::Center { monitor }),
        m.state.visibility is Showing ==> step(m, Command::Toggle { monitor }, now).model.state.visibility
            == Visibility::Hidden && step(m, Command::Toggle { monitor }, now).action == Action::Hide,
{
}

/// After the hotkey has hidden a visible overlay, the next press shows it
/// centered: the position that it had before is not used again.
pub proof fn lemma_toggle_twice_centers(m: Model, first: u32, second: u32, t1: u64, t2: u64)
    requires
        m.state.visibility is Showing,
    ensures
        step(m, Command::Toggle { monitor: first }, t1).model.state.visibility == Visibility::Hidden,
        step(
            step(m, Command::Toggle { monitor: first }, t1).model,
            Command::Toggle { monitor: second },
            t2,
        ).model.state.visibility == Visibility::Showing(Placement::Center { monitor: second }),
{
}

/// The overlay never comes to hold an anchored position that was stale when
/// it was applied: where a command leaves the overlay anchored at a position
/// that it did not have before, the command is a focus-driven proposal of
/// that position, resolved no longer ago than the staleness window.
pub proof fn lemma_anchor_is_fresh(m: Model, command: Command, now: u64)
    requires
        step(m, command, now).model.state.visibility matches Visibility::Showing(
            Placement::AnchorNear { .. },
        ),
        step(m, command, now).model.state.visibility != m.state.visibility,
    ensures
        command matches Command::Place(proposal) && Visibility::Showing(proposal.placement) == step(
            m,
            command,
            now,
        ).model.state.visibility && now - proposal.resolved_at <= m.policy.staleness_ms,
{
}

/// A focus-driven proposal never hides the overlay, and neither shows nor
/// moves it while focus changes are suppressed.
pub proof fn lemma_place_keeps_visible(m: Model, proposal: Proposal, now: u64)
    ensures
        m.state.visibility is Showing ==> step(m, Command::Place(proposal), now).model.state.visibility is Showing,
        !(step(m, Command::Place(proposal), now).action is Hide),
        m.state.visibility is Showing ==> !(step(m, Command::Place(proposal), now).action is Show),
        suppressed(m.state, now) ==> step(m, Command::Place(proposal), now).action == Action::Nothing
            && step(m, Command::Place(proposal), now).model.state == m.state,
{
}

/// Of two focus-driven proposals, the one with the higher sequence number
/// decides where the overlay is, in whichever order the two are applied: a
/// result that arrives late does not overwrite a newer one.
pub proof fn lemma_newer_placement_wins(m: Model, older: Proposal, newer: Proposal, t_older: u64, t_newer: u64)
    requires
        older.seq < newer.seq,
        m.latest_seq <= newer.seq,
        !newer.coalesced,
        !suppressed(m.state, t_newer),
    ensures
        step(
            step(m, Command::Place(older), t_older).model,
            Command::Place(newer),
            t_newer,
        ).model.state.visibility == Visibility::Showing(effective(m.policy, newer, t_newer)),
        step(
            step(m, Command::Place(newer), t_newer).model,
            Command::Place(older),
            t_older,
        ).model.state.visibility == Visibility::Showing(effective(m.policy, newer, t_newer)),
        step(step(m, Command::Place(newer), t_newer).model, Command::Place(older), t_older).action
            == Action::Nothing,
{
}

/// Whether the input is a focus-driven proposal that is coalesced.
pub open spec fn is_coalesced_place(input: Input) -> bool {
    input.command matches Command::Place(proposal) && proposal.coalesced
}

/// One accepted proposal followed by any number of coalesced ones shows the
/// overlay exactly once, not once for each of them.
pub proof fn lemma_coalesced_show_once(m: Model, first: Proposal, now: u64, rest: Seq<Input>)
    requires
        m.state.visibility is Hidden,
        !suppressed(m.state, now),
        m.latest_seq <= first.seq,
        !first.coalesced,
        forall|i: int| 0 <= i < rest.len() ==> is_coalesced_place(#[trigger] rest[i]),
    ensures
        shows(trace(m, seq![Input { command: Command::Place(first), now }] + rest)) == 1,
    decreases rest.len(),
{
    let head = seq![Input { command: Command::Place(first), now }];
    let all = head + rest;
    if rest.len() == 0 {
        assert(all == head);
        assert(head.drop_last() == Seq::<Input>::empty());
        assert(run(m, Seq::<Input>::empty()) == m);
        assert(trace(m, Seq::<Input>::empty()) == Seq::<Action>::empty());
        assert(head.last() == Input { command: Command::Place(first), now });
        let actions = trace(m, head);
        assert(actions == seq![step(m, Command::Place(first), now).action]);
        assert(actions.drop_last() == Seq::<Action>::empty());
        assert(shows(actions.drop_last()) == 0);
        assert(actions.last() is Show);
    } else {
        let shorter = head + rest.drop_last();
        assert(all.drop_last() == shorter);
        assert(all.last() == rest.last());
        assert(is_coalesced_place(rest[rest.len() - 1]));
        lemma_coalesced_show_once(m, first, now, rest.drop_last());
        let before = run(m, shorter);
        let last = step(before, rest.last().command, rest.last().now).action;
        let actions = trace(m, all);
        assert(actions == trace(m, shorter).push(last));
        assert(actions.drop_last() == trace(m, shorter));
        assert(actions.last() == last);
        assert(!(last is Show));
    }
}

} // verus!
