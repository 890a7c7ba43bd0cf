//! The whole path of a focus event: classification and geometry on the side
//! that hears of it, placement and the overlay's state on the side that owns
//! the window.

use vstd::prelude::*;
use crate::bridge::{DispatchBridge, Resolved};
use crate::classifier::{classify_spec, Classifier};
use crate::event::FocusEvent;
use crate::geometry::{Monitor, Point, Size};
use crate::machine::{
    changes, effective, initial, shows, step, suppressed, Action, Command, Model, OverlayMachine,
    Visibility,
};
use crate::placement::{place_spec, within, Placement, PlacementEngine, Policy, Proposal};
use crate::resolver::{resolve, resolve_spec};

verus! {

/// What is carried across for an event: nothing where the classifier
/// rejects it, else its candidate, resolved at time `now`, with the monitor
/// `fallback` standing in where its frame cannot be resolved.
pub open spec fn screen_spec(
    event: FocusEvent,
    own_pid: u32,
    denied: Set<u32>,
    monitors: Seq<Monitor>,
    fallback: u32,
    now: u64,
) -> Option<Resolved> {
    if classify_spec(event, own_pid, denied).eligible {
        Some(
            Resolved {
                candidate: resolve_spec(event, monitors, fallback, now),
                field: event.field,
                timestamp: event.timestamp,
                seq: event.seq,
            },
        )
    } else {
        None
    }
}

/// Classifies an event and resolves its geometry. An event that is not
/// eligible is dropped here and changes nothing.
pub fn screen(
    classifier: &Classifier,
    event: &FocusEvent,
    monitors: &Vec<Monitor>,
    fallback: u32,
    now: u64,
) -> (resolved: Option<Resolved>)
    ensures
        resolved == screen_spec(
            *event,
            classifier.own_pid_spec(),
            classifier.denied_set(),
            monitors@,
            fallback,
            now,
        ),
{
    let verdict = classifier.classify(event);
    if verdict.eligible {
        Some(
            Resolved {
                candidate: resolve(event, monitors, fallback, now),
                field: event.field,
                timestamp: event.timestamp,
                seq: event.seq,
            },
        )
    } else {
        None
    }
}

/// The placement engine and the overlay's state machine together.
#[derive(Clone, Copy, Debug, PartialEq, Eq, Structural)]
pub struct AssistantModel {
    pub engine: PlacementEngine,
    pub machine: Model,
}

/// The assistant after an event or a command, and what the window manager
/// is to do.
#[derive(Clone, Copy, Debug, PartialEq, Eq, Structural)]
pub struct Reaction {
    pub model: AssistantModel,
    pub action: Action,
}

/// What a resolved event does: the engine places it and remembers it, and
/// the state machine applies the proposal at time `now`.
pub open spec fn focus_step(
    a: AssistantModel,
    resolved: Resolved,
    monitors: Seq<Monitor>,
    overlay: Size,
    now: u64,
) -> Reaction {
    let proposal = a.engine.propose_spec(
        resolved.candidate,
        resolved.field,
        resolved.timestamp,
        resolved.seq,
        monitors,
        overlay,
    );
    let outcome = step(a.machine, Command::Place(proposal), now);
    Reaction {
        model: AssistantModel {
            engine: a.engine.record_spec(resolved.field, resolved.timestamp),
            machine: outcome.model,
        },
        action: outcome.action,
    }
}

/// What a command does: the state machine applies it, the engine is left as
/// it is.
pub open spec fn command_step(a: AssistantModel, command: Command, now: u64) -> Reaction {
    Reaction {
        model: AssistantModel { engine: a.engine, machine: step(a.machine, command, now).model },
        action: step(a.machine, command, now).action,
    }
}

/// What a focus event does, from classification to the overlay's state.
pub open spec fn handle_spec(
    a: AssistantModel,
    own_pid: u32,
    denied: Set<u32>,
    event: FocusEvent,
    monitors: Seq<Monitor>,
    fallback: u32,
    overlay: Size,
    now: u64,
) -> Reaction {
    match screen_spec(event, own_pid, denied, monitors, fallback, now) {
        None => Reaction { model: a, action: Action::Nothing },
        Some(resolved) => focus_step(a, resolved, monitors, overlay, now),
    }
}

/// The assistant after the resolved events are taken in, in order, all at
/// time `now`.
pub open spec fn focus_run(
    a: AssistantModel,
    events: Seq<Resolved>,
    monitors: Seq<Monitor>,
    overlay: Size,
    now: u64,
) -> AssistantModel
    decreases events.len(),
{
    if events.len() == 0 {
        a
    } else {
        focus_step(
            focus_run(a, events.drop_last(), monitors, overlay, now),
            events.last(),
            monitors,
            overlay,
            now,
        ).model
    }
}

/// The actions that the resolved events give, taken in order at time `now`.
pub open spec fn focus_trace(
    a: AssistantModel,
    events: Seq<Resolved>,
    monitors: Seq<Monitor>,
    overlay: Size,
    now: u64,
) -> Seq<Action>
    decreases events.len(),
{
    if events.len() == 0 {
        Seq::empty()
    } else {
        focus_trace(a, events.drop_last(), monitors, overlay, now).push(
            focus_step(
                focus_run(a, events.drop_last(), monitors, overlay, now),
                events.last(),
                monitors,
                overlay,
                now,
            ).action,
        )
    }
}

/// The side of the assistant that owns the overlay.
pub struct Assistant {
    engine: PlacementEngine,
    machine: OverlayMachine,
}

impl View for Assistant {
    type V = AssistantModel;

    closed spec fn view(&self) -> AssistantModel {
        AssistantModel { engine: self.engine, machine: self.machine@ }
    }
}

impl Assistant {
    /// The assistant at startup: the overlay hidden, no event accepted yet.
    pub fn new(policy: Policy) -> (assistant: Assistant)
        ensures
            assistant@ == (AssistantModel {
                engine: PlacementEngine { policy, last_accepted: None },
                machine: initial(policy),
            }),
    {
        Assistant { engine: PlacementEngine::new(policy), machine: OverlayMachine::new(policy) }
    }

    /// The overlay's visibility.
    pub fn visibility(&self) -> (visibility: Visibility)
        ensures
            visibility == self@.machine.state.visibility,
    {
        self.machine.state().visibility
    }

    /// The highest sequence number of a focus event seen so far.
    pub fn latest_seq(&self) -> (seq: u64)
        ensures
            seq == self@.machine.latest_seq,
    {
        self.machine.latest_seq()
    }

    /// Takes in one resolved focus event at time `now`.
    pub fn on_focus(&mut self, resolved: Resolved, monitors: &Vec<Monitor>, overlay: Size, now: u64) -> (action:
        Action)
        ensures
            (Reaction { model: final(self)@, action }) == focus_step(old(self)@, resolved, monitors@, overlay, now),
    {
        let proposal = self.engine.propose(
            resolved.candidate,
            resolved.field,
            resolved.timestamp,
            resolved.seq,
            monitors,
            overlay,
        );
        self.machine.apply(Command::Place(proposal), now)
    }

    /// Takes in one command from the hotkey, the tray or the user at time
    /// `now`.
    pub fn on_command(&mut self, command: Command, now: u64) -> (action: Action)
        ensures
            (Reaction { model: final(self)@, action }) == command_step(old(self)@, command, now),
    {
        self.machine.apply(command, now)
    }

    /// Shows the overlay at a position that the caller has just determined:
    /// a focus-driven placement resolved at time `now`, as new as the newest
    /// event seen.
    pub fn show_overlay(&mut self, point: Point, monitor: u32, now: u64) -> (action: Action)
        ensures
            (Reaction { model: final(self)@, action }) == command_step(
                old(self)@,
                Command::Place(
                    Proposal {
                        placement: Placement::AnchorNear { point, monitor },
                        coalesced: false,
                        resolved_at: now,
                        seq: old(self)@.machine.latest_seq,
                    },
                ),
                now,
            ),
    {
        let seq: u64 = self.machine.latest_seq();
        self.machine.apply(
            Command::Place(
                Proposal {
                    placement: Placement::AnchorNear { point, monitor },
                    coalesced: false,
                    resolved_at: now,
                    seq,
                },
            ),
            now,
        )
    }

    /// Hides the overlay on an explicit request.
    pub fn hide_overlay(&mut self, now: u64) -> (action: Action)
        ensures
            (Reaction { model: final(self)@, action }) == command_step(old(self)@, Command::Hide, now),
    {
        self.machine.apply(Command::Hide, now)
    }

    /// Toggles the overlay, as the hotkey does: a visible overlay is hidden,
    /// a hidden one is shown centered on the monitor `monitor`.
    pub fn toggle_overlay(&mut self, monitor: u32, now: u64) -> (action: Action)
        ensures
            (Reaction { model: final(self)@, action }) == command_step(
                old(self)@,
                Command::Toggle { monitor },
                now,
            ),
    {
        self.machine.apply(Command::Toggle { monitor }, now)
    }

    /// Takes one focus event all the way: classification, geometry,
    /// placement, and the overlay's state.
    pub fn handle(
        &mut self,
        classifier: &Classifier,
        event: &FocusEvent,
        monitors: &Vec<Monitor>,
        fallback: u32,
        overlay: Size,
        now: u64,
    ) -> (action: Action)
        ensures
            (Reaction { model: final(self)@, action }) == handle_spec(
                old(self)@,
                classifier.own_pid_spec(),
                classifier.denied_set(),
                *event,
                monitors@,
                fallback,
                overlay,
                now,
            ),
    {
        match screen(classifier, event, monitors, fallback, now) {
            None => Action::Nothing,
            Some(resolved) => self.on_focus(resolved, monitors, overlay, now),
        }
    }

    /// Takes in everything that waits on the bridge, in the order in which
    /// it arrived, and returns the actions in that order.
    pub fn deliver(&mut self, bridge: &mut DispatchBridge, monitors: &Vec<Monitor>, overlay: Size, now: u64) -> (actions:
        Vec<Action>)
        ensures
            final(bridge)@ == Seq::<Resolved>::empty(),
            final(self)@ == focus_run(old(self)@, old(bridge)@, monitors@, overlay, now),
            actions@ == focus_trace(old(self)@, old(bridge)@, monitors@, overlay, now),
    {
        let mut actions: Vec<Action> = Vec::new();
        let ghost waiting = bridge@;
        let ghost mut done: int = 0;
        while bridge.len() > 0
            invariant
                0 <= done <= waiting.len(),
                bridge@ == waiting.skip(done),
                self@ == focus_run(old(self)@, waiting.take(done), monitors@, overlay, now),
                actions@ == focus_trace(old(self)@, waiting.take(done), monitors@, overlay, now),
            decreases bridge@.len(),
        {
            match bridge.take() {
                None => {},
                Some(resolved) => {
                    let action = self.on_focus(resolved, monitors, overlay, now);
                    actions.push(action);
                    proof {
                        let next = waiting.take(done + 1);
                        assert(resolved == waiting[done]);
                        assert(next.drop_last() == waiting.take(done));
                        assert(next.last() == resolved);
                        assert(waiting.skip(done).skip(1) == waiting.skip(done + 1));
                        done = done + 1;
                    }
                },
            }
        }
        proof {
            assert(waiting.take(done) == waiting);
            assert(bridge@ == Seq::<Resolved>::empty());
        }
        actions
    }
}

/// A focus event together with the time at which it is handled.
#[derive(Clone, Copy, Debug, PartialEq, Eq, Structural)]
pub struct Arrival {
    pub event: FocusEvent,
    pub now: u64,
}

/// The assistant after the events are handled in order.
pub open spec fn handle_run(
    a: AssistantModel,
    own_pid: u32,
    denied: Set<u32>,
    arrivals: Seq<Arrival>,
    monitors: Seq<Monitor>,
    fallback: u32,
    overlay: Size,
) -> AssistantModel
    decreases arrivals.len(),
{
    if arrivals.len() == 0 {
        a
    } else {
        handle_spec(
            handle_run(a, own_pid, denied, arrivals.drop_last(), monitors, fallback, overlay),
            own_pid,
            denied,
            arrivals.last().event,
            monitors,
            fallback,
            overlay,
            arrivals.last().now,
        ).model
    }
}

/// The actions that the events give, handled in order.
pub open spec fn handle_trace(
    a: AssistantModel,
    own_pid: u32,
    denied: Set<u32>,
    arrivals: Seq<Arrival>,
    monitors: Seq<Monitor>,
    fallback: u32,
    overlay: Size,
) -> Seq<Action>
    decreases arrivals.len(),
{
    if arrivals.len() == 0 {
        Seq::empty()
    } else {
        handle_trace(a, own_pid, denied, arrivals.drop_last(), monitors, fallback, overlay).push(
            handle_spec(
                handle_run(a, own_pid, denied, arrivals.drop_last(), monitors, fallback, overlay),
                own_pid,
                denied,
                arrivals.last().event,
                monitors,
                fallback,
                overlay,
                arrivals.last().now,
            ).action,
        )
    }
}

/// Whether `repeat` is `first` over again: on the same field of the same
/// process, reported alike, with the same frame.
pub open spec fn repeats(repeat: FocusEvent, first: FocusEvent) -> bool {
    &&& repeat.role == first.role
    &&& repeat.masked == first.masked
    &&& repeat.pid == first.pid
    &&& repeat.field == first.field
    &&& repeat.frame == first.frame
}

/// Where the overlay is put for a resolved event that is applied at time
/// `now`.
pub open spec fn target_spec(
    a: AssistantModel,
    resolved: Resolved,
    monitors: Seq<Monitor>,
    overlay: Size,
    now: u64,
) -> Placement {
    effective(
        a.machine.policy,
        a.engine.propose_spec(
            resolved.candidate,
            resolved.field,
            resolved.timestamp,
            resolved.seq,
            monitors,
            overlay,
        ),
        now,
    )
}

/// Repeated events on one field within the debounce window show the overlay
/// once: the first of them does, and none of the repeats shows it again or
/// changes anything else on screen, however many there are and whenever
/// each is handled.
pub proof fn lemma_repeated_event_shows_once(
    a: AssistantModel,
    own_pid: u32,
    denied: Set<u32>,
    first: Arrival,
    again: Seq<Arrival>,
    monitors: Seq<Monitor>,
    fallback: u32,
    overlay: Size,
)
    requires
        a.machine.state.visibility is Hidden,
        !suppressed(a.machine.state, first.now),
        a.machine.latest_seq <= first.event.seq,
        classify_spec(first.event, own_pid, denied).eligible,
        !a.engine.coalesces_spec(first.event.field, first.event.timestamp),
        forall|i: int|
            0 <= i < again.len() ==> repeats((#[trigger] again[i]).event, first.event) && within(
                again[i].event.timestamp,
                first.event.timestamp,
                a.engine.policy.debounce_ms,
            ),
    ensures
        shows(handle_trace(a, own_pid, denied, seq![first] + again, monitors, fallback, overlay)) == 1,
        changes(handle_trace(a, own_pid, denied, seq![first] + again, monitors, fallback, overlay)) == 1,
        handle_run(a, own_pid, denied, seq![first] + again, monitors, fallback, overlay).engine
            == a.engine.record_spec(first.event.field, first.event.timestamp),
    decreases again.len(),
{
    let head = seq![first];
    let all = head + again;
    lemma_repeated_event_changes_once(a, own_pid, denied, first, again, monitors, fallback, overlay);
    if again.len() == 0 {
        assert(all == head);
        assert(head.drop_last() == Seq::<Arrival>::empty());
        assert(head.last() == first);
        assert(handle_run(a, own_pid, denied, Seq::<Arrival>::empty(), monitors, fallback, overlay) == a);
        assert(handle_trace(a, own_pid, denied, Seq::<Arrival>::empty(), monitors, fallback, overlay)
            == Seq::<Action>::empty());
        let reaction = handle_spec(a, own_pid, denied, first.event, monitors, fallback, overlay, first.now);
        let actions = handle_trace(a, own_pid, denied, head, monitors, fallback, overlay);
        assert(actions == seq![reaction.action]);
        assert(actions.drop_last() == Seq::<Action>::empty());
        assert(shows(actions.drop_last()) == 0);
        assert(changes(actions.drop_last()) == 0);
        assert(actions.last() is Show);
    } else {
        let shorter = head + again.drop_last();
        assert(all.drop_last() == shorter);
        assert(all.last() == again.last());
        assert(again[again.len() - 1] == again.last());
        lemma_repeated_event_shows_once(
            a,
            own_pid,
            denied,
            first,
            again.drop_last(),
            monitors,
            fallback,
            overlay,
        );
        let before = handle_run(a, own_pid, denied, shorter, monitors, fallback, overlay);
        let event = again.last().event;
        assert(classify_spec(event, own_pid, denied).eligible);
        assert(before.engine.coalesces_spec(event.field, event.timestamp));
        let reaction = handle_spec(before, own_pid, denied, event, monitors, fallback, overlay, again.last().now);
        let actions = handle_trace(a, own_pid, denied, all, monitors, fallback, overlay);
        assert(actions == handle_trace(a, own_pid, denied, shorter, monitors, fallback, overlay).push(
            reaction.action,
        ));
        assert(actions.drop_last() == handle_trace(a, own_pid, denied, shorter, monitors, fallback, overlay));
        assert(actions.last() == reaction.action);
        assert(!(reaction.action is Show));
    }
}

/// Where the overlay is put for an event that is handled at once.
pub open spec fn placement_of(
    a: AssistantModel,
    event: FocusEvent,
    monitors: Seq<Monitor>,
    fallback: u32,
    overlay: Size,
) -> Placement {
    let candidate = resolve_spec(event, monitors, fallback, 0);
    place_spec(Some(candidate), monitors, candidate.monitor, overlay, a.engine.policy.margin)
}

/// However often an event is repeated, and whatever the overlay's state
/// before, what is on screen changes at most once: the overlay is shown or
/// moved to the event's position by the first of them that takes effect,
/// and every later one leaves it there.
pub proof fn lemma_repeated_event_changes_once(
    a: AssistantModel,
    own_pid: u32,
    denied: Set<u32>,
    first: Arrival,
    again: Seq<Arrival>,
    monitors: Seq<Monitor>,
    fallback: u32,
    overlay: Size,
)
    requires
        forall|i: int| 0 <= i < again.len() ==> repeats((#[trigger] again[i]).event, first.event),
    ensures
        changes(handle_trace(a, own_pid, denied, seq![first] + again, monitors, fallback, overlay)) <= 1,
        changes(handle_trace(a, own_pid, denied, seq![first] + again, monitors, fallback, overlay)) == 1
            ==> handle_run(
            a,
            own_pid,
            denied,
            seq![first] + again,
            monitors,
            fallback,
            overlay,
        ).machine.state.visibility == Visibility::Showing(
            placement_of(a, first.event, monitors, fallback, overlay),
        ),
        handle_run(a, own_pid, denied, seq![first] + again, monitors, fallback, overlay).engine.policy
            == a.engine.policy,
        handle_run(a, own_pid, denied, seq![first] + again, monitors, fallback, overlay).machine.policy
            == a.machine.policy,
    decreases again.len(),
{
    let head = seq![first];
    let all = head + again;
    if again.len() == 0 {
        assert(all == head);
        assert(head.drop_last() == Seq::<Arrival>::empty());
        assert(head.last() == first);
        assert(handle_run(a, own_pid, denied, Seq::<Arrival>::empty(), monitors, fallback, overlay) == a);
        assert(handle_trace(a, own_pid, denied, Seq::<Arrival>::empty(), monitors, fallback, overlay)
            == Seq::<Action>::empty());
        let reaction = handle_spec(a, own_pid, denied, first.event, monitors, fallback, overlay, first.now);
        let actions = handle_trace(a, own_pid, denied, head, monitors, fallback, overlay);
        assert(actions == seq![reaction.action]);
        assert(actions.drop_last() == Seq::<Action>::empty());
        assert(changes(actions.drop_last()) == 0);
        assert(actions.last() == reaction.action);
    } else {
        let shorter = head + again.drop_last();
        assert(all.drop_last() == shorter);
        assert(all.last() == again.last());
        assert(again[again.len() - 1] == again.last());
        lemma_repeated_event_changes_once(
            a,
            own_pid,
            denied,
            first,
            again.drop_last(),
            monitors,
            fallback,
            overlay,
        );
        let before = handle_run(a, own_pid, denied, shorter, monitors, fallback, overlay);
        let event = again.last().event;
        let reaction = handle_spec(before, own_pid, denied, event, monitors, fallback, overlay, again.last().now);
        let actions = handle_trace(a, own_pid, denied, all, monitors, fallback, overlay);
        assert(actions == handle_trace(a, own_pid, denied, shorter, monitors, fallback, overlay).push(
            reaction.action,
        ));
        assert(actions.drop_last() == handle_trace(a, own_pid, denied, shorter, monitors, fallback, overlay));
        assert(actions.last() == reaction.action);
    }
}

/// Of two events on different fields, the overlay ends where the one with
/// the higher sequence number puts it, not where the other does. That is so
/// when the two are taken in in the order of their sequence numbers, and
/// also when the older one comes in late, after the newer one.
pub proof fn lemma_later_field_wins(
    a: AssistantModel,
    older: Resolved,
    newer: Resolved,
    monitors: Seq<Monitor>,
    overlay: Size,
    t_older: u64,
    t_newer: u64,
)
    requires
        older.seq < newer.seq,
        older.field != newer.field,
        a.machine.latest_seq <= newer.seq,
        !suppressed(a.machine.state, t_newer),
    ensures
        focus_step(
            focus_step(a, older, monitors, overlay, t_older).model,
            newer,
            monitors,
            overlay,
            t_newer,
        ).model.machine.state.visibility == Visibility::Showing(
            target_spec(a, newer, monitors, overlay, t_newer),
        ),
        !a.engine.coalesces_spec(newer.field, newer.timestamp) ==> focus_step(
            focus_step(a, newer, monitors, overlay, t_newer).model,
            older,
            monitors,
            overlay,
            t_older,
        ).model.machine.state.visibility == Visibility::Showing(
            target_spec(a, newer, monitors, overlay, t_newer),
        ),
{
}

} // verus!
