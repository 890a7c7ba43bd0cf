//! The dispatch bridge: carries resolved focus events from the context that
//! hears of them to the one that owns the overlay, in the order of arrival.

use vstd::prelude::*;
use crate::resolver::Candidate;

verus! {

/// A focus event after classification and geometry resolution: what is left
/// of it to carry across.
#[derive(Clone, Copy, Debug, PartialEq, Eq, Structural)]
pub struct Resolved {
    pub candidate: Candidate,
    /// The field that the event was on.
    pub field: u64,
    /// When the focus changed, in milliseconds.
    pub timestamp: u64,
    /// The event's sequence number.
    pub seq: u64,
}

/// A first-in, first-out queue of resolved events.
pub struct DispatchBridge {
    queue: Vec<Resolved>,
}

impl View for DispatchBridge {
    type V = Seq<Resolved>;

    /// The events that wait, the one that arrived first at index 0.
    closed spec fn view(&self) -> Seq<Resolved> {
        self.queue@
    }
}

impl DispatchBridge {
    /// A bridge on which nothing waits.
    pub fn new() -> (bridge: DispatchBridge)
        ensures
            bridge@ == Seq::<Resolved>::empty(),
    {
        DispatchBridge { queue: Vec::new() }
    }

    /// How many events wait.
    pub fn len(&self) -> (n: usize)
        ensures
            n == self@.len(),
    {
        self.queue.len()
    }

    /// Puts an event behind those that wait already.
    pub fn post(&mut self, event: Resolved)
        ensures
            final(self)@ == old(self)@.push(event),
    {
        self.queue.push(event);
    }

    /// Takes the event that has waited longest, if any waits.
    pub fn take(&mut self) -> (event: Option<Resolved>)
        ensures
            old(self)@.len() == 0 ==> event.is_none() && final(self)@ == old(self)@,
            old(self)@.len() > 0 ==> event == Some(old(self)@[0]) && final(self)@ == old(self)@.skip(1),
    {
        if self.queue.len() == 0 {
            None
        } else {
            let first = self.queue.remove(0);
            assert(self.queue@ =~= old(self).queue@.skip(1));
            Some(first)
        }
    }
}

/// Events leave the bridge in the order in which they were posted: after
/// `later` is posted behind `earlier`, taking everything that waited before
/// gives `earlier` next and `later` after it.
pub proof fn lemma_bridge_keeps_order(waiting: Seq<Resolved>, earlier: Resolved, later: Resolved)
    ensures
        waiting.push(earlier).push(later).skip(waiting.len() as int) == seq![earlier, later],
        waiting.push(earlier).push(later).take(waiting.len() as int) == waiting,
{
    assert(waiting.push(earlier).push(later).skip(waiting.len() as int) =~= seq![earlier, later]);
    assert(waiting.push(earlier).push(later).take(waiting.len() as int) =~= waiting);
}

} // verus!
