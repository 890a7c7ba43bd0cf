//! Decides whether a focus event lands on an eligible password field.

use vstd::prelude::*;
use crate::event::{Failure, FocusEvent, Role};

verus! {

/// Why the classifier decided as it did.
#[derive(Clone, Copy, Debug, PartialEq, Eq, Structural)]
pub enum Reason {
    /// Accepted: the element's role is that of a secure text field.
    SecureRole,
    /// Accepted: the role is not a secure one, but the element masks its input.
    MaskedInput,
    /// Rejected: neither the role nor the attributes mark a password field.
    NotSecure,
    /// Rejected: the focus is in the assistant's own process.
    SelfOriginated,
    /// Rejected: the owning application is on the denylist.
    Denylisted,
}

/// The classifier's decision on one event.
#[derive(Clone, Copy, Debug, PartialEq, Eq, Structural)]
pub struct Verdict {
    pub eligible: bool,
    pub reason: Reason,
}

/// Whether the event's element is a password field by role or by attribute.
/// The role alone is not authoritative: a masked element counts whatever its
/// role.
pub open spec fn is_secure(event: FocusEvent) -> bool {
    event.role == Role::SecureText || event.masked
}

/// The decision for `event`, for an assistant running as process `own_pid`
/// with the applications in `denied` on its denylist.
pub open spec fn classify_spec(event: FocusEvent, own_pid: u32, denied: Set<u32>) -> Verdict {
    if !is_secure(event) {
        Verdict { eligible: false, reason: Reason::NotSecure }
    } else if event.pid == own_pid {
        Verdict { eligible: false, reason: Reason::SelfOriginated }
    } else if denied.contains(event.pid) {
        Verdict { eligible: false, reason: Reason::Denylisted }
    } else if event.role == Role::SecureText {
        Verdict { eligible: true, reason: Reason::SecureRole }
    } else {
        Verdict { eligible: true, reason: Reason::MaskedInput }
    }
}

impl Verdict {
    /// The failure that a rejection stands for, if any: a focus of the
    /// assistant's own or of a denylisted application is an ambiguous
    /// application; an ordinary field is no failure at all.
    pub open spec fn failure_spec(self) -> Option<Failure> {
        match self.reason {
            Reason::SelfOriginated | Reason::Denylisted => Some(Failure::AmbiguousApplication),
            _ => None,
        }
    }

    #[verifier::when_used_as_spec(failure_spec)]
    pub fn failure(self) -> (f: Option<Failure>)
        ensures
            f == self.failure_spec(),
    {
        match self.reason {
            Reason::SelfOriginated | Reason::Denylisted => Some(Failure::AmbiguousApplication),
            _ => None,
        }
    }
}

/// The classifier's configuration: the assistant's own process and the
/// applications that are known not to work with the overlay.
pub struct Classifier {
    own_pid: u32,
    denied: Vec<u32>,
}

impl Classifier {
    /// The process that the assistant itself runs as.
    pub closed spec fn own_pid_spec(&self) -> u32 {
        self.own_pid
    }

    /// The processes on the denylist.
    pub closed spec fn denied_set(&self) -> Set<u32> {
        Set::new(|pid: u32| self.denied@.contains(pid))
    }

    /// A classifier with an empty denylist.
    pub fn new(own_pid: u32) -> (c: Classifier)
        ensures
            c.own_pid_spec() == own_pid,
            c.denied_set() == Set::<u32>::empty(),
    {
        let c = Classifier { own_pid, denied: Vec::new() };
        assert(c.denied_set() =~= Set::<u32>::empty());
        c
    }

    #[verifier::when_used_as_spec(own_pid_spec)]
    pub fn own_pid(&self) -> (pid: u32)
        ensures
            pid == self.own_pid_spec(),
    {
        self.own_pid
    }

    /// Whether `pid` is on the denylist.
    pub fn is_denied(&self, pid: u32) -> (denied: bool)
        ensures
            denied == self.denied_set().contains(pid),
    {
        let mut i: usize = 0;
        while i < self.denied.len()
            invariant
                i <= self.denied.len(),
                forall|j: int| 0 <= j < i ==> self.denied@[j] != pid,
            decreases self.denied.len() - i,
        {
            if self.denied[i] == pid {
                return true;
            }
            i += 1;
        }
        false
    }

    /// Puts `pid` on the denylist.
    pub fn deny(&mut self, pid: u32)
        ensures
            final(self).own_pid_spec() == old(self).own_pid_spec(),
            final(self).denied_set() == old(self).denied_set().insert(pid),
    {
        if !self.is_denied(pid) {
            self.denied.push(pid);
            assert forall|p: u32| self.denied@.contains(p) <==> (old(self).denied@.contains(p) || p == pid) by {
                if old(self).denied@.contains(p) {
                    let k = choose|k: int| 0 <= k < old(self).denied@.len() && old(self).denied@[k] == p;
                    assert(self.denied@[k] == p);
                }
                if p == pid {
                    assert(self.denied@[self.denied@.len() - 1] == p);
                }
            }
        }
        assert(self.denied_set() =~= old(self).denied_set().insert(pid));
    }

    /// Takes `pid` off the denylist.
    pub fn allow(&mut self, pid: u32)
        ensures
            final(self).own_pid_spec() == old(self).own_pid_spec(),
            final(self).denied_set() == old(self).denied_set().remove(pid),
    {
        let mut kept: Vec<u32> = Vec::new();
        let mut i: usize = 0;
        while i < self.denied.len()
            invariant
                i <= self.denied.len(),
                *self == *old(self),
                forall|p: u32|
                    kept@.contains(p) <==> (p != pid && exists|j: int|
                        0 <= j < i && self.denied@[j] == p),
            decreases self.denied.len() - i,
        {
            let entry: u32 = self.denied[i];
            let ghost before = kept@;
            if entry != pid {
                kept.push(entry);
            }
            i += 1;
            assert forall|p: u32|
                kept@.contains(p) <==> (p != pid && exists|j: int|
                    0 <= j < i && self.denied@[j] == p) by {
                if kept@.contains(p) {
                    let k = choose|k: int| 0 <= k < kept@.len() && kept@[k] == p;
                    if k < before.len() {
                        assert(before[k] == p);
                        assert(before.contains(p));
                        let j = choose|j: int| 0 <= j < i - 1 && self.denied@[j] == p;
                        assert(0 <= j < i && self.denied@[j] == p);
                    } else {
                        assert(self.denied@[i - 1] == p);
                    }
                }
                if p != pid && exists|j: int| 0 <= j < i && self.denied@[j] == p {
                    let j = choose|j: int| 0 <= j < i && self.denied@[j] == p;
                    if j < i - 1 {
                        assert(before.contains(p));
                        let k = choose|k: int| 0 <= k < before.len() && before[k] == p;
                        assert(kept@[k] == p);
                    } else {
                        assert(kept@[kept@.len() - 1] == p);
                    }
                }
            }
        }
        self.denied = kept;
        assert(self.denied_set() =~= old(self).denied_set().remove(pid)) by {
            assert forall|p: u32| self.denied_set().contains(p) <==> old(self).denied_set().remove(pid).contains(p) by {
                if old(self).denied@.contains(p) {
                    let j = choose|j: int| 0 <= j < old(self).denied@.len() && old(self).denied@[j] == p;
                    assert(0 <= j < i && old(self).denied@[j] == p);
                }
            }
        }
    }

    /// Classifies one focus event.
    ///
    /// The event is eligible exactly where it is on a password field, by role
    /// or by its masked-input attribute, and comes neither from the
    /// assistant's own process nor from a denylisted one.
    pub fn classify(&self, event: &FocusEvent) -> (verdict: Verdict)
        ensures
            verdict == classify_spec(*event, self.own_pid_spec(), self.denied_set()),
            verdict.eligible <==> (is_secure(*event) && event.pid != self.own_pid_spec()
                && !self.denied_set().contains(event.pid)),
    {
        let secure_role = match event.role {
            Role::SecureText => true,
            _ => false,
        };
        if !secure_role && !event.masked {
            Verdict { eligible: false, reason: Reason::NotSecure }
        } else if event.pid == self.own_pid {
            Verdict { eligible: false, reason: Reason::SelfOriginated }
        } else if self.is_denied(event.pid) {
            Verdict { eligible: false, reason: Reason::Denylisted }
        } else if secure_role {
            Verdict { eligible: true, reason: Reason::SecureRole }
        } else {
            Verdict { eligible: true, reason: Reason::MaskedInput }
        }
    }
}

/// An event that is on no password field is rejected, whatever the
/// configuration; an event on one is accepted unless it is the assistant's
/// own or its application is denylisted.
pub proof fn lemma_classifier_decides_by_security(event: FocusEvent, own_pid: u32, denied: Set<u32>)
    ensures
        event.role != Role::SecureText && !event.masked ==> !classify_spec(event, own_pid, denied).eligible,
        (event.role == Role::SecureText || event.masked) && event.pid != own_pid && !denied.contains(
            event.pid,
        ) ==> classify_spec(event, own_pid, denied).eligible,
        classify_spec(event, own_pid, denied).eligible ==> classify_spec(
            event,
            own_pid,
            denied,
        ).failure_spec().is_none(),
{
}

} // verus!
