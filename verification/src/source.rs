//! The focus event source: what it does about the accessibility permission,
//! and how a raw notification becomes a focus event.
//!
//! The subscription itself is held by the host; this module decides when to
//! subscribe, when to give the subscription up, and when to tell the user.

use vstd::prelude::*;
use crate::event::{Failure, FocusEvent, Frame, Role};

verus! {

/// Where the source stands with the accessibility service.
#[derive(Clone, Copy, Debug, PartialEq, Eq, Structural)]
pub enum Subscription {
    /// The permission has not been looked at yet.
    Idle,
    /// Notifications are being delivered.
    Subscribed,
    /// The permission is missing; secure-field detection is off.
    Denied,
}

/// What the host is to do after the source has looked at the permission.
#[derive(Clone, Copy, Debug, PartialEq, Eq, Structural)]
pub enum SourceAction {
    Nothing,
    /// Subscribe to the focus-change notification.
    Subscribe,
    /// Give the subscription up.
    Unsubscribe,
    /// Tell the user that the permission is missing.
    Notify,
    /// Give the subscription up and tell the user.
    UnsubscribeAndNotify,
}

/// What the native queries gave for one focus notification.
#[derive(Clone, Copy, Debug, PartialEq, Eq, Structural)]
pub struct Observation {
    /// The element's role; `None` where the element was gone, or did not
    /// answer in time.
    pub role: Option<Role>,
    pub masked: bool,
    pub pid: u32,
    pub field: u64,
    /// The element's frame; `None` where that query failed or timed out.
    pub frame: Option<Frame>,
    pub timestamp: u64,
}

/// The focus event source.
#[derive(Clone, Copy, Debug, PartialEq, Eq, Structural)]
pub struct FocusSource {
    pub status: Subscription,
    /// Whether the user has been told that the permission is missing.
    pub reported: bool,
    /// When the permission was last looked at, in milliseconds.
    pub last_check: u64,
    /// How long to wait before looking at a missing permission again, in
    /// milliseconds.
    pub recheck_ms: u64,
    /// The sequence number of the next event.
    pub next_seq: u64,
}

/// A step of the source: the source after it, and what the host is to do.
#[derive(Clone, Copy, Debug, PartialEq, Eq, Structural)]
pub struct SourceStep {
    pub source: FocusSource,
    pub action: SourceAction,
}

/// The interval between two looks at a missing permission that is used where
/// the host configures none, in milliseconds.
pub const DEFAULT_RECHECK_MS: u64 = 5000;

impl SourceAction {
    /// Whether the action tells the user.
    pub open spec fn notifies(self) -> bool {
        self == SourceAction::Notify || self == SourceAction::UnsubscribeAndNotify
    }
}

impl FocusSource {
    /// The source after the permission was found granted or not at time
    /// `now`.
    ///
    /// A granted permission is subscribed to, once. A missing one turns
    /// detection off and releases a subscription that is held; the user is
    /// told the first time and never again.
    pub open spec fn permission_spec(self, granted: bool, now: u64) -> SourceStep {
        if granted {
            if self.status == Subscription::Subscribed {
                SourceStep { source: FocusSource { last_check: now, ..self }, action: SourceAction::Nothing }
            } else {
                SourceStep {
                    source: FocusSource { status: Subscription::Subscribed, last_check: now, ..self },
                    action: SourceAction::Subscribe,
                }
            }
        } else {
            SourceStep {
                source: FocusSource {
                    status: Subscription::Denied,
                    reported: true,
                    last_check: now,
                    ..self
                },
                action: if self.status == Subscription::Subscribed {
                    if self.reported {
                        SourceAction::Unsubscribe
                    } else {
                        SourceAction::UnsubscribeAndNotify
                    }
                } else {
                    if self.reported {
                        SourceAction::Nothing
                    } else {
                        SourceAction::Notify
                    }
                },
            }
        }
    }

    /// Whether the permission is to be looked at at time `now`: at once
    /// before the first look, never while subscribed, and while it is missing
    /// only when the recheck interval has passed since the last look.
    pub open spec fn check_due_spec(self, now: u64) -> bool {
        match self.status {
            Subscription::Idle => true,
            Subscription::Subscribed => false,
            Subscription::Denied => now - self.last_check >= self.recheck_ms,
        }
    }

    /// The source after shutdown.
    pub open spec fn shutdown_spec(self) -> SourceStep {
        SourceStep {
            source: FocusSource { status: Subscription::Idle, ..self },
            action: if self.status == Subscription::Subscribed {
                SourceAction::Unsubscribe
            } else {
                SourceAction::Nothing
            },
        }
    }

    /// The sequence number after `seq`; it stays at the highest one.
    pub open spec fn seq_after(seq: u64) -> u64 {
        if seq < u64::MAX {
            (seq + 1) as u64
        } else {
            seq
        }
    }

    /// What a notification gives: `PermissionDenied` while the source is not
    /// subscribed, `ElementUnavailable` where the element's role could not be
    /// had, else the event, which carries the next sequence number. A
    /// missing frame does not fail the event.
    pub open spec fn observe_spec(self, seen: Observation) -> Result<FocusEvent, Failure> {
        if self.status != Subscription::Subscribed {
            Err(Failure::PermissionDenied)
        } else {
            match seen.role {
                None => Err(Failure::ElementUnavailable),
                Some(role) => Ok(
                    FocusEvent {
                        role,
                        masked: seen.masked,
                        pid: seen.pid,
                        field: seen.field,
                        frame: seen.frame,
                        timestamp: seen.timestamp,
                        seq: self.next_seq,
                    },
                ),
            }
        }
    }

    /// A source that has not looked at the permission yet.
    pub fn new(recheck_ms: u64) -> (source: FocusSource)
        ensures
            source == (FocusSource {
                status: Subscription::Idle,
                reported: false,
                last_check: 0,
                recheck_ms,
                next_seq: 0,
            }),
    {
        FocusSource { status: Subscription::Idle, reported: false, last_check: 0, recheck_ms, next_seq: 0 }
    }

    /// Whether the host is to look at the permission now.
    #[verifier::when_used_as_spec(check_due_spec)]
    pub fn check_due(self, now: u64) -> (due: bool)
        ensures
            due == self.check_due_spec(now),
    {
        match self.status {
            Subscription::Idle => true,
            Subscription::Subscribed => false,
            Subscription::Denied => now >= self.last_check && now - self.last_check >= self.recheck_ms,
        }
    }

    /// Takes in what a look at the permission gave.
    pub fn on_permission(&mut self, granted: bool, now: u64) -> (action: SourceAction)
        ensures
            (SourceStep { source: *final(self), action }) == old(self).permission_spec(granted, now),
    {
        let subscribed = match self.status {
            Subscription::Subscribed => true,
            _ => false,
        };
        let reported = self.reported;
        self.last_check = now;
        if granted {
            if subscribed {
                SourceAction::Nothing
            } else {
                self.status = Subscription::Subscribed;
                SourceAction::Subscribe
            }
        } else {
            self.status = Subscription::Denied;
            self.reported = true;
            if subscribed {
                if reported {
                    SourceAction::Unsubscribe
                } else {
                    SourceAction::UnsubscribeAndNotify
                }
            } else {
                if reported {
                    SourceAction::Nothing
                } else {
                    SourceAction::Notify
                }
            }
        }
    }

    /// Ends the source's work: a subscription that is held is given up.
    pub fn shutdown(&mut self) -> (action: SourceAction)
        ensures
            (SourceStep { source: *final(self), action }) == old(self).shutdown_spec(),
    {
        let subscribed = match self.status {
            Subscription::Subscribed => true,
            _ => false,
        };
        self.status = Subscription::Idle;
        if subscribed {
            SourceAction::Unsubscribe
        } else {
            SourceAction::Nothing
        }
    }

    /// Turns what the native queries gave for one notification into a focus
    /// event or a failure.
    pub fn observe(&mut self, seen: Observation) -> (r: Result<FocusEvent, Failure>)
        ensures
            r == old(self).observe_spec(seen),
            r is Ok ==> *final(self) == (FocusSource {
                next_seq: Self::seq_after(old(self).next_seq),
                ..*old(self)
            }),
            r is Err ==> *final(self) == *old(self),
    {
        let subscribed = match self.status {
            Subscription::Subscribed => true,
            _ => false,
        };
        if !subscribed {
            return Err(Failure::PermissionDenied);
        }
        match seen.role {
            None => Err(Failure::ElementUnavailable),
            Some(role) => {
                let seq: u64 = self.next_seq;
                if seq < u64::MAX {
                    self.next_seq = seq + 1;
                }
                Ok(
                    FocusEvent {
                        role,
                        masked: seen.masked,
                        pid: seen.pid,
                        field: seen.field,
                        frame: seen.frame,
                        timestamp: seen.timestamp,
                        seq,
                    },
                )
            },
        }
    }
}

/// One look at the permission: what it gave, and when.
#[derive(Clone, Copy, Debug, PartialEq, Eq, Structural)]
pub struct Check {
    pub granted: bool,
    pub now: u64,
}

/// The source after the checks, taken in order.
pub open spec fn after_checks(source: FocusSource, checks: Seq<Check>) -> FocusSource
    decreases checks.len(),
{
    if checks.len() == 0 {
        source
    } else {
        after_checks(source, checks.drop_last()).permission_spec(
            checks.last().granted,
            checks.last().now,
        ).source
    }
}

/// How often the user is told over the checks, taken in order.
pub open spec fn notifications(source: FocusSource, checks: Seq<Check>) -> nat
    decreases checks.len(),
{
    if checks.len() == 0 {
        0
    } else {
        notifications(source, checks.drop_last()) + if after_checks(
            source,
            checks.drop_last(),
        ).permission_spec(checks.last().granted, checks.last().now).action.notifies() {
            1nat
        } else {
            0nat
        }
    }
}

/// However often the permission is looked at and whatever is found, the user
/// is told at most once; and once told, never again.
pub proof fn lemma_reported_once(source: FocusSource, checks: Seq<Check>)
    ensures
        notifications(source, checks) <= 1,
        source.reported ==> notifications(source, checks) == 0,
        notifications(source, checks) == 1 ==> after_checks(source, checks).reported,
        source.reported ==> after_checks(source, checks).reported,
    decreases checks.len(),
{
    if checks.len() > 0 {
        lemma_reported_once(source, checks.drop_last());
    }
}

/// While the permission is missing it is not looked at again before the
/// recheck interval has passed.
pub proof fn lemma_no_tight_retry(source: FocusSource, now: u64, later: u64)
    requires
        now <= later,
        later - now < source.recheck_ms,
    ensures
        !source.permission_spec(false, now).source.check_due_spec(later),
{
}

/// Below the highest sequence number, each event carries a higher sequence
/// number than the one before it.
pub proof fn lemma_seq_increases(source: FocusSource, first: Observation, second: Observation)
    requires
        source.observe_spec(first) is Ok,
        source.next_seq < u64::MAX,
    ensures
        ({
            let next = FocusSource { next_seq: FocusSource::seq_after(source.next_seq), ..source };
            next.observe_spec(second) matches Ok(e2) ==> source.observe_spec(first)->Ok_0.seq < e2.seq
        }),
{
}

} // verus!
