//! Focus events as the focus event source hands them on, and the failures
//! that can occur on the way to a placement.

use vstd::prelude::*;
use crate::geometry::{Point, Rect};

verus! {

/// The role that the accessibility service reports for a focused element.
#[derive(Clone, Copy, Debug, PartialEq, Eq, Structural)]
pub enum Role {
    /// An input that masks what is typed into it.
    SecureText,
    /// An ordinary text input.
    Text,
    /// Anything else, or no role at all.
    Other,
}

/// The frame of a focused element as the accessibility service gave it.
#[derive(Clone, Copy, Debug, PartialEq, Eq, Structural)]
pub struct Frame {
    /// The element's rectangle, in the units of the space that it was
    /// measured in and relative to that space's origin.
    pub rect: Rect,
    /// How many thousandths of a screen pixel one unit of that space is:
    /// 1000 for a rectangle in screen pixels, 2000 on a display that shows
    /// each unit as two pixels.
    pub scale_permille: u32,
    /// Where that space's origin lies in global screen coordinates; `(0, 0)`
    /// for a rectangle that is already global.
    pub origin: Point,
    /// Whether the rectangle comes from a query made for this event, rather
    /// than from an earlier layout pass.
    pub fresh: bool,
}

/// One change of focus, somewhere on the system.
#[derive(Clone, Copy, Debug, PartialEq, Eq, Structural)]
pub struct FocusEvent {
    pub role: Role,
    /// Whether the element's attributes mark it as masking its input,
    /// whatever its role says.
    pub masked: bool,
    /// The process that owns the element.
    pub pid: u32,
    /// An identifier of the element, equal for two events on the same field.
    pub field: u64,
    /// The element's frame, where the service could give one.
    pub frame: Option<Frame>,
    /// When the focus changed, in milliseconds.
    pub timestamp: u64,
    /// The event's place in the order in which the system produced them.
    pub seq: u64,
}

/// What can go wrong between a focus notification and a placement.
#[derive(Clone, Copy, Debug, PartialEq, Eq, Structural)]
pub enum Failure {
    /// The accessibility permission is not granted.
    PermissionDenied,
    /// The element vanished between the notification and the query.
    ElementUnavailable,
    /// The element's geometry could not be resolved.
    FrameUnavailable,
    /// The focus is the assistant's own, or is in a denylisted application.
    AmbiguousApplication,
}

/// What is done about a failure.
#[derive(Clone, Copy, Debug, PartialEq, Eq, Structural)]
pub enum Disposition {
    /// The user is told, once.
    Notify,
    /// The event is dropped and nothing changes.
    Drop,
    /// The event goes on without a position and is shown centered.
    Degrade,
}

impl Failure {
    /// How each failure is handled: only a missing permission reaches the
    /// user, a missing frame degrades to centered placement, and the rest is
    /// dropped.
    pub open spec fn disposition_spec(self) -> Disposition {
        match self {
            Failure::PermissionDenied => Disposition::Notify,
            Failure::ElementUnavailable => Disposition::Drop,
            Failure::FrameUnavailable => Disposition::Degrade,
            Failure::AmbiguousApplication => Disposition::Drop,
        }
    }

    #[verifier::when_used_as_spec(disposition_spec)]
    pub fn disposition(self) -> (d: Disposition)
        ensures
            d == self.disposition_spec(),
    {
        match self {
            Failure::PermissionDenied => Disposition::Notify,
            Failure::ElementUnavailable => Disposition::Drop,
            Failure::FrameUnavailable => Disposition::Degrade,
            Failure::AmbiguousApplication => Disposition::Drop,
        }
    }
}

} // verus!
