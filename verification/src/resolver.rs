//! Resolves where on screen a focused field is, and how far that answer can
//! be trusted.

use vstd::prelude::*;
use crate::event::{Failure, FocusEvent, Frame};
use crate::geometry::{lemma_monitor_at, monitor_at, monitor_at_spec, Monitor, Point, Rect};

verus! {

/// How far a candidate's frame can be trusted.
#[derive(Clone, Copy, Debug, PartialEq, Eq, Structural)]
pub enum Confidence {
    /// The frame was queried for this very event.
    Exact,
    /// The frame comes from an earlier layout pass.
    Approximate,
    /// No frame could be had: the field exists, its place is not known.
    Unknown,
}

/// A field that the overlay may be shown for.
#[derive(Clone, Copy, Debug, PartialEq, Eq, Structural)]
pub struct Candidate {
    /// The field's frame in global screen coordinates; of no meaning where
    /// the confidence is `Unknown`.
    pub frame: Rect,
    /// The monitor that the overlay is to appear on.
    pub monitor: u32,
    pub confidence: Confidence,
    /// When the candidate was resolved, in milliseconds.
    pub resolved_at: u64,
}

/// The frame in global screen coordinates, where it has one: scaled to
/// screen pixels, then moved to where its space begins.
pub open spec fn to_global_spec(frame: Frame) -> Option<Rect> {
    match frame.rect.scale_spec(frame.scale_permille) {
        None => None,
        Some(scaled) => scaled.translate_spec(frame.origin.x as int, frame.origin.y as int),
    }
}

/// The confidence that a resolved frame earns.
pub open spec fn confidence_of(frame: Frame) -> Confidence {
    if frame.fresh {
        Confidence::Exact
    } else {
        Confidence::Approximate
    }
}

/// The candidate for a reported frame. There is none where no frame was
/// reported, where it does not fit the coordinate range once made global,
/// where it is empty, or where no monitor shows its top-left corner.
pub open spec fn resolve_frame_spec(frame: Option<Frame>, monitors: Seq<Monitor>, now: u64) -> Result<
    Candidate,
    Failure,
> {
    match frame {
        None => Err(Failure::FrameUnavailable),
        Some(f) => match to_global_spec(f) {
            None => Err(Failure::FrameUnavailable),
            Some(rect) => if rect.is_empty_spec() {
                Err(Failure::FrameUnavailable)
            } else {
                match monitor_at_spec(monitors, Point { x: rect.left, y: rect.top }) {
                    None => Err(Failure::FrameUnavailable),
                    Some(m) => Ok(
                        Candidate {
                            frame: rect,
                            monitor: m.id,
                            confidence: confidence_of(f),
                            resolved_at: now,
                        },
                    ),
                }
            },
        },
    }
}

/// The candidate that stands for a field whose frame is not known.
pub open spec fn unknown_candidate(monitor: u32, now: u64) -> Candidate {
    Candidate {
        frame: Rect { left: 0, top: 0, right: 0, bottom: 0 },
        monitor,
        confidence: Confidence::Unknown,
        resolved_at: now,
    }
}

/// The candidate for an event: the resolved one, or the unknown one on the
/// monitor `fallback` where resolution fails.
pub open spec fn resolve_spec(event: FocusEvent, monitors: Seq<Monitor>, fallback: u32, now: u64) -> Candidate {
    match resolve_frame_spec(event.frame, monitors, now) {
        Ok(c) => c,
        Err(_) => unknown_candidate(fallback, now),
    }
}

/// Converts a reported frame to global screen coordinates.
pub fn to_global(frame: &Frame) -> (rect: Option<Rect>)
    ensures
        rect == to_global_spec(*frame),
{
    match frame.rect.scale(frame.scale_permille) {
        None => None,
        Some(scaled) => scaled.translate(frame.origin.x, frame.origin.y),
    }
}

/// Resolves a reported frame into a candidate, or fails with
/// `FrameUnavailable`.
pub fn resolve_frame(frame: &Option<Frame>, monitors: &Vec<Monitor>, now: u64) -> (r: Result<
    Candidate,
    Failure,
>)
    ensures
        r == resolve_frame_spec(*frame, monitors@, now),
        r is Err ==> r == Err::<Candidate, Failure>(Failure::FrameUnavailable),
        r matches Ok(c) ==> c.confidence != Confidence::Unknown && !c.frame.is_empty_spec(),
{
    match frame {
        None => Err(Failure::FrameUnavailable),
        Some(f) => match to_global(f) {
            None => Err(Failure::FrameUnavailable),
            Some(rect) => {
                if rect.is_empty() {
                    return Err(Failure::FrameUnavailable);
                }
                match monitor_at(monitors, Point { x: rect.left, y: rect.top }) {
                    None => Err(Failure::FrameUnavailable),
                    Some(m) => {
                        let confidence = if f.fresh {
                            Confidence::Exact
                        } else {
                            Confidence::Approximate
                        };
                        Ok(Candidate { frame: rect, monitor: m.id, confidence, resolved_at: now })
                    },
                }
            },
        },
    }
}

/// Resolves the candidate for an event. A frame that cannot be resolved does
/// not stop the event: it goes on with unknown confidence, on the monitor
/// `fallback`.
pub fn resolve(event: &FocusEvent, monitors: &Vec<Monitor>, fallback: u32, now: u64) -> (c: Candidate)
    ensures
        c == resolve_spec(*event, monitors@, fallback, now),
        c.resolved_at == now,
        c.confidence == Confidence::Unknown <==> resolve_frame_spec(event.frame, monitors@, now) is Err,
{
    match resolve_frame(&event.frame, monitors, now) {
        Ok(c) => c,
        Err(_) => Candidate {
            frame: Rect { left: 0, top: 0, right: 0, bottom: 0 },
            monitor: fallback,
            confidence: Confidence::Unknown,
            resolved_at: now,
        },
    }
}

/// A frame that is reported in screen pixels and in global coordinates is
/// its own global frame.
pub proof fn lemma_global_frame_unchanged(frame: Frame)
    requires
        frame.scale_permille == 1000,
        frame.origin == (Point { x: 0, y: 0 }),
    ensures
        to_global_spec(frame) == Some(frame.rect),
{
}

/// A candidate is of unknown confidence exactly where its frame could not be
/// resolved; one that was resolved lies on a monitor of the list that shows
/// its top-left corner.
pub proof fn lemma_resolved_on_monitor(event: FocusEvent, monitors: Seq<Monitor>, fallback: u32, now: u64)
    ensures
        resolve_spec(event, monitors, fallback, now).confidence == Confidence::Unknown <==> resolve_frame_spec(
            event.frame,
            monitors,
            now,
        ) is Err,
        resolve_spec(event, monitors, fallback, now).confidence != Confidence::Unknown ==> exists|i: int|
            0 <= i < monitors.len() && (#[trigger] monitors[i]).id == resolve_spec(
                event,
                monitors,
                fallback,
                now,
            ).monitor && monitors[i].bounds.contains_spec(
                Point {
                    x: resolve_spec(event, monitors, fallback, now).frame.left,
                    y: resolve_spec(event, monitors, fallback, now).frame.top,
                },
            ),
{
    if resolve_frame_spec(event.frame, monitors, now) is Ok {
        let c = resolve_spec(event, monitors, fallback, now);
        lemma_monitor_at(monitors, Point { x: c.frame.left, y: c.frame.top }, 0);
    }
}

} // verus!
