//! Chooses where the overlay goes: anchored next to the focused field, or
//! centered on a monitor where no usable position is known.

use vstd::prelude::*;
use crate::geometry::{monitor_by_id, monitor_by_id_spec, Monitor, Point, Rect, Size};
use crate::resolver::{Candidate, Confidence};

verus! {

/// The tunable constants of placement and of the overlay's state machine.
#[derive(Clone, Copy, Debug, PartialEq, Eq, Structural)]
pub struct Policy {
    /// The gap, in pixels, kept between the overlay and the field, and
    /// between the overlay and the edges of the work area.
    pub margin: u32,
    /// How long after an accepted event a further event on the same field
    /// is coalesced with it, in milliseconds.
    pub debounce_ms: u64,
    /// How old a resolved position may be when it is applied, in
    /// milliseconds.
    pub staleness_ms: u64,
    /// How long after an explicit hide focus changes do not bring the
    /// overlay back, in milliseconds.
    pub suppress_ms: u64,
}

impl Policy {
    /// The policy used where the host configures nothing.
    pub open spec fn default_spec() -> Policy {
        Policy { margin: 8, debounce_ms: 150, staleness_ms: 300, suppress_ms: 0 }
    }
}

impl Default for Policy {
    fn default() -> (p: Policy)
        ensures
            p == Policy::default_spec(),
    {
        Policy { margin: 8, debounce_ms: 150, staleness_ms: 300, suppress_ms: 0 }
    }
}

/// A placement command: where the overlay is to be.
#[derive(Clone, Copy, Debug, PartialEq, Eq, Structural)]
pub enum Placement {
    /// With its top-left corner at `point`, on the monitor `monitor`.
    AnchorNear { point: Point, monitor: u32 },
    /// Centered on the monitor `monitor`.
    Center { monitor: u32 },
}

/// `v` limited to the range from `lo` to `hi`.
pub open spec fn clamp(v: int, lo: int, hi: int) -> int {
    if v < lo {
        lo
    } else if v > hi {
        hi
    } else {
        v
    }
}

/// Whether the overlay, with the margin around it, fits the work area.
pub open spec fn fits(work: Rect, overlay: Size, margin: u32) -> bool {
    &&& work.left + margin + overlay.width + margin <= work.right
    &&& work.top + margin + overlay.height + margin <= work.bottom
}

/// Whether the overlay with its top-left corner at `(x, y)` shares a pixel
/// with the field.
pub open spec fn covers_field(x: int, y: int, overlay: Size, field: Rect) -> bool {
    &&& overlay.width > 0
    &&& overlay.height > 0
    &&& !field.is_empty_spec()
    &&& x < field.right
    &&& field.left < x + overlay.width
    &&& y < field.bottom
    &&& field.top < y + overlay.height
}

/// The overlay's left edge: the field's left edge, kept inside the work area.
pub open spec fn anchor_x(field: Rect, work: Rect, overlay: Size, margin: u32) -> int {
    clamp(field.left as int, work.left + margin, work.right - margin - overlay.width)
}

/// The overlay's top edge when it goes below the field.
pub open spec fn anchor_y_below(field: Rect, work: Rect, overlay: Size, margin: u32) -> int {
    clamp(field.bottom + margin, work.top + margin, work.bottom - margin - overlay.height)
}

/// The overlay's top edge when it goes above the field.
pub open spec fn anchor_y_above(field: Rect, work: Rect, overlay: Size, margin: u32) -> int {
    clamp(field.top - margin - overlay.height, work.top + margin, work.bottom - margin - overlay.height)
}

/// The anchored position for a field, if the overlay fits the work area.
///
/// The overlay goes below the field, left edges aligned, the margin between
/// them; it is moved as little as is needed to lie inside the work area with
/// the margin to each edge. Where that would put it over the field, it goes
/// above the field instead.
pub open spec fn anchor_spec(field: Rect, work: Rect, overlay: Size, margin: u32) -> Option<Point> {
    if !fits(work, overlay, margin) {
        None
    } else {
        let x = anchor_x(field, work, overlay, margin);
        let below = anchor_y_below(field, work, overlay, margin);
        let y = if covers_field(x, below, overlay, field) {
            anchor_y_above(field, work, overlay, margin)
        } else {
            below
        };
        Some(Point { x: x as i32, y: y as i32 })
    }
}

/// The placement for a candidate, or for none.
///
/// Without a candidate the overlay is centered on the monitor `current`. A
/// candidate of unknown confidence is centered on its monitor, and so is one
/// whose monitor is not in the list or has no room for the overlay.
pub open spec fn place_spec(
    candidate: Option<Candidate>,
    monitors: Seq<Monitor>,
    current: u32,
    overlay: Size,
    margin: u32,
) -> Placement {
    match candidate {
        None => Placement::Center { monitor: current },
        Some(c) => if c.confidence == Confidence::Unknown {
            Placement::Center { monitor: c.monitor }
        } else {
            match monitor_by_id_spec(monitors, c.monitor) {
                None => Placement::Center { monitor: c.monitor },
                Some(m) => match anchor_spec(c.frame, m.work_area, overlay, margin) {
                    None => Placement::Center { monitor: c.monitor },
                    Some(point) => Placement::AnchorNear { point, monitor: c.monitor },
                },
            }
        },
    }
}

fn clamp_i64(v: i64, lo: i64, hi: i64) -> (r: i64)
    ensures
        r == clamp(v as int, lo as int, hi as int),
{
    if v < lo {
        lo
    } else if v > hi {
        hi
    } else {
        v
    }
}

/// Computes the anchored position of the overlay for a field.
pub fn anchor(field: Rect, work: Rect, overlay: Size, margin: u32) -> (p: Option<Point>)
    ensures
        p == anchor_spec(field, work, overlay, margin),
{
    let lo_x: i64 = work.left as i64 + margin as i64;
    let hi_x: i64 = work.right as i64 - margin as i64 - overlay.width as i64;
    let lo_y: i64 = work.top as i64 + margin as i64;
    let hi_y: i64 = work.bottom as i64 - margin as i64 - overlay.height as i64;
    if lo_x > hi_x || lo_y > hi_y {
        return None;
    }
    let x: i64 = clamp_i64(field.left as i64, lo_x, hi_x);
    let below: i64 = clamp_i64(field.bottom as i64 + margin as i64, lo_y, hi_y);
    let covered = overlay.width > 0 && overlay.height > 0 && !field.is_empty() && x
        < field.right as i64 && (field.left as i64) < x + overlay.width as i64 && below
        < field.bottom as i64 && (field.top as i64) < below + overlay.height as i64;
    let y: i64 = if covered {
        clamp_i64(field.top as i64 - margin as i64 - overlay.height as i64, lo_y, hi_y)
    } else {
        below
    };
    Some(Point { x: x as i32, y: y as i32 })
}

/// Computes the placement for a candidate, or for the explicit absence of
/// one, as the hotkey and the tray give it.
pub fn place(
    candidate: Option<Candidate>,
    monitors: &Vec<Monitor>,
    current: u32,
    overlay: Size,
    margin: u32,
) -> (placement: Placement)
    ensures
        placement == place_spec(candidate, monitors@, current, overlay, margin),
        candidate matches Some(c) ==> (c.confidence == Confidence::Unknown ==> placement
            == (Placement::Center { monitor: c.monitor })),
{
    match candidate {
        None => Placement::Center { monitor: current },
        Some(c) => {
            let known = match c.confidence {
                Confidence::Unknown => false,
                _ => true,
            };
            if !known {
                return Placement::Center { monitor: c.monitor };
            }
            match monitor_by_id(monitors, c.monitor) {
                None => Placement::Center { monitor: c.monitor },
                Some(m) => match anchor(c.frame, m.work_area, overlay, margin) {
                    None => Placement::Center { monitor: c.monitor },
                    Some(point) => Placement::AnchorNear { point, monitor: c.monitor },
                },
            }
        },
    }
}

/// The field and the time of an event that the engine accepted as a new
/// trigger.
#[derive(Clone, Copy, Debug, PartialEq, Eq, Structural)]
pub struct Accepted {
    pub field: u64,
    pub at: u64,
}

/// What the engine hands to the overlay's state machine for one focus event.
#[derive(Clone, Copy, Debug, PartialEq, Eq, Structural)]
pub struct Proposal {
    pub placement: Placement,
    /// Whether the event was coalesced with the accepted event before it: it
    /// may refine the position of a visible overlay, and does not show a
    /// hidden one.
    pub coalesced: bool,
    /// When the position was resolved, in milliseconds.
    pub resolved_at: u64,
    /// The sequence number of the event that the proposal is for.
    pub seq: u64,
}

/// Whether the times `a` and `b` lie no more than `window` apart.
pub open spec fn within(a: u64, b: u64, window: u64) -> bool {
    a - b <= window && b - a <= window
}

/// The placement engine: placement with a memory of the last accepted event,
/// by which rapid repeats on one field are coalesced.
#[derive(Clone, Copy, Debug, PartialEq, Eq, Structural)]
pub struct PlacementEngine {
    pub policy: Policy,
    pub last_accepted: Option<Accepted>,
}

impl PlacementEngine {
    /// Whether an event on `field` at `timestamp` is coalesced: it is on the
    /// field of the last accepted event and within the debounce window of it.
    pub open spec fn coalesces_spec(self, field: u64, timestamp: u64) -> bool {
        self.last_accepted matches Some(a) && a.field == field && within(
            timestamp,
            a.at,
            self.policy.debounce_ms,
        )
    }

    /// The engine after an event on `field` at `timestamp`: a coalesced event
    /// leaves it as it is, any other becomes the last accepted event.
    pub open spec fn record_spec(self, field: u64, timestamp: u64) -> PlacementEngine {
        if self.coalesces_spec(field, timestamp) {
            self
        } else {
            PlacementEngine { policy: self.policy, last_accepted: Some(Accepted { field, at: timestamp }) }
        }
    }

    /// The proposal for a candidate on `field`, from an event with the given
    /// time and sequence number.
    pub open spec fn propose_spec(
        self,
        candidate: Candidate,
        field: u64,
        timestamp: u64,
        seq: u64,
        monitors: Seq<Monitor>,
        overlay: Size,
    ) -> Proposal {
        Proposal {
            placement: place_spec(Some(candidate), monitors, candidate.monitor, overlay, self.policy.margin),
            coalesced: self.coalesces_spec(field, timestamp),
            resolved_at: candidate.resolved_at,
            seq,
        }
    }

    /// An engine that has accepted no event yet.
    pub fn new(policy: Policy) -> (engine: PlacementEngine)
        ensures
            engine == (PlacementEngine { policy, last_accepted: None }),
    {
        PlacementEngine { policy, last_accepted: None }
    }

    /// Records an event on `field` at `timestamp` and says whether it is
    /// coalesced with the last accepted one.
    pub fn record(&mut self, field: u64, timestamp: u64) -> (coalesced: bool)
        ensures
            coalesced == old(self).coalesces_spec(field, timestamp),
            *final(self) == old(self).record_spec(field, timestamp),
    {
        let coalesced = match self.last_accepted {
            None => false,
            Some(a) => {
                let apart: u64 = if timestamp >= a.at {
                    timestamp - a.at
                } else {
                    a.at - timestamp
                };
                a.field == field && apart <= self.policy.debounce_ms
            },
        };
        if !coalesced {
            self.last_accepted = Some(Accepted { field, at: timestamp });
        }
        coalesced
    }

    /// Places a candidate and records its event.
    pub fn propose(
        &mut self,
        candidate: Candidate,
        field: u64,
        timestamp: u64,
        seq: u64,
        monitors: &Vec<Monitor>,
        overlay: Size,
    ) -> (proposal: Proposal)
        ensures
            proposal == old(self).propose_spec(candidate, field, timestamp, seq, monitors@, overlay),
            *final(self) == old(self).record_spec(field, timestamp),
    {
        let placement = place(Some(candidate), monitors, candidate.monitor, overlay, self.policy.margin);
        let coalesced = self.record(field, timestamp);
        Proposal { placement, coalesced, resolved_at: candidate.resolved_at, seq }
    }
}

/// Once an event on a field is accepted, every event on that field within the
/// debounce window of it is coalesced, and leaves the engine as it is: so is
/// the next one, and the one after.
pub proof fn lemma_repeat_is_coalesced(engine: PlacementEngine, field: u64, accepted_at: u64, timestamp: u64)
    requires
        !engine.coalesces_spec(field, accepted_at),
        within(timestamp, accepted_at, engine.policy.debounce_ms),
    ensures
        engine.record_spec(field, accepted_at).coalesces_spec(field, timestamp),
        engine.record_spec(field, accepted_at).record_spec(field, timestamp) == engine.record_spec(
            field,
            accepted_at,
        ),
{
}

/// An event on another field than the last accepted one is never coalesced,
/// however soon it comes.
pub proof fn lemma_other_field_is_accepted(engine: PlacementEngine, field: u64, timestamp: u64)
    requires
        engine.last_accepted matches Some(a) && a.field != field,
    ensures
        !engine.coalesces_spec(field, timestamp),
        engine.record_spec(field, timestamp).last_accepted == Some(Accepted { field, at: timestamp }),
{
}

/// A candidate of unknown confidence is centered, never anchored, whatever
/// the monitors and the overlay's size.
pub proof fn lemma_unknown_is_centered(
    candidate: Candidate,
    monitors: Seq<Monitor>,
    current: u32,
    overlay: Size,
    margin: u32,
)
    requires
        candidate.confidence == Confidence::Unknown,
    ensures
        place_spec(Some(candidate), monitors, current, overlay, margin) == (Placement::Center {
            monitor: candidate.monitor,
        }),
        !(place_spec(Some(candidate), monitors, current, overlay, margin) is AnchorNear),
{
}

/// An anchored overlay lies inside the work area, the margin away from each
/// of its edges.
pub proof fn lemma_anchor_inside_work_area(field: Rect, work: Rect, overlay: Size, margin: u32)
    requires
        anchor_spec(field, work, overlay, margin) is Some,
    ensures
        ({
            let p = anchor_spec(field, work, overlay, margin)->Some_0;
            &&& work.left + margin <= p.x
            &&& p.x + overlay.width <= work.right - margin
            &&& work.top + margin <= p.y
            &&& p.y + overlay.height <= work.bottom - margin
        }),
{
}

/// Where the overlay, left-aligned with the field, would reach past the
/// right edge of the work area, or closer to it than the margin, its right
/// edge is put the margin short of that edge: it never reaches past it.
pub proof fn lemma_anchor_clamps_right(field: Rect, work: Rect, overlay: Size, margin: u32)
    requires
        anchor_spec(field, work, overlay, margin) is Some,
        field.left + overlay.width >= work.right - margin,
    ensures
        anchor_spec(field, work, overlay, margin)->Some_0.x + overlay.width == work.right - margin,
        anchor_spec(field, work, overlay, margin)->Some_0.x + overlay.width <= work.right,
{
}

/// Where the field's left edge lies left of the work area, or closer to its
/// left edge than the margin, the overlay's left edge is put the margin
/// inside that edge.
pub proof fn lemma_anchor_clamps_left(field: Rect, work: Rect, overlay: Size, margin: u32)
    requires
        anchor_spec(field, work, overlay, margin) is Some,
        field.left <= work.left + margin,
    ensures
        anchor_spec(field, work, overlay, margin)->Some_0.x == work.left + margin,
{
}

/// Where there is room for the overlay below the field, it goes there
/// unmoved in height, and it does not cover the field.
pub proof fn lemma_anchor_below_when_room(field: Rect, work: Rect, overlay: Size, margin: u32)
    requires
        fits(work, overlay, margin),
        work.top + margin <= field.bottom + margin,
        field.bottom + margin + overlay.height <= work.bottom - margin,
    ensures
        anchor_spec(field, work, overlay, margin) is Some,
        anchor_spec(field, work, overlay, margin)->Some_0.y == field.bottom + margin,
        !covers_field(
            anchor_spec(field, work, overlay, margin)->Some_0.x as int,
            anchor_spec(field, work, overlay, margin)->Some_0.y as int,
            overlay,
            field,
        ),
{
}

/// Where the overlay below the field would cover it but there is room above,
/// it goes above the field and does not cover it.
pub proof fn lemma_anchor_flips_above(field: Rect, work: Rect, overlay: Size, margin: u32)
    requires
        fits(work, overlay, margin),
        covers_field(
            anchor_x(field, work, overlay, margin),
            anchor_y_below(field, work, overlay, margin),
            overlay,
            field,
        ),
        work.top + margin <= field.top - margin - overlay.height,
    ensures
        anchor_spec(field, work, overlay, margin) is Some,
        anchor_spec(field, work, overlay, margin)->Some_0.y == field.top - margin - overlay.height,
        !covers_field(
            anchor_spec(field, work, overlay, margin)->Some_0.x as int,
            anchor_spec(field, work, overlay, margin)->Some_0.y as int,
            overlay,
            field,
        ),
{
}

} // verus!
