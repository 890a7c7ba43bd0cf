//! Points, sizes, rectangles and monitors in physical screen pixels.

use vstd::prelude::*;

verus! {

/// A position in global screen coordinates; `y` grows downward.
#[derive(Clone, Copy, Debug, PartialEq, Eq, Structural)]
pub struct Point {
    pub x: i32,
    pub y: i32,
}

/// The extent of a window.
#[derive(Clone, Copy, Debug, PartialEq, Eq, Structural)]
pub struct Size {
    pub width: u32,
    pub height: u32,
}

/// An axis-aligned rectangle given by its edges. It covers the pixels with
/// `left <= x < right` and `top <= y < bottom`, so it is empty unless
/// `left < right` and `top < bottom`.
#[derive(Clone, Copy, Debug, PartialEq, Eq, Structural)]
pub struct Rect {
    pub left: i32,
    pub top: i32,
    pub right: i32,
    pub bottom: i32,
}

/// One display: its full bounds and the part of them that windows may use.
#[derive(Clone, Copy, Debug, PartialEq, Eq, Structural)]
pub struct Monitor {
    pub id: u32,
    pub bounds: Rect,
    pub work_area: Rect,
}

/// The overlay's width assumed when the window manager cannot report its
/// size.
pub const DEFAULT_OVERLAY_WIDTH: u32 = 420;

/// The overlay's height assumed when the window manager cannot report its
/// size.
pub const DEFAULT_OVERLAY_HEIGHT: u32 = 480;

/// `v` limited to the range of `i32`.
pub open spec fn clamp_i32(v: int) -> int {
    if v < i32::MIN {
        i32::MIN as int
    } else if v > i32::MAX {
        i32::MAX as int
    } else {
        v
    }
}

/// Half of `d`, rounded toward zero.
pub open spec fn half_toward_zero(d: int) -> int {
    if d >= 0 {
        d / 2
    } else {
        -((-d) / 2)
    }
}

/// The coordinate `v` scaled by `permille` thousandths, rounded down.
pub open spec fn scale_coord(v: int, permille: int) -> int {
    (v * permille) / 1000
}

/// Scales one coordinate; `None` where the result leaves the coordinate
/// range.
pub fn scale(v: i32, permille: u32) -> (scaled: Option<i32>)
    ensures
        scaled == (if i32::MIN <= scale_coord(v as int, permille as int) <= i32::MAX {
            Some(scale_coord(v as int, permille as int) as i32)
        } else {
            None
        }),
{
    assert(-0x8000_0000 * 0xffff_ffff <= (v as int) * (permille as int) <= 0x7fff_ffff * 0xffff_ffff)
        by (nonlinear_arith)
        requires
            -0x8000_0000 <= v <= 0x7fff_ffff,
            0 <= permille <= 0xffff_ffff,
    ;
    let product: i64 = v as i64 * permille as i64;
    let quotient: i64 = if product >= 0 {
        product / 1000
    } else {
        -((-product + 999) / 1000)
    };
    if i32::MIN as i64 <= quotient && quotient <= i32::MAX as i64 {
        Some(quotient as i32)
    } else {
        None
    }
}

impl Rect {
    /// Whether the rectangle covers no pixel.
    pub open spec fn is_empty_spec(self) -> bool {
        self.left >= self.right || self.top >= self.bottom
    }

    /// Whether the pixel at `p` lies inside the rectangle.
    pub open spec fn contains_spec(self, p: Point) -> bool {
        self.left <= p.x < self.right && self.top <= p.y < self.bottom
    }

    /// Horizontal extent; zero when the edges are crossed.
    pub open spec fn width_spec(self) -> int {
        if self.right >= self.left {
            self.right - self.left
        } else {
            0
        }
    }

    /// Vertical extent; zero when the edges are crossed.
    pub open spec fn height_spec(self) -> int {
        if self.bottom >= self.top {
            self.bottom - self.top
        } else {
            0
        }
    }

    /// The rectangle moved by `(dx, dy)`, where every edge stays in range.
    pub open spec fn translate_spec(self, dx: int, dy: int) -> Option<Rect> {
        if i32::MIN <= self.left + dx <= i32::MAX && i32::MIN <= self.right + dx <= i32::MAX
            && i32::MIN <= self.top + dy <= i32::MAX && i32::MIN <= self.bottom + dy
            <= i32::MAX {
            Some(
                Rect {
                    left: (self.left + dx) as i32,
                    top: (self.top + dy) as i32,
                    right: (self.right + dx) as i32,
                    bottom: (self.bottom + dy) as i32,
                },
            )
        } else {
            None
        }
    }

    /// The rectangle with every edge scaled by `permille` thousandths, where
    /// every edge stays in range.
    pub open spec fn scale_spec(self, permille: u32) -> Option<Rect> {
        let left = scale_coord(self.left as int, permille as int);
        let top = scale_coord(self.top as int, permille as int);
        let right = scale_coord(self.right as int, permille as int);
        let bottom = scale_coord(self.bottom as int, permille as int);
        if i32::MIN <= left <= i32::MAX && i32::MIN <= top <= i32::MAX && i32::MIN <= right
            <= i32::MAX && i32::MIN <= bottom <= i32::MAX {
            Some(Rect { left: left as i32, top: top as i32, right: right as i32, bottom: bottom as i32 })
        } else {
            None
        }
    }

    /// The rectangle with its top-left corner at `(x, y)` and the given
    /// extent, or `None` where its right or bottom edge would leave the
    /// coordinate range.
    pub fn from_origin(x: i32, y: i32, width: u32, height: u32) -> (r: Option<Rect>)
        ensures
            r == (if x + width <= i32::MAX && y + height <= i32::MAX {
                Some(Rect { left: x, top: y, right: (x + width) as i32, bottom: (y + height) as i32 })
            } else {
                None
            }),
    {
        let right: i64 = x as i64 + width as i64;
        let bottom: i64 = y as i64 + height as i64;
        if right <= i32::MAX as i64 && bottom <= i32::MAX as i64 {
            Some(Rect { left: x, top: y, right: right as i32, bottom: bottom as i32 })
        } else {
            None
        }
    }

    #[verifier::when_used_as_spec(is_empty_spec)]
    pub fn is_empty(self) -> (empty: bool)
        ensures
            empty == self.is_empty_spec(),
    {
        self.left >= self.right || self.top >= self.bottom
    }

    #[verifier::when_used_as_spec(contains_spec)]
    pub fn contains(self, p: Point) -> (inside: bool)
        ensures
            inside == self.contains_spec(p),
    {
        self.left <= p.x && p.x < self.right && self.top <= p.y && p.y < self.bottom
    }

    /// Scales every edge by `permille` thousandths; `None` where an edge
    /// would leave the coordinate range.
    pub fn scale(self, permille: u32) -> (scaled: Option<Rect>)
        ensures
            scaled == self.scale_spec(permille),
    {
        let left = self::scale(self.left, permille);
        let top = self::scale(self.top, permille);
        let right = self::scale(self.right, permille);
        let bottom = self::scale(self.bottom, permille);
        match (left, top, right, bottom) {
            (Some(left), Some(top), Some(right), Some(bottom)) => Some(Rect { left, top, right, bottom }),
            _ => None,
        }
    }

    /// Moves the rectangle by `(dx, dy)`; `None` where an edge would leave
    /// the coordinate range.
    pub fn translate(self, dx: i32, dy: i32) -> (moved: Option<Rect>)
        ensures
            moved == self.translate_spec(dx as int, dy as int),
    {
        let left: i64 = self.left as i64 + dx as i64;
        let right: i64 = self.right as i64 + dx as i64;
        let top: i64 = self.top as i64 + dy as i64;
        let bottom: i64 = self.bottom as i64 + dy as i64;
        let lo: i64 = i32::MIN as i64;
        let hi: i64 = i32::MAX as i64;
        if lo <= left && left <= hi && lo <= right && right <= hi && lo <= top && top <= hi && lo
            <= bottom && bottom <= hi {
            Some(Rect { left: left as i32, top: top as i32, right: right as i32, bottom: bottom as i32 })
        } else {
            None
        }
    }
}

/// Where a window of extent `window` goes when it is centered on a monitor
/// with bounds `screen`: horizontally in the middle, vertically with its top
/// edge a quarter of the way down.
pub open spec fn center_position_spec(screen: Rect, window: Size) -> Point {
    Point {
        x: clamp_i32(screen.left + half_toward_zero(screen.width_spec() - window.width)) as i32,
        y: (screen.top + screen.height_spec() / 4) as i32,
    }
}

/// Computes the centered position of a window on a monitor.
pub fn center_position(screen: Rect, window: Size) -> (p: Point)
    ensures
        p == center_position_spec(screen, window),
{
    let width: i64 = if screen.right >= screen.left {
        screen.right as i64 - screen.left as i64
    } else {
        0
    };
    let height: i64 = if screen.bottom >= screen.top {
        screen.bottom as i64 - screen.top as i64
    } else {
        0
    };
    let slack: i64 = width - window.width as i64;
    let half: i64 = if slack >= 0 {
        slack / 2
    } else {
        -((-slack) / 2)
    };
    let x: i64 = screen.left as i64 + half;
    let x: i64 = if x < i32::MIN as i64 {
        i32::MIN as i64
    } else if x > i32::MAX as i64 {
        i32::MAX as i64
    } else {
        x
    };
    let y: i64 = screen.top as i64 + height / 4;
    Point { x: x as i32, y: y as i32 }
}

/// The first monitor at or after index `from` whose bounds contain `p`.
pub open spec fn monitor_at_from(monitors: Seq<Monitor>, p: Point, from: int) -> Option<Monitor>
    decreases monitors.len() - from,
{
    if from < 0 || from >= monitors.len() {
        None
    } else if monitors[from].bounds.contains_spec(p) {
        Some(monitors[from])
    } else {
        monitor_at_from(monitors, p, from + 1)
    }
}

/// The first monitor, in list order, whose bounds contain `p`.
pub open spec fn monitor_at_spec(monitors: Seq<Monitor>, p: Point) -> Option<Monitor> {
    monitor_at_from(monitors, p, 0)
}

/// The first monitor at or after index `from` that carries the id `id`.
pub open spec fn monitor_by_id_from(monitors: Seq<Monitor>, id: u32, from: int) -> Option<Monitor>
    decreases monitors.len() - from,
{
    if from < 0 || from >= monitors.len() {
        None
    } else if monitors[from].id == id {
        Some(monitors[from])
    } else {
        monitor_by_id_from(monitors, id, from + 1)
    }
}

/// The first monitor, in list order, that carries the id `id`.
pub open spec fn monitor_by_id_spec(monitors: Seq<Monitor>, id: u32) -> Option<Monitor> {
    monitor_by_id_from(monitors, id, 0)
}

/// Finds the monitor that shows the pixel at `p`.
pub fn monitor_at(monitors: &Vec<Monitor>, p: Point) -> (found: Option<Monitor>)
    ensures
        found == monitor_at_spec(monitors@, p),
{
    let mut i: usize = 0;
    while i < monitors.len()
        invariant
            i <= monitors.len(),
            monitor_at_from(monitors@, p, 0) == monitor_at_from(monitors@, p, i as int),
        decreases monitors.len() - i,
    {
        let m = monitors[i];
        if m.bounds.contains(p) {
            return Some(m);
        }
        i += 1;
    }
    None
}

/// Finds a monitor by its id.
pub fn monitor_by_id(monitors: &Vec<Monitor>, id: u32) -> (found: Option<Monitor>)
    ensures
        found == monitor_by_id_spec(monitors@, id),
{
    let mut i: usize = 0;
    while i < monitors.len()
        invariant
            i <= monitors.len(),
            monitor_by_id_from(monitors@, id, 0) == monitor_by_id_from(monitors@, id, i as int),
        decreases monitors.len() - i,
    {
        let m = monitors[i];
        if m.id == id {
            return Some(m);
        }
        i += 1;
    }
    None
}

/// What `monitor_at_spec` finds is a monitor of the list that contains the
/// point, and no monitor before it does; it finds none only where no monitor
/// contains the point.
pub proof fn lemma_monitor_at(monitors: Seq<Monitor>, p: Point, from: int)
    requires
        0 <= from,
    ensures
        match monitor_at_from(monitors, p, from) {
            Some(m) => exists|i: int|
                from <= i < monitors.len() && monitors[i] == m && m.bounds.contains_spec(p)
                    && forall|j: int| from <= j < i ==> !(#[trigger] monitors[j]).bounds.contains_spec(p),
            None => forall|j: int|
                from <= j < monitors.len() ==> !(#[trigger] monitors[j]).bounds.contains_spec(p),
        },
    decreases monitors.len() - from,
{
    if from >= monitors.len() {
    } else if monitors[from].bounds.contains_spec(p) {
        assert(from <= from < monitors.len() && monitors[from] == monitors[from]);
    } else {
        lemma_monitor_at(monitors, p, from + 1);
        match monitor_at_from(monitors, p, from + 1) {
            Some(m) => {
                let i = choose|i: int|
                    from + 1 <= i < monitors.len() && monitors[i] == m && m.bounds.contains_spec(p)
                        && forall|j: int|
                        from + 1 <= j < i ==> !(#[trigger] monitors[j]).bounds.contains_spec(p);
                assert(from <= i < monitors.len() && monitors[i] == m && m.bounds.contains_spec(p)
                    && forall|j: int|
                    from <= j < i ==> !(#[trigger] monitors[j]).bounds.contains_spec(p));
            },
            None => {},
        }
    }
}

} // verus!
