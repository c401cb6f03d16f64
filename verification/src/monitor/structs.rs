//! The monitor record, its rectangle, and the resolution of the neighbour in
//! a direction.

use crate::error::{MoveError, MoveErrorView};
use crate::geometry::{BoundingBox, Direction, Point, Rectangle};
use crate::scan::{first_from, first_index};
use vstd::prelude::*;

verus! {

/// A monitor as the contracts see it: its name and its rectangle, over the
/// unbounded integers.
pub struct MonitorView {
    pub name: Seq<char>,
    pub x: int,
    pub y: int,
    pub width: int,
    pub height: int,
}

/// Half of `n`, rounded towards zero.
pub open spec fn half(n: int) -> int {
    if n >= 0 {
        n / 2
    } else {
        -((-n) / 2)
    }
}

impl MonitorView {
    pub open spec fn left(self) -> int {
        self.x
    }

    pub open spec fn top(self) -> int {
        self.y
    }

    pub open spec fn right(self) -> int {
        self.x + self.width
    }

    pub open spec fn bottom(self) -> int {
        self.y + self.height
    }

    /// Whether the far edges, and so all four corners, fit in `i32`.
    pub open spec fn representable(self) -> bool {
        &&& i32::MIN <= self.x <= i32::MAX
        &&& i32::MIN <= self.y <= i32::MAX
        &&& i32::MIN <= self.right() <= i32::MAX
        &&& i32::MIN <= self.bottom() <= i32::MAX
    }

    /// Whether the point lies in the rectangle, the four edges included.
    pub open spec fn contains(self, px: int, py: int) -> bool {
        self.left() <= px <= self.right() && self.top() <= py <= self.bottom()
    }

    /// The midpoint of the rectangle, each coordinate rounded towards zero.
    pub open spec fn center(self) -> (int, int) {
        (half(self.left() + self.right()), half(self.top() + self.bottom()))
    }

    /// Whether `other` lies immediately on the side `d` of this monitor: the
    /// edge of `other` that faces this monitor has the coordinate of this
    /// monitor's edge on that side.
    pub open spec fn touched_by(self, other: MonitorView, d: Direction) -> bool {
        match d {
            Direction::Up => other.bottom() == self.top(),
            Direction::Down => other.top() == self.bottom(),
            Direction::Left => other.right() == self.left(),
            Direction::Right => other.left() == self.right(),
        }
    }

    /// Whether `other` is a candidate for the move from this monitor in the
    /// direction `d`: a monitor of another name that touches it on that side.
    pub open spec fn neighbor(self, other: MonitorView, d: Direction) -> bool {
        other.name != self.name && self.touched_by(other, d)
    }
}

/// The monitors of a layout as the contracts see them, in the layout's order.
pub open spec fn layout_of(monitors: Seq<Monitor>) -> Seq<MonitorView> {
    monitors.map_values(|m: Monitor| m@)
}

/// The index in `layout` of the monitor that a move from `current` in the
/// direction `d` leads to: the first candidate in the layout's order.
pub open spec fn first_neighbor(layout: Seq<MonitorView>, current: MonitorView, d: Direction)
    -> Option<int> {
    first_index(layout, |other: MonitorView| current.neighbor(other, d))
}

/// What the resolution of the neighbour answers: the first candidate, or,
/// where there is none, the error that goes with the wrap-around policy.
pub open spec fn next_of(
    layout: Seq<MonitorView>,
    current: MonitorView,
    d: Direction,
    wrap_around: bool,
) -> Result<MonitorView, MoveErrorView> {
    match first_neighbor(layout, current, d) {
        Some(i) => Ok(layout[i]),
        None => if wrap_around {
            Err(MoveErrorView::WrapNotAvailable)
        } else {
            Err(MoveErrorView::NoAdjacentMonitor(d))
        },
    }
}

/// A result of the resolution as the contracts see it.
pub open spec fn monitor_result_view(r: Result<Monitor, MoveError>) -> Result<
    MonitorView,
    MoveErrorView,
> {
    match r {
        Ok(m) => Ok(m@),
        Err(e) => Err(e@),
    }
}

/// The resolution of the monitor next to a given one.
pub trait CustomMonitor {
    /// The name and the rectangle by which the neighbours are resolved.
    spec fn model(&self) -> MonitorView;

    /// The monitor of `monitors` that lies immediately in `direction` of
    /// this one.
    ///
    /// The monitors of other names are taken in the layout's order, and the
    /// answer is the first whose facing edge coincides exactly with this
    /// monitor's edge on the side asked for. Where several qualify, the
    /// layout's order decides. Where none does, the answer is
    /// `NoAdjacentMonitor`, or, with `wrap_around`, `WrapNotAvailable`:
    /// wrapping has no geometry here and never selects a monitor.
    fn next(&self, direction: &Direction, monitors: &[Monitor], wrap_around: bool) -> (r: Result<
        Monitor,
        MoveError,
    >)
        ensures
            monitor_result_view(r) == next_of(
                layout_of(monitors@),
                self.model(),
                *direction,
                wrap_around,
            ),
    ;
}

/// A display: a name and an axis-aligned rectangle whose corners are points.
#[derive(Debug, PartialEq, Eq)]
pub struct Monitor {
    name: String,
    x: i32,
    y: i32,
    width_px: i32,
    height_px: i32,
}

impl View for Monitor {
    type V = MonitorView;

    closed spec fn view(&self) -> MonitorView {
        MonitorView {
            name: self.name@,
            x: self.x as int,
            y: self.y as int,
            width: self.width_px as int,
            height: self.height_px as int,
        }
    }
}

impl Clone for Monitor {
    fn clone(&self) -> (m: Self)
        ensures
            m == *self,
    {
        proof {
            use_type_invariant(self);
        }
        Monitor {
            name: self.name.clone(),
            x: self.x,
            y: self.y,
            width_px: self.width_px,
            height_px: self.height_px,
        }
    }
}

impl Monitor {
    #[verifier::type_invariant]
    spec fn corners_fit(&self) -> bool {
        self@.representable()
    }

    /// A monitor of the given name, origin and size, unless its far edges
    /// lie beyond the range of `i32`.
    pub fn new(name: String, x: i32, y: i32, width_px: i32, height_px: i32) -> (r: Option<Monitor>)
        ensures
            match r {
                Some(m) => m@ == (MonitorView {
                    name: name@,
                    x: x as int,
                    y: y as int,
                    width: width_px as int,
                    height: height_px as int,
                }) && m@.representable(),
                None => !(i32::MIN <= x + width_px <= i32::MAX && i32::MIN <= y + height_px
                    <= i32::MAX),
            },
    {
        let right: i64 = x as i64 + width_px as i64;
        let bottom: i64 = y as i64 + height_px as i64;
        if right < i32::MIN as i64 || right > i32::MAX as i64 || bottom < i32::MIN as i64 || bottom
            > i32::MAX as i64 {
            None
        } else {
            Some(Monitor { name, x, y, width_px, height_px })
        }
    }

    pub fn name(&self) -> (name: &String)
        ensures
            name@ == self@.name,
    {
        &self.name
    }

    pub fn x(&self) -> (x: i32)
        ensures
            x == self@.x,
    {
        self.x
    }

    pub fn y(&self) -> (y: i32)
        ensures
            y == self@.y,
    {
        self.y
    }

    pub fn width_px(&self) -> (width: i32)
        ensures
            width == self@.width,
    {
        self.width_px
    }

    pub fn height_px(&self) -> (height: i32)
        ensures
            height == self@.height,
    {
        self.height_px
    }

    /// Whether `other` has another name than this monitor and lies
    /// immediately on the side `direction` of it.
    pub fn is_neighbor(&self, other: &Monitor, direction: &Direction) -> (b: bool)
        ensures
            b == self@.neighbor(other@, *direction),
    {
        proof {
            use_type_invariant(self);
            use_type_invariant(other);
        }
        if other.name == self.name {
            return false;
        }
        match direction {
            Direction::Up => other.y + other.height_px == self.y,
            Direction::Down => other.y == self.y + self.height_px,
            Direction::Left => other.x + other.width_px == self.x,
            Direction::Right => other.x == self.x + self.width_px,
        }
    }

    /// The midpoint of the monitor's rectangle, each coordinate rounded
    /// towards zero.
    pub fn center(&self) -> (p: Point)
        ensures
            (p.x as int, p.y as int) == self@.center(),
    {
        proof {
            use_type_invariant(self);
        }
        let x0: i64 = self.x as i64;
        let y0: i64 = self.y as i64;
        let x1: i64 = x0 + self.width_px as i64;
        let y1: i64 = y0 + self.height_px as i64;
        Point { x: ((x1 + x0) / 2) as i32, y: ((y1 + y0) / 2) as i32 }
    }
}

impl CustomMonitor for Monitor {
    open spec fn model(&self) -> MonitorView {
        self@
    }

    fn next(&self, direction: &Direction, monitors: &[Monitor], wrap_around: bool) -> (r: Result<
        Monitor,
        MoveError,
    >) {
        let ghost layout = layout_of(monitors@);
        let ghost p = |other: MonitorView| self@.neighbor(other, *direction);
        let mut i: usize = 0;
        while i < monitors.len()
            invariant
                i <= monitors.len(),
                layout == layout_of(monitors@),
                p == |other: MonitorView| self@.neighbor(other, *direction),
                first_index(layout, p) == first_from(layout, p, i as int),
            decreases monitors.len() - i,
        {
            let candidate = &monitors[i];
            if self.is_neighbor(candidate, direction) {
                return Ok(candidate.clone());
            }
            i += 1;
        }
        if wrap_around {
            Err(MoveError::WrapNotAvailable)
        } else {
            Err(MoveError::NoAdjacentMonitor(*direction))
        }
    }
}

impl Rectangle for Monitor {
    open spec fn left(&self) -> int {
        self@.left()
    }

    open spec fn top(&self) -> int {
        self@.top()
    }

    open spec fn right(&self) -> int {
        self@.right()
    }

    open spec fn bottom(&self) -> int {
        self@.bottom()
    }

    fn contains_point(&self, x: i32, y: i32) -> (inside: bool)
        ensures
            inside == self@.contains(x as int, y as int),
    {
        proof {
            use_type_invariant(self);
        }
        let x0: i32 = self.x;
        let y0: i32 = self.y;
        let x1: i32 = self.x + self.width_px;
        let y1: i32 = self.y + self.height_px;
        (x >= x0) && (x <= x1) && (y >= y0) && (y <= y1)
    }

    fn top_left(&self) -> (p: Point) {
        Point { x: self.x, y: self.y }
    }

    fn top_right(&self) -> (p: Point) {
        proof {
            use_type_invariant(self);
        }
        Point { x: self.x + self.width_px, y: self.y }
    }

    fn bottom_left(&self) -> (p: Point) {
        proof {
            use_type_invariant(self);
        }
        Point { x: self.x, y: self.y + self.height_px }
    }

    fn bottom_right(&self) -> (p: Point) {
        proof {
            use_type_invariant(self);
        }
        Point { x: self.x + self.width_px, y: self.y + self.height_px }
    }

    fn bounding_box(&self) -> (b: BoundingBox) {
        BoundingBox {
            top_left: self.top_left(),
            top_right: self.top_right(),
            bottom_left: self.bottom_left(),
            bottom_right: self.bottom_right(),
        }
    }
}

} // verus!
