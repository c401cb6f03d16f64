//! Where the cursor is, and where a request sends it.

use crate::error::{MoveError, MoveErrorView};
use crate::geometry::{Direction, Point, Rectangle};
use crate::monitor::structs::{
    layout_of,
    monitor_result_view,
    next_of,
    CustomMonitor,
    Monitor,
    MonitorView,
};
use crate::scan::{first_from, first_index};
use vstd::prelude::*;

verus! {

/// The names of the monitors of a layout, in the layout's order.
pub open spec fn names_of(layout: Seq<MonitorView>) -> Seq<Seq<char>> {
    layout.map_values(|m: MonitorView| m.name)
}

/// The index of the first monitor of the layout that contains the point.
pub open spec fn first_containing(layout: Seq<MonitorView>, px: int, py: int) -> Option<int> {
    first_index(layout, |m: MonitorView| m.contains(px, py))
}

/// The index of the first monitor of the layout that has the name.
pub open spec fn first_named(layout: Seq<MonitorView>, name: Seq<char>) -> Option<int> {
    first_index(layout, |m: MonitorView| m.name == name)
}

/// The monitor in which a cursor at the point is: the first of the layout
/// that contains it.
pub open spec fn located(layout: Seq<MonitorView>, px: int, py: int) -> Result<
    MonitorView,
    MoveErrorView,
> {
    match first_containing(layout, px, py) {
        Some(i) => Ok(layout[i]),
        None => Err(MoveErrorView::NoMonitorContainsCursor),
    }
}

/// Where a move to the monitor of a given name ends: at the centre of the
/// first monitor of that name.
pub open spec fn target_of_name(layout: Seq<MonitorView>, name: Seq<char>) -> Result<
    (int, int),
    MoveErrorView,
> {
    match first_named(layout, name) {
        Some(i) => Ok(layout[i].center()),
        None => Err(MoveErrorView::UnknownMonitor(name, names_of(layout))),
    }
}

/// Where a move in a direction ends for a cursor at the point: the monitor
/// that holds the cursor is located, its neighbour in the direction is
/// resolved, and the move goes to the monitor of the neighbour's name.
pub open spec fn target_in_direction(
    layout: Seq<MonitorView>,
    px: int,
    py: int,
    d: Direction,
    wrap_around: bool,
) -> Result<(int, int), MoveErrorView> {
    match located(layout, px, py) {
        Err(e) => Err(e),
        Ok(current) => match next_of(layout, current, d, wrap_around) {
            Err(e) => Err(e),
            Ok(neighbor) => target_of_name(layout, neighbor.name),
        },
    }
}

/// A target point, or the reason why there is none, as the contracts see it.
pub open spec fn target_view(r: Result<Point, MoveError>) -> Result<(int, int), MoveErrorView> {
    match r {
        Ok(p) => Ok((p.x as int, p.y as int)),
        Err(e) => Err(e@),
    }
}

/// The names of all monitors, in the layout's order.
pub fn monitor_names(monitors: &[Monitor]) -> (names: Vec<String>)
    ensures
        crate::error::name_views(names@) == names_of(layout_of(monitors@)),
{
    let mut names: Vec<String> = Vec::new();
    let mut i: usize = 0;
    while i < monitors.len()
        invariant
            i <= monitors.len(),
            names@.len() == i,
            forall|j: int| 0 <= j < i ==> names@[j]@ == monitors@[j]@.name,
        decreases monitors.len() - i,
    {
        names.push(monitors[i].name().clone());
        i += 1;
    }
    assert(crate::error::name_views(names@) =~= names_of(layout_of(monitors@)));
    names
}

/// The point to which the cursor goes for a move to the monitor called
/// `required_monitor`: the centre of the first monitor of that name. Where
/// the layout has no such monitor, the error holds the name asked for and
/// the names that the layout does have.
pub fn move_to_monitor(required_monitor: String, monitors: &[Monitor]) -> (r: Result<
    Point,
    MoveError,
>)
    ensures
        target_view(r) == target_of_name(layout_of(monitors@), required_monitor@),
{
    let ghost layout = layout_of(monitors@);
    let ghost p = |m: MonitorView| m.name == required_monitor@;
    let mut i: usize = 0;
    while i < monitors.len()
        invariant
            i <= monitors.len(),
            layout == layout_of(monitors@),
            p == |m: MonitorView| m.name == required_monitor@,
            first_index(layout, p) == first_from(layout, p, i as int),
        decreases monitors.len() - i,
    {
        let monitor = &monitors[i];
        if *monitor.name() == required_monitor {
            return Ok(monitor.center());
        }
        i += 1;
    }
    Err(MoveError::UnknownMonitor(required_monitor, monitor_names(monitors)))
}

/// The monitor in which the cursor is: the first of the layout that
/// contains `position`.
pub fn which_monitor_is_mouse_in(position: Point, monitors: &[Monitor]) -> (r: Result<
    Monitor,
    MoveError,
>)
    ensures
        monitor_result_view(r) == located(
            layout_of(monitors@),
            position.x as int,
            position.y as int,
        ),
{
    let ghost layout = layout_of(monitors@);
    let ghost p = |m: MonitorView| m.contains(position.x as int, position.y as int);
    let mut i: usize = 0;
    while i < monitors.len()
        invariant
            i <= monitors.len(),
            layout == layout_of(monitors@),
            p == |m: MonitorView| m.contains(position.x as int, position.y as int),
            first_index(layout, p) == first_from(layout, p, i as int),
        decreases monitors.len() - i,
    {
        let monitor = &monitors[i];
        if monitor.contains_point(position.x, position.y) {
            return Ok(monitor.clone());
        }
        i += 1;
    }
    Err(MoveError::NoMonitorContainsCursor)
}

/// The point to which the cursor goes for a move in `direction` from
/// `position`: the centre of the monitor next to the one that holds the
/// cursor. Without a value, `wrap_around` is off.
pub fn move_in_direction(
    direction: &Direction,
    wrap_around: Option<bool>,
    position: Point,
    monitors: &[Monitor],
) -> (r: Result<Point, MoveError>)
    ensures
        target_view(r) == target_in_direction(
            layout_of(monitors@),
            position.x as int,
            position.y as int,
            *direction,
            wrap_around == Some(true),
        ),
{
    let current_monitor = match which_monitor_is_mouse_in(position, monitors) {
        Ok(m) => m,
        Err(e) => {
            return Err(e);
        },
    };
    let wrap_around = match wrap_around {
        Some(v) => v,
        None => false,
    };
    match current_monitor.next(direction, monitors, wrap_around) {
        Ok(v) => move_to_monitor(v.name().clone(), monitors),
        Err(e) => Err(e),
    }
}

} // verus!
