//! What a caller asks for: a move to a named monitor, or a move in a
//! direction. Exactly one of the two is asked for at a time.

use crate::error::{MoveError, MoveErrorView, UsageError};
use crate::geometry::{Direction, Point};
use crate::monitor::structs::{layout_of, Monitor, MonitorView};
use crate::monitor::utils::{
    move_in_direction,
    move_to_monitor,
    target_in_direction,
    target_of_name,
    target_view,
};
use vstd::prelude::*;

verus! {

/// A request for one move.
#[derive(Debug, PartialEq, Eq)]
pub enum Request {
    /// To the centre of the monitor of this name.
    ToMonitor(String),
    /// To the centre of the monitor next to the cursor's in this direction,
    /// with the wrap-around policy given.
    InDirection(Direction, bool),
}

/// A `Request` with its name as a sequence of characters.
pub enum RequestView {
    ToMonitor(Seq<char>),
    InDirection(Direction, bool),
}

impl View for Request {
    type V = RequestView;

    open spec fn view(&self) -> RequestView {
        match *self {
            Request::ToMonitor(name) => RequestView::ToMonitor(name@),
            Request::InDirection(d, wrap_around) => RequestView::InDirection(d, wrap_around),
        }
    }
}

impl RequestView {
    /// The request that the two options make: one of them has to be given,
    /// and only one. The wrap-around flag counts with a direction only.
    pub open spec fn of_options(
        monitor: Option<Seq<char>>,
        direction: Option<Direction>,
        wrap_around: bool,
    ) -> Result<RequestView, MoveErrorView> {
        match (monitor, direction) {
            (None, None) => Err(MoveErrorView::Usage(UsageError::NoTarget)),
            (Some(name), None) => Ok(RequestView::ToMonitor(name)),
            (None, Some(d)) => Ok(RequestView::InDirection(d, wrap_around)),
            (Some(_), Some(_)) => Err(MoveErrorView::Usage(UsageError::TwoTargets)),
        }
    }

    /// Where the request sends a cursor that is at the point.
    pub open spec fn target(self, layout: Seq<MonitorView>, px: int, py: int) -> Result<
        (int, int),
        MoveErrorView,
    > {
        match self {
            RequestView::ToMonitor(name) => target_of_name(layout, name),
            RequestView::InDirection(d, wrap_around) => target_in_direction(
                layout,
                px,
                py,
                d,
                wrap_around,
            ),
        }
    }
}

/// The name in an option as a sequence of characters.
pub open spec fn name_option_view(name: Option<String>) -> Option<Seq<char>> {
    match name {
        Some(s) => Some(s@),
        None => None,
    }
}

/// A request, or the reason why there is none, as the contracts see it.
pub open spec fn request_result_view(r: Result<Request, MoveError>) -> Result<
    RequestView,
    MoveErrorView,
> {
    match r {
        Ok(q) => Ok(q@),
        Err(e) => Err(e@),
    }
}

impl Request {
    /// The request that a monitor name and a direction make together:
    /// exactly one of them has to be given.
    pub fn from_options(
        monitor: Option<String>,
        direction: Option<Direction>,
        wrap_around: bool,
    ) -> (r: Result<Request, MoveError>)
        ensures
            request_result_view(r) == RequestView::of_options(
                name_option_view(monitor),
                direction,
                wrap_around,
            ),
    {
        match (monitor, direction) {
            (None, None) => Err(MoveError::Usage(UsageError::NoTarget)),
            (Some(name), None) => Ok(Request::ToMonitor(name)),
            (None, Some(d)) => Ok(Request::InDirection(d, wrap_around)),
            (Some(_), Some(_)) => Err(MoveError::Usage(UsageError::TwoTargets)),
        }
    }

    /// The point to which the request sends a cursor that is at `position`.
    pub fn target(&self, position: Point, monitors: &[Monitor]) -> (r: Result<Point, MoveError>)
        ensures
            target_view(r) == self@.target(
                layout_of(monitors@),
                position.x as int,
                position.y as int,
            ),
    {
        match self {
            Request::ToMonitor(name) => move_to_monitor(name.clone(), monitors),
            Request::InDirection(d, wrap_around) => move_in_direction(
                d,
                Some(*wrap_around),
                position,
                monitors,
            ),
        }
    }
}

} // verus!
