//! The reasons for which a move cannot be made.

use crate::geometry::Direction;
use vstd::prelude::*;

verus! {

/// How a request can fail to name exactly one target.
#[derive(Debug, Clone, Copy, PartialEq, Eq, Structural)]
pub enum UsageError {
    /// Neither a monitor nor a direction was given.
    NoTarget,
    /// A monitor and a direction were given together.
    TwoTargets,
}

/// Why no target point could be given.
#[derive(Debug, PartialEq, Eq)]
pub enum MoveError {
    /// The request does not name exactly one of monitor and direction.
    Usage(UsageError),
    /// The direction token, given here in lower case, is none of the four.
    InvalidDirection(String),
    /// No monitor of the layout has the requested name. The second field
    /// holds the names of all monitors of the layout, in the layout's order.
    UnknownMonitor(String, Vec<String>),
    /// No other monitor touches the current one on the side asked for, and
    /// wrapping around was not asked for.
    NoAdjacentMonitor(Direction),
    /// No other monitor touches the current one on the side asked for, and
    /// wrapping around, which was asked for, selects no monitor: it has no
    /// geometry of its own.
    WrapNotAvailable,
    /// The cursor lies in no monitor of the layout.
    NoMonitorContainsCursor,
}

/// A `MoveError` with its strings as sequences of characters.
pub enum MoveErrorView {
    Usage(UsageError),
    InvalidDirection(Seq<char>),
    UnknownMonitor(Seq<char>, Seq<Seq<char>>),
    NoAdjacentMonitor(Direction),
    WrapNotAvailable,
    NoMonitorContainsCursor,
}

/// The strings of `names` as sequences of characters, in the same order.
pub open spec fn name_views(names: Seq<String>) -> Seq<Seq<char>> {
    names.map_values(|s: String| s@)
}

impl View for MoveError {
    type V = MoveErrorView;

    open spec fn view(&self) -> MoveErrorView {
        match *self {
            MoveError::Usage(u) => MoveErrorView::Usage(u),
            MoveError::InvalidDirection(token) => MoveErrorView::InvalidDirection(token@),
            MoveError::UnknownMonitor(name, available) => MoveErrorView::UnknownMonitor(
                name@,
                name_views(available@),
            ),
            MoveError::NoAdjacentMonitor(d) => MoveErrorView::NoAdjacentMonitor(d),
            MoveError::WrapNotAvailable => MoveErrorView::WrapNotAvailable,
            MoveError::NoMonitorContainsCursor => MoveErrorView::NoMonitorContainsCursor,
        }
    }
}

/// A result with its error as a view.
pub open spec fn result_view<T>(r: Result<T, MoveError>) -> Result<T, MoveErrorView> {
    match r {
        Ok(v) => Ok(v),
        Err(e) => Err(e@),
    }
}

} // verus!
