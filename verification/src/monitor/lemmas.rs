//! What holds of the resolution of neighbours, of the location of the cursor
//! and of the targets, for every layout.

use crate::error::MoveErrorView;
use crate::geometry::Direction;
use crate::monitor::structs::{first_neighbor, half, next_of, MonitorView};
use crate::monitor::utils::{
    first_named,
    located,
    names_of,
    target_in_direction,
    target_of_name,
};
use crate::scan::{first_from, lemma_first_index};
use vstd::prelude::*;

verus! {

/// Whether no two monitors of the layout have the same name.
pub open spec fn names_unique(layout: Seq<MonitorView>) -> bool {
    forall|i: int, j: int|
        0 <= i < layout.len() && 0 <= j < layout.len() && i != j ==> layout[i].name
            != layout[j].name
}

/// Half of a number, rounded towards zero, is its exact half where it is
/// even, and otherwise the nearest integer on the side of zero.
pub proof fn lemma_half_is_midpoint(n: int)
    ensures
        n % 2 == 0 ==> 2 * half(n) == n,
        n % 2 != 0 && n > 0 ==> 2 * half(n) == n - 1,
        n % 2 != 0 && n < 0 ==> 2 * half(n) == n + 1,
{
}

/// The centre of a monitor whose width and height are not negative lies in
/// the monitor.
pub proof fn lemma_center_inside(m: MonitorView)
    requires
        m.width >= 0,
        m.height >= 0,
    ensures
        m.contains(m.center().0, m.center().1),
{
}

/// A neighbour is found exactly where the layout holds a candidate, and it is
/// the first candidate in the layout's order; the wrap-around policy changes
/// nothing of that.
pub proof fn lemma_next_is_first_candidate(
    layout: Seq<MonitorView>,
    current: MonitorView,
    d: Direction,
    wrap_around: bool,
)
    ensures
        next_of(layout, current, d, wrap_around) is Ok <==> exists|i: int|
            0 <= i < layout.len() && current.neighbor(#[trigger] layout[i], d),
        forall|i: int|
            0 <= i < layout.len() && current.neighbor(#[trigger] layout[i], d) && (forall|j: int|
                0 <= j < i ==> !current.neighbor(#[trigger] layout[j], d)) ==> next_of(
                layout,
                current,
                d,
                wrap_around,
            ) == Ok::<MonitorView, MoveErrorView>(layout[i]),
{
    lemma_first_index(layout, |other: MonitorView| current.neighbor(other, d));
}

/// Two monitors of different names, of which the second touches the first
/// on the side `d`: from the first the move in `d` leads to the second,
/// and from the second the move in the opposite direction leads back to the
/// first, in whichever order the layout holds the two.
pub proof fn lemma_neighbors_are_mutual(
    a: MonitorView,
    b: MonitorView,
    d: Direction,
    wrap_around: bool,
)
    requires
        a.name != b.name,
        a.touched_by(b, d),
    ensures
        next_of(seq![a, b], a, d, wrap_around) == Ok::<MonitorView, MoveErrorView>(b),
        next_of(seq![a, b], b, d.opposite(), wrap_around) == Ok::<MonitorView, MoveErrorView>(a),
        next_of(seq![b, a], a, d, wrap_around) == Ok::<MonitorView, MoveErrorView>(b),
        next_of(seq![b, a], b, d.opposite(), wrap_around) == Ok::<MonitorView, MoveErrorView>(a),
{
    reveal_with_fuel(first_from, 3);
}

/// A monitor whose bottom edge is another's top edge is the other's
/// neighbour upwards, and the other is its neighbour downwards.
pub proof fn lemma_up_down_symmetry(a: MonitorView, b: MonitorView, wrap_around: bool)
    requires
        a.name != b.name,
        b.bottom() == a.top(),
    ensures
        next_of(seq![a, b], a, Direction::Up, wrap_around) == Ok::<MonitorView, MoveErrorView>(b),
        next_of(seq![a, b], b, Direction::Down, wrap_around) == Ok::<MonitorView, MoveErrorView>(
            a,
        ),
{
    lemma_neighbors_are_mutual(a, b, Direction::Up, wrap_around);
}

/// Where no monitor of the layout is a candidate in a direction, the
/// resolution fails: with `NoAdjacentMonitor` of that direction when
/// wrapping around is off, with `WrapNotAvailable` when it is on.
pub proof fn lemma_no_candidate_no_neighbor(
    layout: Seq<MonitorView>,
    current: MonitorView,
    d: Direction,
)
    requires
        forall|i: int| 0 <= i < layout.len() ==> !current.neighbor(#[trigger] layout[i], d),
    ensures
        next_of(layout, current, d, false) == Err::<MonitorView, MoveErrorView>(
            MoveErrorView::NoAdjacentMonitor(d),
        ),
        next_of(layout, current, d, true) == Err::<MonitorView, MoveErrorView>(
            MoveErrorView::WrapNotAvailable,
        ),
{
    lemma_first_index(layout, |other: MonitorView| current.neighbor(other, d));
}

/// Where exactly one monitor of the layout contains the point, the cursor
/// is located in that monitor.
pub proof fn lemma_located_in_the_only_container(
    layout: Seq<MonitorView>,
    px: int,
    py: int,
    i: int,
)
    requires
        0 <= i < layout.len(),
        layout[i].contains(px, py),
        forall|j: int| 0 <= j < layout.len() && j != i ==> !(#[trigger] layout[j]).contains(px, py),
    ensures
        located(layout, px, py) == Ok::<MonitorView, MoveErrorView>(layout[i]),
{
    lemma_first_index(layout, |m: MonitorView| m.contains(px, py));
}

/// The cursor is located in a monitor that contains it, and in the first
/// such of the layout; it is located in none exactly where no monitor
/// contains it.
pub proof fn lemma_located_contains(layout: Seq<MonitorView>, px: int, py: int)
    ensures
        match located(layout, px, py) {
            Ok(m) => m.contains(px, py) && layout.contains(m),
            Err(e) => e == MoveErrorView::NoMonitorContainsCursor && forall|j: int|
                0 <= j < layout.len() ==> !(#[trigger] layout[j]).contains(px, py),
        },
{
    lemma_first_index(layout, |m: MonitorView| m.contains(px, py));
}

/// A name that no monitor of the layout has is answered with
/// `UnknownMonitor`, which holds that name and the names of all monitors of
/// the layout; a name that some monitor has is answered with the centre of
/// a monitor of that name.
pub proof fn lemma_target_of_name(layout: Seq<MonitorView>, name: Seq<char>)
    ensures
        match target_of_name(layout, name) {
            Ok(p) => exists|i: int|
                0 <= i < layout.len() && (#[trigger] layout[i]).name == name && p
                    == layout[i].center(),
            Err(e) => {
                &&& e == MoveErrorView::UnknownMonitor(name, names_of(layout))
                &&& names_of(layout).len() == layout.len()
                &&& forall|i: int|
                    0 <= i < layout.len() ==> names_of(layout)[i] == (#[trigger] layout[i]).name
                &&& !names_of(layout).contains(name)
            },
        },
{
    lemma_first_index(layout, |m: MonitorView| m.name == name);
    if first_named(layout, name) is None {
        assert forall|k: int| 0 <= k < names_of(layout).len() implies names_of(layout)[k]
            != name by {
            assert(names_of(layout)[k] == layout[k].name);
        }
    }
}

/// In a layout without repeated names, a move in a direction ends at the
/// centre of the neighbour that the resolution gives.
pub proof fn lemma_direction_target_is_neighbor_center(
    layout: Seq<MonitorView>,
    px: int,
    py: int,
    d: Direction,
    wrap_around: bool,
)
    requires
        names_unique(layout),
    ensures
        match located(layout, px, py) {
            Err(e) => target_in_direction(layout, px, py, d, wrap_around) == Err::<
                (int, int),
                MoveErrorView,
            >(e),
            Ok(current) => match next_of(layout, current, d, wrap_around) {
                Err(e) => target_in_direction(layout, px, py, d, wrap_around) == Err::<
                    (int, int),
                    MoveErrorView,
                >(e),
                Ok(neighbor) => target_in_direction(layout, px, py, d, wrap_around) == Ok::<
                    (int, int),
                    MoveErrorView,
                >(neighbor.center()),
            },
        },
{
    if let Ok(current) = located(layout, px, py) {
        if let Ok(neighbor) = next_of(layout, current, d, wrap_around) {
            lemma_first_index(layout, |other: MonitorView| current.neighbor(other, d));
            lemma_first_index(layout, |m: MonitorView| m.name == neighbor.name);
            let i = first_neighbor(layout, current, d)->Some_0;
            assert(layout[i].name == neighbor.name);
            let k = first_named(layout, neighbor.name)->Some_0;
            assert(k == i);
        }
    }
}

} // verus!
