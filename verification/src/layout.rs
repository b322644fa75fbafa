//! What a list of display rectangles says about the desktop they form: which
//! display touches which, and the rectangle that bounds them all.
//!
//! Everything here is about mathematical sequences of rectangles. The
//! functions that compute these facts live with the registry.

use crate::rectangle::Rectangle;
use vstd::prelude::*;

verus! {

/// Describes the display (non-work) rectangle adjacency
/// to other display rectangles in virtual desktop space.
/// Contains the index of the adjacent display on each side, if any.
#[derive(Clone, Copy, PartialEq, Eq, Debug, Structural)]
pub struct AdjacencyInfo {
    /// Another display is adjacent on the left.
    pub left: Option<u32>,
    /// Another display is adjacent on the top.
    pub top: Option<u32>,
    /// Another display is adjacent on the right.
    pub right: Option<u32>,
    /// Another display is adjacent on the bottom.
    pub bottom: Option<u32>,
}

impl Default for AdjacencyInfo {
    fn default() -> (info: Self)
        ensures
            info.left.is_none(),
            info.top.is_none(),
            info.right.is_none(),
            info.bottom.is_none(),
    {
        Self { left: None, top: None, right: None, bottom: None }
    }
}

impl AdjacencyInfo {
    /// Whether a display is adjacent on any side.
    pub fn is_some(self) -> (any: bool)
        ensures
            any == (self.left.is_some() || self.top.is_some() || self.right.is_some()
                || self.bottom.is_some()),
    {
        self.left.is_some() || self.top.is_some() || self.right.is_some() || self.bottom.is_some()
    }
}

/// One of the four sides of a rectangle.
#[derive(Clone, Copy, PartialEq, Eq, Debug, Structural)]
pub enum Side {
    Left,
    Top,
    Right,
    Bottom,
}

/// Whether `other` touches `rectangle` on the given side: the edge of `other`
/// that faces that side has exactly the coordinate of that side. A gap or an
/// overlap, however small, does not count; where along the edge the two lie
/// is not looked at.
pub open spec fn touches(rectangle: Rectangle, other: Rectangle, side: Side) -> bool {
    match side {
        Side::Left => other.spec_right() == rectangle.spec_left(),
        Side::Top => other.spec_bottom() == rectangle.spec_top(),
        Side::Right => other.spec_left() == rectangle.spec_right(),
        Side::Bottom => other.spec_top() == rectangle.spec_bottom(),
    }
}

/// Whether `neighbor` is the neighbor of rectangle `index` on `side`, judged
/// by the first `seen` rectangles alone: the last of them, other than
/// `index` itself, that touches it there; or none, where none of them does.
pub open spec fn is_neighbor_among(
    rectangles: Seq<Rectangle>,
    index: int,
    side: Side,
    seen: int,
    neighbor: Option<u32>,
) -> bool {
    match neighbor {
        Some(found) => {
            &&& found < seen
            &&& found != index
            &&& touches(rectangles[index], rectangles[found as int], side)
            &&& forall|j: int|
                found < j < seen && j != index ==> !touches(
                    rectangles[index],
                    #[trigger] rectangles[j],
                    side,
                )
        },
        None => forall|j: int|
            0 <= j < seen && j != index ==> !touches(
                rectangles[index],
                #[trigger] rectangles[j],
                side,
            ),
    }
}

/// Whether `neighbor` is the neighbor of rectangle `index` on `side`.
///
/// Where several rectangles touch that side, the one latest in the list is
/// the neighbor.
pub open spec fn is_neighbor(
    rectangles: Seq<Rectangle>,
    index: int,
    side: Side,
    neighbor: Option<u32>,
) -> bool {
    is_neighbor_among(rectangles, index, side, rectangles.len() as int, neighbor)
}

/// Whether `info` names the neighbor of rectangle `index` on each side.
pub open spec fn is_adjacency(rectangles: Seq<Rectangle>, index: int, info: AdjacencyInfo) -> bool {
    &&& is_neighbor(rectangles, index, Side::Left, info.left)
    &&& is_neighbor(rectangles, index, Side::Top, info.top)
    &&& is_neighbor(rectangles, index, Side::Right, info.right)
    &&& is_neighbor(rectangles, index, Side::Bottom, info.bottom)
}

/// Whether `bounds` is the smallest rectangle that contains every one of
/// `rectangles`: it contains each, and each of its edges is an edge of one
/// of them.
pub open spec fn is_bounding_box(rectangles: Seq<Rectangle>, bounds: Rectangle) -> bool {
    &&& forall|i: int|
        0 <= i < rectangles.len() ==> bounds.spec_contains(#[trigger] rectangles[i])
    &&& exists|i: int|
        0 <= i < rectangles.len() && (#[trigger] rectangles[i]).spec_left() == bounds.spec_left()
    &&& exists|i: int|
        0 <= i < rectangles.len() && (#[trigger] rectangles[i]).spec_top() == bounds.spec_top()
    &&& exists|i: int|
        0 <= i < rectangles.len() && (#[trigger] rectangles[i]).spec_right()
            == bounds.spec_right()
    &&& exists|i: int|
        0 <= i < rectangles.len() && (#[trigger] rectangles[i]).spec_bottom()
            == bounds.spec_bottom()
}

/// Whether the rectangle that bounds `rectangles` can be held in a
/// `Rectangle`: no right edge is further than `u32::MAX` from any left edge,
/// and no bottom edge from any top edge.
pub open spec fn spans_fit(rectangles: Seq<Rectangle>) -> bool {
    forall|i: int, j: int|
        0 <= i < rectangles.len() && 0 <= j < rectangles.len() ==> {
            &&& (#[trigger] rectangles[j]).spec_right() - (#[trigger] rectangles[i]).spec_left()
                <= u32::MAX
            &&& rectangles[j].spec_bottom() - rectangles[i].spec_top() <= u32::MAX
        }
}

/// Whether any two of `rectangles` overlap.
pub open spec fn any_overlap(rectangles: Seq<Rectangle>) -> bool {
    exists|i: int, j: int|
        0 <= i < j < rectangles.len() && (#[trigger] rectangles[i]).spec_overlaps(
            #[trigger] rectangles[j],
        )
}

/// A rectangle touches another on one side exactly when that one touches it
/// on the opposite side.
pub proof fn lemma_touches_opposite(a: Rectangle, b: Rectangle)
    ensures
        touches(a, b, Side::Left) == touches(b, a, Side::Right),
        touches(a, b, Side::Top) == touches(b, a, Side::Bottom),
{
}

/// Two rectangles that touch on a side do not overlap.
pub proof fn lemma_touching_do_not_overlap(a: Rectangle, b: Rectangle, side: Side)
    requires
        touches(a, b, side),
    ensures
        !a.spec_overlaps(b),
{
}

/// A side has one neighbor at most: the list decides it.
pub proof fn lemma_neighbor_unique(
    rectangles: Seq<Rectangle>,
    index: int,
    side: Side,
    first: Option<u32>,
    second: Option<u32>,
)
    requires
        is_neighbor(rectangles, index, side, first),
        is_neighbor(rectangles, index, side, second),
    ensures
        first == second,
{
}

/// Adjacency is a function of the list: inferred twice from the same
/// rectangles, it is the same.
pub proof fn lemma_adjacency_unique(
    rectangles: Seq<Rectangle>,
    index: int,
    first: AdjacencyInfo,
    second: AdjacencyInfo,
)
    requires
        is_adjacency(rectangles, index, first),
        is_adjacency(rectangles, index, second),
    ensures
        first == second,
{
    lemma_neighbor_unique(rectangles, index, Side::Left, first.left, second.left);
    lemma_neighbor_unique(rectangles, index, Side::Top, first.top, second.top);
    lemma_neighbor_unique(rectangles, index, Side::Right, first.right, second.right);
    lemma_neighbor_unique(rectangles, index, Side::Bottom, first.bottom, second.bottom);
}

/// A neighbor is another rectangle of the list, and it touches.
pub proof fn lemma_neighbor_touches(
    rectangles: Seq<Rectangle>,
    index: int,
    side: Side,
    neighbor: u32,
)
    requires
        is_neighbor(rectangles, index, side, Some(neighbor)),
    ensures
        neighbor < rectangles.len(),
        neighbor != index,
        touches(rectangles[index], rectangles[neighbor as int], side),
{
}

/// A side has a neighbor exactly when some other rectangle touches it.
pub proof fn lemma_neighbor_exists(
    rectangles: Seq<Rectangle>,
    index: int,
    side: Side,
    neighbor: Option<u32>,
)
    requires
        is_neighbor(rectangles, index, side, neighbor),
    ensures
        neighbor.is_some() <==> exists|j: int|
            0 <= j < rectangles.len() && j != index && touches(
                rectangles[index],
                #[trigger] rectangles[j],
                side,
            ),
{
}

/// The bounding rectangle is a function of the list: computed twice from the
/// same rectangles, it is the same.
pub proof fn lemma_bounding_box_unique(
    rectangles: Seq<Rectangle>,
    first: Rectangle,
    second: Rectangle,
)
    requires
        is_bounding_box(rectangles, first),
        is_bounding_box(rectangles, second),
    ensures
        first == second,
{
}

/// Rectangles whose edges are all coordinates have a bounding rectangle that
/// can be held.
pub proof fn lemma_valid_rectangles_fit(rectangles: Seq<Rectangle>)
    requires
        forall|i: int| 0 <= i < rectangles.len() ==> (#[trigger] rectangles[i]).is_valid(),
    ensures
        spans_fit(rectangles),
{
}

/// Any rectangle that contains every one of the list contains its bounding
/// rectangle.
pub proof fn lemma_bounding_box_smallest(
    rectangles: Seq<Rectangle>,
    bounds: Rectangle,
    container: Rectangle,
)
    requires
        is_bounding_box(rectangles, bounds),
        forall|i: int| 0 <= i < rectangles.len() ==> container.spec_contains(#[trigger] rectangles[i]),
    ensures
        container.spec_contains(bounds),
{
}

} // verus!
