//! Overlap of axis-aligned bounding boxes.
//!
//! A box is given by its centre and its size. To stay exact on integers all
//! edges are computed at twice their coordinate.

use crate::components::{Extent, Position};
use vstd::prelude::*;

verus! {

/// The side of the second box that the first one reaches over, or `Inside`
/// when it reaches over none.
#[derive(Clone, Copy, Debug, PartialEq, Eq, Structural)]
pub enum Collision {
    Left,
    Right,
    Top,
    Bottom,
    Inside,
}

/// Twice the coordinate of a box's lower edge on one axis.
pub open spec fn low_edge(center: i64, size: u64) -> int {
    2 * center - size
}

/// Twice the coordinate of a box's upper edge on one axis.
pub open spec fn high_edge(center: i64, size: u64) -> int {
    2 * center + size
}

/// Whether two intervals, given by their centres and sizes, share more than
/// an end point.
pub open spec fn spans_overlap(a_center: i64, a_size: u64, b_center: i64, b_size: u64) -> bool {
    low_edge(a_center, a_size) < high_edge(b_center, b_size) && high_edge(a_center, a_size)
        > low_edge(b_center, b_size)
}

/// Whether two boxes share an area: their spans overlap on both axes. Boxes
/// that merely touch do not overlap.
pub open spec fn overlapping(
    a_pos: Position,
    a_size: Extent,
    b_pos: Position,
    b_size: Extent,
) -> bool {
    spans_overlap(a_pos.x, a_size.width, b_pos.x, b_size.width) && spans_overlap(
        a_pos.y,
        a_size.height,
        b_pos.y,
        b_size.height,
    )
}

/// Whether interval `a` sticks out below interval `b` only: it covers `b`'s
/// lower edge and ends inside `b`.
pub open spec fn reaches_low(a_center: i64, a_size: u64, b_center: i64, b_size: u64) -> bool {
    low_edge(a_center, a_size) < low_edge(b_center, b_size) && low_edge(b_center, b_size)
        < high_edge(a_center, a_size) < high_edge(b_center, b_size)
}

/// Whether interval `a` sticks out above interval `b` only: it covers `b`'s
/// upper edge and starts inside `b`.
pub open spec fn reaches_high(a_center: i64, a_size: u64, b_center: i64, b_size: u64) -> bool {
    low_edge(b_center, b_size) < low_edge(a_center, a_size) < high_edge(b_center, b_size)
        && high_edge(a_center, a_size) > high_edge(b_center, b_size)
}

/// How far interval `a` reaches into interval `b` across the edge that it
/// covers, doubled; `None` when it covers no single edge.
pub open spec fn depth(a_center: i64, a_size: u64, b_center: i64, b_size: u64) -> Option<int> {
    if reaches_low(a_center, a_size, b_center, b_size) {
        Some(high_edge(a_center, a_size) - low_edge(b_center, b_size))
    } else if reaches_high(a_center, a_size, b_center, b_size) {
        Some(high_edge(b_center, b_size) - low_edge(a_center, a_size))
    } else {
        None
    }
}

/// The side named for the horizontal axis alone.
pub open spec fn horizontal_side(
    a_pos: Position,
    a_size: Extent,
    b_pos: Position,
    b_size: Extent,
) -> Collision {
    if reaches_low(a_pos.x, a_size.width, b_pos.x, b_size.width) {
        Collision::Left
    } else if reaches_high(a_pos.x, a_size.width, b_pos.x, b_size.width) {
        Collision::Right
    } else {
        Collision::Inside
    }
}

/// The side named for the vertical axis alone.
pub open spec fn vertical_side(
    a_pos: Position,
    a_size: Extent,
    b_pos: Position,
    b_size: Extent,
) -> Collision {
    if reaches_low(a_pos.y, a_size.height, b_pos.y, b_size.height) {
        Collision::Bottom
    } else if reaches_high(a_pos.y, a_size.height, b_pos.y, b_size.height) {
        Collision::Top
    } else {
        Collision::Inside
    }
}

/// The side reported for two overlapping boxes: of the two axes, the one on
/// which `a` reaches less deep into `b` names the side; an axis on which `a`
/// covers no single edge of `b` counts as infinitely deep, and the
/// horizontal axis wins a tie.
pub open spec fn side(
    a_pos: Position,
    a_size: Extent,
    b_pos: Position,
    b_size: Extent,
) -> Collision {
    let across = depth(a_pos.x, a_size.width, b_pos.x, b_size.width);
    let along = depth(a_pos.y, a_size.height, b_pos.y, b_size.height);
    let vertical_wins = match (along, across) {
        (Some(y_depth), Some(x_depth)) => y_depth < x_depth,
        (Some(_), None) => true,
        (None, _) => false,
    };
    if vertical_wins {
        vertical_side(a_pos, a_size, b_pos, b_size)
    } else {
        horizontal_side(a_pos, a_size, b_pos, b_size)
    }
}

/// What [`collide`] returns for two boxes.
pub open spec fn collision(
    a_pos: Position,
    a_size: Extent,
    b_pos: Position,
    b_size: Extent,
) -> Option<Collision> {
    if overlapping(a_pos, a_size, b_pos, b_size) {
        Some(side(a_pos, a_size, b_pos, b_size))
    } else {
        None
    }
}

/// If two boxes overlap, their centres are closer on each axis than half
/// the sum of their sizes, and the other way round.
pub proof fn lemma_overlap_is_closeness(
    a_pos: Position,
    a_size: Extent,
    b_pos: Position,
    b_size: Extent,
)
    ensures
        overlapping(a_pos, a_size, b_pos, b_size) <==> {
            &&& -(a_size.width + b_size.width) < 2 * (a_pos.x - b_pos.x) < a_size.width + b_size.width
            &&& -(a_size.height + b_size.height) < 2 * (a_pos.y - b_pos.y) < a_size.height
                + b_size.height
        },
{
}

/// Overlap does not depend on the order of the two boxes.
pub proof fn lemma_overlap_symmetric(
    a_pos: Position,
    a_size: Extent,
    b_pos: Position,
    b_size: Extent,
)
    ensures
        overlapping(a_pos, a_size, b_pos, b_size) == overlapping(b_pos, b_size, a_pos, a_size),
{
}

/// Whether the two boxes overlap.
pub fn overlaps(a_pos: Position, a_size: Extent, b_pos: Position, b_size: Extent) -> (hit: bool)
    ensures
        hit == overlapping(a_pos, a_size, b_pos, b_size),
{
    let a_min_x: i128 = 2 * (a_pos.x as i128) - (a_size.width as i128);
    let a_max_x: i128 = 2 * (a_pos.x as i128) + (a_size.width as i128);
    let a_min_y: i128 = 2 * (a_pos.y as i128) - (a_size.height as i128);
    let a_max_y: i128 = 2 * (a_pos.y as i128) + (a_size.height as i128);
    let b_min_x: i128 = 2 * (b_pos.x as i128) - (b_size.width as i128);
    let b_max_x: i128 = 2 * (b_pos.x as i128) + (b_size.width as i128);
    let b_min_y: i128 = 2 * (b_pos.y as i128) - (b_size.height as i128);
    let b_max_y: i128 = 2 * (b_pos.y as i128) + (b_size.height as i128);
    a_min_x < b_max_x && a_max_x > b_min_x && a_min_y < b_max_y && a_max_y > b_min_y
}

/// Tests two boxes for overlap and, if they overlap, names the side of `b`
/// that `a` reaches over.
pub fn collide(
    a_pos: Position,
    a_size: Extent,
    b_pos: Position,
    b_size: Extent,
) -> (hit: Option<Collision>)
    ensures
        hit == collision(a_pos, a_size, b_pos, b_size),
{
    if !overlaps(a_pos, a_size, b_pos, b_size) {
        return None;
    }
    let a_min_x: i128 = 2 * (a_pos.x as i128) - (a_size.width as i128);
    let a_max_x: i128 = 2 * (a_pos.x as i128) + (a_size.width as i128);
    let a_min_y: i128 = 2 * (a_pos.y as i128) - (a_size.height as i128);
    let a_max_y: i128 = 2 * (a_pos.y as i128) + (a_size.height as i128);
    let b_min_x: i128 = 2 * (b_pos.x as i128) - (b_size.width as i128);
    let b_max_x: i128 = 2 * (b_pos.x as i128) + (b_size.width as i128);
    let b_min_y: i128 = 2 * (b_pos.y as i128) - (b_size.height as i128);
    let b_max_y: i128 = 2 * (b_pos.y as i128) + (b_size.height as i128);

    let (x_collision, x_depth): (Collision, Option<i128>) = if a_min_x < b_min_x && a_max_x > b_min_x
        && a_max_x < b_max_x {
        (Collision::Left, Some(a_max_x - b_min_x))
    } else if a_min_x > b_min_x && a_min_x < b_max_x && a_max_x > b_max_x {
        (Collision::Right, Some(b_max_x - a_min_x))
    } else {
        (Collision::Inside, None)
    };

    let (y_collision, y_depth): (Collision, Option<i128>) = if a_min_y < b_min_y && a_max_y > b_min_y
        && a_max_y < b_max_y {
        (Collision::Bottom, Some(a_max_y - b_min_y))
    } else if a_min_y > b_min_y && a_min_y < b_max_y && a_max_y > b_max_y {
        (Collision::Top, Some(b_max_y - a_min_y))
    } else {
        (Collision::Inside, None)
    };

    let vertical_wins = match (y_depth, x_depth) {
        (Some(y), Some(x)) => y < x,
        (Some(_), None) => true,
        (None, _) => false,
    };
    if vertical_wins {
        Some(y_collision)
    } else {
        Some(x_collision)
    }
}

} // verus!
