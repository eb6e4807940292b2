use vstd::prelude::*;

verus! {

/// The side of the screen a level transition sits on.
#[derive(Clone, Copy, Debug, PartialEq, Eq, Structural)]
pub enum Side {
    Left,
    Right,
    Top,
    Bottom,
}

impl Side {
    /// The side across from this one.
    pub open spec fn spec_opposite(self) -> Side {
        match self {
            Side::Left => Side::Right,
            Side::Right => Side::Left,
            Side::Top => Side::Bottom,
            Side::Bottom => Side::Top,
        }
    }
}

/// The scale that stretches a transition area of `size` tiles along `side`.
pub open spec fn spec_area_scale(side: Side, size: i32) -> (int, int) {
    match side {
        Side::Left => (1, -size),
        Side::Right => (-1, -size),
        Side::Bottom => (-size, -1),
        Side::Top => (-size, 1),
    }
}

/// The scale that stretches a transition area of `size` tiles along `side`:
/// the area lies across the side and is mirrored to face into the level.
pub fn area_scale(side: Side, size: i32) -> (r: (i64, i64))
    ensures
        (r.0 as int, r.1 as int) == spec_area_scale(side, size),
{
    let s = size as i64;
    match side {
        Side::Left => (1, -s),
        Side::Right => (-1, -s),
        Side::Bottom => (-s, -1),
        Side::Top => (-s, 1),
    }
}

} // verus!
