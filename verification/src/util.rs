//! Grid geometry: positions, the four directions and their displacements.

use vstd::prelude::*;

verus! {

/// A cell of the logical grid: `(x, y)`, origin at the centre of the screen,
/// `y` growing upwards. One cell is two screen columns wide, so horizontal
/// neighbours differ by 2 in `x`.
pub type Position = (i16, i16);

/// Whether the component-wise sum of two positions stays within `i16`.
pub open spec fn pos_add_fits(lhs: Position, rhs: Position) -> bool {
    &&& i16::MIN <= lhs.0 + rhs.0 <= i16::MAX
    &&& i16::MIN <= lhs.1 + rhs.1 <= i16::MAX
}

/// The component-wise sum of two positions.
pub open spec fn pos_sum(lhs: Position, rhs: Position) -> Position {
    ((lhs.0 + rhs.0) as i16, (lhs.1 + rhs.1) as i16)
}

/// Whether both components of a position can change sign within `i16`.
pub open spec fn pos_neg_fits(lhs: Position) -> bool {
    lhs.0 != i16::MIN && lhs.1 != i16::MIN
}

/// A position with both signs flipped.
pub open spec fn pos_opposite(lhs: Position) -> Position {
    ((-lhs.0) as i16, (-lhs.1) as i16)
}

/// Adds two positions component by component.
pub fn pos_add(lhs: Position, rhs: Position) -> (sum: Position)
    requires
        pos_add_fits(lhs, rhs),
    ensures
        sum == pos_sum(lhs, rhs),
        sum.0 == lhs.0 + rhs.0,
        sum.1 == lhs.1 + rhs.1,
{
    (lhs.0 + rhs.0, lhs.1 + rhs.1)
}

/// Whether `pos_add` can add the two positions.
pub fn can_add(lhs: Position, rhs: Position) -> (ok: bool)
    ensures
        ok == pos_add_fits(lhs, rhs),
{
    let x: i32 = lhs.0 as i32 + rhs.0 as i32;
    let y: i32 = lhs.1 as i32 + rhs.1 as i32;
    -32768 <= x && x <= 32767 && -32768 <= y && y <= 32767
}

/// Flips the sign of both components.
pub fn pos_neg(lhs: Position) -> (neg: Position)
    requires
        pos_neg_fits(lhs),
    ensures
        neg == pos_opposite(lhs),
        neg.0 == -lhs.0,
        neg.1 == -lhs.1,
{
    (-lhs.0, -lhs.1)
}

/// One of the four ways the snake can face.
#[derive(Clone, Copy, Debug, PartialEq, Eq, Structural)]
pub enum Direction {
    North,
    East,
    South,
    West,
}

impl Direction {
    /// The displacement of one step in this direction. Horizontal steps are
    /// 2 wide, matching the two screen columns of a cell.
    pub open spec fn delta_spec(self) -> Position {
        match self {
            Direction::North => (0i16, 1i16),
            Direction::East => (2i16, 0i16),
            Direction::South => (0i16, -1i16),
            Direction::West => (-2i16, 0i16),
        }
    }

    /// The direction that points the other way.
    pub open spec fn reversed(self) -> Direction {
        match self {
            Direction::North => Direction::South,
            Direction::East => Direction::West,
            Direction::South => Direction::North,
            Direction::West => Direction::East,
        }
    }

    /// The displacement of one step in this direction.
    #[verifier::when_used_as_spec(delta_spec)]
    pub fn delta(self) -> (d: Position)
        ensures
            d == self.delta_spec(),
    {
        match self {
            Direction::North => (0, 1),
            Direction::East => (2, 0),
            Direction::South => (0, -1),
            Direction::West => (-2, 0),
        }
    }
}

/// Two directions have opposite displacements exactly when one is the
/// reverse of the other, and every displacement can be negated and added to
/// a position at least 2 away from the limits of `i16`.
pub proof fn lemma_delta_reverse(a: Direction, b: Direction)
    ensures
        pos_neg_fits(b.delta_spec()),
        a.delta_spec() == pos_opposite(b.delta_spec()) <==> a == b.reversed(),
        a.reversed().reversed() == a,
        a.reversed() != a,
{
}

} // verus!
