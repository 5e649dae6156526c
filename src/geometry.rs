//! Screen positions and the fixed per-command window offsets.

use vstd::prelude::*;

verus! {

/// Distance, in screen units, that one move command shifts the window.
pub const STEP: i32 = 40;

/// Direction of a single window move.
#[derive(Debug, Clone, Copy, PartialEq, Eq, Structural)]
pub enum MoveDirection {
    Left,
    Right,
    Up,
    Down,
}

/// A point on the screen, in whole screen units.
#[derive(Debug, Clone, Copy, PartialEq, Eq, Structural)]
pub struct Position {
    pub x: i32,
    pub y: i32,
}

/// Horizontal component of the offset applied by one move in `d`.
pub open spec fn dx(d: MoveDirection) -> int {
    match d {
        MoveDirection::Left => -STEP,
        MoveDirection::Right => STEP as int,
        MoveDirection::Up => 0,
        MoveDirection::Down => 0,
    }
}

/// Vertical component of the offset applied by one move in `d`.
pub open spec fn dy(d: MoveDirection) -> int {
    match d {
        MoveDirection::Left => 0,
        MoveDirection::Right => 0,
        MoveDirection::Up => -STEP,
        MoveDirection::Down => STEP as int,
    }
}

/// Whether `(x, y)` can be held by a `Position`.
pub open spec fn in_range(x: int, y: int) -> bool {
    i32::MIN <= x <= i32::MAX && i32::MIN <= y <= i32::MAX
}

/// Whether moving `p` once in `d` stays representable.
pub open spec fn can_shift(p: Position, d: MoveDirection) -> bool {
    in_range(p.x + dx(d), p.y + dy(d))
}

/// The position one move in `d` away from `p` (meaningful when `can_shift`).
pub open spec fn shift(p: Position, d: MoveDirection) -> Position {
    Position { x: (p.x + dx(d)) as i32, y: (p.y + dy(d)) as i32 }
}

/// The offset of one move in `d`, as `(dx, dy)`.
pub fn offset(d: MoveDirection) -> (r: (i32, i32))
    ensures
        r.0 as int == dx(d),
        r.1 as int == dy(d),
{
    match d {
        MoveDirection::Left => (-STEP, 0),
        MoveDirection::Right => (STEP, 0),
        MoveDirection::Up => (0, -STEP),
        MoveDirection::Down => (0, STEP),
    }
}

/// The position one move in `d` away from `p`, or `None` when that position
/// falls outside the representable range.
pub fn shifted(p: Position, d: MoveDirection) -> (r: Option<Position>)
    ensures
        can_shift(p, d) ==> r == Some(shift(p, d)),
        !can_shift(p, d) ==> r is None,
{
    let (ox, oy) = offset(d);
    match (p.x.checked_add(ox), p.y.checked_add(oy)) {
        (Some(x), Some(y)) => Some(Position { x, y }),
        _ => None,
    }
}

/// Opposite moves cancel: the offsets of Left and Right, and of Up and Down,
/// sum to zero.
pub proof fn lemma_opposite_offsets_cancel()
    ensures
        dx(MoveDirection::Left) + dx(MoveDirection::Right) == 0,
        dy(MoveDirection::Left) + dy(MoveDirection::Right) == 0,
        dx(MoveDirection::Up) + dx(MoveDirection::Down) == 0,
        dy(MoveDirection::Up) + dy(MoveDirection::Down) == 0,
{
}

/// Moving left and then right brings a position back to where it started.
pub proof fn lemma_left_then_right(p: Position)
    requires
        can_shift(p, MoveDirection::Left),
    ensures
        can_shift(shift(p, MoveDirection::Left), MoveDirection::Right),
        shift(shift(p, MoveDirection::Left), MoveDirection::Right) == p,
{
}

} // verus!
