//! The target the snake chases: one cell that jumps to a random place each
//! time it is eaten.

use crate::renderer::{cell_cmds, cell_fits, draw_cell, Color, DrawCmd, Renderable, BLANK, FULL_BLOCK};
use crate::util::Position;
use vstd::prelude::*;

verus! {

/// The colour of every apple.
pub const APPLE_COLOR: Color = Color::Red;

/// The horizontal limit of the area in which an apple lands: half the
/// screen's width, made odd by adding one where it is even.
pub open spec fn spawn_limit_x(screen_size: (u16, u16)) -> int {
    if (screen_size.0 / 2) % 2 == 0 {
        screen_size.0 / 2 + 1
    } else {
        (screen_size.0 / 2) as int
    }
}

/// The vertical limit of the area in which an apple lands: half the
/// screen's height.
pub open spec fn spawn_limit_y(screen_size: (u16, u16)) -> int {
    (screen_size.1 / 2) as int
}

/// Whether `pos` lies in the area in which an apple lands on a screen of
/// the given size: from minus the limit up to, but not reaching, the limit,
/// in both coordinates.
pub open spec fn in_spawn_area(screen_size: (u16, u16), pos: Position) -> bool {
    &&& -spawn_limit_x(screen_size) <= pos.0 < spawn_limit_x(screen_size)
    &&& -spawn_limit_y(screen_size) <= pos.1 < spawn_limit_y(screen_size)
}

/// The limits of the area in which an apple lands, horizontal first.
pub fn spawn_limits(screen_size: (u16, u16)) -> (limits: (i16, i16))
    ensures
        limits.0 == spawn_limit_x(screen_size),
        limits.1 == spawn_limit_y(screen_size),
        1 <= limits.0,
        0 <= limits.1,
{
    let mut limit_x: i16 = (screen_size.0 / 2) as i16;
    let limit_y: i16 = (screen_size.1 / 2) as i16;
    if limit_x % 2 == 0 {
        limit_x += 1;
    }
    (limit_x, limit_y)
}

/// Draws a number from `low` up to, but not reaching, `high`, with
/// `rand::random_range`, which samples the range from the generator of the
/// calling thread. That function panics on an empty range, so `low` must lie
/// below `high`. Nothing is claimed of the number but that it lies in the
/// range: two calls may differ.
#[verifier::external_body]
fn random_between(low: i16, high: i16) -> (n: i16)
    requires
        low < high,
    ensures
        low <= n < high,
{
    rand::random_range(low..high)
}

/// The apple.
pub struct Apple {
    pub pos: Position,
    color: Color,
}

impl Apple {
    /// Where the apple lies.
    pub closed spec fn pos_spec(&self) -> Position {
        self.pos
    }

    /// The apple's colour.
    pub closed spec fn color_spec(&self) -> Color {
        self.color
    }

    /// A red apple at `pos`.
    pub fn new(pos: Position) -> (apple: Self)
        ensures
            apple.pos_spec() == pos,
            apple.color_spec() == APPLE_COLOR,
    {
        Self { pos, color: APPLE_COLOR }
    }

    /// Where the apple lies.
    #[verifier::when_used_as_spec(pos_spec)]
    pub fn position(&self) -> (pos: Position)
        ensures
            pos == self.pos_spec(),
    {
        self.pos
    }

    /// The apple's colour.
    #[verifier::when_used_as_spec(color_spec)]
    pub fn color(&self) -> (color: Color)
        ensures
            color == self.color_spec(),
    {
        self.color
    }

    /// Puts the apple at `pos` and leaves its colour alone.
    pub fn place(&mut self, pos: Position)
        ensures
            final(self).pos_spec() == pos,
            final(self).color_spec() == old(self).color_spec(),
    {
        self.pos = pos;
    }

    /// Moves the apple to a random cell of the area that the screen's size
    /// gives. The cell may be one the snake lies on. A screen of fewer than
    /// two rows has no such area.
    pub fn move_apple(&mut self, screen_size: (u16, u16))
        requires
            screen_size.1 >= 2,
        ensures
            in_spawn_area(screen_size, final(self).pos_spec()),
            cell_fits(final(self).pos_spec()),
            final(self).color_spec() == old(self).color_spec(),
    {
        let limits: (i16, i16) = spawn_limits(screen_size);
        let x: i16 = random_between(-limits.0, limits.0);
        let y: i16 = random_between(-limits.1, limits.1);
        self.place((x, y));
    }
}

impl Renderable for Apple {
    open spec fn drawable(&self) -> bool {
        cell_fits(self.pos_spec())
    }

    open spec fn render_spec(&self) -> Seq<DrawCmd> {
        cell_cmds(self.pos_spec(), FULL_BLOCK, self.color_spec())
    }

    open spec fn erase_spec(&self) -> Seq<DrawCmd> {
        cell_cmds(self.pos_spec(), BLANK, self.color_spec())
    }

    fn render(&self) -> (cmds: Vec<DrawCmd>) {
        draw_cell(self.pos, FULL_BLOCK, self.color)
    }

    fn erase(&self) -> (cmds: Vec<DrawCmd>) {
        draw_cell(self.pos, BLANK, self.color)
    }
}

} // verus!
