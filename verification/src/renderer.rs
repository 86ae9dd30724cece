//! The frame buffer: draw commands in grid coordinates, collected during a
//! tick and handed out once per frame as writes in screen coordinates.

use crate::util::{pos_add, pos_add_fits, pos_sum, Position};
use vstd::prelude::*;

verus! {

/// A terminal colour: the sixteen base colours, the terminal's default, a
/// 24-bit colour or an index into the 256-colour palette.
#[derive(Clone, Copy, Debug, PartialEq, Eq, Structural)]
pub enum Color {
    Reset,
    Black,
    DarkGrey,
    Red,
    DarkRed,
    Green,
    DarkGreen,
    Yellow,
    DarkYellow,
    Blue,
    DarkBlue,
    Magenta,
    DarkMagenta,
    Cyan,
    DarkCyan,
    White,
    Grey,
    Rgb { r: u8, g: u8, b: u8 },
    AnsiValue(u8),
}

/// The glyph that fills half a cell.
pub const FULL_BLOCK: char = '\u{2588}';

/// The glyph that clears half a cell.
pub const BLANK: char = ' ';

/// One character with its foreground colour.
#[derive(Clone, Copy, Debug, PartialEq, Eq, Structural)]
pub struct StyledChar {
    pub glyph: char,
    pub color: Color,
}

/// A styled character to be drawn at a position of the logical grid.
#[derive(Clone, Copy, Debug, PartialEq, Eq)]
pub struct DrawCmd {
    pub pos: Position,
    pub content: StyledChar,
}

impl DrawCmd {
    /// A command that draws `chr` at `pos`.
    pub fn new(chr: StyledChar, pos: Position) -> (cmd: Self)
        ensures
            cmd == (DrawCmd { pos, content: chr }),
    {
        Self { pos, content: chr }
    }
}

/// A styled character to be written at a column and row of the screen.
#[derive(Clone, Copy, Debug, PartialEq, Eq, Structural)]
pub struct CellWrite {
    pub col: u16,
    pub row: u16,
    pub content: StyledChar,
}

/// The two draw commands of one cell: the same glyph and colour at `pos`
/// and at its right-hand neighbour column.
pub open spec fn cell_cmds(pos: Position, glyph: char, color: Color) -> Seq<DrawCmd> {
    seq![
        DrawCmd { pos, content: StyledChar { glyph, color } },
        DrawCmd { pos: pos_sum(pos, (1i16, 0i16)), content: StyledChar { glyph, color } },
    ]
}

/// Whether the right-hand half of the cell at `pos` has a column in `i16`.
pub open spec fn cell_fits(pos: Position) -> bool {
    pos.0 < i16::MAX
}

/// Builds the two draw commands of one cell.
pub fn draw_cell(pos: Position, glyph: char, color: Color) -> (cmds: Vec<DrawCmd>)
    requires
        cell_fits(pos),
    ensures
        cmds@ == cell_cmds(pos, glyph, color),
{
    let content = StyledChar { glyph, color };
    let mut cmds: Vec<DrawCmd> = Vec::new();
    cmds.push(DrawCmd::new(content, pos));
    cmds.push(DrawCmd::new(content, pos_add(pos, (1, 0))));
    cmds
}

/// Something that can be drawn on the grid and wiped off it again.
pub trait Renderable {
    /// Whether every command of `render_spec` and `erase_spec` has
    /// coordinates in `i16`.
    spec fn drawable(&self) -> bool;

    /// The commands that draw this.
    spec fn render_spec(&self) -> Seq<DrawCmd>;

    /// The commands that undo `render_spec`.
    spec fn erase_spec(&self) -> Seq<DrawCmd>;

    fn render(&self) -> (cmds: Vec<DrawCmd>)
        requires
            self.drawable(),
        ensures
            cmds@ == self.render_spec(),
    ;

    fn erase(&self) -> (cmds: Vec<DrawCmd>)
        requires
            self.drawable(),
        ensures
            cmds@ == self.erase_spec(),
    ;
}

/// The screen column of a logical position: half the width plus `x`.
pub open spec fn screen_col(size: (u16, u16), pos: Position) -> int {
    size.0 / 2 + pos.0
}

/// The screen row of a logical position: half the height minus `y`.
pub open spec fn screen_row(size: (u16, u16), pos: Position) -> int {
    size.1 / 2 - pos.1
}

/// Whether a logical position falls on a screen of the given size.
pub open spec fn on_screen(size: (u16, u16), pos: Position) -> bool {
    &&& 0 <= screen_col(size, pos) < size.0
    &&& 0 <= screen_row(size, pos) < size.1
}

/// The screen cell of a logical position.
pub open spec fn to_screen(size: (u16, u16), pos: Position) -> (u16, u16) {
    (screen_col(size, pos) as u16, screen_row(size, pos) as u16)
}

/// The logical position of a screen cell.
pub open spec fn to_logical(size: (u16, u16), cell: (u16, u16)) -> Position {
    ((cell.0 - size.0 / 2) as i16, (size.1 / 2 - cell.1) as i16)
}

/// Whether every command of a buffer falls on the screen.
pub open spec fn all_on_screen(size: (u16, u16), cmds: Seq<DrawCmd>) -> bool {
    forall|i: int| 0 <= i < cmds.len() ==> on_screen(size, #[trigger] cmds[i].pos)
}

/// The writes of a buffer: one per command, in the buffer's order, each at
/// the screen cell of its command.
pub open spec fn placed(size: (u16, u16), cmds: Seq<DrawCmd>) -> Seq<CellWrite> {
    Seq::new(
        cmds.len(),
        |i: int|
            CellWrite {
                col: to_screen(size, cmds[i].pos).0,
                row: to_screen(size, cmds[i].pos).1,
                content: cmds[i].content,
            },
    )
}

/// The frame buffer of a screen of a fixed size.
pub struct Renderer {
    pub size: (u16, u16),
    origin: (i16, i16),
    draw_cmds: Vec<DrawCmd>,
}

impl View for Renderer {
    type V = Seq<DrawCmd>;

    /// The buffered commands, oldest first.
    closed spec fn view(&self) -> Seq<DrawCmd> {
        self.draw_cmds@
    }
}

impl Renderer {
    /// The screen's size: columns, then rows.
    pub closed spec fn size_spec(&self) -> (u16, u16) {
        self.size
    }

    /// The screen cell of the logical origin, as recorded at construction.
    pub closed spec fn origin_spec(&self) -> (i16, i16) {
        self.origin
    }

    /// A renderer with an empty buffer for a screen of `size` columns and
    /// rows.
    pub fn new(size: (u16, u16)) -> (r: Self)
        ensures
            r.size_spec() == size,
            r@ == Seq::<DrawCmd>::empty(),
            r.origin_spec().0 == size.0 / 2,
            r.origin_spec().1 == size.1 / 2,
    {
        Self { size, origin: ((size.0 / 2) as i16, (size.1 / 2) as i16), draw_cmds: Vec::new() }
    }

    /// The screen's size: columns, then rows.
    #[verifier::when_used_as_spec(size_spec)]
    pub fn size(&self) -> (size: (u16, u16))
        ensures
            size == self.size_spec(),
    {
        self.size
    }

    /// The screen cell of the logical origin, as recorded at construction.
    pub fn origin(&self) -> (o: (i16, i16))
        ensures
            o == self.origin_spec(),
    {
        self.origin
    }

    /// Whether `pos` falls on the screen.
    pub fn can_translate(&self, pos: Position) -> (ok: bool)
        ensures
            ok == on_screen(self.size(), pos),
    {
        let w: i32 = self.size.0 as i32;
        let h: i32 = self.size.1 as i32;
        let x: i32 = w / 2 + pos.0 as i32;
        let y: i32 = h / 2 - pos.1 as i32;
        x >= 0 && y >= 0 && x < w && y < h
    }

    /// Translates a logical position (origin at the centre, `y` up) into a
    /// screen cell (origin at the top left, rows growing downwards).
    pub fn translate_pos(&self, pos: Position) -> (cell: (u16, u16))
        requires
            on_screen(self.size(), pos),
        ensures
            cell == to_screen(self.size(), pos),
            cell.0 == self.size().0 / 2 + pos.0,
            cell.1 == self.size().1 / 2 - pos.1,
            cell.0 < self.size().0,
            cell.1 < self.size().1,
    {
        let x: i32 = (self.size.0 / 2) as i32 + pos.0 as i32;
        let y: i32 = (self.size.1 / 2) as i32 - pos.1 as i32;
        (x as u16, y as u16)
    }

    /// Translates a screen cell back into the logical position it shows.
    pub fn logical_pos(&self, cell: (u16, u16)) -> (pos: Position)
        requires
            cell.0 < self.size().0,
            cell.1 < self.size().1,
        ensures
            pos == to_logical(self.size(), cell),
            pos.0 == cell.0 - self.size().0 / 2,
            pos.1 == self.size().1 / 2 - cell.1,
            on_screen(self.size(), pos),
    {
        let x: i32 = cell.0 as i32 - (self.size.0 / 2) as i32;
        let y: i32 = (self.size.1 / 2) as i32 - cell.1 as i32;
        (x as i16, y as i16)
    }

    /// Appends commands to the buffer.
    pub fn queue(&mut self, cmds: Vec<DrawCmd>)
        ensures
            final(self)@ == old(self)@ + cmds@,
            final(self).size() == old(self).size(),
            final(self).origin_spec() == old(self).origin_spec(),
    {
        let mut cmds = cmds;
        self.draw_cmds.append(&mut cmds);
    }

    /// The number of buffered commands.
    pub fn pending(&self) -> (n: usize)
        ensures
            n == self@.len(),
    {
        self.draw_cmds.len()
    }

    /// Whether every buffered command falls on the screen.
    pub fn frame_fits(&self) -> (ok: bool)
        ensures
            ok == all_on_screen(self.size(), self@),
    {
        let mut i: usize = 0;
        while i < self.draw_cmds.len()
            invariant
                i <= self.draw_cmds.len(),
                forall|j: int| 0 <= j < i ==> on_screen(self.size, #[trigger] self.draw_cmds@[j].pos),
            decreases self.draw_cmds.len() - i,
        {
            if !self.can_translate(self.draw_cmds[i].pos) {
                return false;
            }
            i += 1;
        }
        true
    }

    /// Empties the buffer into the writes of one frame: one write per
    /// command, in the order the commands were queued, so that of two
    /// writes to one cell the later one wins.
    pub fn put(&mut self) -> (writes: Vec<CellWrite>)
        requires
            all_on_screen(old(self).size(), old(self)@),
        ensures
            writes@ == placed(old(self).size(), old(self)@),
            final(self)@ == Seq::<DrawCmd>::empty(),
            final(self).size() == old(self).size(),
            final(self).origin_spec() == old(self).origin_spec(),
    {
        let mut writes: Vec<CellWrite> = Vec::new();
        let mut i: usize = 0;
        while i < self.draw_cmds.len()
            invariant
                *self == *old(self),
                all_on_screen(self.size, self@),
                i <= self.draw_cmds.len(),
                writes@ == placed(self.size, self@.take(i as int)),
            decreases self.draw_cmds.len() - i,
        {
            let cmd: DrawCmd = self.draw_cmds[i];
            let cell: (u16, u16) = self.translate_pos(cmd.pos);
            writes.push(CellWrite { col: cell.0, row: cell.1, content: cmd.content });
            i += 1;
        }
        self.draw_cmds.clear();
        writes
    }
}

/// Translating a position on the screen to its screen cell and back gives
/// the position again, and the cell lies on the screen.
pub proof fn lemma_translate_round_trip(size: (u16, u16), pos: Position)
    requires
        on_screen(size, pos),
    ensures
        to_screen(size, pos).0 < size.0,
        to_screen(size, pos).1 < size.1,
        to_logical(size, to_screen(size, pos)) == pos,
{
}

/// Translating a screen cell to its logical position and back gives the
/// cell again, and the position is one that falls on the screen.
pub proof fn lemma_logical_round_trip(size: (u16, u16), cell: (u16, u16))
    requires
        cell.0 < size.0,
        cell.1 < size.1,
    ensures
        on_screen(size, to_logical(size, cell)),
        to_screen(size, to_logical(size, cell)) == cell,
{
}

} // verus!
