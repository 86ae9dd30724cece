//! The snake: an ordered body of segments, the set of cells it occupies, and
//! the two-phase step (compute, then commit) that moves and grows it.

use crate::renderer::{cell_cmds, cell_fits, draw_cell, Color, DrawCmd, Renderable, BLANK, FULL_BLOCK};
use crate::util::{
    can_add, lemma_delta_reverse, pos_add, pos_add_fits, pos_neg, pos_opposite, pos_sum, Direction,
    Position,
};
use std::collections::{HashSet, VecDeque};
use vstd::prelude::*;

verus! {

/// The column of the first segment of a snake.
pub const SEED_X: i16 = -4;

/// The row of the first segment of a snake.
pub const SEED_Y: i16 = 0;

/// The colour of a snake's first segment, and so of all of them.
pub const SEED_COLOR: Color = Color::Blue;

/// The number of frames between two steps of a new snake.
pub const START_SPEED: i32 = 10;

/// One cell of the snake's body.
#[derive(Clone, Copy, Debug, PartialEq, Eq)]
pub struct SnakeSegment {
    pub pos: Position,
    /// The way the snake faced when this segment was laid down.
    pub dir: Direction,
    pub color: Color,
}

impl Renderable for SnakeSegment {
    open spec fn drawable(&self) -> bool {
        cell_fits(self.pos)
    }

    open spec fn render_spec(&self) -> Seq<DrawCmd> {
        cell_cmds(self.pos, FULL_BLOCK, self.color)
    }

    open spec fn erase_spec(&self) -> Seq<DrawCmd> {
        cell_cmds(self.pos, BLANK, self.color)
    }

    fn render(&self) -> (cmds: Vec<DrawCmd>) {
        draw_cell(self.pos, FULL_BLOCK, self.color)
    }

    fn erase(&self) -> (cmds: Vec<DrawCmd>) {
        draw_cell(self.pos, BLANK, self.color)
    }
}

/// One movement of the snake, computed but not yet applied.
#[derive(Clone, Copy, Debug, PartialEq, Eq)]
pub struct SnakeStep {
    /// The tail cell that the step leaves empty, if it leaves one.
    pub freed: Option<SnakeSegment>,
    /// The new head cell.
    pub occupied: SnakeSegment,
}

impl Renderable for SnakeStep {
    open spec fn drawable(&self) -> bool {
        &&& self.occupied.drawable()
        &&& self.freed matches Some(segment) ==> segment.drawable()
    }

    /// Draws the new head, then wipes the freed tail.
    open spec fn render_spec(&self) -> Seq<DrawCmd> {
        match self.freed {
            Some(segment) => self.occupied.render_spec() + segment.erase_spec(),
            None => self.occupied.render_spec(),
        }
    }

    /// Wipes the new head, then draws the freed tail again.
    open spec fn erase_spec(&self) -> Seq<DrawCmd> {
        match self.freed {
            Some(segment) => self.occupied.erase_spec() + segment.render_spec(),
            None => self.occupied.erase_spec(),
        }
    }

    fn render(&self) -> (cmds: Vec<DrawCmd>) {
        let mut cmds = self.occupied.render();
        if let Some(segment) = &self.freed {
            let mut rest = segment.erase();
            cmds.append(&mut rest);
        }
        cmds
    }

    fn erase(&self) -> (cmds: Vec<DrawCmd>) {
        let mut cmds = self.occupied.erase();
        if let Some(segment) = &self.freed {
            let mut rest = segment.render();
            cmds.append(&mut rest);
        }
        cmds
    }
}

/// The positions of a body, head first.
pub open spec fn seg_positions(body: Seq<SnakeSegment>) -> Seq<Position> {
    body.map_values(|s: SnakeSegment| s.pos)
}

/// The commands that draw a whole body: for each segment, head first, the
/// two commands of its cell.
pub open spec fn body_cmds(body: Seq<SnakeSegment>) -> Seq<DrawCmd> {
    Seq::new(2 * body.len(), |k: int| body[k / 2].render_spec()[k % 2])
}

/// What a snake is, apart from how it is stored.
pub struct SnakeModel {
    /// The segments, head first.
    pub body: Seq<SnakeSegment>,
    /// The way the snake faces: where its next head goes.
    pub dir: Direction,
    /// The number of coming steps that grow the snake.
    pub pending_growth: nat,
    /// The number of frames between two steps.
    pub speed: int,
}

impl SnakeModel {
    /// Whether some segment lies at `pos`.
    pub open spec fn occupies(self, pos: Position) -> bool {
        seg_positions(self.body).contains(pos)
    }

    /// The segment that growing appends: one displacement behind the tail,
    /// against the tail's own direction, with the tail's direction and
    /// colour; for an empty body the seed segment, facing as the snake does.
    pub open spec fn tail_growth(self) -> SnakeSegment {
        if self.body.len() > 0 {
            let last = self.body.last();
            SnakeSegment {
                pos: pos_sum(last.pos, pos_opposite(last.dir.delta_spec())),
                dir: last.dir,
                color: last.color,
            }
        } else {
            SnakeSegment { pos: (SEED_X, SEED_Y), dir: self.dir, color: SEED_COLOR }
        }
    }

    /// Whether the cell behind the tail exists and is free.
    pub open spec fn can_grow(self) -> bool {
        &&& self.body.len() > 0 ==> pos_add_fits(
            self.body.last().pos,
            pos_opposite(self.body.last().dir.delta_spec()),
        )
        &&& !self.occupies(self.tail_growth().pos)
    }

    /// The snake with one more segment at its tail.
    pub open spec fn grow(self) -> SnakeModel {
        SnakeModel { body: self.body.push(self.tail_growth()), ..self }
    }

    /// The snake without its tail segment.
    pub open spec fn shrink(self) -> SnakeModel {
        if self.body.len() > 0 {
            SnakeModel { body: self.body.drop_last(), ..self }
        } else {
            self
        }
    }

    /// Whether there is a head, and a cell in front of it.
    pub open spec fn can_step(self) -> bool {
        &&& self.body.len() > 0
        &&& pos_add_fits(self.body[0].pos, self.dir.delta_spec())
    }

    /// The next step: the head moves one displacement the way the snake
    /// faces and keeps the colour; the tail is freed exactly when no growth
    /// is pending.
    pub open spec fn next_step(self) -> SnakeStep {
        SnakeStep {
            freed: if self.pending_growth == 0 {
                Some(self.body.last())
            } else {
                None
            },
            occupied: SnakeSegment {
                pos: pos_sum(self.body[0].pos, self.dir.delta_spec()),
                dir: self.dir,
                color: self.body[0].color,
            },
        }
    }

    /// Whether committing `step` leaves every segment on a cell of its own:
    /// a step that frees no tail needs pending growth and a free cell
    /// behind the tail, and in both cases the new head must not land on a
    /// segment that stays.
    pub open spec fn can_commit(self, step: SnakeStep) -> bool {
        match step.freed {
            Some(_) => !self.shrink().occupies(step.occupied.pos),
            None => {
                &&& self.pending_growth > 0
                &&& self.can_grow()
                &&& !self.grow().occupies(step.occupied.pos)
            },
        }
    }

    /// The snake after `step`: without its tail if the step frees one, else
    /// grown by one at the tail with one pending growth used up; in both
    /// cases with the step's segment as the new head.
    pub open spec fn commit(self, step: SnakeStep) -> SnakeModel {
        match step.freed {
            Some(_) => SnakeModel { body: seq![step.occupied] + self.shrink().body, ..self },
            None => SnakeModel {
                body: seq![step.occupied] + self.grow().body,
                pending_growth: (self.pending_growth - 1) as nat,
                ..self
            },
        }
    }

    /// The snake after a request to face `dir`: unchanged if that would
    /// reverse it, else facing `dir`.
    pub open spec fn turn(self, dir: Direction) -> SnakeModel {
        if dir.delta_spec() == pos_opposite(self.dir.delta_spec()) {
            self
        } else {
            SnakeModel { dir, ..self }
        }
    }

    /// The snake after `n` steps, each computed from the state before it.
    pub open spec fn run(self, n: nat) -> SnakeModel
        decreases n,
    {
        if n == 0 {
            self
        } else {
            let before = self.run((n - 1) as nat);
            before.commit(before.next_step())
        }
    }

    /// The snake after the requests to face each of `dirs` in turn.
    pub open spec fn turn_all(self, dirs: Seq<Direction>) -> SnakeModel
        decreases dirs.len(),
    {
        if dirs.len() == 0 {
            self
        } else {
            self.turn_all(dirs.drop_last()).turn(dirs.last())
        }
    }

    /// The snake with `n` more growths pending.
    pub open spec fn ask_growth(self, n: nat) -> SnakeModel {
        SnakeModel { pending_growth: self.pending_growth + n, ..self }
    }

    /// Whether all segments have the colour of the head.
    pub open spec fn one_color(self) -> bool {
        forall|i: int| 0 <= i < self.body.len() ==> (#[trigger] self.body[i]).color
            == self.body[0].color
    }
}

/// A request to turn never leaves the snake facing the reverse of the way it
/// faced before: it is either taken up or, being that reverse, dropped.
pub proof fn lemma_turn_never_reverses(snake: SnakeModel, dir: Direction)
    ensures
        snake.turn(dir).dir != snake.dir.reversed(),
        dir == snake.dir.reversed() ==> snake.turn(dir) == snake,
        dir != snake.dir.reversed() ==> snake.turn(dir) == (SnakeModel { dir, ..snake }),
{
    lemma_delta_reverse(dir, snake.dir);
}

/// Through any sequence of requests to turn, the direction after each
/// request is never the reverse of the direction just before it, and
/// nothing but the direction changes.
pub proof fn lemma_turns_never_reverse(snake: SnakeModel, dirs: Seq<Direction>, k: int)
    requires
        0 <= k < dirs.len(),
    ensures
        snake.turn_all(dirs.take(k + 1)).dir != snake.turn_all(dirs.take(k)).dir.reversed(),
        snake.turn_all(dirs.take(k + 1)) == snake.turn_all(dirs.take(k)).turn(dirs[k]),
        snake.turn_all(dirs) == (SnakeModel { dir: snake.turn_all(dirs).dir, ..snake }),
    decreases dirs.len(),
{
    let upto = dirs.take(k + 1);
    assert(upto.drop_last() =~= dirs.take(k));
    lemma_turn_never_reverses(snake.turn_all(dirs.take(k)), dirs[k]);
    lemma_turns_keep_rest(snake, dirs);
}

proof fn lemma_turns_keep_rest(snake: SnakeModel, dirs: Seq<Direction>)
    ensures
        snake.turn_all(dirs) == (SnakeModel { dir: snake.turn_all(dirs).dir, ..snake }),
    decreases dirs.len(),
{
    if dirs.len() > 0 {
        lemma_turns_keep_rest(snake, dirs.drop_last());
    }
}

/// After a request for `n` growths, each of the next `n` steps frees no
/// tail cell and adds one segment at the head and one at the tail: after
/// `k` of them the body is longer by `2 * k` and `n - k` of the requested
/// growths are still pending.
pub proof fn lemma_growth_steps(snake: SnakeModel, n: nat, k: nat)
    requires
        k <= n,
    ensures
        snake.ask_growth(n).run(k).pending_growth == snake.pending_growth + n - k,
        snake.ask_growth(n).run(k).body.len() == snake.body.len() + 2 * k,
        k < n ==> snake.ask_growth(n).run(k).next_step().freed is None,
        snake.ask_growth(n).run(k).dir == snake.dir,
        snake.ask_growth(n).run(k).speed == snake.speed,
    decreases k,
{
    if k > 0 {
        lemma_growth_steps(snake, n, (k - 1) as nat);
    }
}

/// With no growth pending, a step frees exactly the tail cell and adds
/// exactly the cell in front of the head: the body keeps its length, loses
/// its last segment and gains the new head, and no growth is pending
/// afterwards either.
pub proof fn lemma_steady_step(snake: SnakeModel)
    requires
        snake.pending_growth == 0,
        snake.body.len() > 0,
    ensures
        snake.next_step().freed == Some(snake.body.last()),
        snake.next_step().occupied.pos == pos_sum(snake.body[0].pos, snake.dir.delta_spec()),
        snake.commit(snake.next_step()).body == seq![snake.next_step().occupied]
            + snake.body.drop_last(),
        snake.commit(snake.next_step()).body.len() == snake.body.len(),
        snake.commit(snake.next_step()).pending_growth == 0,
{
}

/// With no growth pending, a step that may be committed on a snake whose
/// segments lie on cells of their own changes the set of occupied cells by
/// exactly two cells: the tail's cell leaves and the new head's cell comes.
pub proof fn lemma_steady_step_cells(snake: SnakeModel)
    requires
        snake.pending_growth == 0,
        snake.body.len() > 0,
        seg_positions(snake.body).no_duplicates(),
        snake.can_commit(snake.next_step()),
    ensures
        seg_positions(snake.commit(snake.next_step()).body).to_set() == seg_positions(
            snake.body,
        ).to_set().remove(snake.body.last().pos).insert(snake.next_step().occupied.pos),
        seg_positions(snake.commit(snake.next_step()).body).no_duplicates(),
        seg_positions(snake.commit(snake.next_step()).body).to_set().len() == snake.body.len(),
{
    let step = snake.next_step();
    let before = seg_positions(snake.body);
    let rest = seg_positions(snake.body.drop_last());
    let after = seg_positions(snake.commit(step).body);
    let n = snake.body.len() as int;
    assert forall|p: Position|
        after.to_set().contains(p) <==> before.to_set().remove(before[n - 1]).insert(
            step.occupied.pos,
        ).contains(p) by {
        if after.contains(p) {
            let i = choose|i: int| 0 <= i < after.len() && after[i] == p;
            if i > 0 {
                assert(before[i - 1] == p);
            }
        }
        if before.contains(p) && p != before[n - 1] {
            let i = choose|i: int| 0 <= i < before.len() && before[i] == p;
            assert(after[i + 1] == p);
        }
        if p == step.occupied.pos {
            assert(after[0] == p);
        }
    }
    assert forall|i: int, j: int| 0 <= i < after.len() && 0 <= j < after.len() && i != j implies after[i]
        != after[j] by {
        if i == 0 {
            assert(rest[j - 1] == after[j]);
        } else if j == 0 {
            assert(rest[i - 1] == after[i]);
        } else {
            assert(before[i - 1] != before[j - 1]);
        }
    }
    after.unique_seq_to_set();
}

/// Growing and stepping keep a snake in one colour: the segment that grows
/// at the tail takes the tail's colour, and the new head of a computed step
/// takes the old head's.
pub proof fn lemma_color_is_kept(snake: SnakeModel)
    requires
        snake.one_color(),
    ensures
        snake.grow().one_color(),
        snake.body.len() > 0 ==> snake.commit(snake.next_step()).one_color(),
        snake.body.len() > 0 ==> snake.commit(snake.next_step()).body[0].color
            == snake.body[0].color,
        snake.body.len() == 0 ==> snake.grow().body[0].color == SEED_COLOR,
{
}

/// The number under which a cell is kept in the occupancy set: distinct
/// cells have distinct numbers.
spec fn cell_key(pos: Position) -> u32 {
    ((pos.0 + 32768) * 65536 + (pos.1 + 32768)) as u32
}

proof fn lemma_cell_key_injective(a: Position, b: Position)
    ensures
        cell_key(a) == cell_key(b) <==> a == b,
{
}

fn pos_key(pos: Position) -> (k: u32)
    ensures
        k == cell_key(pos),
{
    let x: u32 = (pos.0 as i32 + 32768) as u32;
    let y: u32 = (pos.1 as i32 + 32768) as u32;
    x * 65536 + y
}

/// The snake.
pub struct Snake {
    body: VecDeque<SnakeSegment>,  // head at front
    cells: HashSet<u32>,  // the keys of the body's cells
    dir: Direction,
    pending_growth: usize,
    pub speed: i32,
}

impl View for Snake {
    type V = SnakeModel;

    closed spec fn view(&self) -> SnakeModel {
        SnakeModel {
            body: self.body@,
            dir: self.dir,
            pending_growth: self.pending_growth as nat,
            speed: self.speed as int,
        }
    }
}

impl Snake {
    /// The cells in the occupancy set.
    pub closed spec fn occupied(&self) -> Set<Position> {
        Set::new(|pos: Position| self.cells@.contains(cell_key(pos)))
    }

    /// The occupancy set mirrors the body, and no two segments share a cell.
    pub closed spec fn wf(&self) -> bool {
        &&& self.cells@.finite()
        &&& self.cells@.len() == self.body@.len()
        &&& forall|k: u32|
            self.cells@.contains(k) <==> exists|i: int|
                0 <= i < self.body@.len() && cell_key(#[trigger] self.body@[i].pos) == k
        &&& forall|i: int, j: int|
            0 <= i < j < self.body@.len() ==> (#[trigger] self.body@[i]).pos != (
            #[trigger] self.body@[j]).pos
    }

    /// In a well-formed snake the occupancy set holds exactly the cells of
    /// the body, each once: its size is the body's length.
    pub proof fn lemma_occupied_mirrors_body(&self)
        requires
            self.wf(),
        ensures
            self.occupied() == seg_positions(self@.body).to_set(),
            seg_positions(self@.body).no_duplicates(),
            self.occupied().finite(),
            self.occupied().len() == self@.body.len(),
            forall|pos: Position| self.occupied().contains(pos) <==> self@.occupies(pos),
    {
        let positions = seg_positions(self@.body);
        assert forall|pos: Position| self.occupied().contains(pos) <==> positions.contains(
            pos,
        ) by {
            if self.occupied().contains(pos) {
                let i = choose|i: int|
                    0 <= i < self.body@.len() && cell_key(#[trigger] self.body@[i].pos) == cell_key(
                        pos,
                    );
                lemma_cell_key_injective(self.body@[i].pos, pos);
                assert(positions[i] == pos);
            }
        }
        assert(self.occupied() =~= positions.to_set());
        positions.unique_seq_to_set();
    }

    /// An empty snake that faces east.
    pub fn new() -> (snake: Self)
        ensures
            snake.wf(),
            snake@ == (SnakeModel {
                body: Seq::empty(),
                dir: Direction::East,
                pending_growth: 0,
                speed: START_SPEED as int,
            }),
    {
        Self {
            body: VecDeque::new(),
            cells: HashSet::new(),
            dir: Direction::East,
            pending_growth: 0,
            speed: START_SPEED,
        }
    }

    /// The number of segments.
    pub fn len(&self) -> (n: usize)
        ensures
            n == self@.body.len(),
    {
        self.body.len()
    }

    /// The segment at `index`, counted from the head.
    pub fn segment(&self, index: usize) -> (segment: &SnakeSegment)
        requires
            index < self@.body.len(),
        ensures
            *segment == self@.body[index as int],
    {
        &self.body[index]
    }

    /// The way the snake faces.
    pub fn direction(&self) -> (dir: Direction)
        ensures
            dir == self@.dir,
    {
        self.dir
    }

    /// The number of coming steps that grow the snake.
    pub fn pending_growth(&self) -> (n: usize)
        ensures
            n == self@.pending_growth,
    {
        self.pending_growth
    }

    /// The number of frames between two steps.
    pub fn speed(&self) -> (speed: i32)
        ensures
            speed == self@.speed,
    {
        self.speed
    }

    /// The size of the occupancy set, which is the number of segments.
    pub fn cell_count(&self) -> (n: usize)
        requires
            self.wf(),
        ensures
            n == self.occupied().len(),
            n == self@.body.len(),
    {
        proof {
            self.lemma_occupied_mirrors_body();
        }
        self.cells.len()
    }

    /// Whether a segment lies at `pos`, by one look into the occupancy set.
    pub fn occupies(&self, pos: Position) -> (hit: bool)
        requires
            self.wf(),
        ensures
            hit == self.occupied().contains(pos),
            hit == self@.occupies(pos),
    {
        proof {
            self.lemma_occupied_mirrors_body();
        }
        let key = pos_key(pos);
        self.cells.contains(&key)
    }

    /// Whether `grow_snake` may be called: the cell behind the tail exists
    /// and is free.
    pub fn can_grow(&self) -> (ok: bool)
        requires
            self.wf(),
        ensures
            ok == self@.can_grow(),
    {
        proof {
            self.lemma_occupied_mirrors_body();
        }
        let n: usize = self.body.len();
        if n > 0 {
            let last: SnakeSegment = self.body[n - 1];
            let back: Position = pos_neg(last.dir.delta());
            if !can_add(last.pos, back) {
                return false;
            }
            let key: u32 = pos_key(pos_add(last.pos, back));
            !self.cells.contains(&key)
        } else {
            true
        }
    }

    /// Appends one segment at the tail: one displacement behind the tail,
    /// against the tail's own direction. The first segment of an empty
    /// snake goes to the seed cell and faces as the snake does.
    pub fn grow_snake(&mut self)
        requires
            old(self).wf(),
            old(self)@.can_grow(),
        ensures
            final(self).wf(),
            final(self)@ == old(self)@.grow(),
    {
        proof {
            self.lemma_occupied_mirrors_body();
        }
        let n: usize = self.body.len();
        let new_seg = if n > 0 {
            let last: SnakeSegment = self.body[n - 1];
            let pos: Position = pos_add(last.pos, pos_neg(last.dir.delta()));
            SnakeSegment { pos, dir: last.dir, color: last.color }
        } else {
            SnakeSegment { pos: (SEED_X, SEED_Y), dir: self.dir, color: SEED_COLOR }
        };
        self.cells.insert(pos_key(new_seg.pos));
        self.body.push_back(new_seg);
        proof {
            let before = old(self).body@;
            let after = self.body@;
            assert forall|k: u32|
                self.cells@.contains(k) <==> exists|i: int|
                    0 <= i < after.len() && cell_key(#[trigger] after[i].pos) == k by {
                if self.cells@.contains(k) {
                    if k == cell_key(new_seg.pos) {
                        assert(cell_key(after[n as int].pos) == k);
                    } else {
                        let i = choose|i: int|
                            0 <= i < before.len() && cell_key(#[trigger] before[i].pos) == k;
                        assert(cell_key(after[i].pos) == k);
                    }
                }
            }
        }
    }

    /// Asks for `n` more segments. They come one per step, over the next
    /// `n` steps that find growth pending.
    pub fn grow_by(&mut self, n: usize)
        requires
            old(self)@.pending_growth + n <= usize::MAX,
        ensures
            final(self)@ == (SnakeModel {
                pending_growth: old(self)@.pending_growth + n as nat,
                ..old(self)@
            }),
            final(self).occupied() == old(self).occupied(),
            old(self).wf() ==> final(self).wf(),
    {
        self.pending_growth += n;
    }

    /// Whether `next_step` may be called: there is a head, and a cell in
    /// front of it.
    pub fn can_step(&self) -> (ok: bool)
        ensures
            ok == self@.can_step(),
    {
        self.body.len() > 0 && can_add(self.body[0].pos, self.dir.delta())
    }

    /// Computes the next step and leaves the snake as it is.
    pub fn next_step(&self) -> (step: SnakeStep)
        requires
            self@.can_step(),
        ensures
            step == self@.next_step(),
    {
        let n: usize = self.body.len();
        let freed = if self.pending_growth == 0 {
            Some(self.body[n - 1])
        } else {
            None
        };
        let cur_head: SnakeSegment = self.body[0];
        let new_head = SnakeSegment {
            pos: pos_add(cur_head.pos, self.dir.delta()),
            dir: self.dir,
            color: cur_head.color,
        };
        SnakeStep { freed, occupied: new_head }
    }

    /// Whether `move_snake` may be called with `step`.
    pub fn can_move(&self, step: &SnakeStep) -> (ok: bool)
        requires
            self.wf(),
        ensures
            ok == self@.can_commit(*step),
    {
        proof {
            self.lemma_occupied_mirrors_body();
        }
        let n: usize = self.body.len();
        let target: Position = step.occupied.pos;
        let taken: bool = self.cells.contains(&pos_key(target));
        assert(taken == self@.occupies(target));
        match step.freed {
            Some(_) => {
                if n > 0 {
                    let last: Position = self.body[n - 1].pos;
                    let leaving: bool = last.0 == target.0 && last.1 == target.1;
                    proof {
                        let positions = seg_positions(self.body@);
                        let rest = seg_positions(self.body@.drop_last());
                        if positions.contains(target) && !leaving {
                            let i = choose|i: int|
                                0 <= i < positions.len() && positions[i] == target;
                            assert(rest[i] == target);
                        }
                    }
                    !taken || leaving
                } else {
                    !taken
                }
            },
            None => {
                if self.pending_growth == 0 || !self.can_grow() {
                    return false;
                }
                let grown: Position = if n > 0 {
                    let last: SnakeSegment = self.body[n - 1];
                    pos_add(last.pos, pos_neg(last.dir.delta()))
                } else {
                    (SEED_X, SEED_Y)
                };
                let onto_growth: bool = grown.0 == target.0 && grown.1 == target.1;
                proof {
                    let positions = seg_positions(self.body@);
                    let more = seg_positions(self@.grow().body);
                    if positions.contains(target) {
                        let i = choose|i: int|
                            0 <= i < positions.len() && positions[i] == target;
                        assert(more[i] == target);
                    }
                    if onto_growth {
                        assert(more[n as int] == target);
                    }
                }
                !taken && !onto_growth
            },
        }
    }

    /// Applies a step. If the step frees a tail, the tail segment leaves the
    /// body and its cell leaves the occupancy set; else one pending growth
    /// is used up and the snake grows at the tail. Then the step's segment
    /// becomes the new head. Afterwards the occupancy set again has one
    /// cell per segment.
    pub fn move_snake(&mut self, next_step: SnakeStep)
        requires
            old(self).wf(),
            old(self)@.can_commit(next_step),
        ensures
            final(self).wf(),
            final(self)@ == old(self)@.commit(next_step),
            final(self).occupied().len() == final(self)@.body.len(),
    {
        match next_step.freed {
            Some(_) => {
                if let Some(tail) = self.body.pop_back() {
                    self.cells.remove(&pos_key(tail.pos));
                    proof {
                        let before = old(self).body@;
                        let after = self.body@;
                        assert forall|k: u32|
                            self.cells@.contains(k) <==> exists|i: int|
                                0 <= i < after.len() && cell_key(#[trigger] after[i].pos) == k by {
                            if self.cells@.contains(k) {
                                let i = choose|i: int|
                                    0 <= i < before.len() && cell_key(#[trigger] before[i].pos)
                                        == k;
                                assert(cell_key(after[i].pos) == k);
                            }
                            if exists|i: int|
                                0 <= i < after.len() && cell_key(#[trigger] after[i].pos) == k {
                                let i = choose|i: int|
                                    0 <= i < after.len() && cell_key(#[trigger] after[i].pos) == k;
                                lemma_cell_key_injective(before[i].pos, tail.pos);
                            }
                        }
                    }
                }
            },
            None => {
                self.pending_growth -= 1;
                self.grow_snake();
            },
        }
        assert(self@.body == old(self)@.commit(next_step).body.drop_first());
        proof {
            self.lemma_occupied_mirrors_body();
        }
        let ghost middle = self.body@;
        self.cells.insert(pos_key(next_step.occupied.pos));
        self.body.push_front(next_step.occupied);
        proof {
            let after = self.body@;
            assert forall|k: u32|
                self.cells@.contains(k) <==> exists|i: int|
                    0 <= i < after.len() && cell_key(#[trigger] after[i].pos) == k by {
                if self.cells@.contains(k) {
                    if k == cell_key(next_step.occupied.pos) {
                        assert(cell_key(after[0].pos) == k);
                    }
                }
            }
            assert forall|i: int, j: int| 0 <= i < j < after.len() implies (#[trigger] after[i]).pos
                != (#[trigger] after[j]).pos by {
                if i == 0 {
                    assert(seg_positions(middle)[j - 1] == middle[j - 1].pos);
                }
            }
            self.lemma_occupied_mirrors_body();
        }
    }

    /// The head segment.
    pub fn head(&self) -> (head: &SnakeSegment)
        requires
            self@.body.len() > 0,
        ensures
            *head == self@.body[0],
    {
        &self.body[0]
    }

    /// Whether every segment can be drawn.
    pub open spec fn drawable(&self) -> bool {
        forall|i: int| 0 <= i < self@.body.len() ==> (#[trigger] self@.body[i]).drawable()
    }

    /// The commands that draw the whole snake, head first.
    pub fn render_snake(&self) -> (cmds: Vec<DrawCmd>)
        requires
            self.drawable(),
        ensures
            cmds@ == body_cmds(self@.body),
    {
        let mut cmds: Vec<DrawCmd> = Vec::new();
        let mut i: usize = 0;
        while i < self.body.len()
            invariant
                self.drawable(),
                i <= self.body.len(),
                cmds@ == body_cmds(self@.body.take(i as int)),
            decreases self.body.len() - i,
        {
            let mut cell = self.body[i].render();
            cmds.append(&mut cell);
            i += 1;
        }
        cmds
    }

    /// The commands that wipe the tail segment.
    pub fn erase_tail(&self) -> (cmds: Vec<DrawCmd>)
        requires
            self@.body.len() > 0,
            self@.body.last().drawable(),
        ensures
            cmds@ == self@.body.last().erase_spec(),
    {
        let n: usize = self.body.len();
        self.body[n - 1].erase()
    }

    /// The commands that draw the head segment.
    pub fn render_head(&self) -> (cmds: Vec<DrawCmd>)
        requires
            self@.body.len() > 0,
            self@.body[0].drawable(),
        ensures
            cmds@ == self@.body[0].render_spec(),
    {
        self.body[0].render()
    }

    /// Turns the snake to face `dir`, unless that is the exact reverse of
    /// the way it faces now: then nothing changes. The snake never comes to
    /// face the reverse of the way it faced before the call.
    pub fn turn(&mut self, dir: Direction)
        ensures
            final(self)@ == old(self)@.turn(dir),
            final(self)@.dir == (if dir == old(self)@.dir.reversed() {
                old(self)@.dir
            } else {
                dir
            }),
            final(self)@.dir != old(self)@.dir.reversed(),
            final(self).occupied() == old(self).occupied(),
            old(self).wf() ==> final(self).wf(),
    {
        let wanted: Position = dir.delta();
        let back: Position = pos_neg(self.dir.delta());
        if wanted.0 == back.0 && wanted.1 == back.1 {
            return ;
        }
        self.dir = dir
    }
}

} // verus!
