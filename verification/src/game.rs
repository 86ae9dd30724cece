//! The game: what a key does, and what one frame does to the snake, the
//! apple and the frame buffer. The loop that reads keys, writes frames and
//! sleeps stands outside and calls in here once per event.

use crate::apple::{in_spawn_area, Apple, APPLE_COLOR};
use crate::renderer::{
    all_on_screen, cell_cmds, cell_fits, placed, CellWrite, Color, DrawCmd, Renderable, Renderer,
    FULL_BLOCK,
};
use crate::snake::{
    body_cmds, Snake, SnakeModel, SnakeSegment, SEED_COLOR, SEED_X, SEED_Y, START_SPEED,
};
use crate::util::{Direction, Position};
use vstd::prelude::*;

verus! {

/// The number of frames after which the frame counter starts again at 0.
pub const TARGET_FPS: i32 = 60;

/// The number of segments the snake has when play begins.
pub const START_LENGTH: usize = 8;

/// The column of the apple when play begins.
pub const FIRST_APPLE_X: i16 = 4;

/// The row of the apple when play begins.
pub const FIRST_APPLE_Y: i16 = 0;

/// The number of segments one apple is worth.
pub const GROWTH_PER_APPLE: usize = 1;

/// Where the game stands. Nothing leads into or out of `Paused`.
#[derive(Clone, Copy, Debug, PartialEq, Eq, Structural)]
pub enum GameState {
    Playing,
    Paused,
    GameOver,
}

/// A key press, as far as the game tells keys apart.
#[derive(Clone, Copy, Debug, PartialEq, Eq, Structural)]
pub enum Key {
    Char(char),
    Esc,
    Other,
}

/// What a key asks for.
#[derive(Clone, Copy, Debug, PartialEq, Eq, Structural)]
pub enum Action {
    Turn(Direction),
    Quit,
    Nothing,
}

/// The meaning of each key: `k`, `j`, `h` and `l` turn the snake north,
/// south, west and east, `q` and Escape end the game, every other key does
/// nothing.
pub open spec fn key_action(key: Key) -> Action {
    match key {
        Key::Char(c) => if c == 'k' {
            Action::Turn(Direction::North)
        } else if c == 'j' {
            Action::Turn(Direction::South)
        } else if c == 'h' {
            Action::Turn(Direction::West)
        } else if c == 'l' {
            Action::Turn(Direction::East)
        } else if c == 'q' {
            Action::Quit
        } else {
            Action::Nothing
        },
        Key::Esc => Action::Quit,
        Key::Other => Action::Nothing,
    }
}

/// Looks up what a key asks for.
pub fn action_of(key: Key) -> (action: Action)
    ensures
        action == key_action(key),
{
    match key {
        Key::Char(c) => if c == 'k' {
            Action::Turn(Direction::North)
        } else if c == 'j' {
            Action::Turn(Direction::South)
        } else if c == 'h' {
            Action::Turn(Direction::West)
        } else if c == 'l' {
            Action::Turn(Direction::East)
        } else if c == 'q' {
            Action::Quit
        } else {
            Action::Nothing
        },
        Key::Esc => Action::Quit,
        Key::Other => Action::Nothing,
    }
}

/// The cell of segment `i` of a snake laid out in a straight line from the
/// seed cell, each segment one displacement behind the one before it.
pub open spec fn line_pos(dir: Direction, i: int) -> Position {
    match dir {
        Direction::North => (SEED_X, (SEED_Y - i) as i16),
        Direction::East => ((SEED_X - 2 * i) as i16, SEED_Y),
        Direction::South => (SEED_X, (SEED_Y + i) as i16),
        Direction::West => ((SEED_X + 2 * i) as i16, SEED_Y),
    }
}

/// The body of a snake of `n` segments laid out in a straight line from the
/// seed cell, all facing `dir`, all in the seed colour.
pub open spec fn line_body(dir: Direction, n: nat) -> Seq<SnakeSegment> {
    Seq::new(n, |i: int| SnakeSegment { pos: line_pos(dir, i), dir, color: SEED_COLOR })
}

/// What a game is, apart from how it is stored.
pub struct GameModel {
    pub snake: SnakeModel,
    /// Where the apple lies.
    pub apple: Position,
    pub apple_color: Color,
    /// The draw commands waiting for the next frame, oldest first.
    pub buffer: Seq<DrawCmd>,
    /// The screen's size: columns, then rows.
    pub size: (u16, u16),
    pub state: GameState,
    /// The number of the frame within the current second.
    pub frame: int,
}

impl GameModel {
    /// The commands that draw the apple.
    pub open spec fn apple_cmds(self) -> Seq<DrawCmd> {
        cell_cmds(self.apple, FULL_BLOCK, self.apple_color)
    }

    /// The game after a key: a turn goes to the snake, a quit ends the
    /// game, anything else changes nothing.
    pub open spec fn after_key(self, key: Key) -> GameModel {
        match key_action(key) {
            Action::Turn(dir) => GameModel { snake: self.snake.turn(dir), ..self },
            Action::Quit => GameModel { state: GameState::GameOver, ..self },
            Action::Nothing => self,
        }
    }

    /// Whether the snake moves in this frame: in every frame whose number
    /// its speed divides.
    pub open spec fn due(self) -> bool {
        self.frame % self.snake.speed == 0
    }

    /// The snake after this frame's movement, if there is one.
    pub open spec fn moved(self) -> SnakeModel {
        if self.due() {
            self.snake.commit(self.snake.next_step())
        } else {
            self.snake
        }
    }

    /// The commands of this frame's movement, if there is one.
    pub open spec fn move_cmds(self) -> Seq<DrawCmd> {
        if self.due() {
            self.snake.next_step().render_spec()
        } else {
            Seq::empty()
        }
    }

    /// Whether the snake's head, after this frame's movement, lies on the
    /// apple.
    pub open spec fn hits(self) -> bool {
        self.moved().body[0].pos == self.apple
    }

    /// Whether `tick` may be called: the snake has a head and a speed other
    /// than 0; a movement that is due has a cell to go to, can be drawn and
    /// leaves every segment on a cell of its own; and where the head then
    /// lies on the apple, the growth counter has room and the screen has
    /// the two rows that an apple needs to land.
    pub open spec fn can_tick(self) -> bool {
        &&& self.snake.body.len() > 0
        &&& self.snake.speed != 0
        &&& self.due() ==> {
            &&& self.snake.can_step()
            &&& self.snake.next_step().drawable()
            &&& self.snake.can_commit(self.snake.next_step())
        }
        &&& self.hits() ==> {
            &&& self.moved().pending_growth + GROWTH_PER_APPLE <= usize::MAX
            &&& self.size.1 >= 2
        }
    }

    /// The game after one frame in which an eaten apple lands at
    /// `new_apple`. The snake moves if a movement is due. If its head then
    /// lies on the apple, one more growth is pending and the apple lies at
    /// `new_apple`. The buffer gains the commands of the movement and then
    /// those of the apple's new place. The frame number goes up by one and
    /// starts again at 0 after a second.
    pub open spec fn after_tick(self, new_apple: Position) -> GameModel {
        let moved = self.moved();
        let next_frame = if self.frame + 1 == TARGET_FPS {
            0
        } else {
            self.frame + 1
        };
        if self.hits() {
            let landed = GameModel { apple: new_apple, ..self };
            GameModel {
                snake: SnakeModel {
                    pending_growth: moved.pending_growth + GROWTH_PER_APPLE as nat,
                    ..moved
                },
                apple: new_apple,
                buffer: self.buffer + self.move_cmds() + landed.apple_cmds(),
                frame: next_frame,
                ..self
            }
        } else {
            GameModel {
                snake: moved,
                buffer: self.buffer + self.move_cmds(),
                frame: next_frame,
                ..self
            }
        }
    }
}

/// The game.
pub struct Game {
    snake: Snake,
    apple: Apple,
    renderer: Renderer,
    state: GameState,
    frames_elapsed: i32,
}

impl View for Game {
    type V = GameModel;

    closed spec fn view(&self) -> GameModel {
        GameModel {
            snake: self.snake@,
            apple: self.apple.pos_spec(),
            apple_color: self.apple.color_spec(),
            buffer: self.renderer@,
            size: self.renderer.size_spec(),
            state: self.state,
            frame: self.frames_elapsed as int,
        }
    }
}

impl Game {
    /// The snake is well formed and the frame number lies within a second.
    pub closed spec fn wf(&self) -> bool {
        &&& self.snake.wf()
        &&& 0 <= self.frames_elapsed < TARGET_FPS
    }

    /// The number of cells in the snake's occupancy set.
    pub closed spec fn occupied_len(&self) -> nat {
        self.snake.occupied().len()
    }

    /// A game on a screen of `size` columns and rows: an empty snake that
    /// faces east, a red apple four columns right of the centre, an empty
    /// frame buffer.
    pub fn new(size: (u16, u16)) -> (game: Self)
        ensures
            game.wf(),
            game@ == (GameModel {
                snake: SnakeModel {
                    body: Seq::empty(),
                    dir: Direction::East,
                    pending_growth: 0,
                    speed: START_SPEED as int,
                },
                apple: (FIRST_APPLE_X, FIRST_APPLE_Y),
                apple_color: APPLE_COLOR,
                buffer: Seq::empty(),
                size,
                state: GameState::Playing,
                frame: 0,
            }),
    {
        Self {
            apple: Apple::new((FIRST_APPLE_X, FIRST_APPLE_Y)),
            snake: Snake::new(),
            state: GameState::Playing,
            renderer: Renderer::new(size),
            frames_elapsed: 0,
        }
    }

    /// Whether the head lies on the apple.
    pub fn collsion(snake_head: &SnakeSegment, apple: &Apple) -> (hit: bool)
        ensures
            hit == (snake_head.pos == apple.pos_spec()),
    {
        let target: Position = apple.position();
        snake_head.pos.0 == target.0 && snake_head.pos.1 == target.1
    }

    /// Whether the game goes on.
    pub fn is_playing(&self) -> (playing: bool)
        ensures
            playing == (self@.state == GameState::Playing),
    {
        match self.state {
            GameState::Playing => true,
            _ => false,
        }
    }

    /// Where the game stands.
    pub fn state(&self) -> (state: GameState)
        ensures
            state == self@.state,
    {
        self.state
    }

    /// The snake.
    pub fn snake(&self) -> (snake: &Snake)
        ensures
            snake@ == self@.snake,
            self.wf() ==> snake.wf(),
            snake.occupied().len() == self.occupied_len(),
    {
        &self.snake
    }

    /// The apple.
    pub fn apple(&self) -> (apple: &Apple)
        ensures
            apple.pos_spec() == self@.apple,
            apple.color_spec() == self@.apple_color,
    {
        &self.apple
    }

    /// The number of the frame within the current second.
    pub fn frames_elapsed(&self) -> (frame: i32)
        ensures
            frame == self@.frame,
    {
        self.frames_elapsed
    }

    /// The screen's size: columns, then rows.
    pub fn screen_size(&self) -> (size: (u16, u16))
        ensures
            size == self@.size,
    {
        self.renderer.size()
    }

    /// The number of draw commands waiting for the next frame.
    pub fn pending(&self) -> (n: usize)
        ensures
            n == self@.buffer.len(),
    {
        self.renderer.pending()
    }

    /// Begins play: grows the empty snake to its starting length, in a
    /// straight line from the seed cell, and queues the apple and then the
    /// whole snake for drawing.
    pub fn start(&mut self)
        requires
            old(self).wf(),
            old(self)@.snake.body.len() == 0,
            cell_fits(old(self)@.apple),
        ensures
            final(self).wf(),
            final(self)@ == (GameModel {
                snake: SnakeModel {
                    body: line_body(old(self)@.snake.dir, START_LENGTH as nat),
                    ..old(self)@.snake
                },
                buffer: old(self)@.buffer + old(self)@.apple_cmds() + body_cmds(
                    line_body(old(self)@.snake.dir, START_LENGTH as nat),
                ),
                ..old(self)@
            }),
    {
        let ghost dir = self.snake@.dir;
        let mut grown: usize = 0;
        assert(self.snake@.body =~= line_body(dir, 0));
        while grown < START_LENGTH
            invariant
                grown <= START_LENGTH,
                self.snake.wf(),
                self.snake@ == (SnakeModel {
                    body: line_body(dir, grown as nat),
                    ..old(self).snake@
                }),
                dir == old(self).snake@.dir,
                self.apple == old(self).apple,
                self.renderer == old(self).renderer,
                self.state == old(self).state,
                self.frames_elapsed == old(self).frames_elapsed,
            decreases START_LENGTH - grown,
        {
            proof {
                let body = self.snake@.body;
                let next = self.snake@.tail_growth();
                assert(next == SnakeSegment {
                    pos: line_pos(dir, grown as int),
                    dir,
                    color: SEED_COLOR,
                });
                assert(body.push(next) =~= line_body(dir, (grown + 1) as nat));
            }
            self.snake.grow_snake();
            grown += 1;
        }
        self.renderer.queue(self.apple.render());
        self.renderer.queue(self.snake.render_snake());
        assert(self@.buffer =~= old(self)@.buffer + old(self)@.apple_cmds() + body_cmds(
            line_body(dir, START_LENGTH as nat),
        ));
    }

    /// Takes a key: turns the snake, ends the game, or does nothing.
    pub fn handle_key(&mut self, key: Key)
        ensures
            final(self)@ == old(self)@.after_key(key),
            final(self).occupied_len() == old(self).occupied_len(),
            old(self).wf() ==> final(self).wf(),
    {
        match action_of(key) {
            Action::Turn(dir) => self.snake.turn(dir),
            Action::Quit => self.state = GameState::GameOver,
            Action::Nothing => {},
        }
    }

    /// Whether `tick` may be called.
    pub fn can_tick(&self) -> (ok: bool)
        requires
            self.wf(),
        ensures
            ok == self@.can_tick(),
    {
        if self.snake.len() == 0 || self.snake.speed() == 0 {
            return false;
        }
        let due: bool = self.frames_elapsed % self.snake.speed() == 0;
        let mut head: Position = self.snake.head().pos;
        let mut pending: usize = self.snake.pending_growth();
        if due {
            if !self.snake.can_step() {
                return false;
            }
            let step = self.snake.next_step();
            let fits: bool = step.occupied.pos.0 < i16::MAX && match step.freed {
                Some(segment) => segment.pos.0 < i16::MAX,
                None => true,
            };
            if !fits || !self.snake.can_move(&step) {
                return false;
            }
            head = step.occupied.pos;
            if step.freed.is_none() {
                pending = pending - 1;
            }
        }
        let target: Position = self.apple.position();
        if head.0 == target.0 && head.1 == target.1 {
            pending <= usize::MAX - GROWTH_PER_APPLE && self.renderer.size().1 >= 2
        } else {
            true
        }
    }

    /// Plays one frame. The snake moves if its speed divides the frame's
    /// number: the step is computed, queued for drawing and committed. If
    /// the head then lies on the apple, the snake is asked to grow, the
    /// apple jumps to a random cell of the spawn area and is queued for
    /// drawing. Then the frame number advances.
    pub fn tick(&mut self)
        requires
            old(self).wf(),
            old(self)@.can_tick(),
        ensures
            final(self).wf(),
            final(self)@ == old(self)@.after_tick(final(self)@.apple),
            old(self)@.hits() ==> in_spawn_area(old(self)@.size, final(self)@.apple),
            final(self).occupied_len() == final(self)@.snake.body.len(),
    {
        if self.frames_elapsed % self.snake.speed() == 0 {
            let step = self.snake.next_step();
            self.renderer.queue(step.render());
            self.snake.move_snake(step);
        }
        if Self::collsion(self.snake.head(), &self.apple) {
            self.snake.grow_by(GROWTH_PER_APPLE);
            self.apple.move_apple(self.renderer.size());
            self.renderer.queue(self.apple.render());
        }
        self.frames_elapsed += 1;
        if self.frames_elapsed == TARGET_FPS {
            self.frames_elapsed = 0
        }
        proof {
            self.snake.lemma_occupied_mirrors_body();
        }
    }

    /// Whether `take_frame` may be called: every waiting draw command falls
    /// on the screen.
    pub fn frame_fits(&self) -> (ok: bool)
        ensures
            ok == all_on_screen(self@.size, self@.buffer),
    {
        self.renderer.frame_fits()
    }

    /// Hands out the writes of the frame, in the order in which they were
    /// queued, and leaves the buffer empty.
    pub fn take_frame(&mut self) -> (writes: Vec<CellWrite>)
        requires
            all_on_screen(old(self)@.size, old(self)@.buffer),
        ensures
            writes@ == placed(old(self)@.size, old(self)@.buffer),
            final(self)@ == (GameModel { buffer: Seq::empty(), ..old(self)@ }),
            final(self).occupied_len() == old(self).occupied_len(),
            old(self).wf() ==> final(self).wf(),
    {
        self.renderer.put()
    }
}

} // verus!
