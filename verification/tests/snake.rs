use snake_game::game::Game;
use snake_game::apple::Apple;
use snake_game::renderer::{Color, DrawCmd, Renderable, StyledChar, BLANK, FULL_BLOCK};
use snake_game::snake::{Snake, SnakeSegment, SnakeStep, SEED_COLOR, START_SPEED};
use snake_game::util::Direction;

fn block(color: Color) -> StyledChar {
    StyledChar { glyph: FULL_BLOCK, color }
}

fn blank(color: Color) -> StyledChar {
    StyledChar { glyph: BLANK, color }
}

fn snake_of(length: usize) -> Snake {
    let mut snake = Snake::new();
    for _ in 0..length {
        assert!(snake.can_grow());
        snake.grow_snake();
    }
    snake
}

fn step(snake: &mut Snake) -> SnakeStep {
    assert!(snake.can_step());
    let next = snake.next_step();
    assert!(snake.can_move(&next));
    snake.move_snake(next);
    next
}

fn positions(snake: &Snake) -> Vec<(i16, i16)> {
    (0..snake.len()).map(|i| snake.segment(i).pos).collect()
}

#[test]
fn new_snake_is_empty_faces_east_and_takes_ten_frames_a_step() {
    let snake = Snake::new();
    assert_eq!(snake.len(), 0);
    assert_eq!(snake.cell_count(), 0);
    assert_eq!(snake.direction(), Direction::East);
    assert_eq!(snake.pending_growth(), 0);
    assert_eq!(snake.speed(), 10);
    assert_eq!(snake.speed, 10);
    assert_eq!(START_SPEED, 10);
    assert!(!snake.can_step());
}

#[test]
fn first_segment_lies_on_the_seed_cell() {
    let snake = snake_of(1);
    assert_eq!(
        *snake.head(),
        SnakeSegment { pos: (-4, 0), dir: Direction::East, color: Color::Blue }
    );
    assert_eq!(SEED_COLOR, Color::Blue);
    assert!(snake.occupies((-4, 0)));
    assert!(!snake.occupies((-6, 0)));
}

#[test]
fn first_segment_faces_as_the_snake_does() {
    let mut snake = Snake::new();
    snake.turn(Direction::North);
    snake.grow_snake();
    snake.grow_snake();
    assert_eq!(
        *snake.segment(0),
        SnakeSegment { pos: (-4, 0), dir: Direction::North, color: Color::Blue }
    );
    assert_eq!(
        *snake.segment(1),
        SnakeSegment { pos: (-4, -1), dir: Direction::North, color: Color::Blue }
    );
}

#[test]
fn seven_growths_make_a_line_of_eight_behind_the_head() {
    let mut snake = snake_of(1);
    for _ in 0..7 {
        snake.grow_snake();
    }
    assert_eq!(snake.len(), 8);
    assert_eq!(snake.cell_count(), 8);
    assert_eq!(snake.head().pos, (-4, 0));
    assert_eq!(
        positions(&snake),
        vec![(-4, 0), (-6, 0), (-8, 0), (-10, 0), (-12, 0), (-14, 0), (-16, 0), (-18, 0)]
    );
    for i in 0..8 {
        assert_eq!(snake.segment(i).pos.1, 0);
        assert_eq!(snake.segment(i).dir, Direction::East);
        assert_eq!(snake.segment(i).color, Color::Blue);
    }
}

#[test]
fn turn_rejects_the_reverse_and_takes_the_rest() {
    let mut snake = snake_of(3);
    assert_eq!(snake.direction(), Direction::East);
    snake.turn(Direction::West);
    assert_eq!(snake.direction(), Direction::East);
    snake.turn(Direction::North);
    assert_eq!(snake.direction(), Direction::North);
    snake.turn(Direction::South);
    assert_eq!(snake.direction(), Direction::North);
    snake.turn(Direction::North);
    assert_eq!(snake.direction(), Direction::North);
    snake.turn(Direction::West);
    assert_eq!(snake.direction(), Direction::West);
    snake.turn(Direction::East);
    assert_eq!(snake.direction(), Direction::West);
    snake.turn(Direction::South);
    assert_eq!(snake.direction(), Direction::South);
    assert_eq!(snake.len(), 3);
    assert_eq!(snake.cell_count(), 3);
}

#[test]
fn no_sequence_of_turns_reverses_the_snake_in_one_turn() {
    let all = [Direction::North, Direction::East, Direction::South, Direction::West];
    let mut snake = snake_of(1);
    let mut seed: u32 = 12345;
    for _ in 0..1000 {
        seed = seed.wrapping_mul(1664525).wrapping_add(1013904223);
        let wanted = all[(seed >> 16) as usize % 4];
        let before = snake.direction();
        snake.turn(wanted);
        let after = snake.direction();
        let reversed = match before {
            Direction::North => Direction::South,
            Direction::East => Direction::West,
            Direction::South => Direction::North,
            Direction::West => Direction::East,
        };
        assert_ne!(after, reversed);
        if wanted == reversed {
            assert_eq!(after, before);
        } else {
            assert_eq!(after, wanted);
        }
    }
}

#[test]
fn next_step_goes_one_displacement_ahead_and_frees_the_tail() {
    let snake = snake_of(3);
    let next = snake.next_step();
    assert_eq!(
        next,
        SnakeStep {
            freed: Some(SnakeSegment { pos: (-8, 0), dir: Direction::East, color: Color::Blue }),
            occupied: SnakeSegment { pos: (-2, 0), dir: Direction::East, color: Color::Blue },
        }
    );
    assert_eq!(snake.len(), 3);
    assert_eq!(snake.head().pos, (-4, 0));
}

#[test]
fn next_step_follows_the_turn_and_records_it_in_the_new_head() {
    let mut snake = snake_of(3);
    snake.turn(Direction::North);
    let next = snake.next_step();
    assert_eq!(
        next.occupied,
        SnakeSegment { pos: (-4, 1), dir: Direction::North, color: Color::Blue }
    );
    snake.turn(Direction::West);
    assert_eq!(snake.next_step().occupied.pos, (-6, 0));
    assert!(!snake.can_move(&snake.next_step()));
}

#[test]
fn steady_step_keeps_the_length_frees_the_tail_and_adds_the_head() {
    let mut snake = snake_of(4);
    let taken = step(&mut snake);
    assert_eq!(taken.freed.map(|s| s.pos), Some((-10, 0)));
    assert_eq!(snake.len(), 4);
    assert_eq!(snake.cell_count(), 4);
    assert_eq!(snake.pending_growth(), 0);
    assert_eq!(positions(&snake), vec![(-2, 0), (-4, 0), (-6, 0), (-8, 0)]);
    assert!(snake.occupies((-2, 0)));
    assert!(!snake.occupies((-10, 0)));
}

#[test]
fn occupancy_set_has_one_cell_per_segment_after_every_step() {
    let mut snake = snake_of(5);
    let turns = [
        Direction::North,
        Direction::North,
        Direction::East,
        Direction::East,
        Direction::South,
        Direction::East,
        Direction::North,
        Direction::East,
    ];
    for (i, dir) in turns.iter().enumerate() {
        if i == 3 {
            snake.grow_by(2);
        }
        snake.turn(*dir);
        step(&mut snake);
        assert_eq!(snake.cell_count(), snake.len());
        for p in positions(&snake) {
            assert!(snake.occupies(p));
        }
    }
    assert_eq!(snake.len(), 9);
}

#[test]
fn grow_by_adds_to_the_pending_growth_and_leaves_the_body() {
    let mut snake = snake_of(2);
    snake.grow_by(3);
    assert_eq!(snake.pending_growth(), 3);
    snake.grow_by(0);
    snake.grow_by(4);
    assert_eq!(snake.pending_growth(), 7);
    assert_eq!(snake.len(), 2);
    assert_eq!(snake.cell_count(), 2);
}

#[test]
fn requested_growth_is_used_up_one_per_step_and_frees_no_tail() {
    let mut snake = snake_of(8);
    snake.grow_by(3);
    for k in 1..=3 {
        let taken = step(&mut snake);
        assert_eq!(taken.freed, None);
        assert_eq!(snake.pending_growth(), 3 - k);
        assert_eq!(snake.len(), 8 + 2 * k);
        assert_eq!(snake.cell_count(), 8 + 2 * k);
    }
    let taken = step(&mut snake);
    assert!(taken.freed.is_some());
    assert_eq!(snake.len(), 14);
}

#[test]
fn growing_step_adds_a_head_in_front_and_a_segment_behind_the_tail() {
    let mut snake = snake_of(2);
    snake.grow_by(1);
    step(&mut snake);
    assert_eq!(positions(&snake), vec![(-2, 0), (-4, 0), (-6, 0), (-8, 0)]);
}

#[test]
fn growth_behind_a_turned_tail_follows_the_tail() {
    let mut snake = snake_of(2);
    snake.turn(Direction::North);
    step(&mut snake);
    step(&mut snake);
    assert_eq!(positions(&snake), vec![(-4, 2), (-4, 1)]);
    assert_eq!(snake.segment(1).dir, Direction::North);
    snake.grow_snake();
    assert_eq!(positions(&snake), vec![(-4, 2), (-4, 1), (-4, 0)]);
    assert_eq!(snake.cell_count(), 3);
}

#[test]
fn can_move_is_false_where_the_head_would_land_on_the_body() {
    let mut snake = snake_of(8);
    snake.turn(Direction::North);
    step(&mut snake);
    snake.turn(Direction::West);
    step(&mut snake);
    snake.turn(Direction::South);
    let onto_body = snake.next_step();
    assert_eq!(onto_body.occupied.pos, (-6, 0));
    assert!(snake.occupies((-6, 0)));
    assert!(!snake.can_move(&onto_body));
    snake.turn(Direction::West);
    assert!(snake.can_move(&snake.next_step()));
}

#[test]
fn can_move_allows_the_head_to_follow_the_tail_onto_the_cell_it_leaves() {
    let mut snake = snake_of(4);
    snake.turn(Direction::North);
    step(&mut snake);
    snake.turn(Direction::West);
    step(&mut snake);
    snake.turn(Direction::South);
    let next = snake.next_step();
    assert_eq!(next.occupied.pos, (-6, 0));
    assert_eq!(next.freed.map(|s| s.pos), Some((-6, 0)));
    assert!(snake.can_move(&next));
    snake.move_snake(next);
    assert_eq!(positions(&snake), vec![(-6, 0), (-6, 1), (-4, 1), (-4, 0)]);
    assert_eq!(snake.cell_count(), 4);
}

#[test]
fn can_move_is_false_for_a_growing_step_without_pending_growth() {
    let snake = snake_of(3);
    let mut next = snake.next_step();
    next.freed = None;
    assert!(!snake.can_move(&next));
}

#[test]
fn can_move_is_false_where_a_growing_head_lands_on_the_new_tail_cell() {
    let mut snake = snake_of(1);
    snake.grow_by(1);
    let mut next = snake.next_step();
    assert_eq!(next.freed, None);
    assert!(snake.can_move(&next));
    next.occupied.pos = (-6, 0);
    assert!(!snake.can_move(&next));
    next.occupied.pos = (-4, 0);
    assert!(!snake.can_move(&next));
}

#[test]
fn can_grow_is_false_where_the_cell_behind_the_tail_is_taken() {
    let mut snake = snake_of(1);
    snake.turn(Direction::North);
    step(&mut snake);
    snake.turn(Direction::West);
    snake.grow_by(1);
    step(&mut snake);
    // head (-6, 1), then (-4, 1), then the grown tail below it at (-4, 0)
    assert_eq!(positions(&snake), vec![(-6, 1), (-4, 1), (-4, 0)]);
    assert!(snake.can_grow());
    snake.grow_snake();
    assert_eq!(snake.segment(3).pos, (-4, -1));
}

#[test]
fn can_step_is_false_at_the_edge_of_the_grid() {
    let mut snake = snake_of(1);
    snake.turn(Direction::North);
    let mut guard = 0;
    while snake.can_step() {
        step(&mut snake);
        guard += 1;
        assert!(guard <= 40000);
    }
    assert_eq!(snake.head().pos, (-4, 32767));
    assert_eq!(guard, 32767);
}

#[test]
fn segment_renders_two_blocks_and_erases_with_two_blanks() {
    let segment = SnakeSegment { pos: (-4, 0), dir: Direction::East, color: Color::Blue };
    assert_eq!(
        segment.render(),
        vec![
            DrawCmd { pos: (-4, 0), content: block(Color::Blue) },
            DrawCmd { pos: (-3, 0), content: block(Color::Blue) },
        ]
    );
    assert_eq!(
        segment.erase(),
        vec![
            DrawCmd { pos: (-4, 0), content: blank(Color::Blue) },
            DrawCmd { pos: (-3, 0), content: blank(Color::Blue) },
        ]
    );
}

#[test]
fn step_renders_the_new_head_then_wipes_the_freed_tail() {
    let snake = snake_of(3);
    let next = snake.next_step();
    assert_eq!(
        next.render(),
        vec![
            DrawCmd { pos: (-2, 0), content: block(Color::Blue) },
            DrawCmd { pos: (-1, 0), content: block(Color::Blue) },
            DrawCmd { pos: (-8, 0), content: blank(Color::Blue) },
            DrawCmd { pos: (-7, 0), content: blank(Color::Blue) },
        ]
    );
    assert_eq!(
        next.erase(),
        vec![
            DrawCmd { pos: (-2, 0), content: blank(Color::Blue) },
            DrawCmd { pos: (-1, 0), content: blank(Color::Blue) },
            DrawCmd { pos: (-8, 0), content: block(Color::Blue) },
            DrawCmd { pos: (-7, 0), content: block(Color::Blue) },
        ]
    );
}

#[test]
fn growing_step_renders_the_new_head_only() {
    let mut snake = snake_of(3);
    snake.grow_by(1);
    let next = snake.next_step();
    assert_eq!(
        next.render(),
        vec![
            DrawCmd { pos: (-2, 0), content: block(Color::Blue) },
            DrawCmd { pos: (-1, 0), content: block(Color::Blue) },
        ]
    );
    assert_eq!(
        next.erase(),
        vec![
            DrawCmd { pos: (-2, 0), content: blank(Color::Blue) },
            DrawCmd { pos: (-1, 0), content: blank(Color::Blue) },
        ]
    );
}

#[test]
fn render_snake_draws_every_segment_head_first() {
    let snake = snake_of(3);
    let expected: Vec<DrawCmd> = [-4i16, -3, -6, -5, -8, -7]
        .iter()
        .map(|x| DrawCmd { pos: (*x, 0), content: block(Color::Blue) })
        .collect();
    assert_eq!(snake.render_snake(), expected);
    assert_eq!(Snake::new().render_snake(), Vec::<DrawCmd>::new());
}

#[test]
fn render_head_and_erase_tail_take_the_two_ends() {
    let snake = snake_of(3);
    assert_eq!(snake.render_head(), snake.segment(0).render());
    assert_eq!(snake.erase_tail(), snake.segment(2).erase());
    assert_eq!(snake.erase_tail()[0].pos, (-8, 0));
    assert_eq!(snake.render_head()[1].pos, (-3, 0));
}

#[test]
fn head_on_the_target_is_a_collision_that_grows_the_snake_and_moves_the_target() {
    let mut snake = snake_of(1);
    step(&mut snake);
    step(&mut snake);
    assert_eq!(snake.head().pos, (0, 0));
    assert_eq!(snake.direction(), Direction::East);
    let mut apple = Apple::new((2, 0));
    assert!(!Game::collsion(snake.head(), &apple));
    step(&mut snake);
    assert_eq!(snake.head().pos, (2, 0));
    assert!(Game::collsion(snake.head(), &apple));
    snake.grow_by(1);
    assert_eq!(snake.pending_growth(), 1);
    let mut moved = false;
    for _ in 0..50 {
        apple.move_apple((80, 24));
        let (x, y) = apple.position();
        assert!(-41 <= x && x < 41 && -12 <= y && y < 12);
        moved = moved || (x, y) != (2, 0);
    }
    assert!(moved);
}
