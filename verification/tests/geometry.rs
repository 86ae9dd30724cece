use snake_game::util::{can_add, pos_add, pos_neg, Direction, Position};

#[test]
fn pos_add_sums_each_component() {
    assert_eq!(pos_add((1, 2), (3, -5)), (4, -3));
    assert_eq!(pos_add((-4, 0), (2, 0)), (-2, 0));
    assert_eq!(pos_add((0, 0), (0, 0)), (0, 0));
}

#[test]
fn pos_add_reaches_the_limits() {
    assert_eq!(pos_add((32766, -32767), (1, -1)), (32767, -32768));
}

#[test]
fn pos_neg_flips_both_signs() {
    assert_eq!(pos_neg((2, -3)), (-2, 3));
    assert_eq!(pos_neg((0, 0)), (0, 0));
    assert_eq!(pos_neg((32767, -32767)), (-32767, 32767));
}

#[test]
fn can_add_tells_where_the_sum_fits() {
    assert!(can_add((32766, 0), (1, 0)));
    assert!(!can_add((32767, 0), (1, 0)));
    assert!(!can_add((0, -32768), (0, -1)));
    assert!(can_add((-32768, 32767), (0, 0)));
}

#[test]
fn delta_is_the_displacement_of_each_direction() {
    assert_eq!(Direction::North.delta(), (0, 1));
    assert_eq!(Direction::East.delta(), (2, 0));
    assert_eq!(Direction::South.delta(), (0, -1));
    assert_eq!(Direction::West.delta(), (-2, 0));
}

#[test]
fn opposite_directions_have_negated_deltas() {
    let pairs: [(Direction, Direction); 2] =
        [(Direction::North, Direction::South), (Direction::East, Direction::West)];
    for (a, b) in pairs {
        let d: Position = a.delta();
        assert_eq!(pos_neg(d), b.delta());
        assert_eq!(pos_add(d, b.delta()), (0, 0));
    }
}
