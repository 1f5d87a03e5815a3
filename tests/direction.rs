use snake_sdk::Direction;

#[test]
fn direction_codes_are_fixed() {
    assert_eq!(Direction::North.code(), 0);
    assert_eq!(Direction::East.code(), 1);
    assert_eq!(Direction::South.code(), 2);
    assert_eq!(Direction::West.code(), 3);
}

#[test]
fn direction_round_trips_through_its_code() {
    for d in [Direction::North, Direction::East, Direction::South, Direction::West] {
        assert_eq!(Direction::from_code(d.code()), Some(d));
    }
}

#[test]
fn direction_from_unknown_code_is_none() {
    assert_eq!(Direction::from_code(4), None);
    assert_eq!(Direction::from_code(u32::MAX), None);
}
