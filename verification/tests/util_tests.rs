use rust_pipes::error::PipeError;
use rust_pipes::util::{get_neighbors, step_in_dir, Direction};

#[test]
fn test_step_in_dir() {
    assert_eq!(step_in_dir((0, 0, 0), Direction::North), (0, 1, 0));
    assert_eq!(step_in_dir((0, 0, 0), Direction::South), (0, -1, 0));
    assert_eq!(step_in_dir((0, 0, 0), Direction::East), (1, 0, 0));
    assert_eq!(step_in_dir((0, 0, 0), Direction::West), (-1, 0, 0));
    assert_eq!(step_in_dir((0, 0, 0), Direction::Up), (0, 0, 1));
    assert_eq!(step_in_dir((0, 0, 0), Direction::Down), (0, 0, -1));
}

#[test]
fn direction_codes_round_trip() {
    for code in 0..6 {
        let dir = Direction::from_int(code).unwrap();
        assert_eq!(dir.to_int(), code);
    }
    assert_eq!(Direction::from_int(0).unwrap(), Direction::North);
    assert_eq!(Direction::from_int(5).unwrap(), Direction::Down);
}

#[test]
fn direction_from_invalid_code_fails() {
    assert_eq!(Direction::from_int(-1), Err(PipeError::InvalidDirectionCode));
    assert_eq!(Direction::from_int(6), Err(PipeError::InvalidDirectionCode));
    assert_eq!(Direction::from_int(i32::MIN), Err(PipeError::InvalidDirectionCode));
}

#[test]
fn opposite_pairs() {
    assert_eq!(Direction::North.opposite(), Direction::South);
    assert_eq!(Direction::South.opposite(), Direction::North);
    assert_eq!(Direction::East.opposite(), Direction::West);
    assert_eq!(Direction::West.opposite(), Direction::East);
    assert_eq!(Direction::Up.opposite(), Direction::Down);
    assert_eq!(Direction::Down.opposite(), Direction::Up);
}

#[test]
fn step_then_opposite_returns_to_start() {
    let samples = [(0, 0, 0), (3, -7, 11), (-100, 42, 5)];
    for &c in samples.iter() {
        for dir in Direction::iterator() {
            assert_eq!(step_in_dir(step_in_dir(c, dir), dir.opposite()), c);
        }
    }
}

#[test]
fn neighbors_follow_direction_order() {
    let n = get_neighbors((1, 2, 3));
    assert_eq!(n.len(), 6);
    assert_eq!(n[0], (1, 3, 3));
    assert_eq!(n[1], (1, 1, 3));
    assert_eq!(n[2], (2, 2, 3));
    assert_eq!(n[3], (0, 2, 3));
    assert_eq!(n[4], (1, 2, 4));
    assert_eq!(n[5], (1, 2, 2));
}

#[test]
fn direction_names() {
    assert_eq!(Direction::North.name(), "North");
    assert_eq!(Direction::South.name(), "South");
    assert_eq!(Direction::East.name(), "East");
    assert_eq!(Direction::West.name(), "West");
    assert_eq!(Direction::Up.name(), "Up");
    assert_eq!(Direction::Down.name(), "Down");
}

#[test]
fn iterator_lists_all_six_directions_once() {
    let dirs = Direction::iterator();
    assert_eq!(dirs.len(), 6);
    for code in 0..6 {
        assert_eq!(dirs[code as usize].to_int(), code);
    }
}
