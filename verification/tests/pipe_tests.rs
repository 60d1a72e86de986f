use rand::rngs::StdRng;
use rand::SeedableRng;
use rust_pipes::node_struct::NodeStruct;
use rust_pipes::pipe::{Pipe, PipeStatus, CHANCE_SCALE};
use rust_pipes::world::World;

#[test]
fn surrounded_pipe_freezes_then_dies() {
    // A 1x1x1 grid: all six neighbors of the only cell are out of bounds.
    let mut grid = NodeStruct::new((1, 1, 1)).unwrap();
    grid.set((0, 0, 0), true).unwrap();
    let mut pipe = Pipe::new((0, 0, 0), (10, 20, 30));
    let mut rng = StdRng::seed_from_u64(1);
    let max_freeze_time = 2;

    let d1 = pipe.step(&mut grid, &mut rng, 0, max_freeze_time);
    assert_eq!(pipe.status, PipeStatus::Frozen);
    assert_eq!(pipe.frozen_ticks, 1);
    assert_eq!(d1.last_node, d1.current_node);

    pipe.step(&mut grid, &mut rng, 0, max_freeze_time);
    assert_eq!(pipe.status, PipeStatus::Frozen);
    assert_eq!(pipe.frozen_ticks, 2);

    pipe.step(&mut grid, &mut rng, 0, max_freeze_time);
    assert_eq!(pipe.status, PipeStatus::Dead);

    // Further steps on a dead pipe change nothing.
    let before = pipe;
    let array_before = grid.array.clone();
    let d4 = pipe.step(&mut grid, &mut rng, 0, max_freeze_time);
    assert_eq!(pipe, before);
    assert_eq!(grid.array, array_before);
    assert_eq!(d4.last_node, d4.current_node);
}

#[test]
fn pipe_with_occupied_neighbors_freezes() {
    let mut grid = NodeStruct::new((3, 3, 3)).unwrap();
    grid.set((1, 1, 1), true).unwrap();
    for c in [(1, 2, 1), (1, 0, 1), (2, 1, 1), (0, 1, 1), (1, 1, 2), (1, 1, 0)] {
        grid.set(c, true).unwrap();
    }
    let mut pipe = Pipe::new((1, 1, 1), (0, 0, 0));
    let mut rng = StdRng::seed_from_u64(2);
    pipe.step(&mut grid, &mut rng, CHANCE_SCALE, 10);
    assert_eq!(pipe.status, PipeStatus::Frozen);
    assert_eq!(pipe.current_node, (1, 1, 1));
}

#[test]
fn pipe_never_enters_an_occupied_cell() {
    let mut rng = StdRng::seed_from_u64(3);
    let mut world = World::new((4, 4, 4), 300000, 0, 5).unwrap();
    let spawn = world.new_pipe(&mut rng).unwrap();
    let mut visited = vec![spawn.start_node];

    for _ in 0..300 {
        let delta = world.pipe_update(0, &mut rng).unwrap();
        if delta.current_node != delta.last_node {
            assert!(!visited.contains(&delta.current_node));
            visited.push(delta.current_node);
        }
    }

    // The occupied cells are exactly the visited ones, each visited once.
    for x in 0..4 {
        for y in 0..4 {
            for z in 0..4 {
                let occupied = world.grid.get((x, y, z)).unwrap();
                assert_eq!(occupied, visited.contains(&(x, y, z)));
            }
        }
    }
}

#[test]
fn always_turning_pipe_eventually_freezes_in_small_grid() {
    let mut rng = StdRng::seed_from_u64(4);
    let mut world = World::new((3, 3, 3), CHANCE_SCALE, 0, 1000000).unwrap();
    let spawn = world.new_pipe(&mut rng).unwrap();
    let mut distinct = vec![spawn.start_node];

    for _ in 0..300 {
        let delta = world.pipe_update(0, &mut rng).unwrap();
        if delta.current_node != delta.last_node {
            assert!(!distinct.contains(&delta.current_node));
            distinct.push(delta.current_node);
        }
    }

    // 27 cells exist, so the pipe can never occupy more than 27, and by
    // now it must be stuck (its freeze budget is far from spent).
    assert!(distinct.len() <= 27);
    assert_eq!(world.pipes[0].status, PipeStatus::Frozen);
}
