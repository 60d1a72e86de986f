use rand::rngs::StdRng;
use rand::SeedableRng;
use rust_pipes::error::PipeError;
use rust_pipes::world::World;

#[test]
fn world_new_rejects_non_positive_bounds() {
    assert_eq!(World::new((0, 5, 5), 0, 0, 1).err(), Some(PipeError::InvalidDimension));
    assert_eq!(World::new((5, 0, 5), 0, 0, 1).err(), Some(PipeError::InvalidDimension));
    assert_eq!(World::new((-1, 5, 5), 0, 0, 1).err(), Some(PipeError::InvalidDimension));
}

#[test]
fn world_new_starts_empty() {
    let world = World::new((5, 5, 5), 100, 200, 3).unwrap();
    assert_eq!(world.active_pipes_count(), 0);
    assert!(!world.is_gen_complete());
    assert_eq!(world.new_pipe_chance(), 200);
    assert!(!world.is_pipe_alive(0));
}

#[test]
fn spawned_pipe_is_alive_on_an_occupied_cell() {
    let mut rng = StdRng::seed_from_u64(10);
    let mut world = World::new((5, 5, 5), 0, 0, 3).unwrap();
    let spawn = world.new_pipe(&mut rng).unwrap();
    assert_eq!(world.active_pipes_count(), 1);
    assert!(world.is_pipe_alive(0));
    assert_eq!(world.grid.get(spawn.start_node), Ok(true));
    assert_eq!(world.pipes[0].current_node, spawn.start_node);
    assert_eq!(world.pipes[0].color, spawn.color);
}

#[test]
fn spawn_on_full_grid_reports_no_free_space() {
    let mut rng = StdRng::seed_from_u64(11);
    let mut world = World::new((1, 1, 1), 0, 0, 3).unwrap();
    let spawn = world.new_pipe(&mut rng).unwrap();
    assert_eq!(spawn.start_node, (0, 0, 0));
    assert_eq!(world.new_pipe(&mut rng).err(), Some(PipeError::NoFreeSpace));
    assert_eq!(world.active_pipes_count(), 1);
}

#[test]
fn guarded_spawning_never_exceeds_the_limit() {
    let mut rng = StdRng::seed_from_u64(12);
    let max_pipes = 5;
    let mut world = World::new((10, 10, 10), 0, 0, 3).unwrap();
    for _ in 0..30 {
        if !world.max_active_count_reached(max_pipes) {
            world.new_pipe(&mut rng).unwrap();
        }
        assert!(world.active_pipes_count() <= max_pipes);
    }
    assert_eq!(world.active_pipes_count(), max_pipes);
    assert!(world.max_active_count_reached(max_pipes));
}

#[test]
fn kill_pipe_is_immediate_and_keeps_the_trail() {
    let mut rng = StdRng::seed_from_u64(13);
    let mut world = World::new((6, 6, 6), 300000, 0, 3).unwrap();
    world.new_pipe(&mut rng).unwrap();
    world.new_pipe(&mut rng).unwrap();
    for _ in 0..20 {
        world.pipe_update(0, &mut rng).unwrap();
    }

    let mut trail = Vec::new();
    for x in 0..6 {
        for y in 0..6 {
            for z in 0..6 {
                if world.grid.get((x, y, z)).unwrap() {
                    trail.push((x, y, z));
                }
            }
        }
    }

    assert!(world.is_pipe_alive(0));
    world.kill_pipe(0);
    assert!(!world.is_pipe_alive(0));
    assert!(world.is_pipe_alive(1));
    for c in trail {
        assert_eq!(world.grid.get(c), Ok(true));
    }
}

#[test]
fn updating_a_dead_pipe_changes_nothing() {
    let mut rng = StdRng::seed_from_u64(14);
    let mut world = World::new((4, 4, 4), 0, 0, 3).unwrap();
    world.new_pipe(&mut rng).unwrap();
    world.kill_pipe(0);
    let pipe_before = world.pipes[0];
    let array_before = world.grid.array.clone();
    let delta = world.pipe_update(0, &mut rng).unwrap();
    assert_eq!(delta.last_node, delta.current_node);
    assert_eq!(delta.last_dir, delta.current_dir);
    assert_eq!(world.pipes[0], pipe_before);
    assert_eq!(world.grid.array, array_before);
}

#[test]
fn pipe_update_rejects_bad_handles() {
    let mut rng = StdRng::seed_from_u64(15);
    let mut world = World::new((4, 4, 4), 0, 0, 3).unwrap();
    assert_eq!(world.pipe_update(0, &mut rng).err(), Some(PipeError::IndexOutOfRange));
    world.new_pipe(&mut rng).unwrap();
    assert_eq!(world.pipe_update(1, &mut rng).err(), Some(PipeError::IndexOutOfRange));
}

#[test]
fn gen_complete_latch_is_one_way() {
    let mut rng = StdRng::seed_from_u64(16);
    let mut world = World::new((4, 4, 4), 0, 0, 3).unwrap();
    assert!(!world.is_gen_complete());
    world.set_gen_complete();
    assert!(world.is_gen_complete());
    // Spawning, stepping, and killing leave the latch set.
    world.new_pipe(&mut rng).unwrap();
    world.pipe_update(0, &mut rng).unwrap();
    world.kill_pipe(0);
    assert!(world.is_gen_complete());
}
