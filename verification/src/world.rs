//! The simulation manager: owns the occupancy grid and the ordered pipe
//! collection, spawns new pipes into free cells, drives per-tick stepping,
//! retires pipes, and answers lifecycle queries.

use vstd::prelude::*;

use crate::error::PipeError;
use crate::node_struct::{NodeStruct, valid_size, vec_idx, volume};
use crate::pipe::{
    CHANCE_SCALE, Delta, Pipe, PipeStatus, lemma_step_preserves_occupancy, step_rel,
};
use crate::randsrc::rand_below;
use crate::util::{Color, Coordinate};

verus! {

/// How many random cells a spawn probes before giving up with
/// `NoFreeSpace`.
pub const SPAWN_RETRY_LIMIT: u32 = 100;

/// What `World::new_pipe` hands back on success: where the new pipe
/// starts and which color it was assigned, for the renderer's initial
/// joint.
#[derive(Clone, Copy, Debug, PartialEq, Eq)]
pub struct SpawnData {
    pub start_node: Coordinate,
    pub color: Color,
}

/// The owner of one generation: the grid, the pipes in spawn order (the
/// index is a pipe's external handle), the one-way completion latch, and
/// the configured chances and freeze budget.
pub struct World {
    pub grid: NodeStruct,
    pub pipes: Vec<Pipe>,
    pub gen_complete: bool,
    pub turn_chance: u32,
    pub spawn_chance: u32,
    pub max_freeze_time: u32,
}

/// The configured options and the latch are untouched between `w1` and
/// `w2`, and the grid kept its bounds.
pub open spec fn same_settings(w1: World, w2: World) -> bool {
    &&& w2.turn_chance == w1.turn_chance
    &&& w2.spawn_chance == w1.spawn_chance
    &&& w2.max_freeze_time == w1.max_freeze_time
    &&& w2.gen_complete == w1.gen_complete
    &&& w2.grid.size == w1.grid.size
}

impl World {
    /// Structural invariant: the grid is well-formed and every pipe sits
    /// on an in-bounds, occupied cell.
    pub open spec fn wf(&self) -> bool {
        &&& self.grid.wf()
        &&& forall|i: int|
            0 <= i < self.pipes@.len() ==> self.grid.in_bounds(
                (#[trigger] self.pipes@[i]).current_node,
            ) && self.grid.occ(self.pipes@[i].current_node)
    }

    /// Builds a manager over an empty grid of the given bounds; bounds
    /// with any dimension at or below zero are rejected. Both chances are
    /// expressed in parts of `CHANCE_SCALE`.
    pub fn new(
        bounds: Coordinate,
        turn_chance: u32,
        spawn_chance: u32,
        max_freeze_time: u32,
    ) -> (r: Result<World, PipeError>)
        requires
            valid_size(bounds) ==> volume(bounds) <= i32::MAX,
            turn_chance <= CHANCE_SCALE,
            spawn_chance <= CHANCE_SCALE,
        ensures
            r is Ok <==> valid_size(bounds),
            !valid_size(bounds) ==> r == Err::<World, PipeError>(PipeError::InvalidDimension),
            r matches Ok(w) ==> {
                &&& w.wf()
                &&& w.grid.size == bounds
                &&& w.grid.all_free()
                &&& w.pipes@.len() == 0
                &&& !w.gen_complete
                &&& w.turn_chance == turn_chance
                &&& w.spawn_chance == spawn_chance
                &&& w.max_freeze_time == max_freeze_time
            },
    {
        let grid = match NodeStruct::new(bounds) {
            Ok(g) => g,
            Err(e) => {
                return Err(e);
            },
        };
        Ok(
            World {
                grid,
                pipes: Vec::new(),
                gen_complete: false,
                turn_chance,
                spawn_chance,
                max_freeze_time,
            },
        )
    }

    /// Spawns a pipe at a uniformly drawn free cell, marking that cell
    /// occupied and appending the pipe in Growing status with no
    /// established heading. Probes at most `SPAWN_RETRY_LIMIT` random
    /// cells; if every probe lands on an occupied cell the spawn reports
    /// `NoFreeSpace` and changes nothing — on a completely full grid that
    /// is the only possible outcome.
    pub fn new_pipe(&mut self, rng: &mut rand::rngs::StdRng) -> (r: Result<SpawnData, PipeError>)
        requires
            old(self).wf(),
        ensures
            final(self).wf(),
            same_settings(*old(self), *final(self)),
            r matches Ok(data) ==> {
                &&& old(self).grid.in_bounds(data.start_node)
                &&& !old(self).grid.occ(data.start_node)
                &&& final(self).grid.array@ == old(self).grid.array@.update(
                    vec_idx(data.start_node, old(self).grid.size),
                    true,
                )
                &&& final(self).grid.occ(data.start_node)
                &&& final(self).pipes@ == old(self).pipes@.push(
                    Pipe {
                        color: data.color,
                        current_node: data.start_node,
                        last_node: data.start_node,
                        current_dir: None::<crate::util::Direction>,
                        last_dir: None::<crate::util::Direction>,
                        frozen_ticks: 0u32,
                        status: PipeStatus::Growing,
                    },
                )
            },
            r matches Err(e) ==> e == PipeError::NoFreeSpace && *final(self) == *old(self),
            old(self).grid.full() ==> r is Err,
            old(self).grid.all_free() ==> r is Ok,
            forall|c: Coordinate|
                old(self).grid.in_bounds(c) && old(self).grid.occ(c)
                    ==> #[trigger] final(self).grid.occ(c),
    {
        let mut tries: u32 = 0;
        while tries < SPAWN_RETRY_LIMIT
            invariant
                *self == *old(self),
                self.wf(),
                tries <= SPAWN_RETRY_LIMIT,
                tries > 0 ==> !self.grid.all_free(),
            decreases SPAWN_RETRY_LIMIT - tries,
        {
            let x = rand_below(rng, self.grid.size.0 as u32);
            let y = rand_below(rng, self.grid.size.1 as u32);
            let z = rand_below(rng, self.grid.size.2 as u32);
            let c = (x as i32, y as i32, z as i32);
            let free = match self.grid.get(c) {
                Ok(b) => !b,
                Err(_) => false,
            };
            if free {
                proof {
                    assert(old(self).grid.in_bounds(c) && !old(self).grid.occ(c));
                    assert(!old(self).grid.full());
                }
                let red = rand_below(rng, 256) as u8;
                let green = rand_below(rng, 256) as u8;
                let blue = rand_below(rng, 256) as u8;
                let color = (red, green, blue);
                let _ = self.grid.set(c, true);
                let p = Pipe::new(c, color);
                self.pipes.push(p);
                proof {
                    assert forall|i: int| 0 <= i < self.pipes@.len() implies self.grid.in_bounds(
                        (#[trigger] self.pipes@[i]).current_node,
                    ) && self.grid.occ(self.pipes@[i].current_node) by {
                        if i < self.pipes@.len() - 1 {
                            assert(old(self).grid.in_bounds(old(self).pipes@[i].current_node)
                                && old(self).grid.occ(old(self).pipes@[i].current_node));
                        }
                    }
                }
                return Ok(SpawnData { start_node: c, color });
            }
            proof {
                assert(self.grid.in_bounds(c) && self.grid.occ(c));
            }
            tries = tries + 1;
        }
        Err(PipeError::NoFreeSpace)
    }

    /// One tick for the pipe at `index`: a handle past the end is
    /// rejected; a dead pipe yields a no-motion delta without side
    /// effects; otherwise the pipe steps with the configured turn chance
    /// and freeze budget, exactly as `step_rel` describes, and every other
    /// pipe is left alone.
    pub fn pipe_update(&mut self, index: usize, rng: &mut rand::rngs::StdRng) -> (r: Result<
        Delta,
        PipeError,
    >)
        requires
            old(self).wf(),
        ensures
            final(self).wf(),
            same_settings(*old(self), *final(self)),
            index >= old(self).pipes@.len() ==> r == Err::<Delta, PipeError>(
                PipeError::IndexOutOfRange,
            ) && *final(self) == *old(self),
            forall|c: Coordinate|
                old(self).grid.in_bounds(c) && old(self).grid.occ(c)
                    ==> #[trigger] final(self).grid.occ(c),
            index < old(self).pipes@.len() ==> (r matches Ok(delta) && {
                &&& step_rel(
                    old(self).grid,
                    old(self).pipes@[index as int],
                    final(self).grid,
                    final(self).pipes@[index as int],
                    delta,
                    old(self).max_freeze_time,
                )
                &&& final(self).pipes@ == old(self).pipes@.update(
                    index as int,
                    final(self).pipes@[index as int],
                )
            }),
    {
        if index >= self.pipes.len() {
            return Err(PipeError::IndexOutOfRange);
        }
        let turn_chance = self.turn_chance;
        let max_freeze_time = self.max_freeze_time;
        let mut p = self.pipes[index];
        let delta = p.step(&mut self.grid, rng, turn_chance, max_freeze_time);
        self.pipes[index] = p;
        proof {
            lemma_step_preserves_occupancy(
                old(self).grid,
                old(self).pipes@[index as int],
                self.grid,
                self.pipes@[index as int],
                delta,
                max_freeze_time,
            );
            assert forall|i: int| 0 <= i < self.pipes@.len() implies self.grid.in_bounds(
                (#[trigger] self.pipes@[i]).current_node,
            ) && self.grid.occ(self.pipes@[i].current_node) by {
                if i != index {
                    assert(old(self).grid.in_bounds(old(self).pipes@[i].current_node) && old(
                        self,
                    ).grid.occ(old(self).pipes@[i].current_node));
                }
            }
        }
        Ok(delta)
    }

    /// Forces the pipe at `index` to Dead, whatever its status was; the
    /// cells of its trail stay occupied, and no other pipe is touched.
    pub fn kill_pipe(&mut self, index: usize)
        requires
            old(self).wf(),
            index < old(self).pipes@.len(),
        ensures
            final(self).wf(),
            same_settings(*old(self), *final(self)),
            final(self).grid == old(self).grid,
            final(self).pipes@ == old(self).pipes@.update(
                index as int,
                (Pipe { status: PipeStatus::Dead, ..old(self).pipes@[index as int] }),
            ),
    {
        let mut p = self.pipes[index];
        p.status = PipeStatus::Dead;
        self.pipes[index] = p;
        proof {
            assert forall|i: int| 0 <= i < self.pipes@.len() implies self.grid.in_bounds(
                (#[trigger] self.pipes@[i]).current_node,
            ) && self.grid.occ(self.pipes@[i].current_node) by {
                assert(old(self).grid.in_bounds(old(self).pipes@[i].current_node) && old(
                    self,
                ).grid.occ(old(self).pipes@[i].current_node));
            }
        }
    }

    /// Whether the pipe at `index` exists and is not Dead.
    pub fn is_pipe_alive(&self, index: usize) -> (r: bool)
        ensures
            r == (index < self.pipes@.len() && self.pipes@[index as int].status
                != PipeStatus::Dead),
    {
        if index < self.pipes.len() {
            match self.pipes[index].status {
                PipeStatus::Dead => false,
                _ => true,
            }
        } else {
            false
        }
    }

    /// How many pipes this generation has spawned; handles range over
    /// `0..active_pipes_count()`.
    pub fn active_pipes_count(&self) -> (r: usize)
        ensures
            r == self.pipes@.len(),
    {
        self.pipes.len()
    }

    /// Whether the pipe collection has reached the given limit.
    pub fn max_active_count_reached(&self, limit: usize) -> (r: bool)
        ensures
            r == (self.pipes@.len() >= limit),
    {
        self.pipes.len() >= limit
    }

    /// The configured per-tick spawn probability, in parts of
    /// `CHANCE_SCALE`.
    pub fn new_pipe_chance(&self) -> (r: u32)
        ensures
            r == self.spawn_chance,
    {
        self.spawn_chance
    }

    /// Whether the generation-complete latch has been set.
    pub fn is_gen_complete(&self) -> (r: bool)
        ensures
            r == self.gen_complete,
    {
        self.gen_complete
    }

    /// Sets the one-way generation-complete latch; nothing in the core
    /// ever clears it. Setting it does not itself kill pipes.
    pub fn set_gen_complete(&mut self)
        ensures
            final(self).gen_complete,
            final(self).grid == old(self).grid,
            final(self).pipes == old(self).pipes,
            final(self).turn_chance == old(self).turn_chance,
            final(self).spawn_chance == old(self).spawn_chance,
            final(self).max_freeze_time == old(self).max_freeze_time,
    {
        self.gen_complete = true;
    }
}

} // verus!
