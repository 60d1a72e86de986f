//! One pipe's growth state machine: a chain of occupied cells that extends
//! into a random free neighbor each tick, freezes when it has nowhere to
//! go, and dies after staying frozen past its budget.

use vstd::prelude::*;

use crate::node_struct::{NodeStruct, lemma_vec_idx_in_range, vec_idx};
use crate::randsrc::rand_below;
use crate::util::{
    Color, Coordinate, Direction, dir_seq, lemma_dir_seq_complete, lemma_opposite_irreflexive,
    spec_opposite, spec_step, step_fits, step_in_dir,
};

verus! {

/// Probabilities handed to the core are expressed in parts of this scale:
/// a chance of `CHANCE_SCALE` always happens, a chance of 0 never does.
pub const CHANCE_SCALE: u32 = 1000000;

/// A pipe's lifecycle: growing, stuck counting down a freeze budget, or
/// terminally dead.
#[derive(Clone, Copy, Debug, PartialEq, Eq, Structural)]
pub enum PipeStatus {
    Growing,
    Frozen,
    Dead,
}

/// The visible change produced by one step: previous and current cell,
/// previous and current heading, and the pipe's color. A tick without
/// motion repeats the current cell and heading in both halves.
#[derive(Clone, Copy, Debug, PartialEq, Eq)]
pub struct Delta {
    pub last_node: Coordinate,
    pub current_node: Coordinate,
    pub last_dir: Direction,
    pub current_dir: Direction,
    pub pipe_color: Color,
}

/// One pipe: its color, current and previous cell, current and previous
/// heading (`None` until the first step establishes one), the count of
/// consecutive stuck ticks, and its lifecycle status.
#[derive(Clone, Copy, Debug, PartialEq, Eq)]
pub struct Pipe {
    pub color: Color,
    pub current_node: Coordinate,
    pub last_node: Coordinate,
    pub current_dir: Option<Direction>,
    pub last_dir: Option<Direction>,
    pub frozen_ticks: u32,
    pub status: PipeStatus,
}

/// The heading shown in a delta: the established one, or `alt` before any
/// step has established one.
pub open spec fn dir_or(od: Option<Direction>, alt: Direction) -> Direction {
    match od {
        Some(d) => d,
        None => alt,
    }
}

/// The delta of a tick without motion: both halves repeat the pipe's
/// current cell and heading.
pub open spec fn no_motion_delta(p: Pipe) -> Delta {
    Delta {
        last_node: p.current_node,
        current_node: p.current_node,
        last_dir: dir_or(p.current_dir, Direction::North),
        current_dir: dir_or(p.current_dir, Direction::North),
        pipe_color: p.color,
    }
}

/// `d` is a direction the pipe may even consider: everything except the
/// reversal of its established heading.
pub open spec fn dir_allowed(p: Pipe, d: Direction) -> bool {
    match p.current_dir {
        None => true,
        Some(cd) => d != spec_opposite(cd),
    }
}

/// `d` is a valid growth direction for `p` in `g`: not a reversal, and the
/// target cell is in bounds and unoccupied.
pub open spec fn candidate_ok(g: NodeStruct, p: Pipe, d: Direction) -> bool {
    &&& dir_allowed(p, d)
    &&& g.in_bounds(spec_step(p.current_node, d))
    &&& !g.occ(spec_step(p.current_node, d))
}

/// Some valid growth direction exists for `p` in `g`.
pub open spec fn can_grow(g: NodeStruct, p: Pipe) -> bool {
    exists|d: Direction| candidate_ok(g, p, d)
}

/// The pipe grew one cell along `d`: the target was a valid candidate, the
/// pipe shifted current to previous, exactly the target cell was marked
/// occupied, and the delta reports the motion.
pub open spec fn grew_by(
    g1: NodeStruct,
    p1: Pipe,
    g2: NodeStruct,
    p2: Pipe,
    delta: Delta,
    d: Direction,
) -> bool {
    &&& candidate_ok(g1, p1, d)
    &&& p2.current_node == spec_step(p1.current_node, d)
    &&& p2.current_dir == Some(d)
    &&& p2.last_node == p1.current_node
    &&& p2.last_dir == p1.current_dir
    &&& p2.frozen_ticks == 0
    &&& p2.status == PipeStatus::Growing
    &&& p2.color == p1.color
    &&& g2.size == g1.size
    &&& g2.array@ == g1.array@.update(vec_idx(p2.current_node, g1.size), true)
    &&& delta == (Delta {
        last_node: p1.current_node,
        current_node: p2.current_node,
        last_dir: dir_or(p1.current_dir, d),
        current_dir: d,
        pipe_color: p1.color,
    })
}

/// The pipe was stuck this tick: nothing else changed, the stuck counter
/// advanced while within the freeze budget, and the status became Frozen,
/// or Dead once the budget was spent.
pub open spec fn froze(p1: Pipe, p2: Pipe, max_freeze_time: u32) -> bool {
    &&& p2.color == p1.color
    &&& p2.current_node == p1.current_node
    &&& p2.last_node == p1.last_node
    &&& p2.current_dir == p1.current_dir
    &&& p2.last_dir == p1.last_dir
    &&& if p1.frozen_ticks >= max_freeze_time {
        p2.status == PipeStatus::Dead && p2.frozen_ticks == p1.frozen_ticks
    } else {
        p2.status == PipeStatus::Frozen && p2.frozen_ticks == p1.frozen_ticks + 1
    }
}

/// Everything one call to `Pipe::step` does, for every outcome of the
/// random draws: a dead pipe is left alone; a pipe with a valid candidate
/// grows along some candidate direction; a pipe without one freezes, or
/// dies once its freeze budget is spent.
pub open spec fn step_rel(
    g1: NodeStruct,
    p1: Pipe,
    g2: NodeStruct,
    p2: Pipe,
    delta: Delta,
    max_freeze_time: u32,
) -> bool {
    if p1.status == PipeStatus::Dead {
        g2 == g1 && p2 == p1 && delta == no_motion_delta(p1)
    } else if can_grow(g1, p1) {
        exists|d: Direction| grew_by(g1, p1, g2, p2, delta, d)
    } else {
        g2 == g1 && froze(p1, p2, max_freeze_time) && delta == no_motion_delta(p1)
    }
}

/// A pipe inside a well-formed grid can step toward any direction without
/// its coordinate arithmetic leaving `i32`.
pub proof fn lemma_in_bounds_step_fits(g: NodeStruct, c: Coordinate, d: Direction)
    requires
        g.in_bounds(c),
    ensures
        step_fits(c, d),
{
}

/// A step only ever enters a cell that was unoccupied before it, and
/// leaves that cell occupied: a pipe never collides with a trail,
/// its own included.
pub proof fn lemma_step_into_free_cell(
    g1: NodeStruct,
    p1: Pipe,
    g2: NodeStruct,
    p2: Pipe,
    delta: Delta,
    max_freeze_time: u32,
)
    requires
        g1.wf(),
        step_rel(g1, p1, g2, p2, delta, max_freeze_time),
        p2.current_node != p1.current_node,
    ensures
        g1.in_bounds(p2.current_node),
        !g1.occ(p2.current_node),
        g2.occ(p2.current_node),
{
    let d = choose|d: Direction| grew_by(g1, p1, g2, p2, delta, d);
    assert(grew_by(g1, p1, g2, p2, delta, d));
    lemma_vec_idx_in_range(g1.size, p2.current_node);
}

/// A step never clears a cell: occupancy only accumulates during a
/// generation.
pub proof fn lemma_step_preserves_occupancy(
    g1: NodeStruct,
    p1: Pipe,
    g2: NodeStruct,
    p2: Pipe,
    delta: Delta,
    max_freeze_time: u32,
)
    requires
        g1.wf(),
        step_rel(g1, p1, g2, p2, delta, max_freeze_time),
    ensures
        g2.size == g1.size,
        g2.array@.len() == g1.array@.len(),
        forall|c: Coordinate| g1.in_bounds(c) && g1.occ(c) ==> #[trigger] g2.occ(c),
{
    if p1.status != PipeStatus::Dead && can_grow(g1, p1) {
        let d = choose|d: Direction| grew_by(g1, p1, g2, p2, delta, d);
        assert(grew_by(g1, p1, g2, p2, delta, d));
        lemma_vec_idx_in_range(g1.size, p2.current_node);
        assert forall|c: Coordinate| g1.in_bounds(c) && g1.occ(c) implies #[trigger] g2.occ(c) by {
            lemma_vec_idx_in_range(g1.size, c);
        }
    }
}

/// A pipe whose six neighbor cells are each out of bounds or occupied has
/// no valid growth direction: the next step freezes it.
pub proof fn lemma_blocked_pipe_cannot_grow(g: NodeStruct, p: Pipe)
    requires
        forall|d: Direction|
            !g.in_bounds(#[trigger] spec_step(p.current_node, d)) || g.occ(
                spec_step(p.current_node, d),
            ),
    ensures
        !can_grow(g, p),
{
    assert forall|d: Direction| !candidate_ok(g, p, d) by {
        assert(!g.in_bounds(spec_step(p.current_node, d)) || g.occ(spec_step(p.current_node, d)));
    }
}

impl Pipe {
    /// A freshly spawned pipe: growing, sitting at `start` with no
    /// established heading and an untouched freeze budget.
    pub fn new(start: Coordinate, color: Color) -> (p: Pipe)
        ensures
            p == (Pipe {
                color,
                current_node: start,
                last_node: start,
                current_dir: None::<Direction>,
                last_dir: None::<Direction>,
                frozen_ticks: 0u32,
                status: PipeStatus::Growing,
            }),
    {
        Pipe {
            color,
            current_node: start,
            last_node: start,
            current_dir: None,
            last_dir: None,
            frozen_ticks: 0,
            status: PipeStatus::Growing,
        }
    }

    /// The delta of a tick without motion.
    fn stall_delta(&self) -> (d: Delta)
        ensures
            d == no_motion_delta(*self),
    {
        let shown = match self.current_dir {
            Some(x) => x,
            None => Direction::North,
        };
        Delta {
            last_node: self.current_node,
            current_node: self.current_node,
            last_dir: shown,
            current_dir: shown,
            pipe_color: self.color,
        }
    }

    /// One tick of growth, as `step_rel` describes: a dead pipe is left
    /// alone; otherwise the pipe grows into a uniformly chosen valid
    /// neighbor cell — preferring its current heading unless a draw below
    /// `turn_chance` requests a turn — or freezes when no neighbor is
    /// valid, dying once `max_freeze_time` consecutive frozen ticks have
    /// passed.
    pub fn step(
        &mut self,
        grid: &mut NodeStruct,
        rng: &mut rand::rngs::StdRng,
        turn_chance: u32,
        max_freeze_time: u32,
    ) -> (delta: Delta)
        requires
            old(grid).wf(),
            old(grid).in_bounds(old(self).current_node),
        ensures
            final(grid).wf(),
            final(grid).size == old(grid).size,
            final(grid).in_bounds(final(self).current_node),
            old(grid).occ(old(self).current_node) ==> final(grid).occ(final(self).current_node),
            step_rel(*old(grid), *old(self), *final(grid), *final(self), delta, max_freeze_time),
    {
        let ghost g0 = *grid;
        let ghost p0 = *self;
        match self.status {
            PipeStatus::Dead => {
                return self.stall_delta();
            },
            _ => {},
        }

        let draw = rand_below(rng, CHANCE_SCALE);
        let want_turn = draw < turn_chance;

        let dirs = Direction::iterator();
        let mut candidates: Vec<Direction> = Vec::new();
        let mut i: usize = 0;
        while i < 6
            invariant
                *grid == g0,
                *self == p0,
                g0.wf(),
                g0.in_bounds(p0.current_node),
                dirs@ == dir_seq(),
                i <= 6,
                candidates@.len() <= i,
                forall|j: int|
                    0 <= j < candidates@.len() ==> candidate_ok(g0, p0, #[trigger] candidates@[j]),
                forall|j: int|
                    0 <= j < i && candidate_ok(g0, p0, #[trigger] dir_seq()[j])
                        ==> candidates@.contains(dir_seq()[j]),
            decreases 6 - i,
        {
            let d = dirs[i];
            let allowed = match self.current_dir {
                None => true,
                Some(cd) => !(d == cd.opposite()),
            };
            if allowed {
                proof {
                    lemma_in_bounds_step_fits(g0, p0.current_node, d);
                }
                let target = step_in_dir(self.current_node, d);
                let free = match grid.get(target) {
                    Ok(b) => !b,
                    Err(_) => false,
                };
                if free {
                    candidates.push(d);
                }
            }
            proof {
                broadcast use vstd::seq_lib::lemma_seq_contains_after_push;

                assert forall|j: int|
                    0 <= j < i + 1 && candidate_ok(g0, p0, #[trigger] dir_seq()[j])
                        implies candidates@.contains(dir_seq()[j]) by {
                    if candidates@.len() > 0 && candidates@.last() == dir_seq()[j] {
                        assert(candidates@[candidates@.len() - 1] == dir_seq()[j]);
                    }
                }
            }
            i = i + 1;
        }

        let straight: Option<Direction> = match self.current_dir {
            None => None,
            Some(cd) => {
                proof {
                    lemma_in_bounds_step_fits(g0, p0.current_node, cd);
                    lemma_opposite_irreflexive(cd);
                }
                let t = step_in_dir(self.current_node, cd);
                match grid.get(t) {
                    Ok(b) => if b {
                        None
                    } else {
                        Some(cd)
                    },
                    Err(_) => None,
                }
            },
        };

        proof {
            if candidates@.len() == 0 {
                assert forall|d: Direction| !candidate_ok(g0, p0, d) by {
                    lemma_dir_seq_complete(d);
                    if candidate_ok(g0, p0, d) {
                        assert(candidates@.contains(dir_seq()[crate::util::dir_code(d)]));
                    }
                }
            }
        }

        let chosen: Option<Direction> = if !want_turn && straight.is_some() {
            straight
        } else if candidates.len() > 0 {
            let k = rand_below(rng, candidates.len() as u32);
            Some(candidates[k as usize])
        } else {
            None
        };

        match chosen {
            Some(d) => {
                proof {
                    assert(candidate_ok(g0, p0, d));
                    lemma_in_bounds_step_fits(g0, p0.current_node, d);
                }
                let target = step_in_dir(self.current_node, d);
                let _ = grid.set(target, true);
                let prev_node = self.current_node;
                let prev_dir = self.current_dir;
                let shown_last = match prev_dir {
                    Some(x) => x,
                    None => d,
                };
                self.last_node = prev_node;
                self.last_dir = prev_dir;
                self.current_node = target;
                self.current_dir = Some(d);
                self.frozen_ticks = 0;
                self.status = PipeStatus::Growing;
                let delta = Delta {
                    last_node: prev_node,
                    current_node: target,
                    last_dir: shown_last,
                    current_dir: d,
                    pipe_color: self.color,
                };
                proof {
                    assert(grew_by(g0, p0, *grid, *self, delta, d));
                }
                delta
            },
            None => {
                if self.frozen_ticks >= max_freeze_time {
                    self.status = PipeStatus::Dead;
                } else {
                    self.frozen_ticks = self.frozen_ticks + 1;
                    self.status = PipeStatus::Frozen;
                }
                self.stall_delta()
            },
        }
    }
}

} // verus!
