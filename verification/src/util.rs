//! Coordinate and direction algebra: pure functions over an integer triple
//! and the six axis-aligned unit directions.

use vstd::prelude::*;

use crate::error::PipeError;

verus! {

/// A cell position: an ordered triple of signed integers `(x, y, z)`.
/// Validity is always relative to a specific grid's bounds.
pub type Coordinate = (i32, i32, i32);

/// An RGB color carried along with each pipe for the renderer's benefit.
pub type Color = (u8, u8, u8);

/// The six axis-aligned unit steps. The enumeration order is fixed and is
/// the order used for uniform random selection.
#[derive(Clone, Copy, Debug, PartialEq, Eq, Structural)]
pub enum Direction {
    North,
    South,
    East,
    West,
    Up,
    Down,
}

/// The fixed integer code of each direction, in enumeration order.
pub open spec fn dir_code(d: Direction) -> int {
    match d {
        Direction::North => 0,
        Direction::South => 1,
        Direction::East => 2,
        Direction::West => 3,
        Direction::Up => 4,
        Direction::Down => 5,
    }
}

/// The direction that undoes `d`.
pub open spec fn spec_opposite(d: Direction) -> Direction {
    match d {
        Direction::North => Direction::South,
        Direction::South => Direction::North,
        Direction::East => Direction::West,
        Direction::West => Direction::East,
        Direction::Up => Direction::Down,
        Direction::Down => Direction::Up,
    }
}

/// One step from `c` along `d`. The moved component is computed over the
/// unbounded integers and cast back; under `step_fits` the cast is exact.
pub open spec fn spec_step(c: Coordinate, d: Direction) -> Coordinate {
    match d {
        Direction::North => (c.0, (c.1 + 1) as i32, c.2),
        Direction::South => (c.0, (c.1 - 1) as i32, c.2),
        Direction::East => ((c.0 + 1) as i32, c.1, c.2),
        Direction::West => ((c.0 - 1) as i32, c.1, c.2),
        Direction::Up => (c.0, c.1, (c.2 + 1) as i32),
        Direction::Down => (c.0, c.1, (c.2 - 1) as i32),
    }
}

/// The moved component stays inside `i32` when stepping from `c` along `d`.
pub open spec fn step_fits(c: Coordinate, d: Direction) -> bool {
    match d {
        Direction::North => c.1 < i32::MAX,
        Direction::South => c.1 > i32::MIN,
        Direction::East => c.0 < i32::MAX,
        Direction::West => c.0 > i32::MIN,
        Direction::Up => c.2 < i32::MAX,
        Direction::Down => c.2 > i32::MIN,
    }
}

/// Every component of `c` is strictly inside the `i32` range, so a step in
/// any direction fits.
pub open spec fn coord_interior(c: Coordinate) -> bool {
    &&& i32::MIN < c.0 < i32::MAX
    &&& i32::MIN < c.1 < i32::MAX
    &&& i32::MIN < c.2 < i32::MAX
}

/// The display name of each direction.
pub open spec fn dir_name(d: Direction) -> Seq<char> {
    match d {
        Direction::North => "North"@,
        Direction::South => "South"@,
        Direction::East => "East"@,
        Direction::West => "West"@,
        Direction::Up => "Up"@,
        Direction::Down => "Down"@,
    }
}

/// The six directions in their fixed enumeration order.
pub open spec fn dir_seq() -> Seq<Direction> {
    seq![
        Direction::North,
        Direction::South,
        Direction::East,
        Direction::West,
        Direction::Up,
        Direction::Down,
    ]
}

/// Every direction occurs in the fixed enumeration, at its own code.
pub proof fn lemma_dir_seq_complete(d: Direction)
    ensures
        0 <= dir_code(d) < 6,
        dir_seq()[dir_code(d)] == d,
        dir_seq().contains(d),
{
    assert(dir_seq()[dir_code(d)] == d) by {
        match d {
            Direction::North => {},
            Direction::South => {},
            Direction::East => {},
            Direction::West => {},
            Direction::Up => {},
            Direction::Down => {},
        }
    }
}

/// No direction is its own opposite.
pub proof fn lemma_opposite_irreflexive(d: Direction)
    ensures
        spec_opposite(d) != d,
{
}

/// Taking the opposite twice returns the starting direction.
pub proof fn lemma_opposite_involutive(d: Direction)
    ensures
        spec_opposite(spec_opposite(d)) == d,
{
}

/// Stepping along `d` and then along its opposite returns to the start,
/// for every coordinate whose moved component does not leave `i32`.
pub proof fn lemma_step_opposite_roundtrip(c: Coordinate, d: Direction)
    requires
        step_fits(c, d),
    ensures
        spec_step(spec_step(c, d), spec_opposite(d)) == c,
{
}

impl Direction {
    /// The fixed integer code of this direction.
    pub fn to_int(&self) -> (r: i32)
        ensures
            r == dir_code(*self),
    {
        match self {
            Direction::North => 0,
            Direction::South => 1,
            Direction::East => 2,
            Direction::West => 3,
            Direction::Up => 4,
            Direction::Down => 5,
        }
    }

    /// Decodes an integer code; codes outside `[0, 5]` are rejected.
    pub fn from_int(code: i32) -> (r: Result<Direction, PipeError>)
        ensures
            0 <= code <= 5 ==> (r matches Ok(d) && dir_code(d) == code),
            !(0 <= code <= 5) ==> r == Err::<Direction, PipeError>(PipeError::InvalidDirectionCode),
    {
        match code {
            0 => Ok(Direction::North),
            1 => Ok(Direction::South),
            2 => Ok(Direction::East),
            3 => Ok(Direction::West),
            4 => Ok(Direction::Up),
            5 => Ok(Direction::Down),
            _ => Err(PipeError::InvalidDirectionCode),
        }
    }

    /// The direction that undoes this one.
    pub fn opposite(&self) -> (r: Direction)
        ensures
            r == spec_opposite(*self),
    {
        match self {
            Direction::North => Direction::South,
            Direction::South => Direction::North,
            Direction::East => Direction::West,
            Direction::West => Direction::East,
            Direction::Up => Direction::Down,
            Direction::Down => Direction::Up,
        }
    }

    /// The direction's display name.
    pub fn name(&self) -> (r: &'static str)
        ensures
            r@ == dir_name(*self),
    {
        match self {
            Direction::North => "North",
            Direction::South => "South",
            Direction::East => "East",
            Direction::West => "West",
            Direction::Up => "Up",
            Direction::Down => "Down",
        }
    }

    /// All six directions, in the fixed enumeration order.
    pub fn iterator() -> (r: Vec<Direction>)
        ensures
            r@ == dir_seq(),
    {
        let dirs = vec![
            Direction::North,
            Direction::South,
            Direction::East,
            Direction::West,
            Direction::Up,
            Direction::Down,
        ];
        proof {
            assert(dirs@ =~= dir_seq());
        }
        dirs
    }
}

/// Steps a coordinate in a specified direction.
pub fn step_in_dir(coord: Coordinate, dir: Direction) -> (r: Coordinate)
    requires
        step_fits(coord, dir),
    ensures
        r == spec_step(coord, dir),
{
    let (x, y, z) = coord;
    match dir {
        Direction::North => (x, y + 1, z),
        Direction::South => (x, y - 1, z),
        Direction::East => (x + 1, y, z),
        Direction::West => (x - 1, y, z),
        Direction::Up => (x, y, z + 1),
        Direction::Down => (x, y, z - 1),
    }
}

/// The six neighbors of `coord`, one per direction in enumeration order,
/// without deduplication or bounds filtering.
pub fn get_neighbors(coord: Coordinate) -> (r: Vec<Coordinate>)
    requires
        coord_interior(coord),
    ensures
        r@.len() == 6,
        forall|i: int| 0 <= i < 6 ==> r@[i] == spec_step(coord, dir_seq()[i]),
{
    let dirs = Direction::iterator();
    let mut neighbors: Vec<Coordinate> = Vec::new();
    let mut i: usize = 0;
    while i < 6
        invariant
            coord_interior(coord),
            dirs@ == dir_seq(),
            i <= 6,
            neighbors@.len() == i,
            forall|j: int| 0 <= j < i ==> neighbors@[j] == spec_step(coord, dir_seq()[j]),
        decreases 6 - i,
    {
        neighbors.push(step_in_dir(coord, dirs[i]));
        i = i + 1;
    }
    neighbors
}

} // verus!
