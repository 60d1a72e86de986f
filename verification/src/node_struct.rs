//! The occupancy grid: a fixed-size 3D boolean map keyed by coordinate,
//! stored as a flat array under the row-major mapping
//! `index = x * y_size * z_size + y * z_size + z`.

use vstd::prelude::*;

use vstd::arithmetic::div_mod::{
    lemma_fundamental_div_mod,
    lemma_fundamental_div_mod_converse,
    lemma_div_pos_is_pos,
    lemma_multiply_divide_lt,
    lemma_mod_division_less_than_divisor,
    lemma_mod_bound,
};
use crate::error::PipeError;
use crate::util::Coordinate;

verus! {

/// Every dimension of the bounding box is strictly positive.
pub open spec fn valid_size(size: Coordinate) -> bool {
    size.0 > 0 && size.1 > 0 && size.2 > 0
}

/// The number of cells inside the bounding box.
pub open spec fn volume(size: Coordinate) -> int {
    size.0 * size.1 * size.2
}

/// `c` lies inside the bounding box `size`: every component is at least 0
/// and strictly below the corresponding dimension.
pub open spec fn valid_coord(size: Coordinate, c: Coordinate) -> bool {
    &&& 0 <= c.0 < size.0
    &&& 0 <= c.1 < size.1
    &&& 0 <= c.2 < size.2
}

/// The row-major index of `c` in a grid of bounds `size`.
pub open spec fn vec_idx(c: Coordinate, size: Coordinate) -> int {
    c.0 * size.1 * size.2 + c.1 * size.2 + c.2
}

/// The inverse of `vec_idx`: the coordinate whose row-major index is `i`.
pub open spec fn coord_of_idx(i: int, size: Coordinate) -> Coordinate {
    let plane = size.1 * size.2;
    let rest = i % plane;
    ((i / plane) as i32, (rest / (size.2 as int)) as i32, (rest % (size.2 as int)) as i32)
}

/// The row-major index of every valid coordinate lies inside the array.
pub proof fn lemma_vec_idx_in_range(size: Coordinate, c: Coordinate)
    requires
        valid_size(size),
        valid_coord(size, c),
    ensures
        0 <= vec_idx(c, size) < volume(size),
{
    let (x, y, z) = (c.0 as int, c.1 as int, c.2 as int);
    let (xs, ys, zs) = (size.0 as int, size.1 as int, size.2 as int);
    assert(0 <= x * ys * zs + y * zs + z < xs * ys * zs) by (nonlinear_arith)
        requires
            0 <= x < xs,
            0 <= y < ys,
            0 <= z < zs,
    {}
}

/// `coord_of_idx` undoes `vec_idx`: the index mapping never sends two
/// distinct valid coordinates to the same array slot.
pub proof fn lemma_vec_idx_inverse(size: Coordinate, c: Coordinate)
    requires
        valid_size(size),
        valid_coord(size, c),
    ensures
        coord_of_idx(vec_idx(c, size), size) == c,
{
    let (x, y, z) = (c.0 as int, c.1 as int, c.2 as int);
    let (ys, zs) = (size.1 as int, size.2 as int);
    let plane = ys * zs;
    let rest = y * zs + z;
    let idx = vec_idx(c, size);
    assert(0 <= rest < plane && idx == x * plane + rest) by (nonlinear_arith)
        requires
            0 <= y < ys,
            0 <= z < zs,
            rest == y * zs + z,
            plane == ys * zs,
            idx == x * ys * zs + y * zs + z,
    {}
    lemma_fundamental_div_mod_converse(idx, plane, x, rest);
    lemma_fundamental_div_mod_converse(rest, zs, y, z);
}

/// Distinct valid coordinates have distinct row-major indices.
pub proof fn lemma_vec_idx_injective(size: Coordinate, a: Coordinate, b: Coordinate)
    requires
        valid_size(size),
        valid_coord(size, a),
        valid_coord(size, b),
        a != b,
    ensures
        vec_idx(a, size) != vec_idx(b, size),
{
    lemma_vec_idx_inverse(size, a);
    lemma_vec_idx_inverse(size, b);
}

/// Every array slot is the image of a valid coordinate: together with
/// `lemma_vec_idx_inverse`, the index mapping is a bijection between the
/// coordinate volume and `[0, volume)`.
pub proof fn lemma_coord_of_idx_valid(size: Coordinate, i: int)
    requires
        valid_size(size),
        0 <= i < volume(size),
    ensures
        valid_coord(size, coord_of_idx(i, size)),
        vec_idx(coord_of_idx(i, size), size) == i,
{
    let (xs, ys, zs) = (size.0 as int, size.1 as int, size.2 as int);
    let plane = ys * zs;
    assert(0 < plane && xs * ys * zs == xs * plane) by (nonlinear_arith)
        requires
            0 < ys,
            0 < zs,
            plane == ys * zs,
            xs > 0,
    {}
    let x = i / plane;
    let rest = i % plane;
    lemma_div_pos_is_pos(i, plane);
    lemma_multiply_divide_lt(i, plane, xs);
    lemma_mod_bound(i, plane);
    let y = rest / zs;
    let z = rest % zs;
    lemma_div_pos_is_pos(rest, zs);
    lemma_multiply_divide_lt(rest, zs, ys);
    lemma_mod_bound(rest, zs);
    lemma_fundamental_div_mod(i, plane);
    lemma_fundamental_div_mod(rest, zs);
    let c = coord_of_idx(i, size);
    assert(c == ((x as i32, y as i32, z as i32)));
    assert(vec_idx(c, size) == x * ys * zs + y * zs + z);
    assert(x * ys * zs + y * zs + z == i) by (nonlinear_arith)
        requires
            plane == ys * zs,
            i == plane * x + rest,
            rest == zs * y + z,
    {}
}

/// The fixed-size occupancy map. `size` is the bounding box; `array` holds
/// one entry per cell, addressed through the row-major index mapping.
pub struct NodeStruct {
    pub size: Coordinate,
    pub array: Vec<bool>,
}

impl NodeStruct {
    /// Structural invariant: positive dimensions, a volume that fits the
    /// index arithmetic, and exactly one array entry per cell.
    pub open spec fn wf(&self) -> bool {
        &&& valid_size(self.size)
        &&& volume(self.size) <= i32::MAX
        &&& self.array@.len() == volume(self.size)
    }

    /// `c` lies inside this grid's bounds.
    pub open spec fn in_bounds(&self, c: Coordinate) -> bool {
        valid_coord(self.size, c)
    }

    /// The occupancy of the cell at `c`.
    pub open spec fn occ(&self, c: Coordinate) -> bool {
        self.array@[vec_idx(c, self.size)]
    }

    /// Every cell of the grid is occupied.
    pub open spec fn full(&self) -> bool {
        forall|c: Coordinate| self.in_bounds(c) ==> #[trigger] self.occ(c)
    }

    /// No cell of the grid is occupied.
    pub open spec fn all_free(&self) -> bool {
        forall|c: Coordinate| self.in_bounds(c) ==> !(#[trigger] self.occ(c))
    }

    /// Builds a grid with the given bounds, all cells unoccupied; bounds
    /// with any dimension at or below zero are rejected.
    pub fn new(size: Coordinate) -> (r: Result<NodeStruct, PipeError>)
        requires
            valid_size(size) ==> volume(size) <= i32::MAX,
        ensures
            r is Ok <==> valid_size(size),
            r matches Ok(g) ==> g.wf() && g.size == size && g.all_free(),
            !valid_size(size) ==> r == Err::<NodeStruct, PipeError>(PipeError::InvalidDimension),
    {
        if size.0 <= 0 || size.1 <= 0 || size.2 <= 0 {
            return Err(PipeError::InvalidDimension);
        }
        proof {
            assert(0 < size.0 as int * size.1 as int && size.0 as int * size.1 as int <= volume(size))
                by (nonlinear_arith)
                requires
                    size.0 > 0,
                    size.1 > 0,
                    size.2 > 0,
            {}
        }
        let vec_size = size.0 * size.1 * size.2;
        let mut array: Vec<bool> = Vec::new();
        let mut i: i32 = 0;
        while i < vec_size
            invariant
                0 <= i <= vec_size,
                array@.len() == i,
                forall|j: int| 0 <= j < i ==> !(#[trigger] array@[j]),
            decreases vec_size - i,
        {
            array.push(false);
            i = i + 1;
        }
        let grid = NodeStruct { size, array };
        proof {
            assert forall|c: Coordinate| grid.in_bounds(c) implies !(#[trigger] grid.occ(c)) by {
                lemma_vec_idx_in_range(size, c);
            }
        }
        Ok(grid)
    }

    /// Reads the cell at `coord`; coordinates outside the bounds are
    /// rejected.
    pub fn get(&self, coord: Coordinate) -> (r: Result<bool, PipeError>)
        requires
            self.wf(),
        ensures
            self.in_bounds(coord) ==> r == Ok::<bool, PipeError>(self.occ(coord)),
            !self.in_bounds(coord) ==> r == Err::<bool, PipeError>(PipeError::OutOfBounds),
    {
        let (x, y, z) = coord;
        let (x_size, y_size, z_size) = self.size;
        if x < 0 || y < 0 || z < 0 || x >= x_size || y >= y_size || z >= z_size {
            return Err(PipeError::OutOfBounds);
        }
        let idx = to_vec_idx(coord, self.size);
        proof {
            lemma_vec_idx_in_range(self.size, coord);
        }
        Ok(self.array[idx])
    }

    /// Writes the cell at `coord`; coordinates outside the bounds are
    /// rejected and nothing is written.
    pub fn set(&mut self, coord: Coordinate, val: bool) -> (r: Result<(), PipeError>)
        requires
            old(self).wf(),
        ensures
            final(self).wf(),
            final(self).size == old(self).size,
            old(self).in_bounds(coord) ==> {
                &&& r == Ok::<(), PipeError>(())
                &&& final(self).array@ == old(self).array@.update(
                    vec_idx(coord, old(self).size),
                    val,
                )
                &&& final(self).occ(coord) == val
                &&& forall|c: Coordinate|
                    old(self).in_bounds(c) && c != coord ==> #[trigger] final(self).occ(c) == old(
                        self,
                    ).occ(c)
            },
            !old(self).in_bounds(coord) ==> {
                &&& r == Err::<(), PipeError>(PipeError::OutOfBounds)
                &&& *final(self) == *old(self)
            },
    {
        let (x, y, z) = coord;
        let (x_size, y_size, z_size) = self.size;
        if x < 0 || y < 0 || z < 0 || x >= x_size || y >= y_size || z >= z_size {
            return Err(PipeError::OutOfBounds);
        }
        let idx = to_vec_idx(coord, self.size);
        proof {
            lemma_vec_idx_in_range(self.size, coord);
        }
        self.array[idx] = val;
        proof {
            assert forall|c: Coordinate|
                old(self).in_bounds(c) && c != coord implies #[trigger] self.occ(c) == old(
                self,
            ).occ(c) by {
                lemma_vec_idx_in_range(old(self).size, c);
                lemma_vec_idx_injective(old(self).size, c, coord);
            }
        }
        Ok(())
    }
}

/// The row-major array index of `coord` in a grid of bounds `size`.
fn to_vec_idx(coord: Coordinate, size: Coordinate) -> (r: usize)
    requires
        valid_size(size),
        valid_coord(size, coord),
        volume(size) <= i32::MAX,
    ensures
        r == vec_idx(coord, size),
{
    let (x, y, z) = coord;
    let (x_size, y_size, z_size) = size;
    proof {
        let (xi, yi, zi) = (x as int, y as int, z as int);
        let (xs, ys, zs) = (x_size as int, y_size as int, z_size as int);
        assert(0 <= xi * ys && 0 <= xi * ys * zs && 0 <= yi * zs && xi * ys <= xs * ys * zs
            && xi * ys * zs + yi * zs + zi < xs * ys * zs) by (nonlinear_arith)
            requires
                0 <= xi < xs,
                0 <= yi < ys,
                0 <= zi < zs,
        {}
    }
    (x * y_size * z_size + y * z_size + z) as usize
}

} // verus!
