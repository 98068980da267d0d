use vstd::prelude::*;

use crate::PermTable;
use crate::PSIZE;

verus! {

/// The fixed gradient table: the eight allowed gradient directions, identical
/// for every seed. Entry `index` of the table, for `index` in `[0, 8)`.
pub open spec fn grad_entry(index: int) -> (i32, i32) {
    if index == 0 {
        (5i32, 2i32)
    } else if index == 1 {
        (2i32, 5i32)
    } else if index == 2 {
        (-5i32, 2i32)
    } else if index == 3 {
        (-2i32, 5i32)
    } else if index == 4 {
        (5i32, -2i32)
    } else if index == 5 {
        (2i32, -5i32)
    } else if index == 6 {
        (-5i32, -2i32)
    } else {
        (-2i32, -5i32)
    }
}

/// The gradient index that a lattice vertex hashes to: the vertex's x
/// coordinate is folded to eight bits and looked up in the table, the y
/// coordinate is mixed into the result, and the low eight bits of that sum
/// select the second lookup, whose bits 1 to 3 form the index. Only the low
/// eight bits of a sum depend on its addends' low eight bits, so each addend
/// is folded before the addition; the index is unchanged and the sum stays
/// in range whatever the table holds.
pub open spec fn grad_table_index_of(p: Seq<i32>, grid_x: i32, grid_y: i32) -> int
    recommends
        p.len() == PSIZE,
{
    let folded_x = (grid_x & 0xFF) as int;
    let index0 = ((((p[folded_x] & 0xFF) + (grid_y & 0xFF)) as i32) & 0xFF) as int;
    ((p[index0] & 0x0E) >> 1) as int
}

/// The lattice offsets of the square's corner shared by both triangles of the
/// cell: `(0, 0)` for the lower-left triangle, `(1, 1)` for the upper-right.
pub open spec fn triangle_factor(lower: bool) -> (i32, i32) {
    if lower {
        (0i32, 0i32)
    } else {
        (1i32, 1i32)
    }
}

/// The second extra lattice vertex contributed beside the triangle's own
/// corner, chosen from the three comparisons of the decomposition: whether
/// `zins` exceeds either local coordinate, and which local coordinate is
/// larger.
pub open spec fn triangle_extra_vertex(
    lower: bool,
    zins_gt_x: bool,
    zins_gt_y: bool,
    x_gt_y: bool,
) -> (i32, i32) {
    let factor = triangle_factor(lower);
    if zins_gt_x || zins_gt_y {
        if x_gt_y {
            (((factor.0 + 1) as i32, (factor.1 - 1) as i32))
        } else {
            (((factor.0 - 1) as i32, (factor.1 + 1) as i32))
        }
    } else {
        (((1 - factor.0) as i32, (1 - factor.1) as i32))
    }
}

/// The two-dimensional evaluator: the integer-valued parts of its scheme, the
/// gradient hashing and the simplex-triangle case analysis.
pub struct OpenSimplexNoise2D {}

impl OpenSimplexNoise2D {
    /// Hashes a lattice vertex `(grid_x, grid_y)` through the permutation
    /// table to an index into the gradient table; the index is always in
    /// `[0, 8)`, whatever the table's entries hold.
    pub fn get_grad_table_index(grid_x: i32, grid_y: i32, perm: &PermTable) -> (index: usize)
        requires
            perm@.len() == PSIZE,
        ensures
            index == grad_table_index_of(perm@, grid_x, grid_y),
            index < 8,
    {
        let folded_x = (grid_x & 0xFF) as usize;
        proof {
            assert(0 <= grid_x & 0xFF < 256) by (bit_vector);
        }
        let entry = perm[folded_x] & 0xFF;
        let mixed_y = grid_y & 0xFF;
        proof {
            let e = perm@[folded_x as int];
            assert(0 <= e & 0xFF < 256) by (bit_vector);
            assert(0 <= grid_y & 0xFF < 256) by (bit_vector);
        }
        let index0 = ((entry + mixed_y) & 0xFF) as usize;
        proof {
            let s = (entry + mixed_y) as i32;
            assert(0 <= s & 0xFF < 256) by (bit_vector);
        }
        let selected = perm[index0];
        proof {
            let t = perm@[index0 as int];
            assert(0 <= (t & 0x0E) >> 1 < 8) by (bit_vector);
        }
        ((selected & 0x0E) >> 1) as usize
    }

    /// The gradient direction a lattice vertex extrapolates with: entry
    /// `index` of the fixed gradient table.
    pub fn grad_table_entry(index: usize) -> (grad: (i32, i32))
        requires
            index < 8,
        ensures
            grad == grad_entry(index as int),
    {
        if index == 0 {
            (5, 2)
        } else if index == 1 {
            (2, 5)
        } else if index == 2 {
            (-5, 2)
        } else if index == 3 {
            (-2, 5)
        } else if index == 4 {
            (5, -2)
        } else if index == 5 {
            (2, -5)
        } else if index == 6 {
            (-5, -2)
        } else {
            (-2, -5)
        }
    }

    /// The gradient selected for lattice vertex `(grid_x, grid_y)`: the
    /// gradient-table entry at the index the vertex hashes to.
    pub fn extrapolate_gradient(grid_x: i32, grid_y: i32, perm: &PermTable) -> (grad: (i32, i32))
        requires
            perm@.len() == PSIZE,
        ensures
            grad == grad_entry(grad_table_index_of(perm@, grid_x, grid_y)),
    {
        let index = Self::get_grad_table_index(grid_x, grid_y, perm);
        Self::grad_table_entry(index)
    }

    /// The two extra lattice vertices contributed beside the two base
    /// vertices `(1, 0)` and `(0, 1)`, decided by the triangle the point
    /// falls in (`lower`: the sum of the local coordinates is at most one)
    /// and the three comparisons of the decomposition. The choice is total
    /// and deterministic: a point exactly on the dividing grid line counts
    /// as lower.
    pub fn inside_triangle_vertices(
        lower: bool,
        zins_gt_x: bool,
        zins_gt_y: bool,
        x_gt_y: bool,
    ) -> (vertices: ((i32, i32), (i32, i32)))
        ensures
            vertices.0 == triangle_factor(lower),
            vertices.1 == triangle_extra_vertex(lower, zins_gt_x, zins_gt_y, x_gt_y),
    {
        let factor = if lower {
            (0, 0)
        } else {
            (1, 1)
        };
        let extra = if zins_gt_x || zins_gt_y {
            if x_gt_y {
                (factor.0 + 1, factor.1 - 1)
            } else {
                (factor.0 - 1, factor.1 + 1)
            }
        } else {
            (1 - factor.0, 1 - factor.1)
        };
        (factor, extra)
    }
}

} // verus!
