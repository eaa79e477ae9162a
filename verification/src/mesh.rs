//! The vertex lattice of a height field and its triangle index buffer.
//!
//! A lattice of `rows x cols` vertices is stored row by row: the vertex at
//! grid coordinate `(i, j)` has index `i * cols + j`. Every cell of the
//! lattice is covered by two triangles.

use vstd::arithmetic::div_mod::lemma_fundamental_div_mod;
use vstd::arithmetic::div_mod::lemma_fundamental_div_mod_converse;
use vstd::arithmetic::mul::lemma_mul_is_distributive_add_other_way;
use vstd::prelude::*;

verus! {

/// Dimensions of a vertex lattice: its number of vertex rows and the number
/// of vertices in each row. Every value of this type satisfies
/// [`lattice_fits`].
#[derive(Clone, Copy, Debug, PartialEq, Eq, Structural)]
pub struct Grid {
    rows: u32,
    cols: u32,
}

/// A lattice has at least one vertex, and both its vertex count and the
/// length of its triangle list fit in 32 bits.
pub open spec fn lattice_fits(rows: int, cols: int) -> bool {
    &&& rows >= 1
    &&& cols >= 1
    &&& rows * cols <= u32::MAX
    &&& 6 * ((rows - 1) * (cols - 1)) <= u32::MAX
}

/// Index of the vertex that the triangle list names in slot `slot` (0 to 5)
/// of the cell whose lowest corner is the vertex `(i, j)`.
///
/// Slots 0 to 2 are the first triangle of the cell, slots 3 to 5 the second.
pub open spec fn cell_corner(cols: int, i: int, j: int, slot: int) -> int {
    let current = i * cols + j;
    let next_row = (i + 1) * cols + j;
    if slot == 0 {
        current
    } else if slot == 1 || slot == 4 {
        current + 1
    } else if slot == 2 || slot == 3 {
        next_row
    } else {
        next_row + 1
    }
}

/// Entry `k` of the triangle list of a lattice with `cols` columns.
pub open spec fn triangle_entry(cols: int, k: int) -> int {
    cell_corner(cols, (k / 6) / (cols - 1), (k / 6) % (cols - 1), k % 6)
}

/// The triangle list of a `rows x cols` lattice: cells are visited row by
/// row, and each contributes six entries.
pub open spec fn triangle_list(rows: int, cols: int) -> Seq<u32> {
    Seq::new((6 * ((rows - 1) * (cols - 1))) as nat, |k: int| triangle_entry(cols, k) as u32)
}

/// Position in the triangle list of slot `slot` of cell `(i, j)`.
pub open spec fn slot_position(cols: int, i: int, j: int, slot: int) -> int {
    6 * (i * (cols - 1) + j) + slot
}

/// Grid coordinates of the vertices of a `rows x cols` lattice in buffer
/// order: entry `k` is the vertex `(k / cols, k % cols)`.
pub open spec fn lattice_coords(rows: int, cols: int) -> Seq<(u32, u32)> {
    Seq::new((rows * cols) as nat, |k: int| ((k / cols) as u32, (k % cols) as u32))
}

impl Grid {
    #[verifier::type_invariant]
    spec fn fits(&self) -> bool {
        lattice_fits(self.rows as int, self.cols as int)
    }

    /// Number of vertex rows.
    pub closed spec fn spec_rows(&self) -> u32 {
        self.rows
    }

    /// Number of vertices in each row.
    pub closed spec fn spec_cols(&self) -> u32 {
        self.cols
    }

    /// Number of vertex rows.
    #[verifier::when_used_as_spec(spec_rows)]
    pub fn rows(&self) -> (rows: u32)
        ensures
            rows == self.rows(),
            lattice_fits(self.rows() as int, self.cols() as int),
    {
        proof {
            use_type_invariant(self);
        }
        self.rows
    }

    /// Number of vertices in each row.
    #[verifier::when_used_as_spec(spec_cols)]
    pub fn cols(&self) -> (cols: u32)
        ensures
            cols == self.cols(),
            lattice_fits(self.rows() as int, self.cols() as int),
    {
        proof {
            use_type_invariant(self);
        }
        self.cols
    }

    /// The lattice with the given numbers of rows and columns, if there is
    /// one.
    pub fn new(rows: u32, cols: u32) -> (grid: Option<Grid>)
        ensures
            match grid {
                Some(grid) => grid.rows() == rows && grid.cols() == cols && lattice_fits(
                    rows as int,
                    cols as int,
                ),
                None => !lattice_fits(rows as int, cols as int),
            },
    {
        if rows == 0 || cols == 0 {
            return None;
        }
        let limit: u64 = u32::MAX as u64;
        assert(rows * cols <= u64::MAX && 0 <= (rows - 1) * (cols - 1) <= rows * cols)
            by (nonlinear_arith)
            requires
                1 <= rows <= u32::MAX,
                1 <= cols <= u32::MAX,
        ;
        if rows as u64 * cols as u64 > limit {
            return None;
        }
        if 6 * ((rows as u64 - 1) * (cols as u64 - 1)) > limit {
            return None;
        }
        Some(Grid { rows, cols })
    }

    /// Number of cells along the rows and along the columns: one less than
    /// the number of vertices.
    pub fn cell_counts(&self) -> (cells: [u32; 2])
        ensures
            cells[0] == self.rows() - 1,
            cells[1] == self.cols() - 1,
    {
        proof {
            use_type_invariant(self);
        }
        [self.rows - 1, self.cols - 1]
    }

    /// The triangle index buffer of the lattice.
    ///
    /// For each cell `(i, j)`, with `current = i * cols + j` and
    /// `next_row = (i + 1) * cols + j`, the buffer holds the triangles
    /// `(current, current + 1, next_row)` and
    /// `(next_row, current + 1, next_row + 1)`, in this winding order. A
    /// lattice with a single row or column has no cell and an empty buffer.
    pub fn triangle_indices(&self) -> (indices: Vec<u32>)
        ensures
            indices@ == triangle_list(self.rows() as int, self.cols() as int),
            indices@.len() == 6 * ((self.rows() - 1) * (self.cols() - 1)),
    {
        proof {
            use_type_invariant(self);
        }
        let rows: u32 = self.rows;
        let cols: u32 = self.cols;
        let mut indices: Vec<u32> = Vec::new();
        let mut i: u32 = 0;
        while i < rows - 1
            invariant
                rows >= 1,
                cols >= 1,
                rows * cols <= u32::MAX,
                i <= rows - 1,
                indices@.len() == 6 * (i * (cols - 1)),
                forall|k: int|
                    0 <= k < indices@.len() ==> indices@[k] == #[trigger] triangle_entry(
                        cols as int,
                        k,
                    ),
            decreases rows - 1 - i,
        {
            let mut j: u32 = 0;
            while j < cols - 1
                invariant
                    rows >= 1,
                    cols >= 1,
                    rows * cols <= u32::MAX,
                    i < rows - 1,
                    j <= cols - 1,
                    indices@.len() == 6 * (i * (cols - 1) + j),
                    forall|k: int|
                        0 <= k < indices@.len() ==> indices@[k] == #[trigger] triangle_entry(
                            cols as int,
                            k,
                        ),
                decreases cols - 1 - j,
            {
                proof {
                    lemma_corner_in_lattice(rows as int, cols as int, i as int, j as int, 0);
                    lemma_corner_in_lattice(rows as int, cols as int, i as int, j as int, 5);
                    lemma_entry_at_slot(cols as int, i as int, j as int, 0);
                    lemma_entry_at_slot(cols as int, i as int, j as int, 1);
                    lemma_entry_at_slot(cols as int, i as int, j as int, 2);
                    lemma_entry_at_slot(cols as int, i as int, j as int, 3);
                    lemma_entry_at_slot(cols as int, i as int, j as int, 4);
                    lemma_entry_at_slot(cols as int, i as int, j as int, 5);
                }
                let current: u32 = i * cols + j;
                let next_row: u32 = (i + 1) * cols + j;

                indices.push(current);
                indices.push(current + 1);
                indices.push(next_row);

                indices.push(next_row);
                indices.push(current + 1);
                indices.push(next_row + 1);
                j += 1;
            }
            proof {
                lemma_mul_is_distributive_add_other_way(cols as int - 1, i as int, 1);
            }
            i += 1;
        }
        indices
    }

    /// Number of vertices of the lattice.
    pub fn vertex_count(&self) -> (count: usize)
        ensures
            count == self.rows() * self.cols(),
    {
        proof {
            use_type_invariant(self);
        }
        (self.rows * self.cols) as usize
    }

    /// Length of the triangle index buffer of the lattice.
    pub fn triangle_index_count(&self) -> (count: usize)
        ensures
            count == 6 * ((self.rows() - 1) * (self.cols() - 1)),
    {
        proof {
            use_type_invariant(self);
        }
        let cells: u64 = (self.rows as u64 - 1) * (self.cols as u64 - 1);
        assert(cells == (self.rows - 1) * (self.cols - 1)) by (nonlinear_arith)
            requires
                cells == ((self.rows - 1) * (self.cols - 1)) as u64,
                6 * ((self.rows - 1) * (self.cols - 1)) <= u32::MAX,
                self.rows >= 1,
                self.cols >= 1,
        ;
        (6 * cells) as usize
    }

    /// Grid coordinates `(i, j)` of every vertex, in the order of the vertex
    /// buffer: row by row, the vertex `(i, j)` at index `i * cols + j`.
    pub fn vertex_coords(&self) -> (coords: Vec<(u32, u32)>)
        ensures
            coords@ == lattice_coords(self.rows() as int, self.cols() as int),
            coords@.len() == self.rows() * self.cols(),
    {
        proof {
            use_type_invariant(self);
        }
        let rows: u32 = self.rows;
        let cols: u32 = self.cols;
        let mut coords: Vec<(u32, u32)> = Vec::new();
        let mut i: u32 = 0;
        while i < rows
            invariant
                cols >= 1,
                rows * cols <= u32::MAX,
                i <= rows,
                coords@.len() == i * cols,
                forall|k: int|
                    0 <= k < coords@.len() ==> coords@[k] == (
                        (k / cols as int) as u32,
                        (k % cols as int) as u32,
                    ),
            decreases rows - i,
        {
            let mut j: u32 = 0;
            while j < cols
                invariant
                    cols >= 1,
                    rows * cols <= u32::MAX,
                    i < rows,
                    j <= cols,
                    coords@.len() == i * cols + j,
                    forall|k: int|
                        0 <= k < coords@.len() ==> coords@[k] == (
                            (k / cols as int) as u32,
                            (k % cols as int) as u32,
                        ),
                decreases cols - j,
            {
                proof {
                    lemma_fundamental_div_mod_converse(
                        i * cols + j,
                        cols as int,
                        i as int,
                        j as int,
                    );
                }
                coords.push((i, j));
                j += 1;
            }
            proof {
                lemma_mul_is_distributive_add_other_way(cols as int, i as int, 1);
            }
            i += 1;
        }
        coords
    }
}

/// A `rows x cols` lattice has `rows * cols` vertices, and its triangle list
/// has six entries for each of its `(rows - 1) * (cols - 1)` cells.
pub proof fn lemma_lattice_counts(rows: int, cols: int)
    requires
        1 <= rows,
        1 <= cols,
    ensures
        lattice_coords(rows, cols).len() == rows * cols,
        triangle_list(rows, cols).len() == 6 * ((rows - 1) * (cols - 1)),
{
    assert(0 <= rows * cols && 0 <= (rows - 1) * (cols - 1)) by (nonlinear_arith)
        requires
            1 <= rows,
            1 <= cols,
    ;
}

/// The entry at the position of a slot is the corner of that slot.
pub proof fn lemma_entry_at_slot(cols: int, i: int, j: int, slot: int)
    requires
        0 <= i,
        0 <= j < cols - 1,
        0 <= slot < 6,
    ensures
        triangle_entry(cols, slot_position(cols, i, j, slot)) == cell_corner(cols, i, j, slot),
{
    let cell = i * (cols - 1) + j;
    let k = slot_position(cols, i, j, slot);
    assert(k / 6 == cell && k % 6 == slot);
    lemma_fundamental_div_mod_converse(cell, cols - 1, i, j);
}

/// Every corner of a cell of the lattice is the index of one of its vertices.
pub proof fn lemma_corner_in_lattice(rows: int, cols: int, i: int, j: int, slot: int)
    requires
        0 <= i < rows - 1,
        0 <= j < cols - 1,
        0 <= slot < 6,
    ensures
        0 <= cell_corner(cols, i, j, slot) < rows * cols,
        cell_corner(cols, i, j, slot) == i * cols + j || cell_corner(cols, i, j, slot) == i * cols
            + (j + 1) || cell_corner(cols, i, j, slot) == (i + 1) * cols + j || cell_corner(
            cols,
            i,
            j,
            slot,
        ) == (i + 1) * cols + (j + 1),
{
    assert(0 <= i * cols && i * cols <= (i + 1) * cols && (i + 1) * cols + cols <= rows * cols)
        by (nonlinear_arith)
        requires
            0 <= i < rows - 1,
            0 < cols,
    ;
}

/// The vertex at grid coordinate `(i, j)` stands at index `i * cols + j` of
/// the vertex buffer.
pub proof fn lemma_coords_at(rows: int, cols: int, i: int, j: int)
    requires
        0 <= i < rows,
        0 <= j < cols,
        rows * cols <= u32::MAX,
    ensures
        0 <= i * cols + j < rows * cols,
        lattice_coords(rows, cols)[i * cols + j] == (i as u32, j as u32),
{
    assert(0 <= i * cols && (i + 1) * cols <= rows * cols && (i + 1) * cols == i * cols + cols)
        by (nonlinear_arith)
        requires
            0 <= i < rows,
            0 < cols,
    ;
    assert(rows <= rows * cols && cols <= rows * cols) by (nonlinear_arith)
        requires
            0 < rows,
            0 < cols,
    ;
    lemma_fundamental_div_mod_converse(i * cols + j, cols, i, j);
}

/// Every entry of the triangle list of a lattice is the index of one of its
/// vertices.
pub proof fn lemma_triangle_list_in_lattice(rows: int, cols: int, k: int)
    requires
        1 <= rows,
        1 <= cols,
        rows * cols <= u32::MAX,
        0 <= k < triangle_list(rows, cols).len(),
    ensures
        0 <= triangle_list(rows, cols)[k] < rows * cols,
        triangle_list(rows, cols)[k] == triangle_entry(cols, k),
{
    let cell = k / 6;
    let i = cell / (cols - 1);
    let j = cell % (cols - 1);
    assert(cols - 1 > 0) by (nonlinear_arith)
        requires
            0 < (rows - 1) * (cols - 1),
            1 <= rows,
            1 <= cols,
    ;
    assert(0 <= cell < (rows - 1) * (cols - 1));
    lemma_fundamental_div_mod(cell, cols - 1);
    assert(0 <= i < rows - 1) by (nonlinear_arith)
        requires
            0 <= cell < (rows - 1) * (cols - 1),
            cell == (cols - 1) * i + j,
            0 <= j < cols - 1,
    ;
    lemma_corner_in_lattice(rows, cols, i, j, k % 6);
}

/// The two triangles of the cell `(i, j)` join, in this order, the vertices
/// `(i, j)`, `(i, j + 1)`, `(i + 1, j)` and `(i + 1, j)`, `(i, j + 1)`,
/// `(i + 1, j + 1)`.
pub proof fn lemma_cell_triangles(rows: int, cols: int, i: int, j: int)
    requires
        0 <= i < rows - 1,
        0 <= j < cols - 1,
        rows * cols <= u32::MAX,
    ensures
        0 <= slot_position(cols, i, j, 0),
        slot_position(cols, i, j, 5) < triangle_list(rows, cols).len(),
        triangle_list(rows, cols).subrange(
            slot_position(cols, i, j, 0),
            slot_position(cols, i, j, 0) + 6,
        ).map_values(|v: u32| lattice_coords(rows, cols)[v as int]) == seq![
            (i as u32, j as u32),
            (i as u32, (j + 1) as u32),
            ((i + 1) as u32, j as u32),
            ((i + 1) as u32, j as u32),
            (i as u32, (j + 1) as u32),
            ((i + 1) as u32, (j + 1) as u32),
        ],
{
    let start = slot_position(cols, i, j, 0);
    let list = triangle_list(rows, cols);
    assert(0 <= i * (cols - 1) && (i + 1) * (cols - 1) <= (rows - 1) * (cols - 1) && (i + 1) * (cols
        - 1) == i * (cols - 1) + (cols - 1)) by (nonlinear_arith)
        requires
            0 <= i < rows - 1,
            0 < cols - 1,
    ;
    assert forall|slot: int| 0 <= slot < 6 implies list[start + slot] == cell_corner(
        cols,
        i,
        j,
        slot,
    ) by {
        lemma_entry_at_slot(cols, i, j, slot);
        lemma_corner_in_lattice(rows, cols, i, j, slot);
        assert(start + slot == slot_position(cols, i, j, slot));
    }
    lemma_coords_at(rows, cols, i, j);
    lemma_coords_at(rows, cols, i, j + 1);
    lemma_coords_at(rows, cols, i + 1, j);
    lemma_coords_at(rows, cols, i + 1, j + 1);
    let corners = list.subrange(start, start + 6).map_values(
        |v: u32| lattice_coords(rows, cols)[v as int],
    );
    let expected = seq![
        (i as u32, j as u32),
        (i as u32, (j + 1) as u32),
        ((i + 1) as u32, j as u32),
        ((i + 1) as u32, j as u32),
        (i as u32, (j + 1) as u32),
        ((i + 1) as u32, (j + 1) as u32),
    ];
    assert(corners.len() == 6);
    assert forall|slot: int| 0 <= slot < 6 implies corners[slot] == expected[slot] by {
        assert(corners[slot] == lattice_coords(rows, cols)[list[start + slot] as int]);
        assert(list[start + slot] == cell_corner(cols, i, j, slot));
        assert((i + 1) * cols + j + 1 == (i + 1) * cols + (j + 1));
        assert(i * cols + j + 1 == i * cols + (j + 1));
    }
    assert(corners =~= expected);
}

} // verus!
