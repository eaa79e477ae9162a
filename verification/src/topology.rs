//! Index buffers and the primitive topology they are read with.

use crate::mesh::lemma_triangle_list_in_lattice;
use crate::mesh::triangle_list;
use crate::mesh::Grid;
use crate::wireframe::edge_corner;
use crate::wireframe::line_list;
use crate::wireframe::wireframe_indices;
use vstd::prelude::*;

verus! {

/// How the entries of an index buffer group into primitives.
#[derive(Clone, Copy, Debug, PartialEq, Eq, Structural)]
pub enum Topology {
    /// Every three entries are one triangle.
    TriangleList,
    /// Every two entries are one line segment.
    LineList,
}

/// An index buffer together with its topology.
#[derive(Debug, PartialEq, Eq)]
pub struct IndexBuffer {
    pub topology: Topology,
    pub indices: Vec<u32>,
}

/// Topology of the index buffer of a mesh that is, or is not, drawn as a
/// wireframe.
pub open spec fn topology_of(wireframe: bool) -> Topology {
    if wireframe {
        Topology::LineList
    } else {
        Topology::TriangleList
    }
}

/// Index list of a `rows x cols` lattice: its triangle list, or the line list
/// of that triangle list for a wireframe.
pub open spec fn index_list(rows: int, cols: int, wireframe: bool) -> Seq<u32> {
    if wireframe {
        line_list(triangle_list(rows, cols))
    } else {
        triangle_list(rows, cols)
    }
}

/// Builds the index buffer of a lattice: the triangle list, which for a
/// wireframe is rewritten into the line list of its edges.
pub fn build_indices(grid: &Grid, wireframe: bool) -> (buffer: IndexBuffer)
    ensures
        buffer.topology == topology_of(wireframe),
        buffer.indices@ == index_list(grid.rows() as int, grid.cols() as int, wireframe),
{
    let triangles = grid.triangle_indices();
    if wireframe {
        IndexBuffer { topology: Topology::LineList, indices: wireframe_indices(&triangles) }
    } else {
        IndexBuffer { topology: Topology::TriangleList, indices: triangles }
    }
}

/// The triangle list of a `rows x cols` lattice has `6 * (rows - 1) * (cols - 1)`
/// entries, and its wireframe has exactly twice as many.
pub proof fn lemma_index_counts(rows: int, cols: int)
    requires
        1 <= rows,
        1 <= cols,
    ensures
        index_list(rows, cols, false).len() == 6 * ((rows - 1) * (cols - 1)),
        index_list(rows, cols, true).len() == 12 * ((rows - 1) * (cols - 1)),
        index_list(rows, cols, true).len() == 2 * index_list(rows, cols, false).len(),
{
    assert(0 <= (rows - 1) * (cols - 1)) by (nonlinear_arith)
        requires
            1 <= rows,
            1 <= cols,
    ;
}

/// Every entry of the index list of a lattice, triangles or lines, is the
/// index of one of its vertices.
pub proof fn lemma_index_list_in_lattice(rows: int, cols: int, wireframe: bool, k: int)
    requires
        1 <= rows,
        1 <= cols,
        rows * cols <= u32::MAX,
        0 <= k < index_list(rows, cols, wireframe).len(),
    ensures
        0 <= index_list(rows, cols, wireframe)[k] < rows * cols,
{
    if wireframe {
        let triangles = triangle_list(rows, cols);
        let source = 3 * (k / 6) + edge_corner(k % 6);
        assert(0 <= source < triangles.len());
        assert(line_list(triangles)[k] == triangles[source]);
        lemma_triangle_list_in_lattice(rows, cols, source);
    } else {
        lemma_triangle_list_in_lattice(rows, cols, k);
    }
}

} // verus!
