//! Conversion of a triangle list into the line list of its edges.
//!
//! Every triangle `(a, b, c)` becomes the three edges `(a, b)`, `(b, c)` and
//! `(c, a)`. An edge that two triangles share is written once for each of
//! them.

use vstd::prelude::*;

verus! {

/// Corner (0, 1 or 2) of a triangle at which end `slot` (0 to 5) of its
/// edges lies: the ends follow the pattern 0, 1, 1, 2, 2, 0.
pub open spec fn edge_corner(slot: int) -> int {
    if slot == 0 || slot == 5 {
        0
    } else if slot == 1 || slot == 2 {
        1
    } else {
        2
    }
}

/// Number of whole triangles in an index buffer of length `len`.
pub open spec fn triangle_count(len: int) -> int {
    len / 3
}

/// The line list of the edges of a triangle list. Entries behind the last
/// whole triangle are ignored.
pub open spec fn line_list(triangles: Seq<u32>) -> Seq<u32> {
    Seq::new(
        (6 * triangle_count(triangles.len() as int)) as nat,
        |k: int| triangles[3 * (k / 6) + edge_corner(k % 6)],
    )
}

/// Rewrites a triangle index buffer into the line index buffer of its edges.
pub fn wireframe_indices(triangles: &Vec<u32>) -> (lines: Vec<u32>)
    ensures
        lines@ == line_list(triangles@),
        lines@.len() == 6 * triangle_count(triangles@.len() as int),
{
    let triangle_number: usize = triangles.len() / 3;
    let mut lines: Vec<u32> = Vec::new();
    let mut t: usize = 0;
    while t < triangle_number
        invariant
            triangles@.len() <= usize::MAX,
            triangle_number == triangle_count(triangles@.len() as int),
            t <= triangle_number,
            lines@.len() == 6 * t,
            forall|k: int|
                0 <= k < lines@.len() ==> lines@[k] == triangles@[3 * (k / 6) + edge_corner(k % 6)],
        decreases triangle_number - t,
    {
        let a: u32 = triangles[t * 3];
        let b: u32 = triangles[t * 3 + 1];
        let c: u32 = triangles[t * 3 + 2];
        lines.push(a);
        lines.push(b);
        lines.push(b);
        lines.push(c);
        lines.push(c);
        lines.push(a);
        t += 1;
    }
    lines
}

/// A triangle list of whole triangles has a line list of twice its length.
pub proof fn lemma_line_list_doubles(triangles: Seq<u32>)
    requires
        triangles.len() % 3 == 0,
    ensures
        line_list(triangles).len() == 2 * triangles.len(),
{
}

/// Triangle `t` of a triangle list contributes exactly its three edges to the
/// line list, two entries each, at positions `6 * t` to `6 * t + 5`.
pub proof fn lemma_line_list_edges(triangles: Seq<u32>, t: int)
    requires
        0 <= t < triangle_count(triangles.len() as int),
    ensures
        line_list(triangles).subrange(6 * t, 6 * t + 6) == seq![
            triangles[3 * t],
            triangles[3 * t + 1],
            triangles[3 * t + 1],
            triangles[3 * t + 2],
            triangles[3 * t + 2],
            triangles[3 * t],
        ],
{
    let edges = line_list(triangles).subrange(6 * t, 6 * t + 6);
    let expected = seq![
        triangles[3 * t],
        triangles[3 * t + 1],
        triangles[3 * t + 1],
        triangles[3 * t + 2],
        triangles[3 * t + 2],
        triangles[3 * t],
    ];
    assert(edges.len() == 6);
    assert forall|m: int| 0 <= m < 6 implies edges[m] == expected[m] by {
        let k = 6 * t + m;
        assert(k / 6 == t && k % 6 == m);
        assert(edges[m] == line_list(triangles)[k]);
    }
    assert(edges =~= expected);
}

} // verus!
