use terrain_mesh::mesh::Grid;

fn grid(rows: u32, cols: u32) -> Grid {
    Grid::new(rows, cols).expect("well-formed lattice")
}

#[test]
fn three_by_three_lattice_has_nine_vertices_and_24_indices() {
    let g = grid(3, 3);
    assert_eq!(g.vertex_count(), 9);
    assert_eq!(g.triangle_index_count(), 24);
    assert_eq!(g.vertex_coords().len(), 9);
    assert_eq!(g.triangle_indices().len(), 24);
}

#[test]
fn triangle_indices_of_three_by_three_lattice() {
    let indices = grid(3, 3).triangle_indices();
    let expected: Vec<u32> = vec![
        0, 1, 3, 3, 1, 4, // cell (0, 0)
        1, 2, 4, 4, 2, 5, // cell (0, 1)
        3, 4, 6, 6, 4, 7, // cell (1, 0)
        4, 5, 7, 7, 5, 8, // cell (1, 1)
    ];
    assert_eq!(indices, expected);
}

#[test]
fn triangle_indices_of_rectangular_lattice() {
    let indices = grid(2, 4).triangle_indices();
    let expected: Vec<u32> = vec![
        0, 1, 4, 4, 1, 5, //
        1, 2, 5, 5, 2, 6, //
        2, 3, 6, 6, 3, 7, //
    ];
    assert_eq!(indices, expected);
}

#[test]
fn counts_follow_the_lattice_dimensions() {
    for (rows, cols) in [(1u32, 1u32), (1, 7), (7, 1), (2, 2), (4, 5), (21, 21), (13, 64)] {
        let g = grid(rows, cols);
        let vertices = (rows * cols) as usize;
        let indices = (6 * (rows - 1) * (cols - 1)) as usize;
        assert_eq!(g.vertex_count(), vertices);
        assert_eq!(g.vertex_coords().len(), vertices);
        assert_eq!(g.triangle_index_count(), indices);
        assert_eq!(g.triangle_indices().len(), indices);
    }
}

#[test]
fn single_row_or_column_has_vertices_but_no_triangles() {
    assert!(grid(1, 1).triangle_indices().is_empty());
    assert_eq!(grid(1, 1).vertex_coords(), vec![(0, 0)]);
    assert!(grid(1, 5).triangle_indices().is_empty());
    assert_eq!(grid(1, 5).vertex_coords().len(), 5);
    assert!(grid(5, 1).triangle_indices().is_empty());
    assert_eq!(grid(5, 1).vertex_coords(), vec![(0, 0), (1, 0), (2, 0), (3, 0), (4, 0)]);
}

#[test]
fn vertex_coords_run_row_by_row() {
    let coords = grid(2, 3).vertex_coords();
    assert_eq!(coords, vec![(0, 0), (0, 1), (0, 2), (1, 0), (1, 1), (1, 2)]);
}

#[test]
fn vertex_at_grid_coordinate_has_index_row_times_cols_plus_column() {
    let g = grid(6, 4);
    let coords = g.vertex_coords();
    for i in 0..6u32 {
        for j in 0..4u32 {
            assert_eq!(coords[(i * 4 + j) as usize], (i, j));
        }
    }
}

#[test]
fn every_triangle_index_names_a_vertex() {
    let g = grid(5, 9);
    let count = g.vertex_count() as u32;
    assert!(g.triangle_indices().iter().all(|index| *index < count));
}

#[test]
fn cell_triangles_keep_their_winding() {
    let g = grid(4, 6);
    let coords = g.vertex_coords();
    let indices = g.triangle_indices();
    for i in 0..3u32 {
        for j in 0..5u32 {
            let start = (6 * (i * 5 + j)) as usize;
            let corners: Vec<(u32, u32)> =
                indices[start..start + 6].iter().map(|v| coords[*v as usize]).collect();
            assert_eq!(
                corners,
                vec![(i, j), (i, j + 1), (i + 1, j), (i + 1, j), (i, j + 1), (i + 1, j + 1)]
            );
        }
    }
}

#[test]
fn lattice_reports_its_dimensions() {
    let g = grid(3, 5);
    assert_eq!(g.rows(), 3);
    assert_eq!(g.cols(), 5);
}

#[test]
fn cell_counts_are_one_less_than_vertex_counts() {
    assert_eq!(grid(3, 5).cell_counts(), [2, 4]);
    assert_eq!(grid(1, 1).cell_counts(), [0, 0]);
}

#[test]
fn lattice_without_vertices_is_refused() {
    assert_eq!(Grid::new(0, 3), None);
    assert_eq!(Grid::new(3, 0), None);
}

#[test]
fn lattice_beyond_32_bit_indices_is_refused() {
    // 65536 * 65536 vertices do not fit.
    assert_eq!(Grid::new(65536, 65536), None);
    // 30001 * 30001 vertices fit, the six indices of each cell do not.
    assert_eq!(Grid::new(30001, 30001), None);
    let long = Grid::new(u32::MAX, 1).unwrap();
    assert_eq!((long.rows(), long.cols()), (u32::MAX, 1));
    assert!(Grid::new(26755, 26755).is_some());
    assert_eq!(Grid::new(26756, 26756), None);
}
