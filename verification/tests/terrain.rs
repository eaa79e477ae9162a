use terrain_mesh::mesh::Grid;
use terrain_mesh::terrain::ConfigError;
use terrain_mesh::terrain::MeshLayout;
use terrain_mesh::terrain::Terrain;
use terrain_mesh::topology::build_indices;
use terrain_mesh::topology::IndexBuffer;
use terrain_mesh::topology::Topology;
use terrain_mesh::wireframe::wireframe_indices;

fn lattice(rows: u32, cols: u32) -> Grid {
    Grid::new(rows, cols).expect("well-formed lattice")
}

fn terrain(size: [u32; 2], resolution: u32) -> Terrain {
    Terrain { size, resolution, wireframe: false, export: false }
}

#[test]
fn default_terrain() {
    let t = Terrain::default();
    assert_eq!(t.size, [2, 2]);
    assert_eq!(t.resolution, 10);
    assert!(!t.wireframe);
    assert!(!t.export);
    assert_eq!(t.grid(), Ok(lattice(21, 21)));
}

#[test]
fn unit_base_with_resolution_two_gives_three_by_three_lattice() {
    let t = terrain([1, 1], 2);
    let grid = t.grid().unwrap();
    assert_eq!(grid, lattice(3, 3));
    assert_eq!(grid.vertex_count(), 9);
    assert_eq!(grid.cell_counts(), [2, 2]);
    let triangles = build_indices(&grid, false);
    assert_eq!(triangles.topology, Topology::TriangleList);
    assert_eq!(triangles.indices.len(), 24);
    let wire = build_indices(&grid, true);
    assert_eq!(wire.topology, Topology::LineList);
    assert_eq!(wire.indices.len(), 48);
}

#[test]
fn lattice_has_one_more_vertex_than_cells_along_each_axis() {
    assert_eq!(terrain([3, 5], 4).grid(), Ok(lattice(13, 21)));
    assert_eq!(terrain([1, 1], 1).grid(), Ok(lattice(2, 2)));
}

#[test]
fn zero_base_size_degenerates_to_a_single_row() {
    let t = terrain([0, 2], 10);
    assert_eq!(t.grid(), Ok(lattice(1, 21)));
    let mut single_row = t;
    let layout = single_row.rebuild(2).unwrap();
    assert!(layout.index_buffer.indices.is_empty());
    assert_eq!(layout.grid.vertex_coords().len(), 21);
    let mut both = terrain([0, 0], 3);
    assert_eq!(both.grid(), Ok(lattice(1, 1)));
    let layout = both.rebuild(2).unwrap();
    assert!(layout.index_buffer.indices.is_empty());
    assert_eq!(layout.grid.vertex_coords(), vec![(0, 0)]);
}

#[test]
fn zero_resolution_is_rejected() {
    let t = terrain([2, 2], 0);
    assert_eq!(t.grid(), Err(ConfigError::ZeroResolution));
    assert_eq!(t.validate(3), Err(ConfigError::ZeroResolution));
    let mut rejected = t;
    assert_eq!(rejected.rebuild(3), Err(ConfigError::ZeroResolution));
}

#[test]
fn empty_region_list_is_rejected() {
    assert_eq!(terrain([2, 2], 10).validate(0), Err(ConfigError::NoRegions));
    assert_eq!(terrain([2, 2], 0).validate(0), Err(ConfigError::NoRegions));
    assert_eq!(terrain([2, 2], 10).validate(1), Ok(lattice(21, 21)));
}

#[test]
fn oversized_lattice_is_rejected() {
    // 70001 * 70001 vertices do not fit in 32 bits.
    assert_eq!(terrain([70000, 70000], 1).grid(), Err(ConfigError::GridTooLarge));
    // 30001 * 30001 vertices fit, 6 * 30000 * 30000 indices do not.
    assert_eq!(terrain([3, 3], 10000).grid(), Err(ConfigError::GridTooLarge));
    assert_eq!(terrain([u32::MAX, 1], 1).grid(), Err(ConfigError::GridTooLarge));
    assert_eq!(terrain([u32::MAX, u32::MAX], u32::MAX).grid(), Err(ConfigError::GridTooLarge));
    assert_eq!(terrain([u32::MAX, 1], u32::MAX).validate(2), Err(ConfigError::GridTooLarge));
    // One axis may be long as long as the other one is degenerate.
    assert_eq!(terrain([u32::MAX - 1, 0], 1).grid(), Ok(lattice(u32::MAX, 1)));
}

#[test]
fn largest_square_lattice_that_fits() {
    // 6 * 26754 * 26754 = 4_294_659_096 fits in 32 bits, 6 * 26755 * 26755 does not.
    assert_eq!(terrain([26754, 26754], 1).grid(), Ok(lattice(26755, 26755)));
    assert_eq!(terrain([26755, 26755], 1).grid(), Err(ConfigError::GridTooLarge));
}

#[test]
fn index_buffer_is_the_triangle_list_or_its_wireframe() {
    let grid = terrain([2, 1], 2).grid().unwrap();
    let triangles = grid.triangle_indices();
    let plain = build_indices(&grid, false);
    assert_eq!(plain, IndexBuffer { topology: Topology::TriangleList, indices: triangles.clone() });
    let wire = build_indices(&grid, true);
    assert_eq!(wire.topology, Topology::LineList);
    assert_eq!(wire.indices, wireframe_indices(&triangles));
}

#[test]
fn rebuild_lays_out_the_mesh() {
    let mut t = Terrain { size: [1, 1], resolution: 2, wireframe: false, export: false };
    let layout = t.rebuild(2).unwrap();
    assert_eq!(
        layout,
        MeshLayout {
            grid: lattice(3, 3),
            index_buffer: IndexBuffer {
                topology: Topology::TriangleList,
                indices: vec![
                    0, 1, 3, 3, 1, 4, 1, 2, 4, 4, 2, 5, 3, 4, 6, 6, 4, 7, 4, 5, 7, 7, 5, 8,
                ],
            },
            export: false,
        }
    );
    assert_eq!(t, Terrain { size: [1, 1], resolution: 2, wireframe: false, export: false });
}

#[test]
fn rebuild_of_a_wireframe_switches_to_lines() {
    let mut t = Terrain { size: [1, 1], resolution: 1, wireframe: true, export: false };
    let layout = t.rebuild(1).unwrap();
    assert_eq!(layout.grid, lattice(2, 2));
    assert_eq!(layout.index_buffer.topology, Topology::LineList);
    assert_eq!(layout.index_buffer.indices, vec![0, 1, 1, 2, 2, 0, 2, 1, 1, 3, 3, 2]);
}

#[test]
fn rebuild_exports_once() {
    let mut t = Terrain { size: [1, 2], resolution: 3, wireframe: false, export: true };
    let first = t.rebuild(4).unwrap();
    assert!(first.export);
    assert!(!t.export);
    let second = t.rebuild(4).unwrap();
    assert!(!second.export);
    assert_eq!(second.grid, first.grid);
    assert_eq!(second.index_buffer, first.index_buffer);
    t.export = true;
    assert!(t.rebuild(4).unwrap().export);
    assert!(!t.rebuild(4).unwrap().export);
}

#[test]
fn rejected_rebuild_keeps_the_export_trigger() {
    let mut t = Terrain { size: [2, 2], resolution: 0, wireframe: false, export: true };
    assert_eq!(t.rebuild(2), Err(ConfigError::ZeroResolution));
    assert!(t.export);
    t.resolution = 4;
    assert_eq!(t.rebuild(0), Err(ConfigError::NoRegions));
    assert!(t.export);
    t.size = [70000, 70000];
    assert_eq!(t.rebuild(2), Err(ConfigError::GridTooLarge));
    assert!(t.export);
    t.size = [2, 2];
    assert!(t.rebuild(2).unwrap().export);
    assert!(!t.export);
}

#[test]
fn export_trigger_fires_once() {
    let mut t = Terrain { export: true, ..Terrain::default() };
    assert!(t.take_export());
    assert!(!t.export);
    assert!(!t.take_export());
    assert!(!t.take_export());
    t.export = true;
    assert!(t.take_export());
    assert!(!t.take_export());
}

#[test]
fn taking_the_export_trigger_keeps_the_rest() {
    let mut t = Terrain { size: [4, 7], resolution: 3, wireframe: true, export: true };
    assert!(t.take_export());
    assert_eq!(t, Terrain { size: [4, 7], resolution: 3, wireframe: true, export: false });
    let mut idle = Terrain { size: [4, 7], resolution: 3, wireframe: false, export: false };
    assert!(!idle.take_export());
    assert_eq!(idle, Terrain { size: [4, 7], resolution: 3, wireframe: false, export: false });
}
