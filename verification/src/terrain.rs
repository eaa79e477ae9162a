//! Configuration of a terrain instance and what a rebuild derives from it.

use crate::mesh::lattice_fits;
use crate::mesh::Grid;
use crate::topology::build_indices;
use crate::topology::index_list;
use crate::topology::topology_of;
use crate::topology::IndexBuffer;
use vstd::prelude::*;

verus! {

/// Configuration of one terrain instance.
#[derive(Clone, Copy, Debug, PartialEq, Eq)]
pub struct Terrain {
    /// Base size of the terrain in tiles, along its width and its depth.
    pub size: [u32; 2],
    /// Subdivisions of each tile.
    pub resolution: u32,
    /// Whether the mesh is drawn as a wireframe.
    pub wireframe: bool,
    /// One-shot trigger: the next rebuild hands its buffers to the exporter.
    pub export: bool,
}

/// Why a configuration cannot be built.
#[derive(Clone, Copy, Debug, PartialEq, Eq, Structural)]
pub enum ConfigError {
    /// The resolution is zero.
    ZeroResolution,
    /// The gradient has no control point.
    NoRegions,
    /// The vertex count or the index count does not fit in 32 bits.
    GridTooLarge,
}

/// What a rebuild derives from the configuration alone.
#[derive(Debug, PartialEq, Eq)]
pub struct MeshLayout {
    /// The vertex lattice of the mesh.
    pub grid: Grid,
    /// The index buffer of the mesh and its topology.
    pub index_buffer: IndexBuffer,
    /// Whether the finished buffers are handed to the exporter.
    pub export: bool,
}

impl Default for Terrain {
    fn default() -> (terrain: Self)
        ensures
            terrain.size[0] == 2,
            terrain.size[1] == 2,
            terrain.resolution == 10,
            !terrain.wireframe,
            !terrain.export,
    {
        Terrain { size: [2, 2], resolution: 10, wireframe: false, export: false }
    }
}

impl Terrain {
    /// Number of cells along axis 0 (width) or 1 (depth): the base size times
    /// the resolution.
    pub open spec fn cells(&self, axis: int) -> int {
        self.size[axis] * self.resolution
    }

    /// Whether the lattice with one more vertex than cells along each axis
    /// exists: its vertex count and its triangle index count fit in 32 bits.
    pub open spec fn fits(&self) -> bool {
        lattice_fits(self.cells(0) + 1, self.cells(1) + 1)
    }

    /// The error, if any, for which this configuration has no lattice.
    pub open spec fn grid_rejection(&self) -> Option<ConfigError> {
        if self.resolution == 0 {
            Some(ConfigError::ZeroResolution)
        } else if !self.fits() {
            Some(ConfigError::GridTooLarge)
        } else {
            None
        }
    }

    /// The error, if any, that rejects this configuration when the gradient
    /// has `region_count` control points.
    pub open spec fn rejection(&self, region_count: int) -> Option<ConfigError> {
        if region_count == 0 {
            Some(ConfigError::NoRegions)
        } else {
            self.grid_rejection()
        }
    }

    /// The vertex lattice of the terrain: one more vertex than cells along
    /// each axis.
    pub fn grid(&self) -> (result: Result<Grid, ConfigError>)
        ensures
            match result {
                Ok(grid) => {
                    &&& self.grid_rejection() is None
                    &&& grid.rows() == self.cells(0) + 1
                    &&& grid.cols() == self.cells(1) + 1
                },
                Err(error) => self.grid_rejection() == Some(error),
            },
    {
        if self.resolution == 0 {
            return Err(ConfigError::ZeroResolution);
        }
        let limit: u64 = u32::MAX as u64;
        assert(self.size[0] * self.resolution <= u64::MAX && self.size[1] * self.resolution
            <= u64::MAX) by (nonlinear_arith)
            requires
                0 <= self.size[0] <= u32::MAX,
                0 <= self.size[1] <= u32::MAX,
                0 <= self.resolution <= u32::MAX,
        ;
        let width: u64 = self.size[0] as u64 * self.resolution as u64;
        let depth: u64 = self.size[1] as u64 * self.resolution as u64;
        proof {
            assert(width == self.cells(0) && depth == self.cells(1));
            assert((width + 1) * (depth + 1) >= width + 1 && (width + 1) * (depth + 1) >= depth
                + 1) by (nonlinear_arith)
                requires
                    0 <= width,
                    0 <= depth,
            ;
        }
        if width >= limit || depth >= limit {
            return Err(ConfigError::GridTooLarge);
        }
        match Grid::new((width + 1) as u32, (depth + 1) as u32) {
            Some(grid) => Ok(grid),
            None => Err(ConfigError::GridTooLarge),
        }
    }

    /// Checks the configuration before anything is generated from it.
    pub fn validate(&self, region_count: usize) -> (result: Result<Grid, ConfigError>)
        ensures
            match result {
                Ok(grid) => {
                    &&& self.rejection(region_count as int) is None
                    &&& grid.rows() == self.cells(0) + 1
                    &&& grid.cols() == self.cells(1) + 1
                },
                Err(error) => self.rejection(region_count as int) == Some(error),
            },
    {
        if region_count == 0 {
            return Err(ConfigError::NoRegions);
        }
        self.grid()
    }

    /// The configuration that a rebuild leaves behind: the export trigger is
    /// cleared, everything else is kept.
    pub open spec fn after_rebuild(&self) -> Terrain {
        Terrain {
            size: self.size,
            resolution: self.resolution,
            wireframe: self.wireframe,
            export: false,
        }
    }

    /// Reads the export trigger and clears it. The result says whether this
    /// rebuild hands its buffers to the exporter.
    pub fn take_export(&mut self) -> (due: bool)
        ensures
            due == old(self).export,
            *final(self) == old(self).after_rebuild(),
    {
        let due = self.export;
        self.export = false;
        due
    }

    /// Rebuilds the layout of the terrain mesh from the configuration.
    ///
    /// A configuration that is rejected is left as it is, its export trigger
    /// included. Otherwise the layout holds the lattice, its index buffer in
    /// the topology that the wireframe flag asks for, and the export trigger,
    /// which is cleared in the configuration.
    pub fn rebuild(&mut self, region_count: usize) -> (result: Result<MeshLayout, ConfigError>)
        ensures
            match result {
                Ok(layout) => {
                    &&& old(self).rejection(region_count as int) is None
                    &&& layout.grid.rows() == old(self).cells(0) + 1
                    &&& layout.grid.cols() == old(self).cells(1) + 1
                    &&& layout.index_buffer.topology == topology_of(old(self).wireframe)
                    &&& layout.index_buffer.indices@ == index_list(
                        old(self).cells(0) + 1,
                        old(self).cells(1) + 1,
                        old(self).wireframe,
                    )
                    &&& layout.export == old(self).export
                    &&& *final(self) == old(self).after_rebuild()
                },
                Err(error) => {
                    &&& old(self).rejection(region_count as int) == Some(error)
                    &&& *final(self) == *old(self)
                },
            },
    {
        match self.validate(region_count) {
            Ok(grid) => {
                let index_buffer = build_indices(&grid, self.wireframe);
                let export = self.take_export();
                Ok(MeshLayout { grid, index_buffer, export })
            },
            Err(error) => Err(error),
        }
    }
}

/// The export trigger is one-shot: whatever the configuration was, after a
/// rebuild the trigger is clear, so the next rebuild does not export unless
/// the trigger was set again. A rebuild changes nothing else, so the next
/// rebuild is accepted or rejected as this one was.
pub proof fn lemma_export_one_shot(terrain: Terrain, region_count: int)
    ensures
        !terrain.after_rebuild().export,
        terrain.after_rebuild().after_rebuild() == terrain.after_rebuild(),
        terrain.after_rebuild().size == terrain.size,
        terrain.after_rebuild().resolution == terrain.resolution,
        terrain.after_rebuild().wireframe == terrain.wireframe,
        terrain.after_rebuild().rejection(region_count) == terrain.rejection(region_count),
{
}

} // verus!
