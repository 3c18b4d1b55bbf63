//! Bookkeeping of the mesh buffers: how much of a mesh each device buffer
//! takes.

use vstd::prelude::*;

verus! {

/// Most vertices that the surface buffers take.
pub const MAX_SURFACE_VERTICES: usize = 500_000;

/// Most indices that the surface index buffer takes.
pub const MAX_SURFACE_INDICES: usize = 1_000_000;

/// Most vertices that the curve buffers take.
pub const MAX_CURVE_VERTICES: usize = 10_000;

/// Most vertices that the grid buffer takes.
pub const MAX_GRID_VERTICES: usize = 2000;

/// Most vertices that the heat-map buffer takes.
pub const MAX_HEATMAP_VERTICES: usize = 500_000;

/// The smaller of two lengths.
pub open spec fn at_most(len: int, cap: int) -> int {
    if len < cap {
        len
    } else {
        cap
    }
}

/// What a buffer takes of `len` values when it holds at most `max_vertices`
/// vertices of `stride` values each.
pub open spec fn accepted_values(len: int, max_vertices: int, stride: int) -> int {
    at_most(len, max_vertices * stride)
}

/// The writes that a mesh upload asks of the device.
#[derive(Clone, Copy, Debug, PartialEq, Eq, Structural)]
pub struct MeshWrite {
    /// Values to write from the start of the vertex positions, and as many
    /// again from the start of the normals.
    pub vertex_values: usize,
    /// Indices to write from the start of the index list.
    pub index_count: usize,
}

/// The state of the mesh buffers as contracts see it: what each holds.
pub struct MathBuffersView {
    pub surface_vertex_count: int,
    pub surface_index_count: int,
    pub curve_vertex_count: int,
    pub grid_vertex_count: int,
    pub heatmap_vertex_count: int,
    pub curve_2d_vertex_count: int,
}

/// The number of vertices and indices that each mesh buffer holds.
pub struct MathBuffers {
    surface_vertex_count: u32,
    surface_index_count: u32,
    curve_vertex_count: u32,
    grid_vertex_count: u32,
    heatmap_vertex_count: u32,
    curve_2d_vertex_count: u32,
}

impl View for MathBuffers {
    type V = MathBuffersView;

    closed spec fn view(&self) -> MathBuffersView {
        MathBuffersView {
            surface_vertex_count: self.surface_vertex_count as int,
            surface_index_count: self.surface_index_count as int,
            curve_vertex_count: self.curve_vertex_count as int,
            grid_vertex_count: self.grid_vertex_count as int,
            heatmap_vertex_count: self.heatmap_vertex_count as int,
            curve_2d_vertex_count: self.curve_2d_vertex_count as int,
        }
    }
}

/// The shorter of a length and a buffer's capacity in values.
fn cut(len: usize, max_vertices: usize, stride: usize) -> (taken: usize)
    requires
        max_vertices * stride <= 3_000_000,
    ensures
        taken == accepted_values(len as int, max_vertices as int, stride as int),
{
    let cap: usize = max_vertices * stride;
    if len < cap {
        len
    } else {
        cap
    }
}

impl MathBuffers {
    /// Empty buffers.
    pub fn new() -> (buffers: Self)
        ensures
            buffers@ == (MathBuffersView {
                surface_vertex_count: 0,
                surface_index_count: 0,
                curve_vertex_count: 0,
                grid_vertex_count: 0,
                heatmap_vertex_count: 0,
                curve_2d_vertex_count: 0,
            }),
    {
        MathBuffers {
            surface_vertex_count: 0,
            surface_index_count: 0,
            curve_vertex_count: 0,
            grid_vertex_count: 0,
            heatmap_vertex_count: 0,
            curve_2d_vertex_count: 0,
        }
    }

    /// Plans the upload of a height-field surface with `vertex_values`
    /// position values, as many normal values, and `index_count` indices:
    /// positions and normals are cut to [`MAX_SURFACE_VERTICES`] vertices,
    /// indices to [`MAX_SURFACE_INDICES`].
    pub fn upload_surface(&mut self, vertex_values: usize, index_count: usize) -> (write: MeshWrite)
        ensures
            write.vertex_values == accepted_values(vertex_values as int, MAX_SURFACE_VERTICES as int, 3),
            write.index_count == at_most(index_count as int, MAX_SURFACE_INDICES as int),
            final(self)@ == (MathBuffersView {
                surface_vertex_count: write.vertex_values as int / 3,
                surface_index_count: write.index_count as int,
                ..old(self)@
            }),
    {
        let taken: usize = cut(vertex_values, MAX_SURFACE_VERTICES, 3);
        let indices: usize = if index_count < MAX_SURFACE_INDICES {
            index_count
        } else {
            MAX_SURFACE_INDICES
        };
        self.surface_vertex_count = (taken / 3) as u32;
        self.surface_index_count = indices as u32;
        MeshWrite { vertex_values: taken, index_count: indices }
    }

    /// Plans the upload of a parametric surface; it shares the surface
    /// buffers and their limits with [`MathBuffers::upload_surface`].
    pub fn upload_parametric_surface(&mut self, vertex_values: usize, index_count: usize) -> (write: MeshWrite)
        ensures
            write.vertex_values == accepted_values(vertex_values as int, MAX_SURFACE_VERTICES as int, 3),
            write.index_count == at_most(index_count as int, MAX_SURFACE_INDICES as int),
            final(self)@ == (MathBuffersView {
                surface_vertex_count: write.vertex_values as int / 3,
                surface_index_count: write.index_count as int,
                ..old(self)@
            }),
    {
        self.upload_surface(vertex_values, index_count)
    }

    /// Plans the upload of `values` heat-map values, three to a vertex, and
    /// gives the number of values to write.
    pub fn upload_heatmap(&mut self, values: usize) -> (taken: usize)
        ensures
            taken == accepted_values(values as int, MAX_HEATMAP_VERTICES as int, 3),
            final(self)@ == (MathBuffersView { heatmap_vertex_count: taken as int / 3, ..old(self)@ }),
    {
        let taken: usize = cut(values, MAX_HEATMAP_VERTICES, 3);
        self.heatmap_vertex_count = (taken / 3) as u32;
        taken
    }

    /// Plans the upload of `values` values of a flattened curve, two to a
    /// vertex, and gives the number of values to write.
    pub fn upload_curve_2d(&mut self, values: usize) -> (taken: usize)
        ensures
            taken == accepted_values(values as int, MAX_CURVE_VERTICES as int, 2),
            final(self)@ == (MathBuffersView { curve_2d_vertex_count: taken as int / 2, ..old(self)@ }),
    {
        let taken: usize = cut(values, MAX_CURVE_VERTICES, 2);
        self.curve_2d_vertex_count = (taken / 2) as u32;
        taken
    }

    /// Plans the upload of `values` position values of a curve, three to a
    /// vertex, and gives the number of values to write.
    pub fn upload_curve(&mut self, values: usize) -> (taken: usize)
        ensures
            taken == accepted_values(values as int, MAX_CURVE_VERTICES as int, 3),
            final(self)@ == (MathBuffersView { curve_vertex_count: taken as int / 3, ..old(self)@ }),
    {
        let taken: usize = cut(values, MAX_CURVE_VERTICES, 3);
        self.curve_vertex_count = (taken / 3) as u32;
        taken
    }

    /// Plans the upload of `values` position values of the reference grid,
    /// three to a vertex, and gives the number of values to write.
    pub fn upload_grid(&mut self, values: usize) -> (taken: usize)
        ensures
            taken == accepted_values(values as int, MAX_GRID_VERTICES as int, 3),
            final(self)@ == (MathBuffersView { grid_vertex_count: taken as int / 3, ..old(self)@ }),
    {
        let taken: usize = cut(values, MAX_GRID_VERTICES, 3);
        self.grid_vertex_count = (taken / 3) as u32;
        taken
    }

    /// Vertices in the surface buffers.
    pub fn surface_vertex_count(&self) -> (count: u32)
        ensures
            count == self@.surface_vertex_count,
    {
        self.surface_vertex_count
    }

    /// Indices in the surface index buffer.
    pub fn surface_index_count(&self) -> (count: u32)
        ensures
            count == self@.surface_index_count,
    {
        self.surface_index_count
    }

    /// Vertices in the curve buffer.
    pub fn curve_vertex_count(&self) -> (count: u32)
        ensures
            count == self@.curve_vertex_count,
    {
        self.curve_vertex_count
    }

    /// Vertices in the grid buffer.
    pub fn grid_vertex_count(&self) -> (count: u32)
        ensures
            count == self@.grid_vertex_count,
    {
        self.grid_vertex_count
    }

    /// Vertices in the heat-map buffer.
    pub fn heatmap_vertex_count(&self) -> (count: u32)
        ensures
            count == self@.heatmap_vertex_count,
    {
        self.heatmap_vertex_count
    }

    /// Vertices in the flattened-curve buffer.
    pub fn curve_2d_vertex_count(&self) -> (count: u32)
        ensures
            count == self@.curve_2d_vertex_count,
    {
        self.curve_2d_vertex_count
    }
}

} // verus!
