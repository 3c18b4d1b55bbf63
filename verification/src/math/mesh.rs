//! Meshes and the triangulation of a sampled grid.
//!
//! Coordinates are of any type `T`; nothing here computes with them. A grid
//! of `rows` by `cols` vertices numbers the vertex in row `i` and column `j`
//! as `i * cols + j`.

use vstd::prelude::*;

verus! {

/// Values that one vertex position, and one normal, takes.
pub const VALUES_PER_VERTEX: usize = 3;

/// Indices that one grid cell takes: two triangles.
pub const INDICES_PER_CELL: usize = 6;

/// The number of the vertex in row `i` and column `j`.
pub open spec fn vertex_at(cols: int, i: int, j: int) -> int {
    i * cols + j
}

/// The six indices of the cell whose top-left vertex is in row `i` and column
/// `j`: the triangle top-left, bottom-left, top-right, then the triangle
/// top-right, bottom-left, bottom-right. The bottom row is row `i + 1`.
pub open spec fn cell_indices(cols: int, i: int, j: int) -> Seq<int> {
    seq![
        vertex_at(cols, i, j),
        vertex_at(cols, i + 1, j),
        vertex_at(cols, i, j + 1),
        vertex_at(cols, i, j + 1),
        vertex_at(cols, i + 1, j),
        vertex_at(cols, i + 1, j + 1),
    ]
}

/// The place in the index list where the indices of a cell begin: cells are
/// listed row by row.
pub open spec fn cell_start(cols: int, i: int, j: int) -> int {
    INDICES_PER_CELL * (i * (cols - 1) + j)
}

/// The number of cells of a grid: none where it has fewer than two rows or
/// columns.
pub open spec fn cell_count(rows: int, cols: int) -> int {
    if rows < 2 || cols < 2 {
        0
    } else {
        (rows - 1) * (cols - 1)
    }
}

/// Whether `indices` lists, cell by cell and row by row, the two triangles of
/// every cell of a grid of `rows` by `cols` vertices.
pub open spec fn is_grid_triangulation(indices: Seq<u32>, rows: int, cols: int) -> bool {
    &&& indices.len() == INDICES_PER_CELL * cell_count(rows, cols)
    &&& forall|i: int, j: int, t: int|
        #![trigger indices[cell_start(cols, i, j) + t]]
        0 <= i < rows - 1 && 0 <= j < cols - 1 && 0 <= t < INDICES_PER_CELL ==> indices[cell_start(cols, i, j)
            + t] as int == cell_indices(cols, i, j)[t]
}

/// Whether every index names a vertex.
pub open spec fn indices_in_range(indices: Seq<u32>, vertex_count: int) -> bool {
    forall|n: int| 0 <= n < indices.len() ==> 0 <= #[trigger] indices[n] < vertex_count
}

/// Vertex positions, one normal for each vertex, and triangles as triples of
/// vertex numbers.
pub struct TriangleMesh<T> {
    pub vertices: Vec<T>,
    pub normals: Vec<T>,
    pub indices: Vec<u32>,
}

impl<T> TriangleMesh<T> {
    /// The number of vertices.
    pub open spec fn vertex_count(&self) -> int {
        self.vertices@.len() as int / (VALUES_PER_VERTEX as int)
    }

    /// Positions come in whole vertices, every vertex has a normal, triangles
    /// come whole, and every index names a vertex.
    pub open spec fn wf(&self) -> bool {
        &&& self.vertices@.len() % (VALUES_PER_VERTEX as nat) == 0
        &&& self.normals@.len() == self.vertices@.len()
        &&& self.indices@.len() % 3 == 0
        &&& indices_in_range(self.indices@, self.vertex_count())
    }

    /// Whether this is the mesh of a grid of `rows` by `cols` vertices: one
    /// position and one normal for each grid vertex, and the grid's
    /// triangulation.
    pub open spec fn is_grid(&self, rows: int, cols: int) -> bool {
        &&& self.vertices@.len() == VALUES_PER_VERTEX * (rows * cols)
        &&& self.normals@.len() == self.vertices@.len()
        &&& is_grid_triangulation(self.indices@, rows, cols)
    }
}

/// A height field with the range of heights that were sampled.
pub struct SurfaceMesh<T> {
    pub mesh: TriangleMesh<T>,
    pub z_min: T,
    pub z_max: T,
}

/// A surface given by three coordinate functions of two parameters.
pub struct ParametricSurfaceMesh<T> {
    pub mesh: TriangleMesh<T>,
}

/// A curve: vertex positions in order, drawn as one connected line.
pub struct CurveMesh<T> {
    pub vertices: Vec<T>,
}

impl<T> CurveMesh<T> {
    /// Positions come in whole vertices.
    pub open spec fn wf(&self) -> bool {
        self.vertices@.len() % (VALUES_PER_VERTEX as nat) == 0
    }
}

/// `a * b` is no more than `c * d` where neither factor is more.
proof fn lemma_product_bound(a: int, b: int, c: int, d: int)
    by (nonlinear_arith)
    requires
        0 <= a <= c,
        0 <= b <= d,
    ensures
        a * b <= c * d,
{
}

/// The largest vertex number of a cell is less than the number of vertices.
proof fn lemma_cell_in_range(rows: int, cols: int, i: int, j: int)
    requires
        0 <= i < rows - 1,
        0 <= j < cols - 1,
    ensures
        0 <= vertex_at(cols, i, j),
        vertex_at(cols, i + 1, j + 1) < rows * cols,
        vertex_at(cols, i, j) < vertex_at(cols, i, j + 1) <= vertex_at(cols, i + 1, j) < vertex_at(
            cols,
            i + 1,
            j + 1,
        ),
{
    assert((i + 1) * cols == i * cols + cols) by (nonlinear_arith);
    assert((i + 2) * cols == i * cols + 2 * cols) by (nonlinear_arith);
    lemma_product_bound(i + 2, cols, rows, cols);
    lemma_product_bound(0, cols, i, cols);
}

/// Triangulates a grid of `rows` by `cols` vertices: two triangles for every
/// cell, cell by cell and row by row. Gives `None` where the grid has more
/// vertices than a 32-bit index can number. A grid with fewer than two rows
/// or columns has no cells and no triangles.
pub fn grid_indices(rows: usize, cols: usize) -> (indices: Option<Vec<u32>>)
    ensures
        indices.is_some() <==> rows * cols <= u32::MAX,
        indices matches Some(list) ==> {
            &&& is_grid_triangulation(list@, rows as int, cols as int)
            &&& indices_in_range(list@, rows * cols)
        },
{
    proof {
        lemma_product_bound(rows as int, cols as int, u64::MAX as int, u64::MAX as int);
    }
    let total: u128 = rows as u128 * cols as u128;
    if total > u32::MAX as u128 {
        return None;
    }
    let mut list: Vec<u32> = Vec::new();
    if rows < 2 || cols < 2 {
        return Some(list);
    }
    let cells_per_row: usize = cols - 1;
    let mut i: usize = 0;
    while i < rows - 1
        invariant
            rows >= 2,
            cols >= 2,
            rows * cols <= u32::MAX,
            cells_per_row == cols - 1,
            i <= rows - 1,
            list@.len() == INDICES_PER_CELL * (i * cells_per_row),
            indices_in_range(list@, rows * cols),
            forall|a: int, b: int, t: int|
                #![trigger list@[cell_start(cols as int, a, b) + t]]
                0 <= a < i && 0 <= b < cols - 1 && 0 <= t < INDICES_PER_CELL ==> list@[cell_start(
                    cols as int,
                    a,
                    b,
                ) + t] as int == cell_indices(cols as int, a, b)[t],
        decreases rows - 1 - i,
    {
        let mut j: usize = 0;
        while j < cols - 1
            invariant
                rows >= 2,
                cols >= 2,
                rows * cols <= u32::MAX,
                cells_per_row == cols - 1,
                i < rows - 1,
                j <= cols - 1,
                list@.len() == INDICES_PER_CELL * (i * cells_per_row + j),
                indices_in_range(list@, rows * cols),
                forall|a: int, b: int, t: int|
                    #![trigger list@[cell_start(cols as int, a, b) + t]]
                    0 <= a < i && 0 <= b < cols - 1 && 0 <= t < INDICES_PER_CELL ==> list@[cell_start(
                        cols as int,
                        a,
                        b,
                    ) + t] as int == cell_indices(cols as int, a, b)[t],
                forall|b: int, t: int|
                    #![trigger list@[cell_start(cols as int, i as int, b) + t]]
                    0 <= b < j && 0 <= t < INDICES_PER_CELL ==> list@[cell_start(cols as int, i as int, b)
                        + t] as int == cell_indices(cols as int, i as int, b)[t],
            decreases cols - 1 - j,
        {
            proof {
                lemma_cell_in_range(rows as int, cols as int, i as int, j as int);
            }
            let ghost before = list@;
            let top_left: usize = i * cols + j;
            let bottom_left: usize = (i + 1) * cols + j;
            let tl: u32 = top_left as u32;
            let tr: u32 = (top_left + 1) as u32;
            let bl: u32 = bottom_left as u32;
            let br: u32 = (bottom_left + 1) as u32;
            list.push(tl);
            list.push(bl);
            list.push(tr);
            list.push(tr);
            list.push(bl);
            list.push(br);
            proof {
                let start = cell_start(cols as int, i as int, j as int);
                assert(start == before.len());
                assert forall|a: int, b: int, t: int|
                    0 <= a < i && 0 <= b < cols - 1 && 0 <= t < INDICES_PER_CELL implies #[trigger] list@[cell_start(
                    cols as int,
                    a,
                    b,
                ) + t] as int == cell_indices(cols as int, a, b)[t] by {
                    lemma_cell_order(cols as int, a, b, i as int, j as int);
                    assert(list@[cell_start(cols as int, a, b) + t] == before[cell_start(cols as int, a, b)
                        + t]);
                }
                assert forall|b: int, t: int|
                    0 <= b < j + 1 && 0 <= t < INDICES_PER_CELL implies #[trigger] list@[cell_start(
                    cols as int,
                    i as int,
                    b,
                ) + t] as int == cell_indices(cols as int, i as int, b)[t] by {
                    if b < j {
                        lemma_cell_order(cols as int, i as int, b, i as int, j as int);
                        assert(list@[cell_start(cols as int, i as int, b) + t] == before[cell_start(
                            cols as int,
                            i as int,
                            b,
                        ) + t]);
                    }
                }
                assert(i * cells_per_row + j + 1 == i * cells_per_row + (j + 1));
            }
            j = j + 1;
        }
        proof {
            assert((i + 1) * cells_per_row == i * cells_per_row + cells_per_row) by (nonlinear_arith);
        }
        i = i + 1;
    }
    proof {
        assert(cell_count(rows as int, cols as int) == (rows - 1) * cells_per_row);
    }
    Some(list)
}

/// A cell that comes earlier in the row-by-row order ends before a later
/// cell begins.
proof fn lemma_cell_order(cols: int, a: int, b: int, i: int, j: int)
    requires
        cols >= 2,
        0 <= a,
        0 <= b < cols - 1,
        0 <= j <= cols - 1,
        a < i || (a == i && b < j),
    ensures
        0 <= cell_start(cols, a, b),
        cell_start(cols, a, b) + INDICES_PER_CELL <= cell_start(cols, i, j),
{
    let d = cols - 1;
    assert(0 <= a * d) by (nonlinear_arith)
        requires
            0 <= a,
            0 <= d,
    ;
    if a < i {
        assert((a + 1) * d <= i * d) by (nonlinear_arith)
            requires
                a + 1 <= i,
                0 <= d,
        ;
        assert((a + 1) * d == a * d + d) by (nonlinear_arith);
    }
}

/// A square grid of `resolution` by `resolution` vertices, with at least one
/// vertex, has exactly `6 * (resolution - 1)^2` indices, and each of them
/// names one of its `resolution^2` vertices.
pub proof fn lemma_square_grid_indices(indices: Seq<u32>, resolution: int)
    requires
        resolution >= 1,
        is_grid_triangulation(indices, resolution, resolution),
        indices_in_range(indices, resolution * resolution),
    ensures
        indices.len() == 6 * ((resolution - 1) * (resolution - 1)),
        forall|n: int| 0 <= n < indices.len() ==> 0 <= #[trigger] indices[n] < resolution * resolution,
{
    if resolution == 1 {
        assert((resolution - 1) * (resolution - 1) == 0) by (nonlinear_arith)
            requires
                resolution == 1,
        ;
    }
}

/// A grid of `rows` by `cols` vertices has `2 * (rows - 1) * (cols - 1)`
/// triangles where it has at least one row and one column.
pub proof fn lemma_triangle_count(indices: Seq<u32>, rows: int, cols: int)
    requires
        rows >= 1,
        cols >= 1,
        is_grid_triangulation(indices, rows, cols),
    ensures
        indices.len() == 3 * (2 * ((rows - 1) * (cols - 1))),
{
    if rows == 1 {
        assert((rows - 1) * (cols - 1) == 0) by (nonlinear_arith)
            requires
                rows == 1,
        ;
    } else if cols == 1 {
        assert((rows - 1) * (cols - 1) == 0) by (nonlinear_arith)
            requires
                cols == 1,
        ;
    }
}

impl<T> TriangleMesh<T> {
    /// Makes the mesh of a grid of `rows` by `cols` vertices from its
    /// positions and normals, three values for each vertex in row-by-row
    /// order, and triangulates it. Gives `None` where the positions or the
    /// normals are not three values for each grid vertex, or where the grid
    /// has more vertices than a 32-bit index can number.
    pub fn from_grid(vertices: Vec<T>, normals: Vec<T>, rows: usize, cols: usize) -> (mesh: Option<Self>)
        ensures
            mesh.is_some() <==> {
                &&& rows * cols <= u32::MAX
                &&& vertices@.len() == VALUES_PER_VERTEX * (rows * cols)
                &&& normals@.len() == VALUES_PER_VERTEX * (rows * cols)
            },
            mesh matches Some(made) ==> {
                &&& made.vertices@ == vertices@
                &&& made.normals@ == normals@
                &&& made.is_grid(rows as int, cols as int)
                &&& made.wf()
            },
    {
        match grid_indices(rows, cols) {
            None => None,
            Some(indices) => {
                proof {
                    lemma_product_bound(0, 0, rows as int, cols as int);
                }
                let grid_vertices: usize = rows * cols;
                let expected: u64 = grid_vertices as u64 * VALUES_PER_VERTEX as u64;
                if vertices.len() as u64 != expected || normals.len() as u64 != expected {
                    return None;
                }
                proof {
                    let cells = cell_count(rows as int, cols as int);
                    assert(indices@.len() == 3 * (2 * cells));
                }
                Some(TriangleMesh { vertices, normals, indices })
            },
        }
    }
}

} // verus!
