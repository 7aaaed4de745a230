//! Vertex generator: the pure transform from the scene description to the
//! vertex and index arrays that one indexed draw call consumes.
//!
//! Vertex positions are in HALF-PIXEL units: twice the pixel coordinate.
//! A corner of a rectangle is `center ± size/2`; over doubled coordinates it
//! is `2*center ± size`, an exact integer even for odd sizes. The GPU layer
//! divides by two when it fills the 32-bit float vertex buffer.

use vstd::prelude::*;

use crate::scene::{Fill, Rect, Rgba, scene_filled};

verus! {

/// One vertex of the rectangle mesh, one per rectangle corner.
///
/// `pos_x`/`pos_y` locate the corner in half-pixel units. Every vertex of a
/// rectangle carries that rectangle's full shading parameter set — color,
/// border radius, center (`rect_pos_*`) and size (`rect_size_*`, both in
/// half-pixel units), softness — so the fragment stage can evaluate the
/// signed-distance field without any per-rectangle GPU resource.
#[derive(Clone, Copy, PartialEq, Eq, Debug)]
pub struct Vertex {
    pub pos_x: i64,
    pub pos_y: i64,
    pub z_index: u32,
    pub color: Rgba,
    pub border_radius: u32,
    pub rect_pos_x: i64,
    pub rect_pos_y: i64,
    pub rect_size_x: i64,
    pub rect_size_y: i64,
    pub softness: u32,
}

/// The vertex and index arrays for a whole scene: four vertices and six
/// indices per rectangle, no vertex shared across rectangles.
#[derive(PartialEq, Eq, Debug)]
pub struct Mesh {
    pub vertices: Vec<Vertex>,
    pub indices: Vec<u16>,
}

/// Why the vertex generator rejected a scene.
#[derive(Clone, Copy, PartialEq, Eq, Debug)]
pub enum MeshError {
    /// The rectangle at `index` has no fill color; `index` is the first such
    /// rectangle in scene order.
    MissingFill { index: usize },
}

/// The x coordinate, in half-pixel units, of corner `k` of rectangle `r`.
/// Corners are emitted in the fixed order right-top, right-bottom,
/// left-bottom, left-top (y grows downward), a counter-clockwise winding.
pub open spec fn corner_x(r: Rect, k: int) -> int {
    if k == 0 || k == 1 {
        2 * r.center_x + r.width
    } else {
        2 * r.center_x - r.width
    }
}

/// The y coordinate, in half-pixel units, of corner `k` of rectangle `r`.
pub open spec fn corner_y(r: Rect, k: int) -> int {
    if k == 1 || k == 2 {
        2 * r.center_y + r.height
    } else {
        2 * r.center_y - r.height
    }
}

/// The vertex emitted for corner `k` of rectangle `r`.
pub open spec fn vertex_of(r: Rect, k: int) -> Vertex
    recommends
        r.fill is Some,
        0 <= k < 4,
{
    Vertex {
        pos_x: corner_x(r, k) as i64,
        pos_y: corner_y(r, k) as i64,
        z_index: r.z_index,
        color: r.fill->0.color,
        border_radius: r.border_radius,
        rect_pos_x: (2 * r.center_x) as i64,
        rect_pos_y: (2 * r.center_y) as i64,
        rect_size_x: (2 * r.width) as i64,
        rect_size_y: (2 * r.height) as i64,
        softness: r.softness,
    }
}

/// The index at offset `j` of a rectangle's six, relative to its base vertex:
/// the two triangles `(0, 2, 1)` and `(0, 3, 2)`, wound counter-clockwise to
/// match the pipeline's front face so neither is culled.
pub open spec fn index_pattern(j: int) -> int {
    if j == 0 {
        0
    } else if j == 1 {
        2
    } else if j == 2 {
        1
    } else if j == 3 {
        0
    } else if j == 4 {
        3
    } else {
        2
    }
}

/// `m` is exactly the mesh of `scene`: four vertices per rectangle, in
/// corner order, each carrying its rectangle's shading parameters, and six
/// indices per rectangle addressing only that rectangle's four vertices.
pub open spec fn mesh_for(scene: Seq<Rect>, m: Mesh) -> bool {
    &&& m.vertices@.len() == 4 * scene.len()
    &&& m.indices@.len() == 6 * scene.len()
    &&& forall|v: int|
        0 <= v < m.vertices@.len() ==> #[trigger] m.vertices@[v] == vertex_of(
            scene[v / 4],
            v % 4,
        )
    &&& forall|j: int|
        0 <= j < m.indices@.len() ==> #[trigger] m.indices@[j] == 4 * (j / 6) + index_pattern(
            j % 6,
        )
}

/// Build the vertex and index arrays for `scene`.
///
/// Succeeds exactly when every rectangle has a fill color; otherwise reports
/// the first rectangle without one. The scene length is bounded so that
/// every index fits the 16-bit index buffer format.
pub fn generate_mesh(scene: &Vec<Rect>) -> (r: Result<Mesh, MeshError>)
    requires
        scene@.len() <= 16384,
    ensures
        r is Ok <==> scene_filled(scene@),
        r matches Ok(m) ==> mesh_for(scene@, m),
        r matches Err(e) ==> {
            &&& e matches MeshError::MissingFill { index }
            &&& index < scene@.len()
            &&& scene@[index as int].fill is None
            &&& forall|i: int| 0 <= i < index ==> (#[trigger] scene@[i].fill) is Some
        },
{
    let n = scene.len();
    let mut vertices: Vec<Vertex> = Vec::new();
    let mut indices: Vec<u16> = Vec::new();
    let mut i: usize = 0;
    while i < n
        invariant
            n == scene@.len(),
            n <= 16384,
            i <= n,
            vertices@.len() == 4 * i,
            indices@.len() == 6 * i,
            forall|v: int|
                0 <= v < vertices@.len() ==> #[trigger] vertices@[v] == vertex_of(
                    scene@[v / 4],
                    v % 4,
                ),
            forall|j: int|
                0 <= j < indices@.len() ==> #[trigger] indices@[j] == 4 * (j / 6) + index_pattern(
                    j % 6,
                ),
            forall|t: int| 0 <= t < i ==> (#[trigger] scene@[t].fill) is Some,
        decreases n - i,
    {
        let rect = scene[i];
        let fill: Fill = match rect.fill {
            Some(f) => f,
            None => {
                return Err(MeshError::MissingFill { index: i });
            },
        };
        let cx2: i64 = 2 * (rect.center_x as i64);
        let cy2: i64 = 2 * (rect.center_y as i64);
        let w: i64 = rect.width as i64;
        let h: i64 = rect.height as i64;
        vertices.push(
            Vertex {
                pos_x: cx2 + w,
                pos_y: cy2 - h,
                z_index: rect.z_index,
                color: fill.color,
                border_radius: rect.border_radius,
                rect_pos_x: cx2,
                rect_pos_y: cy2,
                rect_size_x: 2 * w,
                rect_size_y: 2 * h,
                softness: rect.softness,
            },
        );
        vertices.push(
            Vertex {
                pos_x: cx2 + w,
                pos_y: cy2 + h,
                z_index: rect.z_index,
                color: fill.color,
                border_radius: rect.border_radius,
                rect_pos_x: cx2,
                rect_pos_y: cy2,
                rect_size_x: 2 * w,
                rect_size_y: 2 * h,
                softness: rect.softness,
            },
        );
        vertices.push(
            Vertex {
                pos_x: cx2 - w,
                pos_y: cy2 + h,
                z_index: rect.z_index,
                color: fill.color,
                border_radius: rect.border_radius,
                rect_pos_x: cx2,
                rect_pos_y: cy2,
                rect_size_x: 2 * w,
                rect_size_y: 2 * h,
                softness: rect.softness,
            },
        );
        vertices.push(
            Vertex {
                pos_x: cx2 - w,
                pos_y: cy2 - h,
                z_index: rect.z_index,
                color: fill.color,
                border_radius: rect.border_radius,
                rect_pos_x: cx2,
                rect_pos_y: cy2,
                rect_size_x: 2 * w,
                rect_size_y: 2 * h,
                softness: rect.softness,
            },
        );
        let base: u16 = (4 * i) as u16;
        indices.push(base);
        indices.push(base + 2);
        indices.push(base + 1);
        indices.push(base);
        indices.push(base + 3);
        indices.push(base + 2);
        i = i + 1;
    }
    Ok(Mesh { vertices, indices })
}

/// Law: in a generated mesh, the four vertices of every rectangle sit at
/// the rectangle's center offset by plus or minus half its size, in the
/// fixed corner order right-top, right-bottom, left-bottom, left-top
/// (coordinates in half-pixel units, so half a size is the size itself).
pub proof fn lemma_rect_corners(scene: Seq<Rect>, m: Mesh, i: int)
    requires
        mesh_for(scene, m),
        0 <= i < scene.len(),
    ensures
        m.vertices@[4 * i + 0].pos_x == 2 * scene[i].center_x + scene[i].width,
        m.vertices@[4 * i + 0].pos_y == 2 * scene[i].center_y - scene[i].height,
        m.vertices@[4 * i + 1].pos_x == 2 * scene[i].center_x + scene[i].width,
        m.vertices@[4 * i + 1].pos_y == 2 * scene[i].center_y + scene[i].height,
        m.vertices@[4 * i + 2].pos_x == 2 * scene[i].center_x - scene[i].width,
        m.vertices@[4 * i + 2].pos_y == 2 * scene[i].center_y + scene[i].height,
        m.vertices@[4 * i + 3].pos_x == 2 * scene[i].center_x - scene[i].width,
        m.vertices@[4 * i + 3].pos_y == 2 * scene[i].center_y - scene[i].height,
{
    assert(m.vertices@[4 * i + 0] == vertex_of(scene[(4 * i + 0) / 4], (4 * i + 0) % 4));
    assert(m.vertices@[4 * i + 1] == vertex_of(scene[(4 * i + 1) / 4], (4 * i + 1) % 4));
    assert(m.vertices@[4 * i + 2] == vertex_of(scene[(4 * i + 2) / 4], (4 * i + 2) % 4));
    assert(m.vertices@[4 * i + 3] == vertex_of(scene[(4 * i + 3) / 4], (4 * i + 3) % 4));
}

/// Law: in a generated mesh, the six indices of every rectangle reference
/// only that rectangle's own four vertices, and form exactly the two
/// triangles `(b, b+2, b+1)` and `(b, b+3, b+2)` over its base vertex
/// `b = 4*i` — together the two cover the rectangle's quad.
#[verifier::rlimit(30)]
pub proof fn lemma_rect_indices(scene: Seq<Rect>, m: Mesh, i: int)
    requires
        mesh_for(scene, m),
        0 <= i < scene.len(),
    ensures
        m.indices@[6 * i + 0] == 4 * i + 0,
        m.indices@[6 * i + 1] == 4 * i + 2,
        m.indices@[6 * i + 2] == 4 * i + 1,
        m.indices@[6 * i + 3] == 4 * i + 0,
        m.indices@[6 * i + 4] == 4 * i + 3,
        m.indices@[6 * i + 5] == 4 * i + 2,
        forall|j: int| 6 * i <= j < 6 * i + 6 ==> 4 * i <= #[trigger] m.indices@[j] < 4 * i + 4,
{
    assert forall|j: int| 6 * i <= j < 6 * i + 6 implies 4 * i <= #[trigger] m.indices@[j] < 4 * i
        + 4 by {
        assert(m.indices@[j] == 4 * (j / 6) + index_pattern(j % 6));
        assert(j / 6 == i) by (nonlinear_arith)
            requires
                6 * i <= j < 6 * i + 6,
        ;
        assert(0 <= index_pattern(j % 6) < 4);
    }
    assert(m.indices@[6 * i + 0] == 4 * ((6 * i + 0) / 6) + index_pattern((6 * i + 0) % 6));
    assert(m.indices@[6 * i + 1] == 4 * ((6 * i + 1) / 6) + index_pattern((6 * i + 1) % 6));
    assert(m.indices@[6 * i + 2] == 4 * ((6 * i + 2) / 6) + index_pattern((6 * i + 2) % 6));
    assert(m.indices@[6 * i + 3] == 4 * ((6 * i + 3) / 6) + index_pattern((6 * i + 3) % 6));
    assert(m.indices@[6 * i + 4] == 4 * ((6 * i + 4) / 6) + index_pattern((6 * i + 4) % 6));
    assert(m.indices@[6 * i + 5] == 4 * ((6 * i + 5) / 6) + index_pattern((6 * i + 5) % 6));
}

} // verus!
