//! Coloured triangles, and the backdrop that every screen is drawn over.

use crate::geometry::Point;
use vstd::prelude::*;

verus! {

/// The width of the drawing surface, in pixels.
pub const SURFACE_WIDTH: i32 = 720;

/// The height of the drawing surface, in pixels.
pub const SURFACE_HEIGHT: i32 = 480;

/// A colour; each channel in thousandths of full intensity.
#[derive(Clone, Copy, Debug, PartialEq, Eq, Structural)]
pub struct Color {
    pub r: u16,
    pub g: u16,
    pub b: u16,
    pub a: u16,
}

/// A corner of a triangle.
#[derive(Clone, Copy, Debug, PartialEq, Eq, Structural)]
pub struct Vertex {
    pub at: Point,
    pub color: Color,
}

/// Triangles over shared vertices: each three consecutive indices name
/// the corners of one triangle.
#[derive(Debug, PartialEq, Eq)]
pub struct Mesh {
    pub vertices: Vec<Vertex>,
    pub indices: Vec<u32>,
}

pub struct MeshView {
    pub vertices: Seq<Vertex>,
    pub indices: Seq<u32>,
}

impl View for Mesh {
    type V = MeshView;

    open spec fn view(&self) -> MeshView {
        MeshView { vertices: self.vertices@, indices: self.indices@ }
    }
}

impl MeshView {
    /// The indices come in threes and each names a vertex of the mesh.
    pub open spec fn is_triangle_list(self) -> bool {
        &&& self.indices.len() % 3 == 0
        &&& forall|i: int| 0 <= i < self.indices.len() ==> (#[trigger] self.indices[i]) < self.vertices.len()
    }
}

impl Mesh {
    /// Whether the mesh can be drawn as it stands.
    pub fn is_triangle_list(&self) -> (valid: bool)
        ensures
            valid == self@.is_triangle_list(),
    {
        if self.indices.len() % 3 != 0 {
            return false;
        }
        let mut i: usize = 0;
        while i < self.indices.len()
            invariant
                i <= self.indices.len(),
                forall|j: int| 0 <= j < i ==> (#[trigger] self.indices@[j]) < self.vertices@.len(),
            decreases self.indices.len() - i,
        {
            if self.indices[i] as usize >= self.vertices.len() {
                return false;
            }
            i += 1;
        }
        true
    }
}

impl Color {
    /// The colour of the given channels at full opacity.
    pub open spec fn spec_opaque(r: u16, g: u16, b: u16) -> Color {
        Color { r, g, b, a: 1000 }
    }

    #[verifier::when_used_as_spec(spec_opaque)]
    pub fn opaque(r: u16, g: u16, b: u16) -> (color: Color)
        ensures
            color == Color::spec_opaque(r, g, b),
    {
        Color { r, g, b, a: 1000 }
    }
}

/// The backdrop: four triangles that meet in the middle of the surface,
/// one along each of its edges, faintly lit towards the centre.
pub open spec fn backdrop_geometry() -> MeshView {
    MeshView {
        vertices: seq![
            Vertex { at: Point { x: 0, y: 0 }, color: Color::opaque(1, 0, 1) },
            Vertex { at: Point { x: SURFACE_WIDTH, y: 0 }, color: Color::opaque(0, 0, 10) },
            Vertex { at: Point { x: 360, y: 240 }, color: Color::opaque(15, 0, 20) },
            Vertex { at: Point { x: SURFACE_WIDTH, y: SURFACE_HEIGHT }, color: Color::opaque(1, 0, 1) },
            Vertex { at: Point { x: 0, y: SURFACE_HEIGHT }, color: Color::opaque(0, 0, 10) },
        ],
        indices: seq![0u32, 1u32, 2u32, 2u32, 1u32, 3u32, 3u32, 2u32, 4u32, 4u32, 2u32, 0u32],
    }
}

pub fn backdrop() -> (mesh: Mesh)
    ensures
        mesh@ == backdrop_geometry(),
        mesh@.is_triangle_list(),
{
    let vertices = vec![
        Vertex { at: Point { x: 0, y: 0 }, color: Color::opaque(1, 0, 1) },
        Vertex { at: Point { x: SURFACE_WIDTH, y: 0 }, color: Color::opaque(0, 0, 10) },
        Vertex { at: Point { x: SURFACE_WIDTH / 2, y: SURFACE_HEIGHT / 2 }, color: Color::opaque(15, 0, 20) },
        Vertex { at: Point { x: SURFACE_WIDTH, y: SURFACE_HEIGHT }, color: Color::opaque(1, 0, 1) },
        Vertex { at: Point { x: 0, y: SURFACE_HEIGHT }, color: Color::opaque(0, 0, 10) },
    ];
    let indices: Vec<u32> = vec![0, 1, 2, 2, 1, 3, 3, 2, 4, 4, 2, 0];
    let mesh = Mesh { vertices, indices };
    assert(mesh@.vertices =~= backdrop_geometry().vertices);
    assert(mesh@.indices =~= backdrop_geometry().indices);
    mesh
}

} // verus!
