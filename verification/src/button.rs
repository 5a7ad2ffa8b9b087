//! A button: a textured quad placed on the screen.

use vstd::prelude::*;
use crate::types::{ScreenPos, Size2};

verus! {

/// One corner of a label quad: its position in pixels relative to the quad's
/// origin, and the texture corner mapped to it.
#[derive(Clone, Copy, Debug, PartialEq, Eq, Structural)]
pub struct QuadVertex {
    pub x: i32,
    pub y: i32,
    pub z: i32,
    pub u: i32,
    pub v: i32,
}

/// Geometry of a label quad: four corners and two triangles over them.
#[derive(Clone, Copy, Debug)]
pub struct QuadMesh {
    pub vertices: [QuadVertex; 4],
    pub indices: [u16; 6],
}

/// The corners of a quad covering `size`, in the order bottom-left, top-left,
/// bottom-right, top-right. Texture rows run downwards, so the bottom corners
/// take texture row 1 and the top corners row 0.
pub open spec fn quad_corners(size: Size2) -> Seq<QuadVertex> {
    seq![
        QuadVertex { x: 0, y: 0, z: 0, u: 0, v: 1 },
        QuadVertex { x: 0, y: size.h, z: 0, u: 0, v: 0 },
        QuadVertex { x: size.w, y: 0, z: 0, u: 1, v: 1 },
        QuadVertex { x: size.w, y: size.h, z: 0, u: 1, v: 0 },
    ]
}

/// The two triangles of a quad, as indices into [`quad_corners`].
pub open spec fn quad_triangles() -> Seq<u16> {
    seq![0u16, 1u16, 2u16, 1u16, 2u16, 3u16]
}

/// Builds the quad on which a rasterised label of `size` pixels is drawn.
pub fn quad_mesh(size: Size2) -> (mesh: QuadMesh)
    ensures
        mesh.vertices@ == quad_corners(size),
        mesh.indices@ == quad_triangles(),
{
    let vertices = [
        QuadVertex { x: 0, y: 0, z: 0, u: 0, v: 1 },
        QuadVertex { x: 0, y: size.h, z: 0, u: 0, v: 0 },
        QuadVertex { x: size.w, y: 0, z: 0, u: 1, v: 1 },
        QuadVertex { x: size.w, y: size.h, z: 0, u: 1, v: 0 },
    ];
    let indices: [u16; 6] = [0, 1, 2, 1, 2, 3];
    QuadMesh { vertices, indices }
}

/// A displacement in whole pixels.
#[derive(Clone, Copy, Debug, PartialEq, Eq, Structural)]
pub struct Translation {
    pub x: i32,
    pub y: i32,
    pub z: i32,
}

/// A button owns its place on the screen, the pixel size of its rendered
/// label, and the mesh `M` that draws it.
#[derive(Clone, Debug)]
pub struct Button<M> {
    pos: ScreenPos,
    size: Size2,
    mesh: M,
}

impl<M> Button<M> {
    pub closed spec fn spec_pos(&self) -> ScreenPos {
        self.pos
    }

    pub closed spec fn spec_size(&self) -> Size2 {
        self.size
    }

    pub closed spec fn spec_mesh(&self) -> &M {
        &self.mesh
    }

    /// A button at `pos` whose label measures `size` pixels and is drawn by
    /// `mesh`.
    pub fn new_with_size(mesh: M, size: Size2, pos: ScreenPos) -> (button: Self)
        ensures
            button.pos() == pos,
            button.size() == size,
            *button.mesh() == mesh,
    {
        Button { pos, size, mesh }
    }

    #[verifier::when_used_as_spec(spec_pos)]
    pub fn pos(&self) -> (pos: ScreenPos)
        ensures
            pos == self.pos(),
    {
        self.pos
    }

    /// Moves the button; size and mesh stay as they were.
    pub fn set_pos(&mut self, pos: ScreenPos)
        ensures
            final(self).pos() == pos,
            final(self).size() == old(self).size(),
            final(self).mesh() == old(self).mesh(),
    {
        self.pos = pos;
    }

    #[verifier::when_used_as_spec(spec_size)]
    pub fn size(&self) -> (size: Size2)
        ensures
            size == self.size(),
    {
        self.size
    }

    /// The move that carries the mesh's origin to the button's place.
    pub open spec fn spec_translation(&self) -> Translation {
        Translation { x: self.pos().x, y: self.pos().y, z: 0 }
    }

    #[verifier::when_used_as_spec(spec_translation)]
    pub fn translation(&self) -> (translation: Translation)
        ensures
            translation == self.translation(),
    {
        Translation { x: self.pos.x, y: self.pos.y, z: 0 }
    }

    #[verifier::when_used_as_spec(spec_mesh)]
    pub fn mesh(&self) -> (mesh: &M)
        ensures
            mesh == self.mesh(),
    {
        &self.mesh
    }
}

} // verus!
