//! Conversion of the GUI library's tessellated output into the engine's
//! native draw-call data.
//!
//! Once per frame the GUI library hands over an ordered list of clip-scoped
//! meshes and a shared single-channel font atlas.  [`paint`] turns that into
//! one [`DrawCommand`] per mesh, in the same order: vertex positions and
//! texture coordinates pass through unchanged, colors keep their channel
//! order, indices pass through as they are, and the atlas is expanded into a
//! premultiplied white RGBA buffer.  The embedding application performs the
//! actual buffer and texture uploads and issues the draws.

use crate::events::Vec2;
use vstd::prelude::*;

verus! {

/// A packed color: four 8-bit channels, in red/green/blue/alpha order in
/// both the GUI library's and the engine's convention.
#[derive(Clone, Copy, Debug, PartialEq, Eq, Structural)]
pub struct Rgba {
    pub r: u8,
    pub g: u8,
    pub b: u8,
    pub a: u8,
}

/// A vertex as the GUI library's tessellator emits it.
#[derive(Clone, Copy, Debug, PartialEq)]
pub struct GuiVertex<C> {
    /// Position in screen coordinates.
    pub pos: Vec2<C>,
    /// Texture coordinates.
    pub uv: Vec2<C>,
    /// Packed vertex color.
    pub color: Rgba,
}

/// A vertex in the engine's native buffer format.
#[derive(Clone, Copy, Debug, PartialEq)]
pub struct EngineVertex<C> {
    /// Position in screen coordinates, same space as the source vertex.
    pub position: Vec2<C>,
    /// Texture coordinates, unchanged.
    pub uv: Vec2<C>,
    /// Packed vertex color: identical channel order, no gamma adjustment.
    pub color: Rgba,
}

/// Which texture a mesh samples: the built-in font/shape atlas, or a
/// library-assigned custom texture id.  Resolving custom ids is an extension
/// point this adapter does not implement.
#[derive(Clone, Copy, Debug, PartialEq, Eq, Structural)]
pub enum TextureRef {
    Atlas,
    Custom { id: u64 },
}

/// An axis-aligned rectangle, used for clip regions.
#[derive(Clone, Copy, Debug, PartialEq)]
pub struct Rect<C> {
    pub min: Vec2<C>,
    pub max: Vec2<C>,
}

/// One tessellated mesh: a triangle index list into a vertex list, plus the
/// texture it samples.
#[derive(Clone, Debug, PartialEq)]
pub struct GuiMesh<C> {
    pub indices: Vec<u32>,
    pub vertices: Vec<GuiVertex<C>>,
    pub texture: TextureRef,
}

/// A mesh paired with the rectangle outside of which it must not draw.
#[derive(Clone, Debug, PartialEq)]
pub struct ClippedMesh<C> {
    pub clip: Rect<C>,
    pub mesh: GuiMesh<C>,
}

/// The GUI library's font/glyph atlas: a single-channel coverage bitmap,
/// read-only to this adapter.
#[derive(Clone, Debug, PartialEq)]
pub struct Atlas {
    pub width: usize,
    pub height: usize,
    /// One alpha byte per pixel, row-major.
    pub pixels: Vec<u8>,
}

impl Atlas {
    /// The atlas holds exactly one byte per declared pixel.
    pub open spec fn wf(&self) -> bool {
        self.pixels@.len() == self.width * self.height
    }
}

/// Front-face winding order for a draw call.
#[derive(Clone, Copy, Debug, PartialEq, Eq, Structural)]
pub enum Winding {
    Clockwise,
    CounterClockwise,
}

/// Everything the engine needs for one draw call, in plain values: the
/// converted buffers, the RGBA texture to upload, and the fixed pipeline
/// settings.
#[derive(Clone, Debug, PartialEq)]
pub struct DrawCommand<C> {
    /// The clip rectangle of the source mesh, passed through.
    pub clip: Rect<C>,
    /// Converted vertices, one per source vertex, in order.
    pub vertices: Vec<EngineVertex<C>>,
    /// The triangle indices, unchanged.
    pub indices: Vec<u32>,
    /// Width of the texture to upload, in pixels.
    pub texture_width: usize,
    /// Height of the texture to upload, in pixels.
    pub texture_height: usize,
    /// The premultiplied white RGBA expansion of the atlas.
    pub texture_rgba: Vec<u8>,
    /// Shapes are not consistently wound, so culling stays off.
    pub backface_culling: bool,
    /// The tessellator's winding convention.
    pub front_face_winding: Winding,
}

/// Why a frame's render had to be abandoned.
#[derive(Clone, Copy, Debug, PartialEq, Eq, Structural)]
pub enum RenderError {
    /// A mesh referenced a library-assigned custom texture id; resolving
    /// those is a required extension this adapter leaves to the caller.
    CustomTexture { id: u64 },
}

/// The premultiplied-white RGBA expansion of a single-channel coverage
/// buffer: every pixel becomes four bytes, red, green and blue always 255
/// and alpha the source byte.
pub open spec fn expanded(alpha: Seq<u8>) -> Seq<u8> {
    Seq::new(4 * alpha.len(), |i: int| if i % 4 == 3 { alpha[i / 4] } else { 255u8 })
}

/// Expands a single-channel coverage buffer into premultiplied white RGBA.
pub fn expand_atlas(alpha: &Vec<u8>) -> (rgba: Vec<u8>)
    requires
        4 * alpha@.len() <= usize::MAX,
    ensures
        rgba@ == expanded(alpha@),
{
    let mut rgba: Vec<u8> = Vec::new();
    let mut i: usize = 0;
    while i < alpha.len()
        invariant
            4 * alpha@.len() <= usize::MAX,
            i <= alpha@.len(),
            rgba@ == expanded(alpha@).take(4 * i as int),
        decreases alpha@.len() - i,
    {
        let a = alpha[i];
        rgba.push(255);
        rgba.push(255);
        rgba.push(255);
        rgba.push(a);
        i = i + 1;
        proof {
            assert(rgba@ =~= expanded(alpha@).take(4 * i as int));
        }
    }
    proof {
        assert(rgba@ =~= expanded(alpha@));
    }
    rgba
}

/// What a source vertex becomes in the engine's format: position and
/// texture coordinates pass through unchanged, the color keeps its channels.
pub open spec fn vertex_to_engine<C>(v: GuiVertex<C>) -> EngineVertex<C> {
    EngineVertex { position: v.pos, uv: v.uv, color: v.color }
}

/// The engine-format image of a whole vertex list, in order.
pub open spec fn engine_vertices<C>(vs: Seq<GuiVertex<C>>) -> Seq<EngineVertex<C>> {
    vs.map_values(|v: GuiVertex<C>| vertex_to_engine(v))
}

/// Converts one vertex into the engine's format.
pub fn convert_vertex<C: Copy>(v: &GuiVertex<C>) -> (r: EngineVertex<C>)
    ensures
        r == vertex_to_engine(*v),
{
    EngineVertex { position: v.pos, uv: v.uv, color: v.color }
}

/// Converts a vertex list into the engine's format: one output vertex per
/// input vertex, in the same order.
pub fn convert_vertices<C: Copy>(vertices: &Vec<GuiVertex<C>>) -> (out: Vec<EngineVertex<C>>)
    ensures
        out@ == engine_vertices(vertices@),
{
    let mut out: Vec<EngineVertex<C>> = Vec::new();
    let mut i: usize = 0;
    while i < vertices.len()
        invariant
            i <= vertices@.len(),
            out@ == engine_vertices(vertices@.take(i as int)),
        decreases vertices@.len() - i,
    {
        let v = convert_vertex(&vertices[i]);
        out.push(v);
        i = i + 1;
        proof {
            assert(out@ =~= engine_vertices(vertices@.take(i as int)));
        }
    }
    proof {
        assert(vertices@.take(vertices@.len() as int) =~= vertices@);
    }
    out
}

/// Copies a triangle index list unchanged into a fresh buffer.
pub fn copy_indices(indices: &Vec<u32>) -> (out: Vec<u32>)
    ensures
        out@ == indices@,
{
    let mut out: Vec<u32> = Vec::new();
    let mut i: usize = 0;
    while i < indices.len()
        invariant
            i <= indices@.len(),
            out@ == indices@.take(i as int),
        decreases indices@.len() - i,
    {
        let v = indices[i];
        out.push(v);
        i = i + 1;
        proof {
            assert(out@ =~= indices@.take(i as int));
        }
    }
    proof {
        assert(indices@.take(indices@.len() as int) =~= indices@);
    }
    out
}

/// What one draw command owes to its source mesh and the atlas.
pub open spec fn command_ok<C>(cmd: DrawCommand<C>, cm: ClippedMesh<C>, atlas: Atlas) -> bool {
    &&& cmd.clip == cm.clip
    &&& cmd.vertices@ == engine_vertices(cm.mesh.vertices@)
    &&& cmd.indices@ == cm.mesh.indices@
    &&& cmd.texture_width == atlas.width
    &&& cmd.texture_height == atlas.height
    &&& cmd.texture_rgba@ == expanded(atlas.pixels@)
    &&& cmd.backface_culling == false
    &&& cmd.front_face_winding == Winding::Clockwise
}

/// What a successful frame conversion owes: one command per mesh, in the
/// input order, each as [`command_ok`] states.
pub open spec fn paint_ok<C>(
    meshes: Seq<ClippedMesh<C>>,
    atlas: Atlas,
    cmds: Seq<DrawCommand<C>>,
) -> bool {
    &&& cmds.len() == meshes.len()
    &&& forall|i: int| 0 <= i < meshes.len() ==> command_ok(#[trigger] cmds[i], meshes[i], atlas)
}

/// Converts a frame's meshes into draw commands, preserving their order.
///
/// Succeeds exactly when every mesh samples the built-in atlas.  The first
/// mesh with a custom texture id aborts the frame with its id: custom
/// texture resolution is a required extension, and drawing without it would
/// silently produce garbage.
pub fn paint<C: Copy>(meshes: &Vec<ClippedMesh<C>>, atlas: &Atlas) -> (r: Result<
    Vec<DrawCommand<C>>,
    RenderError,
>)
    requires
        atlas.wf(),
        4 * atlas.pixels@.len() <= usize::MAX,
    ensures
        r is Ok <==> (forall|i: int|
            0 <= i < meshes@.len() ==> (#[trigger] meshes@[i]).mesh.texture is Atlas),
        r matches Ok(cmds) ==> paint_ok(meshes@, *atlas, cmds@),
        r matches Err(e) ==> exists|i: int|
            #![trigger meshes@[i]]
            {
                &&& 0 <= i < meshes@.len()
                &&& meshes@[i].mesh.texture matches TextureRef::Custom { id } && e
                    == (RenderError::CustomTexture { id })
                &&& forall|j: int| 0 <= j < i ==> (#[trigger] meshes@[j]).mesh.texture is Atlas
            },
{
    let mut cmds: Vec<DrawCommand<C>> = Vec::new();
    let mut i: usize = 0;
    while i < meshes.len()
        invariant
            atlas.wf(),
            4 * atlas.pixels@.len() <= usize::MAX,
            i <= meshes@.len(),
            cmds@.len() == i,
            forall|k: int| 0 <= k < i ==> command_ok(#[trigger] cmds@[k], meshes@[k], *atlas),
            forall|k: int| 0 <= k < i ==> (#[trigger] meshes@[k]).mesh.texture is Atlas,
        decreases meshes@.len() - i,
    {
        let cm = &meshes[i];
        if let TextureRef::Custom { id } = cm.mesh.texture {
            return Err(RenderError::CustomTexture { id });
        }
        let vertices = convert_vertices(&cm.mesh.vertices);
        let indices = copy_indices(&cm.mesh.indices);
        let texture_rgba = expand_atlas(&atlas.pixels);
        cmds.push(DrawCommand {
            clip: cm.clip,
            vertices,
            indices,
            texture_width: atlas.width,
            texture_height: atlas.height,
            texture_rgba,
            backface_culling: false,
            front_face_winding: Winding::Clockwise,
        });
        i = i + 1;
    }
    Ok(cmds)
}

/// Law: mesh conversion round-trips vertex and index counts exactly — a
/// mesh with V vertices and I indices yields a command with V vertices and
/// I indices, each output vertex the image of the source vertex at the same
/// place, so nothing is dropped or duplicated.
pub proof fn lemma_mesh_counts_round_trip<C>(
    meshes: Seq<ClippedMesh<C>>,
    atlas: Atlas,
    cmds: Seq<DrawCommand<C>>,
)
    requires
        paint_ok(meshes, atlas, cmds),
    ensures
        cmds.len() == meshes.len(),
        forall|i: int|
            0 <= i < meshes.len() ==> (#[trigger] cmds[i]).vertices@.len()
                == meshes[i].mesh.vertices@.len(),
        forall|i: int|
            0 <= i < meshes.len() ==> (#[trigger] cmds[i]).indices@.len()
                == meshes[i].mesh.indices@.len(),
        forall|i: int, j: int|
            0 <= i < meshes.len() && 0 <= j < meshes[i].mesh.vertices@.len()
                ==> (#[trigger] cmds[i].vertices@[j]) == vertex_to_engine(
                meshes[i].mesh.vertices@[j],
            ),
{
    assert forall|i: int| 0 <= i < meshes.len() implies (#[trigger] cmds[i]).vertices@.len()
        == meshes[i].mesh.vertices@.len() by {
        assert(command_ok(cmds[i], meshes[i], atlas));
    }
    assert forall|i: int| 0 <= i < meshes.len() implies (#[trigger] cmds[i]).indices@.len()
        == meshes[i].mesh.indices@.len() by {
        assert(command_ok(cmds[i], meshes[i], atlas));
    }
    assert forall|i: int, j: int|
        0 <= i < meshes.len() && 0 <= j < meshes[i].mesh.vertices@.len() implies (#[trigger] cmds[i].vertices@[j])
        == vertex_to_engine(meshes[i].mesh.vertices@[j]) by {
        assert(command_ok(cmds[i], meshes[i], atlas));
    }
}

/// Law: expanding an alpha buffer of length N yields a buffer of length 4N
/// where, for every source pixel, the three color bytes are 255 and the
/// fourth byte is the source alpha.
pub proof fn lemma_atlas_expansion(alpha: Seq<u8>)
    ensures
        expanded(alpha).len() == 4 * alpha.len(),
        forall|i: int|
            #![trigger alpha[i]]
            0 <= i < alpha.len() ==> {
                &&& expanded(alpha)[4 * i] == 255
                &&& expanded(alpha)[4 * i + 1] == 255
                &&& expanded(alpha)[4 * i + 2] == 255
                &&& expanded(alpha)[4 * i + 3] == alpha[i]
            },
{
}

} // verus!
