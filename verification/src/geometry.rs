//! Geometry batch encoder: paint jobs and their GPU wire format.
//!
//! A paint job is one clipped triangle mesh emitted by the GUI layout pass.
//! Each vertex is packed into exactly 16 bytes — position as two 32-bit
//! little-endian words (the raw bits of IEEE floats, passed through
//! untouched), texel coordinates as two 16-bit little-endian words, color as
//! four bytes — and each index into four little-endian bytes.  This layout is
//! a contract with the shader's vertex-attribute bindings, not an
//! implementation detail.

use vstd::bytes::{
    lemma_auto_spec_u16_to_from_le_bytes, lemma_auto_spec_u32_to_from_le_bytes,
    spec_u16_to_le_bytes, spec_u32_to_le_bytes, u16_to_le_bytes, u32_to_le_bytes,
};
use vstd::prelude::*;

verus! {

/// Largest clip-rectangle coordinate magnitude accepted, in fixed-point
/// logical units.
pub const CLIP_BOUND_FIXED: i64 = 0x100_0000_0000;

/// One vertex of a paint job's triangle mesh.
#[derive(Clone, Copy, Debug, PartialEq, Eq, Structural)]
pub struct Vertex {
    /// Position in logical points: the raw bits of a 32-bit IEEE float.
    pub pos_x_bits: u32,
    /// Position in logical points: the raw bits of a 32-bit IEEE float.
    pub pos_y_bits: u32,
    /// Texel coordinate, normalized 16-bit.
    pub uv_u: u16,
    /// Texel coordinate, normalized 16-bit.
    pub uv_v: u16,
    /// sRGBA with premultiplied alpha.
    pub r: u8,
    pub g: u8,
    pub b: u8,
    pub a: u8,
}

/// A triangle list: vertices plus indices in multiples of three.
pub struct Mesh {
    pub vertices: Vec<Vertex>,
    pub indices: Vec<u32>,
}

/// Mathematical view of a [`Mesh`].
pub ghost struct MeshView {
    pub vertices: Seq<Vertex>,
    pub indices: Seq<u32>,
}

impl View for Mesh {
    type V = MeshView;

    open spec fn view(&self) -> MeshView {
        MeshView { vertices: self.vertices@, indices: self.indices@ }
    }
}

/// A mesh is well-formed when its indices come in whole triangles, stay in
/// range of the vertex list, and the index count fits the 32-bit draw range.
pub open spec fn mesh_wf(m: MeshView) -> bool {
    &&& m.indices.len() % 3 == 0
    &&& m.indices.len() <= u32::MAX
    &&& forall|k: int| 0 <= k < m.indices.len() ==> (#[trigger] m.indices[k]) < m.vertices.len()
}

/// Axis-aligned clip rectangle in fixed-point logical units.
#[derive(Clone, Copy, Debug, PartialEq, Eq, Structural)]
pub struct ClipRect {
    pub min_x: i64,
    pub min_y: i64,
    pub max_x: i64,
    pub max_y: i64,
}

/// A clip rectangle is well-formed when it is properly ordered and within
/// the accepted coordinate range.
pub open spec fn clip_rect_wf(c: ClipRect) -> bool {
    &&& -CLIP_BOUND_FIXED <= c.min_x <= c.max_x <= CLIP_BOUND_FIXED
    &&& -CLIP_BOUND_FIXED <= c.min_y <= c.max_y <= CLIP_BOUND_FIXED
}

/// One clipped batch of triangles emitted by the GUI layout pass.
pub struct PaintJob {
    pub clip: ClipRect,
    pub mesh: Mesh,
}

/// Mathematical view of a [`PaintJob`].
pub ghost struct PaintJobView {
    pub clip: ClipRect,
    pub mesh: MeshView,
}

impl View for PaintJob {
    type V = PaintJobView;

    open spec fn view(&self) -> PaintJobView {
        PaintJobView { clip: self.clip, mesh: self.mesh@ }
    }
}

/// A paint job is well-formed when its clip rectangle and mesh are.
pub open spec fn paint_job_wf(j: PaintJobView) -> bool {
    clip_rect_wf(j.clip) && mesh_wf(j.mesh)
}

/// The 16-byte wire form of one vertex.
pub open spec fn spec_vertex_bytes(v: Vertex) -> Seq<u8> {
    spec_u32_to_le_bytes(v.pos_x_bits) + spec_u32_to_le_bytes(v.pos_y_bits) + spec_u16_to_le_bytes(
        v.uv_u,
    ) + spec_u16_to_le_bytes(v.uv_v) + seq![v.r, v.g, v.b, v.a]
}

/// The wire form of a vertex list: each vertex in order.
pub open spec fn spec_vertices_bytes(s: Seq<Vertex>) -> Seq<u8>
    decreases s.len(),
{
    if s.len() == 0 {
        Seq::<u8>::empty()
    } else {
        spec_vertices_bytes(s.drop_last()) + spec_vertex_bytes(s.last())
    }
}

/// The wire form of an index list: each index as four little-endian bytes.
pub open spec fn spec_indices_bytes(s: Seq<u32>) -> Seq<u8>
    decreases s.len(),
{
    if s.len() == 0 {
        Seq::<u8>::empty()
    } else {
        spec_indices_bytes(s.drop_last()) + spec_u32_to_le_bytes(s.last())
    }
}

/// A vertex occupies exactly 16 bytes on the wire.
pub proof fn lemma_vertex_bytes_len(v: Vertex)
    ensures
        spec_vertex_bytes(v).len() == 16,
{
    lemma_auto_spec_u32_to_from_le_bytes();
    lemma_auto_spec_u16_to_from_le_bytes();
}

/// A vertex list occupies exactly 16 bytes per vertex.
pub proof fn lemma_vertices_bytes_len(s: Seq<Vertex>)
    ensures
        spec_vertices_bytes(s).len() == 16 * s.len(),
    decreases s.len(),
{
    if s.len() > 0 {
        lemma_vertices_bytes_len(s.drop_last());
        lemma_vertex_bytes_len(s.last());
    }
}

/// An index list occupies exactly 4 bytes per index.
pub proof fn lemma_indices_bytes_len(s: Seq<u32>)
    ensures
        spec_indices_bytes(s).len() == 4 * s.len(),
    decreases s.len(),
{
    if s.len() > 0 {
        lemma_indices_bytes_len(s.drop_last());
        lemma_auto_spec_u32_to_from_le_bytes();
    }
}

/// Appends the 16-byte wire form of `v` to `out`.
fn encode_vertex_into(out: &mut Vec<u8>, v: &Vertex)
    ensures
        final(out)@ == old(out)@ + spec_vertex_bytes(*v),
{
    let ghost base = out@;
    let mut xb = u32_to_le_bytes(v.pos_x_bits);
    out.append(&mut xb);
    let mut yb = u32_to_le_bytes(v.pos_y_bits);
    out.append(&mut yb);
    let mut ub = u16_to_le_bytes(v.uv_u);
    out.append(&mut ub);
    let mut vb = u16_to_le_bytes(v.uv_v);
    out.append(&mut vb);
    out.push(v.r);
    out.push(v.g);
    out.push(v.b);
    out.push(v.a);
    proof {
        assert(out@ =~= base + spec_vertex_bytes(*v));
    }
}

/// Packs a vertex list into its GPU wire form.
pub fn encode_vertices(vertices: &Vec<Vertex>) -> (out: Vec<u8>)
    ensures
        out@ == spec_vertices_bytes(vertices@),
{
    let mut out: Vec<u8> = Vec::new();
    let mut i: usize = 0;
    while i < vertices.len()
        invariant
            i <= vertices@.len(),
            out@ == spec_vertices_bytes(vertices@.take(i as int)),
        decreases vertices@.len() - i,
    {
        encode_vertex_into(&mut out, &vertices[i]);
        proof {
            assert(vertices@.take(i + 1).drop_last() =~= vertices@.take(i as int));
            assert(vertices@.take(i + 1).last() == vertices@[i as int]);
        }
        i = i + 1;
    }
    proof {
        assert(vertices@.take(vertices@.len() as int) =~= vertices@);
    }
    out
}

/// Packs an index list into its GPU wire form.
pub fn encode_indices(indices: &Vec<u32>) -> (out: Vec<u8>)
    ensures
        out@ == spec_indices_bytes(indices@),
{
    let mut out: Vec<u8> = Vec::new();
    let mut i: usize = 0;
    while i < indices.len()
        invariant
            i <= indices@.len(),
            out@ == spec_indices_bytes(indices@.take(i as int)),
        decreases indices@.len() - i,
    {
        let mut b = u32_to_le_bytes(indices[i]);
        out.append(&mut b);
        proof {
            assert(indices@.take(i + 1).drop_last() =~= indices@.take(i as int));
            assert(indices@.take(i + 1).last() == indices@[i as int]);
        }
        i = i + 1;
    }
    proof {
        assert(indices@.take(indices@.len() as int) =~= indices@);
    }
    out
}

} // verus!
