//! How the device finds its way through the mirrored buffers: from the
//! mesh and the geometry a ray hit to the geometry record, from there to
//! the triangle's corners and their attributes, and to the source of the
//! colour that shades the hit.
//!
//! The shaders do this arithmetic unchecked. Here every step says when it
//! stays inside the buffers, and gives no position when it does not.

use vstd::prelude::*;
use crate::mirror::{geometry_records, lemma_offset_table, offset_table, SceneGpuMirror};
use crate::descriptor::MirrorBuffer;
use crate::records::{
    geometry_of, law_geometry_records_read_back, GeometryInfo, MaterialInfo, GEOMETRY_INFO_SIZE,
};
use crate::scene::{
    all_primitives, lemma_primitive_position, lemma_primitives_before_monotonic,
    lemma_primitives_len, primitives_before, Scene,
};

verus! {

/// The position, among all geometry records, of geometry `local` of mesh
/// `mesh`, as an offset table gives it; none if the table has no such mesh
/// or the mesh has no such geometry.
pub open spec fn geometry_slot(offsets: Seq<u32>, mesh: int, local: int) -> Option<int> {
    if 0 <= mesh && mesh + 1 < offsets.len() && 0 <= local && offsets[mesh] + local
        < offsets[mesh + 1] {
        Some(offsets[mesh] + local)
    } else {
        None
    }
}

/// Finds the geometry record of geometry `local` of mesh `mesh`.
pub fn locate_geometry(offsets: &Vec<u32>, mesh: usize, local: usize) -> (slot: Option<usize>)
    ensures
        slot is Some <==> geometry_slot(offsets@, mesh as int, local as int) is Some,
        slot matches Some(p) ==> geometry_slot(offsets@, mesh as int, local as int) == Some(
            p as int,
        ),
{
    let n: usize = offsets.len();
    if n < 2 || mesh >= n - 1 {
        return None;
    }
    let low: u32 = offsets[mesh];
    let high: u32 = offsets[mesh + 1];
    if high <= low {
        return None;
    }
    if local >= (high - low) as usize {
        return None;
    }
    Some(low as usize + local)
}

/// The geometry record that the device reads for geometry `local` of mesh
/// `mesh`: the record decoded from the geometry buffer at the position the
/// offset table gives; none if the table gives no position or the buffer
/// ends before the record does.
pub open spec fn fetched_geometry(buffer: Seq<u8>, offsets: Seq<u32>, mesh: int, local: int) -> Option<
    GeometryInfo,
> {
    match geometry_slot(offsets, mesh, local) {
        Some(p) => if 64 * p + 64 <= buffer.len() {
            Some(GeometryInfo::decoded(buffer, 64 * p))
        } else {
            None
        },
        None => None,
    }
}

/// Reads the geometry record of geometry `local` of mesh `mesh` from the
/// geometry buffer.
pub fn fetch_geometry(buffer: &Vec<u8>, offsets: &Vec<u32>, mesh: usize, local: usize) -> (g: Option<
    GeometryInfo,
>)
    ensures
        g == fetched_geometry(buffer@, offsets@, mesh as int, local as int),
{
    match locate_geometry(offsets, mesh, local) {
        None => None,
        Some(p) => {
            let n: usize = buffer.len();
            if n < GEOMETRY_INFO_SIZE || p > (n - GEOMETRY_INFO_SIZE) / GEOMETRY_INFO_SIZE {
                None
            } else {
                Some(GeometryInfo::decode(buffer, GEOMETRY_INFO_SIZE * p))
            }
        },
    }
}

/// The position of corner `corner` of triangle `primitive` in the index
/// buffer: the record's byte offset counted in 32-bit indices, plus three
/// indices for every triangle before.
pub open spec fn corner_slot(g: GeometryInfo, primitive: int, corner: int) -> int {
    g.index_offset / 4 + 3 * primitive + corner
}

/// The position of the first component of vertex `vertex` in the vertex
/// buffer, counted in 32-bit numbers: three for every vertex.
pub open spec fn position_slot(g: GeometryInfo, vertex: u32) -> int {
    g.vertex_offset / 4 + 3 * vertex
}

/// The position of the colour of vertex `vertex` in the colour buffer,
/// counted in 16-byte colours.
pub open spec fn color_slot(g: GeometryInfo, vertex: u32) -> int {
    g.color_offset / 16 + vertex
}

/// The position of the texture coordinate of vertex `vertex` in the texture
/// coordinate buffer, counted in 8-byte pairs.
pub open spec fn tex_coord_slot(g: GeometryInfo, vertex: u32) -> int {
    g.tex_coord_offset / 8 + vertex
}

/// Where the attributes of one vertex stand in their buffers.
#[derive(Clone, Copy, Debug, PartialEq, Eq, Structural)]
pub struct VertexSlots {
    pub position: u64,
    pub color: u64,
    pub tex_coord: u64,
}

/// Finds the attributes of vertex `vertex` of a geometry.
pub fn vertex_slots(g: &GeometryInfo, vertex: u32) -> (slots: VertexSlots)
    ensures
        slots.position == position_slot(*g, vertex),
        slots.color == color_slot(*g, vertex),
        slots.tex_coord == tex_coord_slot(*g, vertex),
{
    VertexSlots {
        position: g.vertex_offset / 4 + 3 * (vertex as u64),
        color: g.color_offset / 16 + vertex as u64,
        tex_coord: g.tex_coord_offset / 8 + vertex as u64,
    }
}

/// The three vertex indices of triangle `primitive` of a geometry, read
/// from the index buffer; none if the triangle is not one of the geometry's
/// or its indices lie beyond the buffer.
pub open spec fn triangle_of(g: GeometryInfo, indices: Seq<u32>, primitive: int) -> Option<
    (u32, u32, u32),
> {
    if 0 <= primitive && 3 * primitive + 3 <= g.index_count && corner_slot(g, primitive, 2)
        < indices.len() {
        Some(
            (
                indices[corner_slot(g, primitive, 0)],
                indices[corner_slot(g, primitive, 1)],
                indices[corner_slot(g, primitive, 2)],
            ),
        )
    } else {
        None
    }
}

/// Reads the three vertex indices of triangle `primitive`.
pub fn triangle_corners(g: &GeometryInfo, indices: &Vec<u32>, primitive: usize) -> (t: Option<
    (u32, u32, u32),
>)
    ensures
        t == triangle_of(*g, indices@, primitive as int),
{
    let n: usize = indices.len();
    let count: u64 = g.index_count;
    if primitive as u64 >= count / 3 {
        return None;
    }
    let base: u64 = g.index_offset / 4;
    // Three indices per triangle, below the index count, so the sum fits.
    let first: u64 = 3 * (primitive as u64);
    if base > u64::MAX - first - 2 {
        return None;
    }
    let at: u64 = base + first;
    if at + 2 >= n as u64 {
        return None;
    }
    let a: usize = at as usize;
    Some((indices[a], indices[a + 1], indices[a + 2]))
}

/// Where a hit takes its colour from.
#[derive(Clone, Copy, Debug, PartialEq, Eq, Structural)]
pub enum ColorSource {
    /// The payload is left as it came.
    Untouched,
    /// The base colour texture, read through this sampler from this image,
    /// scaled by the material's colour factor.
    Texture { sampler_index: u32, image_index: u32 },
    /// The interpolated vertex colours, scaled by the material's colour factor.
    VertexColor,
    /// The material's colour factor alone.
    BaseColor,
}

/// The colour source of a hit on geometry `g` with material `m`: a geometry
/// without texture coordinates leaves the payload alone; with them, the
/// material's base colour texture comes first, then the vertex colours,
/// then the plain colour factor.
pub open spec fn color_source_of(g: GeometryInfo, m: MaterialInfo) -> ColorSource {
    if g.has_tex_coord != 1 {
        ColorSource::Untouched
    } else if m.has_base_color_texture == 1 {
        ColorSource::Texture {
            sampler_index: m.base_color_sampler_index,
            image_index: m.base_color_image_index,
        }
    } else if g.has_color == 1 {
        ColorSource::VertexColor
    } else {
        ColorSource::BaseColor
    }
}

/// Chooses the colour source of a hit.
pub fn color_source(g: &GeometryInfo, m: &MaterialInfo) -> (c: ColorSource)
    ensures
        c == color_source_of(*g, *m),
{
    if g.has_tex_coord != 1 {
        ColorSource::Untouched
    } else if m.has_base_color_texture == 1 {
        ColorSource::Texture {
            sampler_index: m.base_color_sampler_index,
            image_index: m.base_color_image_index,
        }
    } else if g.has_color == 1 {
        ColorSource::VertexColor
    } else {
        ColorSource::BaseColor
    }
}

/// The state of the shaders' random number generator after one step.
pub open spec fn rng_next_state(state: u32) -> u32 {
    ((state as int * 747796405 + 1) % 0x1_0000_0000) as u32
}

/// The word that the generator puts out in state `state`: the state shifted
/// right by four more than its own top four bits, mixed with itself,
/// multiplied modulo two to the 32nd, and mixed with its own top ten bits.
pub open spec fn rng_word(state: u32) -> u32 {
    let shift = ((state >> 28u32) + 4) as u32;
    let mixed = (((state >> shift) ^ state) as int * 277803737 % 0x1_0000_0000) as u32;
    (mixed >> 22u32) ^ mixed
}

/// Advances the shaders' random number generator by one step of its linear
/// congruence, modulo two to the 32nd, and gives the word it puts out in
/// the new state. Dividing the word by the largest 32-bit number gives the
/// generator's number between zero and one.
pub fn rng(state: &mut u32) -> (word: u32)
    ensures
        *final(state) == rng_next_state(*old(state)),
        word == rng_word(*final(state)),
{
    let previous: u32 = *state;
    let next: u64 = (previous as u64 * 747796405 + 1) % 0x1_0000_0000;
    let s: u32 = next as u32;
    *state = s;
    let top: u32 = s >> 28u32;
    assert(top <= 15) by (bit_vector)
        requires
            top == s >> 28u32,
    ;
    let shift: u32 = top + 4;
    let folded: u32 = (s >> shift) ^ s;
    let mixed: u32 = (folded as u64 * 277803737 % 0x1_0000_0000) as u32;
    (mixed >> 22u32) ^ mixed
}

/// In a mirror that reflects a scene, geometry `local` of mesh `mesh` is
/// found at the position that the offset table gives, and the record there
/// is the record of that very primitive.
pub proof fn law_offset_table_finds_every_primitive(
    mirror: SceneGpuMirror,
    scene: &Scene,
    mesh: int,
    local: int,
)
    requires
        mirror.reflects(scene),
        0 <= mesh < scene.mesh_infos@.len(),
        0 <= local < scene.mesh_infos@[mesh]@.len(),
    ensures
        geometry_slot(mirror.offsets(), mesh, local) matches Some(p) && 0 <= p
            < mirror.records().len() && mirror.records()[p] == geometry_of(
            scene.mesh_infos@[mesh]@[local],
        ),
{
    let meshes = scene.meshes();
    let n = meshes.len() as int;
    lemma_offset_table(meshes);
    lemma_primitives_len(meshes, mesh);
    lemma_primitives_len(meshes, mesh + 1);
    lemma_primitives_before_monotonic(meshes, mesh + 1, n);
    lemma_primitive_position(meshes, n, mesh, local);
    let table = offset_table(meshes);
    assert(table[mesh] == primitives_before(meshes, mesh));
    assert(table[mesh + 1] == primitives_before(meshes, mesh + 1));
    let p = primitives_before(meshes, mesh) + local;
    assert(geometry_records(all_primitives(meshes))[p] == geometry_of(all_primitives(meshes)[p]));
}

/// What the host wrote is what the device reads: from the geometry buffer
/// of a sound mirror that reflects a scene, the device reads for geometry
/// `local` of mesh `mesh` the record of that very primitive.
pub proof fn law_device_reads_the_record_of_the_primitive(
    mirror: SceneGpuMirror,
    scene: &Scene,
    mesh: int,
    local: int,
)
    requires
        mirror.wf(),
        mirror.reflects(scene),
        0 <= mesh < scene.mesh_infos@.len(),
        0 <= local < scene.mesh_infos@[mesh]@.len(),
    ensures
        fetched_geometry(mirror.buffer(MirrorBuffer::GeometryInfos), mirror.offsets(), mesh, local)
            == Some(geometry_of(scene.mesh_infos@[mesh]@[local])),
{
    law_offset_table_finds_every_primitive(mirror, scene, mesh, local);
    let p = geometry_slot(mirror.offsets(), mesh, local)->0;
    law_geometry_records_read_back(mirror.records(), p);
}

} // verus!
