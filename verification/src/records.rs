//! The fixed-size records that the host writes and the shaders read.
//!
//! Field order, field width and padding are part of the contract between the
//! two sides: every record has one encoding, stated here byte by byte.

use vstd::prelude::*;
use crate::scene::{Material, PrimitiveInfo, Texture};
use crate::wire::{
    get_u32, get_u64, le_u32, le_u64, lemma_le_u32_len, lemma_le_u64_len, lemma_read_le_u32,
    lemma_read_le_u64, put_u32, put_u64, read_le_u32, read_le_u64,
};

verus! {

/// Bytes of one encoded `GeometryInfo`.
pub const GEOMETRY_INFO_SIZE: usize = 64;

/// Bytes of one encoded `MaterialInfo`.
pub const MATERIAL_INFO_SIZE: usize = 48;

/// One primitive as the device sees it. An absent colour or texture
/// coordinate offset is a zero offset with its flag cleared, since the device
/// side has no way to say "none".
#[derive(Clone, Copy, Debug, PartialEq, Eq, Structural)]
pub struct GeometryInfo {
    pub index_offset: u64,
    pub vertex_offset: u64,
    pub index_count: u64,
    pub vertex_count: u64,
    pub material_index: u64,
    pub color_offset: u64,
    pub tex_coord_offset: u64,
    pub has_color: u32,
    pub has_tex_coord: u32,
}

/// The offset to store for an optional offset: itself, or zero.
pub open spec fn offset_or_zero(o: Option<u64>) -> u64 {
    match o {
        Some(v) => v,
        None => 0,
    }
}

/// The flag to store for an optional offset: one if present, else zero.
pub open spec fn presence_flag(o: Option<u64>) -> u32 {
    match o {
        Some(_) => 1,
        None => 0,
    }
}

/// The record of a primitive.
pub open spec fn geometry_of(p: PrimitiveInfo) -> GeometryInfo {
    GeometryInfo {
        index_offset: p.index_offset,
        vertex_offset: p.vertex_offset,
        index_count: p.index_count,
        vertex_count: p.vertex_count,
        material_index: p.material_index,
        color_offset: offset_or_zero(p.color_offset),
        tex_coord_offset: offset_or_zero(p.tex_coord_offset),
        has_color: presence_flag(p.color_offset),
        has_tex_coord: presence_flag(p.tex_coord_offset),
    }
}

impl GeometryInfo {
    /// The 64 bytes of this record: seven 64-bit fields, then two 32-bit
    /// flags, each little-endian, in declaration order.
    pub open spec fn encoding(self) -> Seq<u8> {
        le_u64(self.index_offset) + le_u64(self.vertex_offset) + le_u64(self.index_count)
            + le_u64(self.vertex_count) + le_u64(self.material_index) + le_u64(self.color_offset)
            + le_u64(self.tex_coord_offset) + le_u32(self.has_color) + le_u32(self.has_tex_coord)
    }

    /// The record that the 64 bytes from `at` on stand for.
    pub open spec fn decoded(s: Seq<u8>, at: int) -> GeometryInfo {
        GeometryInfo {
            index_offset: read_le_u64(s, at),
            vertex_offset: read_le_u64(s, at + 8),
            index_count: read_le_u64(s, at + 16),
            vertex_count: read_le_u64(s, at + 24),
            material_index: read_le_u64(s, at + 32),
            color_offset: read_le_u64(s, at + 40),
            tex_coord_offset: read_le_u64(s, at + 48),
            has_color: read_le_u32(s, at + 56),
            has_tex_coord: read_le_u32(s, at + 60),
        }
    }

    /// Builds the record of a primitive.
    pub fn from_primitive(p: &PrimitiveInfo) -> (g: GeometryInfo)
        ensures
            g == geometry_of(*p),
    {
        GeometryInfo {
            index_offset: p.index_offset,
            vertex_offset: p.vertex_offset,
            index_count: p.index_count,
            vertex_count: p.vertex_count,
            material_index: p.material_index,
            color_offset: match p.color_offset {
                Some(v) => v,
                None => 0,
            },
            tex_coord_offset: match p.tex_coord_offset {
                Some(v) => v,
                None => 0,
            },
            has_color: match p.color_offset {
                Some(_) => 1,
                None => 0,
            },
            has_tex_coord: match p.tex_coord_offset {
                Some(_) => 1,
                None => 0,
            },
        }
    }

    /// Appends the encoding of this record to `out`.
    pub fn encode_into(&self, out: &mut Vec<u8>)
        ensures
            final(out)@ == old(out)@ + self.encoding(),
            self.encoding().len() == GEOMETRY_INFO_SIZE,
    {
        put_u64(out, self.index_offset);
        put_u64(out, self.vertex_offset);
        put_u64(out, self.index_count);
        put_u64(out, self.vertex_count);
        put_u64(out, self.material_index);
        put_u64(out, self.color_offset);
        put_u64(out, self.tex_coord_offset);
        put_u32(out, self.has_color);
        put_u32(out, self.has_tex_coord);
        proof {
            lemma_geometry_encoding_len(*self);
            assert(out@ =~= old(out)@ + self.encoding());
        }
    }

    /// Reads the record stored at `bytes[at .. at + 64]`.
    pub fn decode(bytes: &Vec<u8>, at: usize) -> (g: GeometryInfo)
        requires
            at + GEOMETRY_INFO_SIZE <= bytes@.len(),
        ensures
            g == GeometryInfo::decoded(bytes@, at as int),
    {
        let n: usize = bytes.len();
        assert(at + 64 <= n);
        GeometryInfo {
            index_offset: get_u64(bytes, at),
            vertex_offset: get_u64(bytes, at + 8),
            index_count: get_u64(bytes, at + 16),
            vertex_count: get_u64(bytes, at + 24),
            material_index: get_u64(bytes, at + 32),
            color_offset: get_u64(bytes, at + 40),
            tex_coord_offset: get_u64(bytes, at + 48),
            has_color: get_u32(bytes, at + 56),
            has_tex_coord: get_u32(bytes, at + 60),
        }
    }
}

/// Every encoded record has 64 bytes.
pub proof fn lemma_geometry_encoding_len(g: GeometryInfo)
    ensures
        g.encoding().len() == 64,
{
    lemma_le_u64_len(g.index_offset);
    lemma_le_u64_len(g.vertex_offset);
    lemma_le_u64_len(g.index_count);
    lemma_le_u64_len(g.vertex_count);
    lemma_le_u64_len(g.material_index);
    lemma_le_u64_len(g.color_offset);
    lemma_le_u64_len(g.tex_coord_offset);
    lemma_le_u32_len(g.has_color);
    lemma_le_u32_len(g.has_tex_coord);
}

/// A record that was encoded reads back as itself, wherever in a longer
/// sequence its 64 bytes stand.
pub proof fn lemma_geometry_round_trip(s: Seq<u8>, at: int, g: GeometryInfo)
    requires
        0 <= at,
        at + 64 <= s.len(),
        s.subrange(at, at + 64) == g.encoding(),
    ensures
        g.encoding().len() == 64,
        GeometryInfo::decoded(s, at) == g,
{
    let e = g.encoding();
    lemma_geometry_encoding_len(g);
    lemma_le_u64_len(g.index_offset);
    lemma_le_u64_len(g.vertex_offset);
    lemma_le_u64_len(g.index_count);
    lemma_le_u64_len(g.vertex_count);
    lemma_le_u64_len(g.material_index);
    lemma_le_u64_len(g.color_offset);
    lemma_le_u64_len(g.tex_coord_offset);
    lemma_le_u32_len(g.has_color);
    lemma_le_u32_len(g.has_tex_coord);
    assert(s.subrange(at, at + 8) =~= e.subrange(0, 8));
    assert(s.subrange(at + 8, at + 16) =~= e.subrange(8, 16));
    assert(s.subrange(at + 16, at + 24) =~= e.subrange(16, 24));
    assert(s.subrange(at + 24, at + 32) =~= e.subrange(24, 32));
    assert(s.subrange(at + 32, at + 40) =~= e.subrange(32, 40));
    assert(s.subrange(at + 40, at + 48) =~= e.subrange(40, 48));
    assert(s.subrange(at + 48, at + 56) =~= e.subrange(48, 56));
    assert(s.subrange(at + 56, at + 60) =~= e.subrange(56, 60));
    assert(s.subrange(at + 60, at + 64) =~= e.subrange(60, 64));
    assert(e.subrange(0, 8) =~= le_u64(g.index_offset));
    assert(e.subrange(8, 16) =~= le_u64(g.vertex_offset));
    assert(e.subrange(16, 24) =~= le_u64(g.index_count));
    assert(e.subrange(24, 32) =~= le_u64(g.vertex_count));
    assert(e.subrange(32, 40) =~= le_u64(g.material_index));
    assert(e.subrange(40, 48) =~= le_u64(g.color_offset));
    assert(e.subrange(48, 56) =~= le_u64(g.tex_coord_offset));
    assert(e.subrange(56, 60) =~= le_u32(g.has_color));
    assert(e.subrange(60, 64) =~= le_u32(g.has_tex_coord));
    lemma_read_le_u64(s, at, g.index_offset);
    lemma_read_le_u64(s, at + 8, g.vertex_offset);
    lemma_read_le_u64(s, at + 16, g.index_count);
    lemma_read_le_u64(s, at + 24, g.vertex_count);
    lemma_read_le_u64(s, at + 32, g.material_index);
    lemma_read_le_u64(s, at + 40, g.color_offset);
    lemma_read_le_u64(s, at + 48, g.tex_coord_offset);
    lemma_read_le_u32(s, at + 56, g.has_color);
    lemma_read_le_u32(s, at + 60, g.has_tex_coord);
}

/// The encodings of the records of `gs`, one after the other.
pub open spec fn geometry_bytes(gs: Seq<GeometryInfo>) -> Seq<u8>
    decreases gs.len(),
{
    if gs.len() == 0 {
        Seq::empty()
    } else {
        geometry_bytes(gs.drop_last()) + gs.last().encoding()
    }
}

/// Host and device agree on the layout of the geometry buffer: the buffer
/// of `n` records has `64 * n` bytes, and its `i`-th record reads back from
/// byte `64 * i`.
pub proof fn law_geometry_records_read_back(gs: Seq<GeometryInfo>, i: int)
    requires
        0 <= i < gs.len(),
    ensures
        geometry_bytes(gs).len() == 64 * gs.len(),
        GeometryInfo::decoded(geometry_bytes(gs), 64 * i) == gs[i],
    decreases gs.len(),
{
    let head = gs.drop_last();
    let all = geometry_bytes(gs);
    lemma_geometry_bytes_len(head);
    lemma_geometry_bytes_len(gs);
    if i == gs.len() - 1 {
        lemma_geometry_encoding_len(gs.last());
        assert(all.subrange(64 * i, 64 * i + 64) =~= gs.last().encoding());
        lemma_geometry_round_trip(all, 64 * i, gs[i]);
    } else {
        law_geometry_records_read_back(head, i);
        assert(head[i] == gs[i]);
        lemma_geometry_encoding_len(gs[i]);
        lemma_geometry_encoding_len(gs.last());
        assert(geometry_bytes(head).subrange(64 * i, 64 * i + 64) =~= all.subrange(64 * i, 64 * i + 64));
        lemma_geometry_prefix_decodes(geometry_bytes(head), all, 64 * i);
    }
}

/// The buffer of `n` records has `64 * n` bytes.
pub proof fn lemma_geometry_bytes_len(gs: Seq<GeometryInfo>)
    ensures
        geometry_bytes(gs).len() == 64 * gs.len(),
    decreases gs.len(),
{
    if gs.len() > 0 {
        lemma_geometry_bytes_len(gs.drop_last());
        lemma_geometry_encoding_len(gs.last());
    }
}

/// What is decoded at `at` depends on the 64 bytes from `at` on alone.
proof fn lemma_geometry_prefix_decodes(a: Seq<u8>, b: Seq<u8>, at: int)
    requires
        0 <= at,
        at + 64 <= a.len(),
        at + 64 <= b.len(),
        a.subrange(at, at + 64) == b.subrange(at, at + 64),
    ensures
        GeometryInfo::decoded(a, at) == GeometryInfo::decoded(b, at),
{
    let w = a.subrange(at, at + 64);
    let v = b.subrange(at, at + 64);
    assert forall|k: int| 0 <= k < 64 implies #[trigger] w[k] == a[at + k] && v[k] == b[at + k] by {}
    assert forall|j: int| at <= j < at + 64 implies a[j] == b[j] by {
        assert(w[j - at] == a[j]);
        assert(v[j - at] == b[j]);
    }
}

/// Encodes every record of `gs`, in order.
pub fn encode_geometry_infos(gs: &Vec<GeometryInfo>) -> (out: Vec<u8>)
    ensures
        out@ == geometry_bytes(gs@),
        out@.len() == GEOMETRY_INFO_SIZE * gs@.len(),
{
    let mut out: Vec<u8> = Vec::new();
    let mut i: usize = 0;
    while i < gs.len()
        invariant
            i <= gs@.len(),
            out@ == geometry_bytes(gs@.take(i as int)),
        decreases gs@.len() - i,
    {
        gs[i].encode_into(&mut out);
        proof {
            assert(gs@.take(i + 1).drop_last() =~= gs@.take(i as int));
        }
        i += 1;
    }
    proof {
        assert(gs@.take(i as int) =~= gs@);
        lemma_geometry_bytes_len(gs@);
    }
    out
}

/// One material as the device sees it. A material without a texture has
/// its flag cleared and both of that texture's indices zero; the shaders
/// read the indices only where the flag is set.
#[derive(Clone, Copy, Debug, PartialEq, Eq)]
pub struct MaterialInfo {
    pub base_color_factor: [u32; 4],
    pub has_base_color_texture: u32,
    pub base_color_sampler_index: u32,
    pub base_color_image_index: u32,
    pub has_metallic_roughness_texture: u32,
    pub metallic_roughness_sampler_index: u32,
    pub metallic_roughness_image_index: u32,
    pub padding: u64,
}

/// The flag to store for an optional texture: one if present, else zero.
pub open spec fn texture_flag(t: Option<Texture>) -> u32 {
    match t {
        Some(_) => 1,
        None => 0,
    }
}

/// The sampler index to store for an optional texture: its own, or zero.
pub open spec fn texture_sampler(t: Option<Texture>) -> u32 {
    match t {
        Some(x) => x.sampler_index,
        None => 0,
    }
}

/// The image index to store for an optional texture: its own, or zero.
pub open spec fn texture_image(t: Option<Texture>) -> u32 {
    match t {
        Some(x) => x.image_index,
        None => 0,
    }
}

/// The record of a material.
pub open spec fn material_of(m: Material) -> MaterialInfo {
    MaterialInfo {
        base_color_factor: m.base_color_factor,
        has_base_color_texture: texture_flag(m.base_color_texture),
        base_color_sampler_index: texture_sampler(m.base_color_texture),
        base_color_image_index: texture_image(m.base_color_texture),
        has_metallic_roughness_texture: texture_flag(m.metallic_roughness_texture),
        metallic_roughness_sampler_index: texture_sampler(m.metallic_roughness_texture),
        metallic_roughness_image_index: texture_image(m.metallic_roughness_texture),
        padding: 0,
    }
}

impl MaterialInfo {
    /// The 48 bytes of this record: the four colour components, the six
    /// 32-bit texture fields and the 64-bit padding, each little-endian, in
    /// declaration order.
    pub open spec fn encoding(self) -> Seq<u8> {
        le_u32(self.base_color_factor@[0]) + le_u32(self.base_color_factor@[1])
            + le_u32(self.base_color_factor@[2]) + le_u32(self.base_color_factor@[3])
            + le_u32(self.has_base_color_texture) + le_u32(self.base_color_sampler_index)
            + le_u32(self.base_color_image_index) + le_u32(self.has_metallic_roughness_texture)
            + le_u32(self.metallic_roughness_sampler_index)
            + le_u32(self.metallic_roughness_image_index) + le_u64(self.padding)
    }

    /// Whether this is the record that the 48 bytes from `at` on stand for.
    pub open spec fn decoded_from(self, s: Seq<u8>, at: int) -> bool {
        &&& self.base_color_factor@ == seq![
            read_le_u32(s, at),
            read_le_u32(s, at + 4),
            read_le_u32(s, at + 8),
            read_le_u32(s, at + 12),
        ]
        &&& self.has_base_color_texture == read_le_u32(s, at + 16)
        &&& self.base_color_sampler_index == read_le_u32(s, at + 20)
        &&& self.base_color_image_index == read_le_u32(s, at + 24)
        &&& self.has_metallic_roughness_texture == read_le_u32(s, at + 28)
        &&& self.metallic_roughness_sampler_index == read_le_u32(s, at + 32)
        &&& self.metallic_roughness_image_index == read_le_u32(s, at + 36)
        &&& self.padding == read_le_u64(s, at + 40)
    }

    /// Reads the record stored at `bytes[at .. at + 48]`.
    pub fn decode(bytes: &Vec<u8>, at: usize) -> (m: MaterialInfo)
        requires
            at + MATERIAL_INFO_SIZE <= bytes@.len(),
        ensures
            m.decoded_from(bytes@, at as int),
    {
        let n: usize = bytes.len();
        assert(at + 48 <= n);
        let m = MaterialInfo {
            base_color_factor: [
                get_u32(bytes, at),
                get_u32(bytes, at + 4),
                get_u32(bytes, at + 8),
                get_u32(bytes, at + 12),
            ],
            has_base_color_texture: get_u32(bytes, at + 16),
            base_color_sampler_index: get_u32(bytes, at + 20),
            base_color_image_index: get_u32(bytes, at + 24),
            has_metallic_roughness_texture: get_u32(bytes, at + 28),
            metallic_roughness_sampler_index: get_u32(bytes, at + 32),
            metallic_roughness_image_index: get_u32(bytes, at + 36),
            padding: get_u64(bytes, at + 40),
        };
        assert(m.base_color_factor@ =~= seq![
            read_le_u32(bytes@, at as int),
            read_le_u32(bytes@, at + 4),
            read_le_u32(bytes@, at + 8),
            read_le_u32(bytes@, at + 12),
        ]);
        m
    }

    /// Builds the record of a material.
    pub fn from_material(m: &Material) -> (r: MaterialInfo)
        ensures
            r == material_of(*m),
    {
        let mut has_base_color_texture: u32 = 0;
        let mut base_color_sampler_index: u32 = 0;
        let mut base_color_image_index: u32 = 0;
        let mut has_metallic_roughness_texture: u32 = 0;
        let mut metallic_roughness_sampler_index: u32 = 0;
        let mut metallic_roughness_image_index: u32 = 0;
        if let Some(texture) = m.base_color_texture {
            has_base_color_texture = 1;
            base_color_sampler_index = texture.sampler_index;
            base_color_image_index = texture.image_index;
        }
        if let Some(texture) = m.metallic_roughness_texture {
            has_metallic_roughness_texture = 1;
            metallic_roughness_sampler_index = texture.sampler_index;
            metallic_roughness_image_index = texture.image_index;
        }
        MaterialInfo {
            base_color_factor: m.base_color_factor,
            has_base_color_texture,
            base_color_sampler_index,
            base_color_image_index,
            has_metallic_roughness_texture,
            metallic_roughness_sampler_index,
            metallic_roughness_image_index,
            padding: 0,
        }
    }

    /// Appends the encoding of this record to `out`.
    pub fn encode_into(&self, out: &mut Vec<u8>)
        ensures
            final(out)@ == old(out)@ + self.encoding(),
            self.encoding().len() == MATERIAL_INFO_SIZE,
    {
        put_u32(out, self.base_color_factor[0]);
        put_u32(out, self.base_color_factor[1]);
        put_u32(out, self.base_color_factor[2]);
        put_u32(out, self.base_color_factor[3]);
        put_u32(out, self.has_base_color_texture);
        put_u32(out, self.base_color_sampler_index);
        put_u32(out, self.base_color_image_index);
        put_u32(out, self.has_metallic_roughness_texture);
        put_u32(out, self.metallic_roughness_sampler_index);
        put_u32(out, self.metallic_roughness_image_index);
        put_u64(out, self.padding);
        proof {
            lemma_material_encoding_len(*self);
            assert(out@ =~= old(out)@ + self.encoding());
        }
    }
}

/// Every encoded material record has 48 bytes.
pub proof fn lemma_material_encoding_len(m: MaterialInfo)
    ensures
        m.encoding().len() == 48,
{
    lemma_le_u32_len(m.base_color_factor@[0]);
    lemma_le_u32_len(m.base_color_factor@[1]);
    lemma_le_u32_len(m.base_color_factor@[2]);
    lemma_le_u32_len(m.base_color_factor@[3]);
    lemma_le_u32_len(m.has_base_color_texture);
    lemma_le_u32_len(m.base_color_sampler_index);
    lemma_le_u32_len(m.base_color_image_index);
    lemma_le_u32_len(m.has_metallic_roughness_texture);
    lemma_le_u32_len(m.metallic_roughness_sampler_index);
    lemma_le_u32_len(m.metallic_roughness_image_index);
    lemma_le_u64_len(m.padding);
}

/// A material record that was encoded reads back as itself, wherever in a
/// longer sequence its 48 bytes stand.
pub proof fn lemma_material_round_trip(s: Seq<u8>, at: int, m: MaterialInfo)
    requires
        0 <= at,
        at + 48 <= s.len(),
        s.subrange(at, at + 48) == m.encoding(),
    ensures
        m.decoded_from(s, at),
{
    let e = m.encoding();
    let f = m.base_color_factor@;
    lemma_material_encoding_len(m);
    lemma_le_u32_len(f[0]);
    lemma_le_u32_len(f[1]);
    lemma_le_u32_len(f[2]);
    lemma_le_u32_len(f[3]);
    lemma_le_u32_len(m.has_base_color_texture);
    lemma_le_u32_len(m.base_color_sampler_index);
    lemma_le_u32_len(m.base_color_image_index);
    lemma_le_u32_len(m.has_metallic_roughness_texture);
    lemma_le_u32_len(m.metallic_roughness_sampler_index);
    lemma_le_u32_len(m.metallic_roughness_image_index);
    lemma_le_u64_len(m.padding);
    assert(s.subrange(at, at + 4) =~= e.subrange(0, 4));
    assert(s.subrange(at + 4, at + 8) =~= e.subrange(4, 8));
    assert(s.subrange(at + 8, at + 12) =~= e.subrange(8, 12));
    assert(s.subrange(at + 12, at + 16) =~= e.subrange(12, 16));
    assert(s.subrange(at + 16, at + 20) =~= e.subrange(16, 20));
    assert(s.subrange(at + 20, at + 24) =~= e.subrange(20, 24));
    assert(s.subrange(at + 24, at + 28) =~= e.subrange(24, 28));
    assert(s.subrange(at + 28, at + 32) =~= e.subrange(28, 32));
    assert(s.subrange(at + 32, at + 36) =~= e.subrange(32, 36));
    assert(s.subrange(at + 36, at + 40) =~= e.subrange(36, 40));
    assert(s.subrange(at + 40, at + 48) =~= e.subrange(40, 48));
    assert(e.subrange(0, 4) =~= le_u32(f[0]));
    assert(e.subrange(4, 8) =~= le_u32(f[1]));
    assert(e.subrange(8, 12) =~= le_u32(f[2]));
    assert(e.subrange(12, 16) =~= le_u32(f[3]));
    assert(e.subrange(16, 20) =~= le_u32(m.has_base_color_texture));
    assert(e.subrange(20, 24) =~= le_u32(m.base_color_sampler_index));
    assert(e.subrange(24, 28) =~= le_u32(m.base_color_image_index));
    assert(e.subrange(28, 32) =~= le_u32(m.has_metallic_roughness_texture));
    assert(e.subrange(32, 36) =~= le_u32(m.metallic_roughness_sampler_index));
    assert(e.subrange(36, 40) =~= le_u32(m.metallic_roughness_image_index));
    assert(e.subrange(40, 48) =~= le_u64(m.padding));
    lemma_read_le_u32(s, at, f[0]);
    lemma_read_le_u32(s, at + 4, f[1]);
    lemma_read_le_u32(s, at + 8, f[2]);
    lemma_read_le_u32(s, at + 12, f[3]);
    lemma_read_le_u32(s, at + 16, m.has_base_color_texture);
    lemma_read_le_u32(s, at + 20, m.base_color_sampler_index);
    lemma_read_le_u32(s, at + 24, m.base_color_image_index);
    lemma_read_le_u32(s, at + 28, m.has_metallic_roughness_texture);
    lemma_read_le_u32(s, at + 32, m.metallic_roughness_sampler_index);
    lemma_read_le_u32(s, at + 36, m.metallic_roughness_image_index);
    lemma_read_le_u64(s, at + 40, m.padding);
    assert(f =~= seq![
        read_le_u32(s, at),
        read_le_u32(s, at + 4),
        read_le_u32(s, at + 8),
        read_le_u32(s, at + 12),
    ]);
}

/// Host and device agree on the layout of the material buffer: the buffer
/// of `n` records has `48 * n` bytes, and its `i`-th record reads back from
/// byte `48 * i`.
pub proof fn law_material_records_read_back(ms: Seq<MaterialInfo>, i: int)
    requires
        0 <= i < ms.len(),
    ensures
        material_bytes(ms).len() == 48 * ms.len(),
        ms[i].decoded_from(material_bytes(ms), 48 * i),
    decreases ms.len(),
{
    let head = ms.drop_last();
    let all = material_bytes(ms);
    lemma_material_bytes_len(head);
    lemma_material_bytes_len(ms);
    lemma_material_encoding_len(ms.last());
    if i == ms.len() - 1 {
        assert(all.subrange(48 * i, 48 * i + 48) =~= ms.last().encoding());
        lemma_material_round_trip(all, 48 * i, ms[i]);
    } else {
        law_material_records_read_back(head, i);
        assert(head[i] == ms[i]);
        lemma_material_encoding_len(ms[i]);
        assert(all.subrange(48 * i, 48 * i + 48) =~= material_bytes(head).subrange(
            48 * i,
            48 * i + 48,
        ));
        lemma_material_window(material_bytes(head), all, 48 * i, ms[i]);
    }
}

/// What is decoded at `at` depends on the 48 bytes from `at` on alone.
proof fn lemma_material_window(a: Seq<u8>, b: Seq<u8>, at: int, m: MaterialInfo)
    requires
        0 <= at,
        at + 48 <= a.len(),
        at + 48 <= b.len(),
        a.subrange(at, at + 48) == b.subrange(at, at + 48),
        m.decoded_from(a, at),
    ensures
        m.decoded_from(b, at),
{
    let w = a.subrange(at, at + 48);
    let v = b.subrange(at, at + 48);
    assert forall|k: int| 0 <= k < 48 implies #[trigger] w[k] == a[at + k] && v[k] == b[at + k] by {}
    assert forall|j: int| at <= j < at + 48 implies a[j] == b[j] by {
        assert(w[j - at] == a[j]);
        assert(v[j - at] == b[j]);
    }
}

/// The encodings of the records of `ms`, one after the other.
pub open spec fn material_bytes(ms: Seq<MaterialInfo>) -> Seq<u8>
    decreases ms.len(),
{
    if ms.len() == 0 {
        Seq::empty()
    } else {
        material_bytes(ms.drop_last()) + ms.last().encoding()
    }
}

/// The buffer of `n` material records has `48 * n` bytes.
pub proof fn lemma_material_bytes_len(ms: Seq<MaterialInfo>)
    ensures
        material_bytes(ms).len() == 48 * ms.len(),
    decreases ms.len(),
{
    if ms.len() > 0 {
        lemma_material_bytes_len(ms.drop_last());
        lemma_material_encoding_len(ms.last());
    }
}

/// Encodes every record of `ms`, in order.
pub fn encode_material_infos(ms: &Vec<MaterialInfo>) -> (out: Vec<u8>)
    ensures
        out@ == material_bytes(ms@),
        out@.len() == MATERIAL_INFO_SIZE * ms@.len(),
{
    let mut out: Vec<u8> = Vec::new();
    let mut i: usize = 0;
    while i < ms.len()
        invariant
            i <= ms@.len(),
            out@ == material_bytes(ms@.take(i as int)),
        decreases ms@.len() - i,
    {
        ms[i].encode_into(&mut out);
        proof {
            assert(ms@.take(i + 1).drop_last() =~= ms@.take(i as int));
        }
        i += 1;
    }
    proof {
        assert(ms@.take(i as int) =~= ms@);
        lemma_material_bytes_len(ms@);
    }
    out
}

/// The per-hit-group data of a shader binding table entry.
#[derive(Clone, Copy, Debug, PartialEq, Eq, Structural)]
pub struct ShaderRecordData {
    pub index_offset: u32,
    pub vertex_offset: u32,
}

impl ShaderRecordData {
    /// The eight bytes of this record: both fields little-endian, in
    /// declaration order.
    pub open spec fn encoding(self) -> Seq<u8> {
        le_u32(self.index_offset) + le_u32(self.vertex_offset)
    }

    /// Appends the encoding of this record to `out`.
    pub fn encode_into(&self, out: &mut Vec<u8>)
        ensures
            final(out)@ == old(out)@ + self.encoding(),
            self.encoding().len() == 8,
    {
        put_u32(out, self.index_offset);
        put_u32(out, self.vertex_offset);
        proof {
            lemma_le_u32_len(self.index_offset);
            lemma_le_u32_len(self.vertex_offset);
            assert(out@ =~= old(out)@ + self.encoding());
        }
    }
}

} // verus!
