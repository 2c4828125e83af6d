//! On-disk layout of a Source-engine BSP file.
//!
//! The file is little-endian throughout: a fixed header (magic word,
//! version, 64 lump descriptors, map revision) followed by the lumps, each
//! a packed array of fixed-size records.  Everything here decodes those
//! bytes into typed records and says, field by field, which bytes each
//! field came from.
//!
//! Single-precision quantities (vertex positions, plane normals and
//! distances, texture vectors, face areas) are kept as their raw IEEE-754
//! bit patterns in `u32` fields.  The decoder never does arithmetic on
//! them; consumers that need real arithmetic reinterpret the bits.

use vstd::prelude::*;

use crate::error::BspError;

verus! {

/// The little-endian i32 spelling of the four bytes 'V','B','S','P'.
pub const HEADER_MAGIC: i32 = 0x50534256;

/// Number of lump descriptors in the header.
pub const HEADER_LUMP_COUNT: usize = 64;

/// Size in bytes of the fixed header: magic, version, 64 descriptors of
/// 16 bytes each, map revision.
pub const HEADER_SIZE: usize = 1036;

/// Upper bound on the leaf-face and leaf-brush tables.
pub const MAX_MAP_LEAFBRUSHES: usize = 65536;

// ---------------------------------------------------------------------------
// Little-endian readers.
// ---------------------------------------------------------------------------

/// The unsigned 16-bit value stored little-endian at `off`.
pub open spec fn spec_le_u16(s: Seq<u8>, off: int) -> u16 {
    (s[off] as int + s[off + 1] as int * 0x100) as u16
}

/// The unsigned 32-bit value stored little-endian at `off`.
pub open spec fn spec_le_u32(s: Seq<u8>, off: int) -> u32 {
    (s[off] as int + s[off + 1] as int * 0x100 + s[off + 2] as int * 0x10000
        + s[off + 3] as int * 0x1000000) as u32
}

/// The signed value denoted by a 32-bit two's-complement bit pattern.
pub open spec fn spec_i32_of_u32(b: u32) -> i32 {
    if b < 0x8000_0000 {
        b as i32
    } else {
        (b - 0x1_0000_0000) as i32
    }
}

/// The signed value denoted by a 16-bit two's-complement bit pattern.
pub open spec fn spec_i16_of_u16(b: u16) -> i16 {
    if b < 0x8000 {
        b as i16
    } else {
        (b - 0x1_0000) as i16
    }
}

/// The 32-bit two's-complement bit pattern of a signed value.
pub open spec fn spec_u32_of_i32(x: i32) -> u32 {
    if x >= 0 {
        x as u32
    } else {
        (x + 0x1_0000_0000) as u32
    }
}

/// The signed 32-bit value stored little-endian at `off`.
pub open spec fn spec_le_i32(s: Seq<u8>, off: int) -> i32 {
    spec_i32_of_u32(spec_le_u32(s, off))
}

/// The signed 16-bit value stored little-endian at `off`.
pub open spec fn spec_le_i16(s: Seq<u8>, off: int) -> i16 {
    spec_i16_of_u16(spec_le_u16(s, off))
}

pub fn read_u16(bytes: &Vec<u8>, off: usize) -> (r: u16)
    requires
        off + 2 <= bytes.len(),
    ensures
        r == spec_le_u16(bytes@, off as int),
{
    let b0 = bytes[off] as u16;
    let b1 = bytes[off + 1] as u16;
    b0 + b1 * 0x100
}

pub fn read_u32(bytes: &Vec<u8>, off: usize) -> (r: u32)
    requires
        off + 4 <= bytes.len(),
    ensures
        r == spec_le_u32(bytes@, off as int),
{
    let b0 = bytes[off] as u32;
    let b1 = bytes[off + 1] as u32;
    let b2 = bytes[off + 2] as u32;
    let b3 = bytes[off + 3] as u32;
    b0 + b1 * 0x100 + b2 * 0x10000 + b3 * 0x1000000
}

pub fn i32_of_u32(b: u32) -> (r: i32)
    ensures
        r == spec_i32_of_u32(b),
{
    if b < 0x8000_0000 {
        b as i32
    } else {
        (b as i64 - 0x1_0000_0000) as i32
    }
}

pub fn i16_of_u16(b: u16) -> (r: i16)
    ensures
        r == spec_i16_of_u16(b),
{
    if b < 0x8000 {
        b as i16
    } else {
        (b as i32 - 0x1_0000) as i16
    }
}

pub fn u32_of_i32(x: i32) -> (r: u32)
    ensures
        r == spec_u32_of_i32(x),
{
    if x >= 0 {
        x as u32
    } else {
        (x as i64 + 0x1_0000_0000) as u32
    }
}

pub fn read_i32(bytes: &Vec<u8>, off: usize) -> (r: i32)
    requires
        off + 4 <= bytes.len(),
    ensures
        r == spec_le_i32(bytes@, off as int),
{
    i32_of_u32(read_u32(bytes, off))
}

pub fn read_i16(bytes: &Vec<u8>, off: usize) -> (r: i16)
    requires
        off + 2 <= bytes.len(),
    ensures
        r == spec_le_i16(bytes@, off as int),
{
    i16_of_u16(read_u16(bytes, off))
}

// ---------------------------------------------------------------------------
// Lump directory.
// ---------------------------------------------------------------------------

/// The slots of the header's lump directory, by name.  Only a few of them
/// are read by the model; the rest are listed for completeness.
#[derive(Clone, Copy, Debug, PartialEq, Eq, Structural)]
pub enum LumpIndex {
    Entities,
    Planes,
    TexData,
    Vertexes,
    Visibility,
    Nodes,
    TexInfo,
    Faces,
    Lighting,
    Occlusion,
    Leafs,
    Edges,
    SurfEdges,
    Models,
    WorldLights,
    LeafFaces,
    LeafBrushes,
    Brushes,
    BrushSides,
    Areas,
    AreaPortals,
    Portals,
    Clusters,
    PortalVerts,
    ClusterPortals,
    DispInfo,
    OriginalFaces,
    PhysCollide,
    VertNormals,
    VertNormalIndices,
    DispLightmapAlphas,
    DispVerts,
    DispLightmapSamplePositions,
    GameLump,
    LeafWaterData,
    Primitives,
    PrimVerts,
    PrimIndices,
    PakFile,
    ClipPortalVerts,
    CubeMaps,
    TexDataStringData,
    TexDataStringTable,
    Overlays,
    LeafMinDistToWater,
    FaceMacroTextureInfo,
    DispTris,
}

impl LumpIndex {
    /// The lump's slot in the header's 64-entry directory.
    pub fn slot(self) -> (r: usize)
        ensures
            r == self.spec_slot(),
            r < HEADER_LUMP_COUNT,
    {
        match self {
            LumpIndex::Entities => 0,
            LumpIndex::Planes => 1,
            LumpIndex::TexData => 2,
            LumpIndex::Vertexes => 3,
            LumpIndex::Visibility => 4,
            LumpIndex::Nodes => 5,
            LumpIndex::TexInfo => 6,
            LumpIndex::Faces => 7,
            LumpIndex::Lighting => 8,
            LumpIndex::Occlusion => 9,
            LumpIndex::Leafs => 10,
            LumpIndex::Edges => 12,
            LumpIndex::SurfEdges => 13,
            LumpIndex::Models => 14,
            LumpIndex::WorldLights => 15,
            LumpIndex::LeafFaces => 16,
            LumpIndex::LeafBrushes => 17,
            LumpIndex::Brushes => 18,
            LumpIndex::BrushSides => 19,
            LumpIndex::Areas => 20,
            LumpIndex::AreaPortals => 21,
            LumpIndex::Portals => 22,
            LumpIndex::Clusters => 23,
            LumpIndex::PortalVerts => 24,
            LumpIndex::ClusterPortals => 25,
            LumpIndex::DispInfo => 26,
            LumpIndex::OriginalFaces => 27,
            LumpIndex::PhysCollide => 29,
            LumpIndex::VertNormals => 30,
            LumpIndex::VertNormalIndices => 31,
            LumpIndex::DispLightmapAlphas => 32,
            LumpIndex::DispVerts => 33,
            LumpIndex::DispLightmapSamplePositions => 34,
            LumpIndex::GameLump => 35,
            LumpIndex::LeafWaterData => 36,
            LumpIndex::Primitives => 37,
            LumpIndex::PrimVerts => 38,
            LumpIndex::PrimIndices => 39,
            LumpIndex::PakFile => 40,
            LumpIndex::ClipPortalVerts => 41,
            LumpIndex::CubeMaps => 42,
            LumpIndex::TexDataStringData => 43,
            LumpIndex::TexDataStringTable => 44,
            LumpIndex::Overlays => 45,
            LumpIndex::LeafMinDistToWater => 46,
            LumpIndex::FaceMacroTextureInfo => 47,
            LumpIndex::DispTris => 48,
        }
    }

    pub open spec fn spec_slot(self) -> usize {
        match self {
            LumpIndex::Entities => 0,
            LumpIndex::Planes => 1,
            LumpIndex::TexData => 2,
            LumpIndex::Vertexes => 3,
            LumpIndex::Visibility => 4,
            LumpIndex::Nodes => 5,
            LumpIndex::TexInfo => 6,
            LumpIndex::Faces => 7,
            LumpIndex::Lighting => 8,
            LumpIndex::Occlusion => 9,
            LumpIndex::Leafs => 10,
            LumpIndex::Edges => 12,
            LumpIndex::SurfEdges => 13,
            LumpIndex::Models => 14,
            LumpIndex::WorldLights => 15,
            LumpIndex::LeafFaces => 16,
            LumpIndex::LeafBrushes => 17,
            LumpIndex::Brushes => 18,
            LumpIndex::BrushSides => 19,
            LumpIndex::Areas => 20,
            LumpIndex::AreaPortals => 21,
            LumpIndex::Portals => 22,
            LumpIndex::Clusters => 23,
            LumpIndex::PortalVerts => 24,
            LumpIndex::ClusterPortals => 25,
            LumpIndex::DispInfo => 26,
            LumpIndex::OriginalFaces => 27,
            LumpIndex::PhysCollide => 29,
            LumpIndex::VertNormals => 30,
            LumpIndex::VertNormalIndices => 31,
            LumpIndex::DispLightmapAlphas => 32,
            LumpIndex::DispVerts => 33,
            LumpIndex::DispLightmapSamplePositions => 34,
            LumpIndex::GameLump => 35,
            LumpIndex::LeafWaterData => 36,
            LumpIndex::Primitives => 37,
            LumpIndex::PrimVerts => 38,
            LumpIndex::PrimIndices => 39,
            LumpIndex::PakFile => 40,
            LumpIndex::ClipPortalVerts => 41,
            LumpIndex::CubeMaps => 42,
            LumpIndex::TexDataStringData => 43,
            LumpIndex::TexDataStringTable => 44,
            LumpIndex::Overlays => 45,
            LumpIndex::LeafMinDistToWater => 46,
            LumpIndex::FaceMacroTextureInfo => 47,
            LumpIndex::DispTris => 48,
        }
    }
}

// ---------------------------------------------------------------------------
// On-disk records.
// ---------------------------------------------------------------------------

/// One lump descriptor: 16 bytes at offset `8 + 16 * slot` of the file.
#[derive(Clone, Copy, Debug)]
pub struct lump_t {
    pub fileofs: i32,
    pub filelen: i32,
    pub version: i32,
    pub four_cc: [u8; 4],
}

/// The fixed file header: magic word, version, the 64-entry lump
/// directory, and the map revision.
#[derive(Clone, Debug)]
pub struct dheader_t {
    pub ident: i32,
    pub version: i32,
    pub lumps: Vec<lump_t>,
    pub map_revision: i32,
}

/// A vertex: one position, stored as three single-precision bit patterns.
#[derive(Clone, Copy, Debug)]
pub struct mvertex_t {
    pub position: [u32; 3],
}

/// A raw splitting plane: unit normal, distance, and axial type, the
/// normal and distance as single-precision bit patterns.
#[derive(Clone, Copy, Debug)]
pub struct dplane_t {
    pub normal: [u32; 3],
    pub distance: u32,
    pub typ: i32,
}

/// A canonicalised plane: the raw plane's normal and distance, the type
/// narrowed to a byte, and the per-axis sign bits precomputed.
#[derive(Clone, Copy, Debug)]
pub struct cplane_t {
    pub normal: [u32; 3],
    pub distance: u32,
    pub typ: u8,
    pub sign_bits: u8,
    pub pad0: [u8; 2],
}

/// An undirected edge: two vertex indices.
#[derive(Clone, Copy, Debug)]
pub struct dedge_t {
    pub v: [u16; 2],
}

/// A leaf of the BSP tree.
#[derive(Clone, Copy, Debug)]
pub struct dleaf_t {
    pub contents: i32,
    pub cluster: i16,
    pub area: i16,
    pub flags: i16,
    pub mins: [i16; 3],
    pub maxs: [i16; 3],
    pub first_leaf_face: u16,
    pub num_leaf_faces: u16,
    pub first_leaf_brush: u16,
    pub num_leaf_brushes: u16,
    pub feaf_water_data_id: i16,
}

/// An interior node of the BSP tree as stored on disk.  A child that is
/// non-negative is a node index; a negative child `c` denotes the leaf
/// `-1 - c`.
#[derive(Clone, Copy, Debug)]
pub struct dnode_t {
    pub plane_num: i32,
    pub children: [i32; 2],
    pub mins: [i16; 3],
    pub maxs: [i16; 3],
    pub first_face: u16,
    pub num_faces: u16,
    pub area: i16,
    pub pad0: [u8; 2],
}

/// An interior node as kept in memory: the disk node's fields plus the
/// redundant non-negative plane index and child indices split by kind.
#[derive(Clone, Copy, Debug)]
pub struct snode_t {
    pub plane_num: i32,
    pub plane_idx: u32,
    pub children: [i32; 2],
    pub leaf_children_idx: u32,
    pub node_children_idx: u32,
    pub mins: [i16; 3],
    pub maxs: [i16; 3],
    pub first_face: u16,
    pub num_faces: u16,
    pub area: i16,
    pub pad0: [u8; 2],
}

/// A face: a polygon on a plane, described by a run of surf-edges.  The
/// `area` field is a single-precision bit pattern.
#[derive(Clone, Copy, Debug)]
pub struct dface_t {
    pub plane_num: u16,
    pub side: u8,
    pub on_node: u8,
    pub first_edge: i32,
    pub num_edges: i16,
    pub tex_info: i16,
    pub disp_info: i16,
    pub surface_fog_volume_id: i16,
    pub styles: [u8; 4],
    pub light_ofs: i32,
    pub area: u32,
    pub lightmap_texture_mins_in_luxels: [i32; 2],
    pub lightmap_texture_size_in_luxels: [i32; 2],
    pub orig_face: i32,
    pub num_prims: u16,
    pub first_prim_id: u16,
    pub smoothing_groups: u16,
    pub pad0: [u8; 2],
}

/// Texture information for a face.  The eight texture and lightmap vector
/// components per row are single-precision bit patterns.
#[derive(Clone, Copy, Debug)]
pub struct texinfo_t {
    pub texture_vecs: [[u32; 4]; 2],
    pub lightmap_vecs: [[u32; 4]; 2],
    pub flags: i32,
    pub tex_data: i32,
}

/// A convex brush: a run of sides and a contents bitmask.
#[derive(Clone, Copy, Debug)]
pub struct dbrush_t {
    pub first_side: i32,
    pub num_sides: i32,
    pub contents: i32,
}

/// One bounding side of a brush.
#[derive(Clone, Copy, Debug)]
pub struct dbrushside_t {
    pub plane_num: u16,
    pub tex_info: i16,
    pub disp_info: i16,
    pub bevel: u8,
    pub thin: u8,
}

// ---------------------------------------------------------------------------
// Header decoding.
// ---------------------------------------------------------------------------

/// The lump descriptor in slot `k` matches the 16 bytes at `8 + 16 * k`.
pub open spec fn lump_matches(l: lump_t, s: Seq<u8>, k: int) -> bool {
    &&& l.fileofs == spec_le_i32(s, 8 + 16 * k)
    &&& l.filelen == spec_le_i32(s, 12 + 16 * k)
    &&& l.version == spec_le_i32(s, 16 + 16 * k)
    &&& l.four_cc[0] == s[20 + 16 * k]
    &&& l.four_cc[1] == s[21 + 16 * k]
    &&& l.four_cc[2] == s[22 + 16 * k]
    &&& l.four_cc[3] == s[23 + 16 * k]
}

/// The header matches the first `HEADER_SIZE` bytes of the file.
pub open spec fn header_matches(h: dheader_t, s: Seq<u8>) -> bool {
    &&& h.ident == spec_le_i32(s, 0)
    &&& h.version == spec_le_i32(s, 4)
    &&& h.lumps@.len() == HEADER_LUMP_COUNT
    &&& forall|k: int| 0 <= k < HEADER_LUMP_COUNT ==> lump_matches(#[trigger] h.lumps@[k], s, k)
    &&& h.map_revision == spec_le_i32(s, 1032)
}

/// Decodes the fixed header.  Fails only when the image is shorter than
/// the header itself.
pub fn parse_header(bytes: &Vec<u8>) -> (r: Result<dheader_t, BspError>)
    ensures
        match r {
            Ok(h) => bytes@.len() >= HEADER_SIZE && header_matches(h, bytes@),
            Err(e) => bytes@.len() < HEADER_SIZE && e == BspError::IoError,
        },
{
    if bytes.len() < HEADER_SIZE {
        return Err(BspError::IoError);
    }
    let ident = read_i32(bytes, 0);
    let version = read_i32(bytes, 4);
    let mut lumps: Vec<lump_t> = Vec::new();
    let mut k: usize = 0;
    while k < HEADER_LUMP_COUNT
        invariant
            k <= HEADER_LUMP_COUNT,
            bytes.len() >= HEADER_SIZE,
            lumps@.len() == k,
            forall|j: int| 0 <= j < k ==> lump_matches(#[trigger] lumps@[j], bytes@, j),
        decreases HEADER_LUMP_COUNT - k,
    {
        let off = 8 + 16 * k;
        let l = lump_t {
            fileofs: read_i32(bytes, off),
            filelen: read_i32(bytes, off + 4),
            version: read_i32(bytes, off + 8),
            four_cc: [bytes[off + 12], bytes[off + 13], bytes[off + 14], bytes[off + 15]],
        };
        lumps.push(l);
        k += 1;
    }
    let map_revision = read_i32(bytes, 1032);
    Ok(dheader_t { ident, version, lumps, map_revision })
}

// ---------------------------------------------------------------------------
// Lump record decoding.
// ---------------------------------------------------------------------------

/// The lump's byte length is a positive multiple of the record size.
pub open spec fn spec_lump_size_ok(l: lump_t, size: int) -> bool {
    l.filelen > 0 && l.filelen as int % size == 0
}

/// The lump's extent lies inside the byte image.
pub open spec fn spec_lump_extent_ok(s: Seq<u8>, l: lump_t) -> bool {
    l.fileofs >= 0 && l.fileofs + l.filelen <= s.len()
}

/// The lump can be decoded from the image at all.
pub open spec fn spec_lump_ok(s: Seq<u8>, l: lump_t, size: int) -> bool {
    spec_lump_size_ok(l, size) && spec_lump_extent_ok(s, l)
}

/// Which error a lump that cannot be decoded is reported with: a bad
/// length is the lump's own fault, an extent past the end of the image is
/// a failed read.
pub open spec fn spec_lump_err(s: Seq<u8>, l: lump_t, size: int) -> BspError {
    if !spec_lump_size_ok(l, size) {
        BspError::InvalidLumpSize
    } else {
        BspError::IoError
    }
}

/// How many records the lump holds.
pub open spec fn spec_lump_count(l: lump_t, size: int) -> int {
    l.filelen as int / size
}

/// Checks a lump's length and extent and returns its record count.
pub fn check_lump(bytes: &Vec<u8>, lump: &lump_t, size: usize) -> (r: Result<usize, BspError>)
    requires
        1 <= size <= 4096,
    ensures
        match r {
            Ok(count) => {
                &&& spec_lump_ok(bytes@, *lump, size as int)
                &&& count == spec_lump_count(*lump, size as int)
                &&& 1 <= count
                &&& count * size == lump.filelen
                &&& lump.fileofs >= 0
                &&& lump.fileofs + count * size <= bytes.len()
            },
            Err(e) => !spec_lump_ok(bytes@, *lump, size as int) && e == spec_lump_err(
                bytes@,
                *lump,
                size as int,
            ),
        },
{
    if lump.filelen <= 0 {
        return Err(BspError::InvalidLumpSize);
    }
    let len_u = lump.filelen as usize;
    if len_u % size != 0 {
        return Err(BspError::InvalidLumpSize);
    }
    if lump.fileofs < 0 {
        return Err(BspError::IoError);
    }
    let ofs = lump.fileofs as usize;
    if ofs > bytes.len() || len_u > bytes.len() - ofs {
        return Err(BspError::IoError);
    }
    let count = len_u / size;
    proof {
        vstd::arithmetic::div_mod::lemma_fundamental_div_mod(len_u as int, size as int);
        assert(len_u % size == 0);
        let q = len_u as int / size as int;
        assert(len_u as int == size as int * q);
        assert(count == q);
        vstd::arithmetic::mul::lemma_mul_is_commutative(size as int, q);
        assert(count * size == len_u);
        if count == 0 {
            assert(len_u as int == size as int * 0);
        }
    }
    Ok(count)
}

/// The vertex record at byte offset `off`.
pub open spec fn vertex_matches(v: mvertex_t, s: Seq<u8>, off: int) -> bool {
    &&& v.position[0] == spec_le_u32(s, off)
    &&& v.position[1] == spec_le_u32(s, off + 4)
    &&& v.position[2] == spec_le_u32(s, off + 8)
}

/// Decodes the vertex lump: 12-byte records.
pub fn parse_vertex_lump(bytes: &Vec<u8>, lump: &lump_t) -> (r: Result<Vec<mvertex_t>, BspError>)
    ensures
        match r {
            Ok(v) => spec_lump_ok(bytes@, *lump, 12) && v@.len() == spec_lump_count(*lump, 12)
                && forall|i: int|
                0 <= i < v@.len() ==> vertex_matches(#[trigger] v@[i], bytes@, lump.fileofs + 12 * i),
            Err(e) => !spec_lump_ok(bytes@, *lump, 12) && e == spec_lump_err(bytes@, *lump, 12),
        },
{
    let count = match check_lump(bytes, lump, 12) {
        Ok(c) => c,
        Err(e) => return Err(e),
    };
    let base = lump.fileofs as usize;
    let mut v: Vec<mvertex_t> = Vec::new();
    let mut i: usize = 0;
    while i < count
        invariant
            i <= count,
            v@.len() == i,
            base == lump.fileofs,
            base + count * 12 <= bytes.len(),
            forall|j: int| 0 <= j < i ==> vertex_matches(#[trigger] v@[j], bytes@, base + 12 * j),
        decreases count - i,
    {
        let off = base + i * 12;
        v.push(
            mvertex_t {
                position: [read_u32(bytes, off), read_u32(bytes, off + 4), read_u32(bytes, off + 8)],
            },
        );
        i += 1;
    }
    Ok(v)
}

/// The plane record at byte offset `off`.
pub open spec fn plane_matches(p: dplane_t, s: Seq<u8>, off: int) -> bool {
    &&& p.normal[0] == spec_le_u32(s, off)
    &&& p.normal[1] == spec_le_u32(s, off + 4)
    &&& p.normal[2] == spec_le_u32(s, off + 8)
    &&& p.distance == spec_le_u32(s, off + 12)
    &&& p.typ == spec_le_i32(s, off + 16)
}

/// Decodes the plane lump: 20-byte records.
pub fn parse_plane_lump(bytes: &Vec<u8>, lump: &lump_t) -> (r: Result<Vec<dplane_t>, BspError>)
    ensures
        match r {
            Ok(v) => spec_lump_ok(bytes@, *lump, 20) && v@.len() == spec_lump_count(*lump, 20)
                && forall|i: int|
                0 <= i < v@.len() ==> plane_matches(#[trigger] v@[i], bytes@, lump.fileofs + 20 * i),
            Err(e) => !spec_lump_ok(bytes@, *lump, 20) && e == spec_lump_err(bytes@, *lump, 20),
        },
{
    let count = match check_lump(bytes, lump, 20) {
        Ok(c) => c,
        Err(e) => return Err(e),
    };
    let base = lump.fileofs as usize;
    let mut v: Vec<dplane_t> = Vec::new();
    let mut i: usize = 0;
    while i < count
        invariant
            i <= count,
            v@.len() == i,
            base == lump.fileofs,
            base + count * 20 <= bytes.len(),
            forall|j: int| 0 <= j < i ==> plane_matches(#[trigger] v@[j], bytes@, base + 20 * j),
        decreases count - i,
    {
        let off = base + i * 20;
        v.push(
            dplane_t {
                normal: [read_u32(bytes, off), read_u32(bytes, off + 4), read_u32(bytes, off + 8)],
                distance: read_u32(bytes, off + 12),
                typ: read_i32(bytes, off + 16),
            },
        );
        i += 1;
    }
    Ok(v)
}

/// The edge record at byte offset `off`.
pub open spec fn edge_matches(e: dedge_t, s: Seq<u8>, off: int) -> bool {
    &&& e.v[0] == spec_le_u16(s, off)
    &&& e.v[1] == spec_le_u16(s, off + 2)
}

/// Decodes the edge lump: 4-byte records.
pub fn parse_edge_lump(bytes: &Vec<u8>, lump: &lump_t) -> (r: Result<Vec<dedge_t>, BspError>)
    ensures
        match r {
            Ok(v) => spec_lump_ok(bytes@, *lump, 4) && v@.len() == spec_lump_count(*lump, 4)
                && forall|i: int|
                0 <= i < v@.len() ==> edge_matches(#[trigger] v@[i], bytes@, lump.fileofs + 4 * i),
            Err(e) => !spec_lump_ok(bytes@, *lump, 4) && e == spec_lump_err(bytes@, *lump, 4),
        },
{
    let count = match check_lump(bytes, lump, 4) {
        Ok(c) => c,
        Err(e) => return Err(e),
    };
    let base = lump.fileofs as usize;
    let mut v: Vec<dedge_t> = Vec::new();
    let mut i: usize = 0;
    while i < count
        invariant
            i <= count,
            v@.len() == i,
            base == lump.fileofs,
            base + count * 4 <= bytes.len(),
            forall|j: int| 0 <= j < i ==> edge_matches(#[trigger] v@[j], bytes@, base + 4 * j),
        decreases count - i,
    {
        let off = base + i * 4;
        v.push(dedge_t { v: [read_u16(bytes, off), read_u16(bytes, off + 2)] });
        i += 1;
    }
    Ok(v)
}

/// Decodes the surf-edge lump: 4-byte signed indices.
pub fn parse_surfedge_lump(bytes: &Vec<u8>, lump: &lump_t) -> (r: Result<Vec<i32>, BspError>)
    ensures
        match r {
            Ok(v) => spec_lump_ok(bytes@, *lump, 4) && v@.len() == spec_lump_count(*lump, 4)
                && forall|i: int|
                0 <= i < v@.len() ==> #[trigger] v@[i] == spec_le_i32(bytes@, lump.fileofs + 4 * i),
            Err(e) => !spec_lump_ok(bytes@, *lump, 4) && e == spec_lump_err(bytes@, *lump, 4),
        },
{
    let count = match check_lump(bytes, lump, 4) {
        Ok(c) => c,
        Err(e) => return Err(e),
    };
    let base = lump.fileofs as usize;
    let mut v: Vec<i32> = Vec::new();
    let mut i: usize = 0;
    while i < count
        invariant
            i <= count,
            v@.len() == i,
            base == lump.fileofs,
            base + count * 4 <= bytes.len(),
            forall|j: int| 0 <= j < i ==> #[trigger] v@[j] == spec_le_i32(bytes@, base + 4 * j),
        decreases count - i,
    {
        let off = base + i * 4;
        v.push(read_i32(bytes, off));
        i += 1;
    }
    Ok(v)
}

/// Decodes a leaf-face or leaf-brush lump: 2-byte unsigned indices.
pub fn parse_u16_lump(bytes: &Vec<u8>, lump: &lump_t) -> (r: Result<Vec<u16>, BspError>)
    ensures
        match r {
            Ok(v) => spec_lump_ok(bytes@, *lump, 2) && v@.len() == spec_lump_count(*lump, 2)
                && forall|i: int|
                0 <= i < v@.len() ==> #[trigger] v@[i] == spec_le_u16(bytes@, lump.fileofs + 2 * i),
            Err(e) => !spec_lump_ok(bytes@, *lump, 2) && e == spec_lump_err(bytes@, *lump, 2),
        },
{
    let count = match check_lump(bytes, lump, 2) {
        Ok(c) => c,
        Err(e) => return Err(e),
    };
    let base = lump.fileofs as usize;
    let mut v: Vec<u16> = Vec::new();
    let mut i: usize = 0;
    while i < count
        invariant
            i <= count,
            v@.len() == i,
            base == lump.fileofs,
            base + count * 2 <= bytes.len(),
            forall|j: int| 0 <= j < i ==> #[trigger] v@[j] == spec_le_u16(bytes@, base + 2 * j),
        decreases count - i,
    {
        let off = base + i * 2;
        v.push(read_u16(bytes, off));
        i += 1;
    }
    Ok(v)
}

/// The leaf record at byte offset `off`.
pub open spec fn leaf_matches(l: dleaf_t, s: Seq<u8>, off: int) -> bool {
    &&& l.contents == spec_le_i32(s, off)
    &&& l.cluster == spec_le_i16(s, off + 4)
    &&& l.area == spec_le_i16(s, off + 6)
    &&& l.flags == spec_le_i16(s, off + 8)
    &&& l.mins[0] == spec_le_i16(s, off + 10)
    &&& l.mins[1] == spec_le_i16(s, off + 12)
    &&& l.mins[2] == spec_le_i16(s, off + 14)
    &&& l.maxs[0] == spec_le_i16(s, off + 16)
    &&& l.maxs[1] == spec_le_i16(s, off + 18)
    &&& l.maxs[2] == spec_le_i16(s, off + 20)
    &&& l.first_leaf_face == spec_le_u16(s, off + 22)
    &&& l.num_leaf_faces == spec_le_u16(s, off + 24)
    &&& l.first_leaf_brush == spec_le_u16(s, off + 26)
    &&& l.num_leaf_brushes == spec_le_u16(s, off + 28)
    &&& l.feaf_water_data_id == spec_le_i16(s, off + 30)
}

/// Decodes the leaf lump: 48-byte records, of which the model reads the
/// first 32 bytes.
pub fn parse_leaf_lump(bytes: &Vec<u8>, lump: &lump_t) -> (r: Result<Vec<dleaf_t>, BspError>)
    ensures
        match r {
            Ok(v) => spec_lump_ok(bytes@, *lump, 48) && v@.len() == spec_lump_count(*lump, 48)
                && forall|i: int|
                0 <= i < v@.len() ==> leaf_matches(#[trigger] v@[i], bytes@, lump.fileofs + 48 * i),
            Err(e) => !spec_lump_ok(bytes@, *lump, 48) && e == spec_lump_err(bytes@, *lump, 48),
        },
{
    let count = match check_lump(bytes, lump, 48) {
        Ok(c) => c,
        Err(e) => return Err(e),
    };
    let base = lump.fileofs as usize;
    let mut v: Vec<dleaf_t> = Vec::new();
    let mut i: usize = 0;
    while i < count
        invariant
            i <= count,
            v@.len() == i,
            base == lump.fileofs,
            base + count * 48 <= bytes.len(),
            forall|j: int| 0 <= j < i ==> leaf_matches(#[trigger] v@[j], bytes@, base + 48 * j),
        decreases count - i,
    {
        let off = base + i * 48;
        v.push(
            dleaf_t {
                contents: read_i32(bytes, off),
                cluster: read_i16(bytes, off + 4),
                area: read_i16(bytes, off + 6),
                flags: read_i16(bytes, off + 8),
                mins: [read_i16(bytes, off + 10), read_i16(bytes, off + 12), read_i16(bytes, off + 14)],
                maxs: [read_i16(bytes, off + 16), read_i16(bytes, off + 18), read_i16(bytes, off + 20)],
                first_leaf_face: read_u16(bytes, off + 22),
                num_leaf_faces: read_u16(bytes, off + 24),
                first_leaf_brush: read_u16(bytes, off + 26),
                num_leaf_brushes: read_u16(bytes, off + 28),
                feaf_water_data_id: read_i16(bytes, off + 30),
            },
        );
        i += 1;
    }
    Ok(v)
}

/// The node record at byte offset `off`.
pub open spec fn node_matches(n: dnode_t, s: Seq<u8>, off: int) -> bool {
    &&& n.plane_num == spec_le_i32(s, off)
    &&& n.children[0] == spec_le_i32(s, off + 4)
    &&& n.children[1] == spec_le_i32(s, off + 8)
    &&& n.mins[0] == spec_le_i16(s, off + 12)
    &&& n.mins[1] == spec_le_i16(s, off + 14)
    &&& n.mins[2] == spec_le_i16(s, off + 16)
    &&& n.maxs[0] == spec_le_i16(s, off + 18)
    &&& n.maxs[1] == spec_le_i16(s, off + 20)
    &&& n.maxs[2] == spec_le_i16(s, off + 22)
    &&& n.first_face == spec_le_u16(s, off + 24)
    &&& n.num_faces == spec_le_u16(s, off + 26)
    &&& n.area == spec_le_i16(s, off + 28)
    &&& n.pad0[0] == s[off + 30]
    &&& n.pad0[1] == s[off + 31]
}

/// Decodes the node lump: 32-byte records.
pub fn parse_node_lump(bytes: &Vec<u8>, lump: &lump_t) -> (r: Result<Vec<dnode_t>, BspError>)
    ensures
        match r {
            Ok(v) => spec_lump_ok(bytes@, *lump, 32) && v@.len() == spec_lump_count(*lump, 32)
                && forall|i: int|
                0 <= i < v@.len() ==> node_matches(#[trigger] v@[i], bytes@, lump.fileofs + 32 * i),
            Err(e) => !spec_lump_ok(bytes@, *lump, 32) && e == spec_lump_err(bytes@, *lump, 32),
        },
{
    let count = match check_lump(bytes, lump, 32) {
        Ok(c) => c,
        Err(e) => return Err(e),
    };
    let base = lump.fileofs as usize;
    let mut v: Vec<dnode_t> = Vec::new();
    let mut i: usize = 0;
    while i < count
        invariant
            i <= count,
            v@.len() == i,
            base == lump.fileofs,
            base + count * 32 <= bytes.len(),
            forall|j: int| 0 <= j < i ==> node_matches(#[trigger] v@[j], bytes@, base + 32 * j),
        decreases count - i,
    {
        let off = base + i * 32;
        v.push(
            dnode_t {
                plane_num: read_i32(bytes, off),
                children: [read_i32(bytes, off + 4), read_i32(bytes, off + 8)],
                mins: [read_i16(bytes, off + 12), read_i16(bytes, off + 14), read_i16(bytes, off + 16)],
                maxs: [read_i16(bytes, off + 18), read_i16(bytes, off + 20), read_i16(bytes, off + 22)],
                first_face: read_u16(bytes, off + 24),
                num_faces: read_u16(bytes, off + 26),
                area: read_i16(bytes, off + 28),
                pad0: [bytes[off + 30], bytes[off + 31]],
            },
        );
        i += 1;
    }
    Ok(v)
}

/// The face record at byte offset `off`.
pub open spec fn face_matches(f: dface_t, s: Seq<u8>, off: int) -> bool {
    &&& f.plane_num == spec_le_u16(s, off)
    &&& f.side == s[off + 2]
    &&& f.on_node == s[off + 3]
    &&& f.first_edge == spec_le_i32(s, off + 4)
    &&& f.num_edges == spec_le_i16(s, off + 8)
    &&& f.tex_info == spec_le_i16(s, off + 10)
    &&& f.disp_info == spec_le_i16(s, off + 12)
    &&& f.surface_fog_volume_id == spec_le_i16(s, off + 14)
    &&& f.styles[0] == s[off + 16]
    &&& f.styles[1] == s[off + 17]
    &&& f.styles[2] == s[off + 18]
    &&& f.styles[3] == s[off + 19]
    &&& f.light_ofs == spec_le_i32(s, off + 20)
    &&& f.area == spec_le_u32(s, off + 24)
    &&& f.lightmap_texture_mins_in_luxels[0] == spec_le_i32(s, off + 28)
    &&& f.lightmap_texture_mins_in_luxels[1] == spec_le_i32(s, off + 32)
    &&& f.lightmap_texture_size_in_luxels[0] == spec_le_i32(s, off + 36)
    &&& f.lightmap_texture_size_in_luxels[1] == spec_le_i32(s, off + 40)
    &&& f.orig_face == spec_le_i32(s, off + 44)
    &&& f.num_prims == spec_le_u16(s, off + 48)
    &&& f.first_prim_id == spec_le_u16(s, off + 50)
    &&& f.smoothing_groups == spec_le_u16(s, off + 52)
    &&& f.pad0[0] == s[off + 54]
    &&& f.pad0[1] == s[off + 55]
}

/// Decodes the face lump: 58-byte records.
pub fn parse_face_lump(bytes: &Vec<u8>, lump: &lump_t) -> (r: Result<Vec<dface_t>, BspError>)
    ensures
        match r {
            Ok(v) => spec_lump_ok(bytes@, *lump, 58) && v@.len() == spec_lump_count(*lump, 58)
                && forall|i: int|
                0 <= i < v@.len() ==> face_matches(#[trigger] v@[i], bytes@, lump.fileofs + 58 * i),
            Err(e) => !spec_lump_ok(bytes@, *lump, 58) && e == spec_lump_err(bytes@, *lump, 58),
        },
{
    let count = match check_lump(bytes, lump, 58) {
        Ok(c) => c,
        Err(e) => return Err(e),
    };
    let base = lump.fileofs as usize;
    let mut v: Vec<dface_t> = Vec::new();
    let mut i: usize = 0;
    while i < count
        invariant
            i <= count,
            v@.len() == i,
            base == lump.fileofs,
            base + count * 58 <= bytes.len(),
            forall|j: int| 0 <= j < i ==> face_matches(#[trigger] v@[j], bytes@, base + 58 * j),
        decreases count - i,
    {
        let off = base + i * 58;
        v.push(
            dface_t {
                plane_num: read_u16(bytes, off),
                side: bytes[off + 2],
                on_node: bytes[off + 3],
                first_edge: read_i32(bytes, off + 4),
                num_edges: read_i16(bytes, off + 8),
                tex_info: read_i16(bytes, off + 10),
                disp_info: read_i16(bytes, off + 12),
                surface_fog_volume_id: read_i16(bytes, off + 14),
                styles: [bytes[off + 16], bytes[off + 17], bytes[off + 18], bytes[off + 19]],
                light_ofs: read_i32(bytes, off + 20),
                area: read_u32(bytes, off + 24),
                lightmap_texture_mins_in_luxels: [read_i32(bytes, off + 28), read_i32(bytes, off + 32)],
                lightmap_texture_size_in_luxels: [read_i32(bytes, off + 36), read_i32(bytes, off + 40)],
                orig_face: read_i32(bytes, off + 44),
                num_prims: read_u16(bytes, off + 48),
                first_prim_id: read_u16(bytes, off + 50),
                smoothing_groups: read_u16(bytes, off + 52),
                pad0: [bytes[off + 54], bytes[off + 55]],
            },
        );
        i += 1;
    }
    Ok(v)
}

/// The tex-info record at byte offset `off`.
pub open spec fn texinfo_matches(t: texinfo_t, s: Seq<u8>, off: int) -> bool {
    &&& forall|r: int, c: int|
        0 <= r < 2 && 0 <= c < 4 ==> #[trigger] t.texture_vecs[r][c] == spec_le_u32(
            s,
            off + 16 * r + 4 * c,
        )
    &&& forall|r: int, c: int|
        0 <= r < 2 && 0 <= c < 4 ==> #[trigger] t.lightmap_vecs[r][c] == spec_le_u32(
            s,
            off + 32 + 16 * r + 4 * c,
        )
    &&& t.flags == spec_le_i32(s, off + 64)
    &&& t.tex_data == spec_le_i32(s, off + 68)
}

/// Decodes the tex-info lump: 72-byte records.
pub fn parse_texinfo_lump(bytes: &Vec<u8>, lump: &lump_t) -> (r: Result<Vec<texinfo_t>, BspError>)
    ensures
        match r {
            Ok(v) => spec_lump_ok(bytes@, *lump, 72) && v@.len() == spec_lump_count(*lump, 72)
                && forall|i: int|
                0 <= i < v@.len() ==> texinfo_matches(#[trigger] v@[i], bytes@, lump.fileofs + 72 * i),
            Err(e) => !spec_lump_ok(bytes@, *lump, 72) && e == spec_lump_err(bytes@, *lump, 72),
        },
{
    let count = match check_lump(bytes, lump, 72) {
        Ok(c) => c,
        Err(e) => return Err(e),
    };
    let base = lump.fileofs as usize;
    let mut v: Vec<texinfo_t> = Vec::new();
    let mut i: usize = 0;
    while i < count
        invariant
            i <= count,
            v@.len() == i,
            base == lump.fileofs,
            base + count * 72 <= bytes.len(),
            forall|j: int| 0 <= j < i ==> texinfo_matches(#[trigger] v@[j], bytes@, base + 72 * j),
        decreases count - i,
    {
        let off = base + i * 72;
        let t = texinfo_t {
            texture_vecs: [
                [
                    read_u32(bytes, off),
                    read_u32(bytes, off + 4),
                    read_u32(bytes, off + 8),
                    read_u32(bytes, off + 12),
                ],
                [
                    read_u32(bytes, off + 16),
                    read_u32(bytes, off + 20),
                    read_u32(bytes, off + 24),
                    read_u32(bytes, off + 28),
                ],
            ],
            lightmap_vecs: [
                [
                    read_u32(bytes, off + 32),
                    read_u32(bytes, off + 36),
                    read_u32(bytes, off + 40),
                    read_u32(bytes, off + 44),
                ],
                [
                    read_u32(bytes, off + 48),
                    read_u32(bytes, off + 52),
                    read_u32(bytes, off + 56),
                    read_u32(bytes, off + 60),
                ],
            ],
            flags: read_i32(bytes, off + 64),
            tex_data: read_i32(bytes, off + 68),
        };
        proof {
            assert forall|r: int, c: int| 0 <= r < 2 && 0 <= c < 4 implies #[trigger] t.texture_vecs[r][c]
                == spec_le_u32(bytes@, off + 16 * r + 4 * c) by {
                assert(t.texture_vecs[0][0] == spec_le_u32(bytes@, off as int));
            }
            assert forall|r: int, c: int| 0 <= r < 2 && 0 <= c < 4 implies #[trigger] t.lightmap_vecs[r][c]
                == spec_le_u32(bytes@, off + 32 + 16 * r + 4 * c) by {
                assert(t.lightmap_vecs[0][0] == spec_le_u32(bytes@, off + 32));
            }
        }
        v.push(t);
        i += 1;
    }
    Ok(v)
}

/// The brush record at byte offset `off`.
pub open spec fn brush_matches(b: dbrush_t, s: Seq<u8>, off: int) -> bool {
    &&& b.first_side == spec_le_i32(s, off)
    &&& b.num_sides == spec_le_i32(s, off + 4)
    &&& b.contents == spec_le_i32(s, off + 8)
}

/// Decodes the brush lump: 12-byte records.
pub fn parse_brush_lump(bytes: &Vec<u8>, lump: &lump_t) -> (r: Result<Vec<dbrush_t>, BspError>)
    ensures
        match r {
            Ok(v) => spec_lump_ok(bytes@, *lump, 12) && v@.len() == spec_lump_count(*lump, 12)
                && forall|i: int|
                0 <= i < v@.len() ==> brush_matches(#[trigger] v@[i], bytes@, lump.fileofs + 12 * i),
            Err(e) => !spec_lump_ok(bytes@, *lump, 12) && e == spec_lump_err(bytes@, *lump, 12),
        },
{
    let count = match check_lump(bytes, lump, 12) {
        Ok(c) => c,
        Err(e) => return Err(e),
    };
    let base = lump.fileofs as usize;
    let mut v: Vec<dbrush_t> = Vec::new();
    let mut i: usize = 0;
    while i < count
        invariant
            i <= count,
            v@.len() == i,
            base == lump.fileofs,
            base + count * 12 <= bytes.len(),
            forall|j: int| 0 <= j < i ==> brush_matches(#[trigger] v@[j], bytes@, base + 12 * j),
        decreases count - i,
    {
        let off = base + i * 12;
        v.push(
            dbrush_t {
                first_side: read_i32(bytes, off),
                num_sides: read_i32(bytes, off + 4),
                contents: read_i32(bytes, off + 8),
            },
        );
        i += 1;
    }
    Ok(v)
}

/// The brush-side record at byte offset `off`.
pub open spec fn brushside_matches(b: dbrushside_t, s: Seq<u8>, off: int) -> bool {
    &&& b.plane_num == spec_le_u16(s, off)
    &&& b.tex_info == spec_le_i16(s, off + 2)
    &&& b.disp_info == spec_le_i16(s, off + 4)
    &&& b.bevel == s[off + 6]
    &&& b.thin == s[off + 7]
}

/// Decodes the brush-side lump: 8-byte records.
pub fn parse_brushside_lump(bytes: &Vec<u8>, lump: &lump_t) -> (r: Result<
    Vec<dbrushside_t>,
    BspError,
>)
    ensures
        match r {
            Ok(v) => spec_lump_ok(bytes@, *lump, 8) && v@.len() == spec_lump_count(*lump, 8)
                && forall|i: int|
                0 <= i < v@.len() ==> brushside_matches(#[trigger] v@[i], bytes@, lump.fileofs + 8 * i),
            Err(e) => !spec_lump_ok(bytes@, *lump, 8) && e == spec_lump_err(bytes@, *lump, 8),
        },
{
    let count = match check_lump(bytes, lump, 8) {
        Ok(c) => c,
        Err(e) => return Err(e),
    };
    let base = lump.fileofs as usize;
    let mut v: Vec<dbrushside_t> = Vec::new();
    let mut i: usize = 0;
    while i < count
        invariant
            i <= count,
            v@.len() == i,
            base == lump.fileofs,
            base + count * 8 <= bytes.len(),
            forall|j: int| 0 <= j < i ==> brushside_matches(#[trigger] v@[j], bytes@, base + 8 * j),
        decreases count - i,
    {
        let off = base + i * 8;
        v.push(
            dbrushside_t {
                plane_num: read_u16(bytes, off),
                tex_info: read_i16(bytes, off + 2),
                disp_info: read_i16(bytes, off + 4),
                bevel: bytes[off + 6],
                thin: bytes[off + 7],
            },
        );
        i += 1;
    }
    Ok(v)
}

} // verus!
