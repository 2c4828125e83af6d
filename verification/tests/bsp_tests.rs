use bsp_vis::bsp::BSP;
use bsp_vis::error::BspError;
use bsp_vis::native::{parse_header, LumpIndex, HEADER_SIZE};
use bsp_vis::trace::{brush_blocks, MASK_SHOT_HULL};

const LUMP_PLANES: usize = 1;
const LUMP_VERTEXES: usize = 3;
const LUMP_NODES: usize = 5;
const LUMP_TEXINFO: usize = 6;
const LUMP_FACES: usize = 7;
const LUMP_LEAFS: usize = 10;
const LUMP_EDGES: usize = 12;
const LUMP_SURFEDGES: usize = 13;
const LUMP_LEAFFACES: usize = 16;
const LUMP_LEAFBRUSHES: usize = 17;
const LUMP_BRUSHES: usize = 18;
const LUMP_BRUSHSIDES: usize = 19;

fn put_u16(v: &mut Vec<u8>, x: u16) {
    v.extend_from_slice(&x.to_le_bytes());
}

fn put_i16(v: &mut Vec<u8>, x: i16) {
    v.extend_from_slice(&x.to_le_bytes());
}

fn put_u32(v: &mut Vec<u8>, x: u32) {
    v.extend_from_slice(&x.to_le_bytes());
}

fn put_i32(v: &mut Vec<u8>, x: i32) {
    v.extend_from_slice(&x.to_le_bytes());
}

fn put_f32(v: &mut Vec<u8>, x: f32) {
    put_u32(v, x.to_bits());
}

fn vertex_record(x: f32, y: f32, z: f32) -> Vec<u8> {
    let mut v = Vec::new();
    put_f32(&mut v, x);
    put_f32(&mut v, y);
    put_f32(&mut v, z);
    v
}

fn plane_record_bits(n0: u32, n1: u32, n2: u32, dist: f32, typ: i32) -> Vec<u8> {
    let mut v = Vec::new();
    put_u32(&mut v, n0);
    put_u32(&mut v, n1);
    put_u32(&mut v, n2);
    put_f32(&mut v, dist);
    put_i32(&mut v, typ);
    v
}

fn plane_record(n: [f32; 3], dist: f32, typ: i32) -> Vec<u8> {
    plane_record_bits(n[0].to_bits(), n[1].to_bits(), n[2].to_bits(), dist, typ)
}

fn edge_record(v0: u16, v1: u16) -> Vec<u8> {
    let mut v = Vec::new();
    put_u16(&mut v, v0);
    put_u16(&mut v, v1);
    v
}

fn leaf_record(contents: i32) -> Vec<u8> {
    let mut v = Vec::new();
    put_i32(&mut v, contents);
    put_i16(&mut v, 0); // cluster
    put_i16(&mut v, 9); // area
    put_i16(&mut v, 7); // flags
    for k in 0..6 {
        put_i16(&mut v, k); // mins, maxs
    }
    put_u16(&mut v, 0); // first leaf face
    put_u16(&mut v, 0); // leaf face count
    put_u16(&mut v, 0); // first leaf brush
    put_u16(&mut v, 0); // leaf brush count
    put_i16(&mut v, -1); // leaf water data
    while v.len() < 48 {
        v.push(0);
    }
    v
}

fn node_record(plane_num: i32, child0: i32, child1: i32) -> Vec<u8> {
    let mut v = Vec::new();
    put_i32(&mut v, plane_num);
    put_i32(&mut v, child0);
    put_i32(&mut v, child1);
    for k in 0..6 {
        put_i16(&mut v, 10 + k); // mins, maxs
    }
    put_u16(&mut v, 3); // first face
    put_u16(&mut v, 4); // face count
    put_i16(&mut v, 5); // area
    v.push(0);
    v.push(0);
    v
}

fn face_record(plane_num: u16, first_edge: i32, num_edges: i16, tex_info: i16) -> Vec<u8> {
    let mut v = Vec::new();
    put_u16(&mut v, plane_num);
    v.push(1); // side
    v.push(0); // on node
    put_i32(&mut v, first_edge);
    put_i16(&mut v, num_edges);
    put_i16(&mut v, tex_info);
    put_i16(&mut v, -1); // displacement info
    put_i16(&mut v, -1); // fog volume
    v.extend_from_slice(&[0, 0, 0, 0]); // styles
    put_i32(&mut v, -1); // lighting offset
    put_f32(&mut v, 2.0); // area
    for _ in 0..4 {
        put_i32(&mut v, 0); // lightmap extents
    }
    put_i32(&mut v, 0); // original face
    put_u16(&mut v, 0); // primitive count
    put_u16(&mut v, 0); // first primitive
    put_u16(&mut v, 0); // smoothing groups
    while v.len() < 58 {
        v.push(0);
    }
    assert_eq!(v.len(), 58);
    v
}

fn texinfo_record(flags: i32, tex_data: i32) -> Vec<u8> {
    let mut v = Vec::new();
    for k in 0..16 {
        put_f32(&mut v, k as f32);
    }
    put_i32(&mut v, flags);
    put_i32(&mut v, tex_data);
    v
}

fn brush_record(first_side: i32, num_sides: i32, contents: i32) -> Vec<u8> {
    let mut v = Vec::new();
    put_i32(&mut v, first_side);
    put_i32(&mut v, num_sides);
    put_i32(&mut v, contents);
    v
}

fn brushside_record(plane_num: u16, bevel: u8) -> Vec<u8> {
    let mut v = Vec::new();
    put_u16(&mut v, plane_num);
    put_i16(&mut v, 0); // tex info
    put_i16(&mut v, 0); // displacement info
    v.push(bevel);
    v.push(0); // thin
    v
}

fn u16_table(entries: &[u16]) -> Vec<u8> {
    let mut v = Vec::new();
    for &e in entries {
        put_u16(&mut v, e);
    }
    v
}

/// Assembles a file image: the fixed header, then each given lump's bytes,
/// with its directory entry filled in.
fn build_image(version: i32, lumps: &[(usize, Vec<u8>)]) -> Vec<u8> {
    let mut dir = [(0i32, 0i32); 64];
    let mut data: Vec<u8> = Vec::new();
    let mut ofs = HEADER_SIZE as i32;
    for (slot, bytes) in lumps {
        dir[*slot] = (ofs, bytes.len() as i32);
        ofs += bytes.len() as i32;
        data.extend_from_slice(bytes);
    }
    let mut v = Vec::new();
    put_i32(&mut v, 0x50534256);
    put_i32(&mut v, version);
    for k in 0..64 {
        put_i32(&mut v, dir[k].0);
        put_i32(&mut v, dir[k].1);
        put_i32(&mut v, 7); // lump version
        v.extend_from_slice(&[b'A', b'B', b'C', b'D']);
    }
    put_i32(&mut v, 1234); // map revision
    v.extend_from_slice(&data);
    v
}

/// A well-formed minimal image: one record in every required lump.
fn minimal_lumps() -> Vec<(usize, Vec<u8>)> {
    vec![
        (LUMP_VERTEXES, vertex_record(1.0, 2.0, -3.0)),
        (LUMP_PLANES, plane_record([1.0, -0.0, -2.5], 10.0, 0)),
        (LUMP_EDGES, edge_record(0, 0)),
        (LUMP_SURFEDGES, {
            let mut v = Vec::new();
            put_i32(&mut v, 0);
            v
        }),
        (LUMP_LEAFS, leaf_record(1)),
        (LUMP_NODES, node_record(0, -1, -1)),
        (LUMP_FACES, face_record(0, 0, 0, 1)),
        (LUMP_TEXINFO, texinfo_record(6, 8)),
        (LUMP_BRUSHES, brush_record(0, 1, 1)),
        (LUMP_BRUSHSIDES, brushside_record(0, 0)),
        (LUMP_LEAFFACES, u16_table(&[0])),
        (LUMP_LEAFBRUSHES, u16_table(&[0])),
    ]
}

fn minimal_image() -> Vec<u8> {
    build_image(19, &minimal_lumps())
}

#[test]
fn parse_minimal_image() {
    let map = BSP::parse(&minimal_image()).unwrap();
    assert_eq!(map.vertexes.len(), 1);
    assert_eq!(map.vertexes[0].position, [1.0f32.to_bits(), 2.0f32.to_bits(), (-3.0f32).to_bits()]);
    assert_eq!(map.dplanes.len(), 1);
    assert_eq!(map.planes.len(), 1);
    assert_eq!(map.edges.len(), 1);
    assert_eq!(map.surf_edges.len(), 1);
    assert_eq!(map.leaves.len(), 1);
    assert_eq!(map.dnodes.len(), 1);
    assert_eq!(map.nodes.len(), 1);
    assert_eq!(map.faces.len(), 1);
    assert_eq!(map.tex_info.len(), 1);
    assert_eq!(map.brushes.len(), 1);
    assert_eq!(map.brush_sides.len(), 1);
    assert_eq!(map.leaf_faces.len(), 1);
    assert_eq!(map.leaf_brushes.len(), 1);
}

#[test]
fn header_fields_decode() {
    let image = minimal_image();
    let header = parse_header(&image).unwrap();
    assert_eq!(header.ident, 0x50534256);
    assert_eq!(header.version, 19);
    assert_eq!(header.lumps.len(), 64);
    assert_eq!(header.map_revision, 1234);
    assert_eq!(header.lumps[LUMP_VERTEXES].fileofs, HEADER_SIZE as i32);
    assert_eq!(header.lumps[LUMP_VERTEXES].filelen, 12);
    assert_eq!(header.lumps[LUMP_VERTEXES].version, 7);
    assert_eq!(header.lumps[LUMP_VERTEXES].four_cc, [b'A', b'B', b'C', b'D']);
}

#[test]
fn plane_canonicalisation_round_trips() {
    let map = BSP::parse(&minimal_image()).unwrap();
    let raw = &map.dplanes[0];
    let canon = &map.planes[0];
    assert_eq!(raw.normal, [1.0f32.to_bits(), (-0.0f32).to_bits(), (-2.5f32).to_bits()]);
    assert_eq!(raw.distance, 10.0f32.to_bits());
    assert_eq!(raw.typ, 0);
    // The canonical plane keeps normal and distance bit for bit.
    assert_eq!(canon.normal, raw.normal);
    assert_eq!(canon.distance, raw.distance);
    assert_eq!(canon.typ, 0);
    // Component 0 is positive, component 1 is minus zero (not negative),
    // component 2 is negative: only bit 2 is set.
    assert_eq!(canon.sign_bits, 4);
}

#[test]
fn sign_bits_cover_edge_patterns() {
    let planes = [
        plane_record([-1.0, 1.0, 0.0], 0.0, 3),
        plane_record_bits(0xFF800000, 0x7F800000, 0x80000000, 0.0, 3),
        plane_record_bits(0xFFC00000, 0x7FC00000, 0x80000001, 0.0, 3),
    ]
    .concat();
    let mut lumps = minimal_lumps();
    lumps[1] = (LUMP_PLANES, planes);
    let map = BSP::parse(&build_image(19, &lumps)).unwrap();
    // -1.0 is negative; +1.0 and 0.0 are not.
    assert_eq!(map.planes[0].sign_bits, 1);
    // Negative infinity is negative; positive infinity and minus zero are not.
    assert_eq!(map.planes[1].sign_bits, 1);
    // NaN of either sign is not negative; the smallest negative magnitude is.
    assert_eq!(map.planes[2].sign_bits, 4);
}

#[test]
fn node_canonicalisation_splits_children() {
    let nodes = [node_record(2, 5, -3), node_record(1, -7, 6)].concat();
    let mut lumps = minimal_lumps();
    lumps[5] = (LUMP_NODES, nodes);
    let mut planes = Vec::new();
    for _ in 0..3 {
        planes.extend_from_slice(&plane_record([1.0, 0.0, 0.0], 0.0, 0));
    }
    lumps[1] = (LUMP_PLANES, planes);
    let map = BSP::parse(&build_image(19, &lumps)).unwrap();
    let n0 = &map.nodes[0];
    assert_eq!(n0.plane_num, 2);
    assert_eq!(n0.plane_idx, 2);
    assert_eq!(n0.children, [5, -3]);
    // The second child slot decides: -3 denotes leaf -1 - (-3) = 2.
    assert_eq!(n0.leaf_children_idx, 2);
    assert_eq!(n0.node_children_idx, 0);
    assert_eq!(n0.first_face, 3);
    assert_eq!(n0.num_faces, 4);
    assert_eq!(n0.area, 5);
    let n1 = &map.nodes[1];
    assert_eq!(n1.children, [-7, 6]);
    // The second child slot decides: 6 is a node index.
    assert_eq!(n1.leaf_children_idx, 0);
    assert_eq!(n1.node_children_idx, 6);
}

#[test]
fn polygon_filter_and_vertex_resolution() {
    // Three vertices, three edges, and surf-edges that select edge
    // endpoints by sign: a positive surf-edge takes the edge's first
    // vertex, a negative one the second vertex of the negated index.
    let vertexes = [
        vertex_record(0.0, 0.0, 0.0),
        vertex_record(4.0, 0.0, 0.0),
        vertex_record(0.0, 4.0, 0.0),
    ]
    .concat();
    let edges = [edge_record(0, 1), edge_record(1, 2), edge_record(2, 0)].concat();
    let surf_edges = {
        let mut v = Vec::new();
        put_i32(&mut v, 0); // edge 0 forward: vertex 0
        put_i32(&mut v, 1); // edge 1 forward: vertex 1
        put_i32(&mut v, -2); // edge 2 backward: its second vertex, vertex 0... edge 2 is (2,0), second is 0
        v
    };
    let faces = [
        face_record(0, 0, 3, 1), // qualifies
        face_record(0, 0, 2, 1), // too few edges
        face_record(0, 0, 3, 0), // tex-info not positive
        face_record(0, 0, 3, -4), // tex-info negative
        face_record(0, 0, 33, 1), // too many edges
        face_record(0, 5, 3, 1), // surf-edge range out of bounds
    ]
    .concat();
    let mut lumps = minimal_lumps();
    lumps[0] = (LUMP_VERTEXES, vertexes);
    lumps[2] = (LUMP_EDGES, edges);
    lumps[3] = (LUMP_SURFEDGES, surf_edges);
    lumps[6] = (LUMP_FACES, faces);
    let map = BSP::parse(&build_image(19, &lumps)).unwrap();
    assert_eq!(map.faces.len(), 6);
    // Exactly the one face that passes the filter contributes a polygon.
    assert_eq!(map.polys.len(), 1);
    let poly = &map.polys[0];
    assert_eq!(poly.vert_num, 3);
    assert_eq!(poly.verts.len(), 3);
    assert_eq!(poly.verts[0], [0, 0, 0]); // vertex 0 via surf-edge 0
    assert_eq!(poly.verts[1], [4.0f32.to_bits(), 0, 0]); // vertex 1 via surf-edge 1
    assert_eq!(poly.verts[2], [0, 0, 0]); // vertex 0 via surf-edge -2
    assert_eq!(poly.plane.origin, map.planes[0].normal);
    assert_eq!(poly.plane.distance, map.planes[0].distance);
    assert_eq!(poly.skip, 0);
}

#[test]
fn leaf_and_brush_fields_decode() {
    let map = BSP::parse(&minimal_image()).unwrap();
    let leaf = &map.leaves[0];
    assert_eq!(leaf.contents, 1);
    assert_eq!(leaf.cluster, 0);
    assert_eq!(leaf.area, 9);
    assert_eq!(leaf.flags, 7);
    assert_eq!(leaf.mins, [0, 1, 2]);
    assert_eq!(leaf.maxs, [3, 4, 5]);
    assert_eq!(leaf.feaf_water_data_id, -1);
    let brush = &map.brushes[0];
    assert_eq!(brush.first_side, 0);
    assert_eq!(brush.num_sides, 1);
    assert_eq!(brush.contents, 1);
    let side = &map.brush_sides[0];
    assert_eq!(side.plane_num, 0);
    assert_eq!(side.bevel, 0);
    assert_eq!(side.thin, 0);
    let face = &map.faces[0];
    assert_eq!(face.side, 1);
    assert_eq!(face.tex_info, 1);
    assert_eq!(face.disp_info, -1);
    assert_eq!(face.area, 2.0f32.to_bits());
    let ti = &map.tex_info[0];
    assert_eq!(ti.texture_vecs[1][3], 7.0f32.to_bits());
    assert_eq!(ti.lightmap_vecs[0][0], 8.0f32.to_bits());
    assert_eq!(ti.flags, 6);
    assert_eq!(ti.tex_data, 8);
}

#[test]
fn rejects_wrong_magic() {
    let mut image = minimal_image();
    image[0] = b'X';
    assert_eq!(BSP::parse(&image).unwrap_err(), BspError::InvalidMagic);
}

#[test]
fn rejects_old_version() {
    let image = build_image(18, &minimal_lumps());
    assert_eq!(BSP::parse(&image).unwrap_err(), BspError::UnsupportedVersion);
}

#[test]
fn rejects_short_image() {
    let image = vec![0u8; 100];
    assert_eq!(BSP::parse(&image).unwrap_err(), BspError::IoError);
}

#[test]
fn rejects_bad_lump_length() {
    // A vertex lump of 13 bytes is not a multiple of the record size.
    let mut lumps = minimal_lumps();
    lumps[0].1.push(0);
    assert_eq!(BSP::parse(&build_image(19, &lumps)).unwrap_err(), BspError::InvalidLumpSize);
    // An empty required lump is rejected the same way.
    let mut lumps = minimal_lumps();
    lumps[4] = (LUMP_LEAFS, Vec::new());
    assert_eq!(BSP::parse(&build_image(19, &lumps)).unwrap_err(), BspError::InvalidLumpSize);
}

#[test]
fn rejects_lump_past_end_of_image() {
    let mut image = minimal_image();
    // Point the vertex lump past the end of the image.
    let off = 8 + 16 * LUMP_VERTEXES;
    let huge = (image.len() as i32 + 1).to_le_bytes();
    image[off..off + 4].copy_from_slice(&huge);
    assert_eq!(BSP::parse(&image).unwrap_err(), BspError::IoError);
}

#[test]
fn rejects_oversized_leaf_table() {
    let mut lumps = minimal_lumps();
    lumps[10] = (LUMP_LEAFFACES, vec![0u8; 2 * 65537]);
    assert_eq!(BSP::parse(&build_image(19, &lumps)).unwrap_err(), BspError::LeafTableOverflow);
    let mut lumps = minimal_lumps();
    lumps[11] = (LUMP_LEAFBRUSHES, vec![0u8; 2 * 65537]);
    assert_eq!(BSP::parse(&build_image(19, &lumps)).unwrap_err(), BspError::LeafTableOverflow);
}

#[test]
fn error_messages_name_the_failure() {
    assert_eq!(BspError::InvalidMagic.message(), "invalid bsp magic");
    assert_eq!(BspError::UnsupportedVersion.message(), "invalid bsp file version");
    assert_eq!(BspError::InvalidLumpSize.message(), "invalid lump data");
    assert_eq!(BspError::IoError.message(), "i/o error");
}

#[test]
fn lump_directory_slots() {
    assert_eq!(LumpIndex::Entities.slot(), 0);
    assert_eq!(LumpIndex::Planes.slot(), 1);
    assert_eq!(LumpIndex::Vertexes.slot(), 3);
    assert_eq!(LumpIndex::Nodes.slot(), 5);
    assert_eq!(LumpIndex::TexInfo.slot(), 6);
    assert_eq!(LumpIndex::Faces.slot(), 7);
    assert_eq!(LumpIndex::Leafs.slot(), 10);
    assert_eq!(LumpIndex::Edges.slot(), 12);
    assert_eq!(LumpIndex::SurfEdges.slot(), 13);
    assert_eq!(LumpIndex::LeafFaces.slot(), 16);
    assert_eq!(LumpIndex::LeafBrushes.slot(), 17);
    assert_eq!(LumpIndex::Brushes.slot(), 18);
    assert_eq!(LumpIndex::BrushSides.slot(), 19);
    assert_eq!(LumpIndex::DispTris.slot(), 48);
}

#[test]
fn shot_hull_mask_decides_brush_participation() {
    assert_eq!(MASK_SHOT_HULL, 0x1 | 0x2 | 0x8 | 0x4000 | 0x2000000 | 0x4000000);
    assert!(brush_blocks(0x1)); // solid
    assert!(brush_blocks(0x2)); // window
    assert!(brush_blocks(0x8)); // grate
    assert!(brush_blocks(0x4000)); // moveable
    assert!(brush_blocks(0x2000000)); // monster
    assert!(brush_blocks(0x4000000)); // debris
    assert!(brush_blocks(0x1 | 0x20)); // solid mixed with water
    assert!(!brush_blocks(0)); // empty
    assert!(!brush_blocks(0x10)); // slime alone
    assert!(!brush_blocks(0x20)); // water alone
}

#[test]
fn leaf_brush_selection_applies_the_mask() {
    // Leaf brush range covers slots 1..5 of the leaf-brush table; the
    // last slot runs past the table and is passed over.
    let mut leaf = bsp_vis::native::dleaf_t {
        contents: 0,
        cluster: 0,
        area: 0,
        flags: 0,
        mins: [0; 3],
        maxs: [0; 3],
        first_leaf_face: 0,
        num_leaf_faces: 0,
        first_leaf_brush: 1,
        num_leaf_brushes: 4,
        feaf_water_data_id: 0,
    };
    let leaf_brushes: Vec<u16> = vec![9, 0, 1, 2];
    let mk = |contents: i32| bsp_vis::native::dbrush_t { first_side: 0, num_sides: 1, contents };
    // Brush 0 is solid, brush 1 is water only, brush 2 is a grate.
    let brushes = vec![mk(0x1), mk(0x20), mk(0x8)];
    let picked = bsp_vis::trace::leaf_sweep_brushes(&leaf, &leaf_brushes, &brushes);
    assert_eq!(picked, vec![0, 2]);
    // A leaf whose range lies wholly outside the table selects nothing.
    leaf.first_leaf_brush = 10;
    let picked = bsp_vis::trace::leaf_sweep_brushes(&leaf, &leaf_brushes, &brushes);
    assert!(picked.is_empty());
}

#[test]
fn leaf_face_selection_drops_slots_past_the_table() {
    let leaf = bsp_vis::native::dleaf_t {
        contents: 0,
        cluster: 0,
        area: 0,
        flags: 0,
        mins: [0; 3],
        maxs: [0; 3],
        first_leaf_face: 2,
        num_leaf_faces: 4,
        first_leaf_brush: 0,
        num_leaf_brushes: 0,
        feaf_water_data_id: 0,
    };
    let leaf_faces: Vec<u16> = vec![7, 8, 9, 10];
    // Slots 2 and 3 resolve; slots 4 and 5 run past the table.
    let picked = bsp_vis::trace::leaf_sweep_faces(&leaf, &leaf_faces);
    assert_eq!(picked, vec![9, 10]);
}

#[test]
fn leaf_child_decoding() {
    assert_eq!(bsp_vis::bsp::leaf_index_of_child(-1), 0);
    assert_eq!(bsp_vis::bsp::leaf_index_of_child(-3), 2);
    assert_eq!(bsp_vis::bsp::leaf_index_of_child(-214), 213);
}
