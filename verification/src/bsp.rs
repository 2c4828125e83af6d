//! The in-memory BSP model and its construction from a byte image.
//!
//! `BSP::parse` mirrors the on-disk loader: it decodes the header, locates
//! each required lump, decodes its records, canonicalises planes and
//! nodes, and derives per-face polygons.  Its contract pins every table to
//! the bytes it came from and names the exact error returned for every
//! rejected image.

use vstd::prelude::*;

use crate::error::BspError;
use crate::native::HEADER_MAGIC;
use crate::native::HEADER_SIZE;
use crate::native::MAX_MAP_LEAFBRUSHES;
use crate::native::{cplane_t, dbrush_t, dbrushside_t, dedge_t, dface_t, dleaf_t, dnode_t, dplane_t,
    mvertex_t, snode_t, texinfo_t};
use crate::native::{spec_le_i32, spec_u32_of_i32, u32_of_i32};
use crate::polygon::{Polygon, MAX_SURFINFO_VERTS};

verus! {

// ---------------------------------------------------------------------------
// Canonical planes.
// ---------------------------------------------------------------------------

/// Whether a single-precision bit pattern denotes a value below zero: the
/// sign bit is set and the value is neither minus zero nor a NaN.  In
/// bit-pattern order that is the closed range from the smallest negative
/// magnitude up to negative infinity.
pub open spec fn spec_f32_bits_is_negative(b: u32) -> bool {
    0x8000_0001 <= b <= 0xFF80_0000
}

pub fn f32_bits_is_negative(b: u32) -> (r: bool)
    ensures
        r == spec_f32_bits_is_negative(b),
{
    0x8000_0001 <= b && b <= 0xFF80_0000
}

/// The sign-bit byte of a normal: bit `i` set exactly when component `i`
/// denotes a negative value.
pub open spec fn spec_sign_bits(n0: u32, n1: u32, n2: u32) -> u8 {
    ((if spec_f32_bits_is_negative(n0) {
        1int
    } else {
        0
    }) + (if spec_f32_bits_is_negative(n1) {
        2int
    } else {
        0
    }) + (if spec_f32_bits_is_negative(n2) {
        4int
    } else {
        0
    })) as u8
}

/// The low byte of a 32-bit signed value, as a plain `as u8` narrowing
/// takes it.
pub open spec fn spec_low_byte_of_i32(x: i32) -> u8 {
    (spec_u32_of_i32(x) % 0x100) as u8
}

/// The canonical plane keeps the raw plane's normal and distance
/// unchanged, narrows the type to a byte, and precomputes the sign bits.
pub open spec fn cplane_matches(c: cplane_t, p: dplane_t) -> bool {
    &&& c.normal == p.normal
    &&& c.distance == p.distance
    &&& c.typ == spec_low_byte_of_i32(p.typ)
    &&& c.sign_bits == spec_sign_bits(p.normal[0], p.normal[1], p.normal[2])
    &&& c.pad0[0] == 0 && c.pad0[1] == 0
}

/// Canonicalises every raw plane.  The normal and distance round-trip
/// unchanged; the sign bits are derived from the normal alone.
pub fn parse_planes(dplanes: &Vec<dplane_t>) -> (r: Vec<cplane_t>)
    ensures
        r@.len() == dplanes@.len(),
        forall|i: int| 0 <= i < r@.len() ==> cplane_matches(#[trigger] r@[i], dplanes@[i]),
{
    let mut cplanes: Vec<cplane_t> = Vec::new();
    let mut i: usize = 0;
    while i < dplanes.len()
        invariant
            i <= dplanes@.len(),
            cplanes@.len() == i,
            forall|j: int| 0 <= j < i ==> cplane_matches(#[trigger] cplanes@[j], dplanes@[j]),
        decreases dplanes@.len() - i,
    {
        let p = &dplanes[i];
        let plane_bits: u8 = (if f32_bits_is_negative(p.normal[0]) {
            1u8
        } else {
            0u8
        }) + (if f32_bits_is_negative(p.normal[1]) {
            2u8
        } else {
            0u8
        }) + (if f32_bits_is_negative(p.normal[2]) {
            4u8
        } else {
            0u8
        });
        cplanes.push(
            cplane_t {
                normal: p.normal,
                distance: p.distance,
                typ: (u32_of_i32(p.typ) % 0x100) as u8,
                sign_bits: plane_bits,
                pad0: [0, 0],
            },
        );
        i += 1;
    }
    cplanes
}

/// Plane sign-bits law: for every normal, bit `i` of the sign-bit byte is
/// set exactly when component `i` of the normal denotes a negative value,
/// and the five high bits are clear.
pub proof fn lemma_sign_bits(n0: u32, n1: u32, n2: u32)
    ensures
        ((spec_sign_bits(n0, n1, n2) >> 0u8) & 1 == 1) <==> spec_f32_bits_is_negative(n0),
        ((spec_sign_bits(n0, n1, n2) >> 1u8) & 1 == 1) <==> spec_f32_bits_is_negative(n1),
        ((spec_sign_bits(n0, n1, n2) >> 2u8) & 1 == 1) <==> spec_f32_bits_is_negative(n2),
        spec_sign_bits(n0, n1, n2) < 8,
{
    let b0 = spec_f32_bits_is_negative(n0);
    let b1 = spec_f32_bits_is_negative(n1);
    let b2 = spec_f32_bits_is_negative(n2);
    let s = spec_sign_bits(n0, n1, n2);
    assert(s == (if b0 {
        1int
    } else {
        0
    }) + (if b1 {
        2int
    } else {
        0
    }) + (if b2 {
        4int
    } else {
        0
    }));
    assert(((s >> 0u8) & 1 == 1) == b0 && ((s >> 1u8) & 1 == 1) == b1 && ((s >> 2u8) & 1 == 1)
        == b2 && s < 8) by (bit_vector)
        requires
            s == (if b0 {
                1int
            } else {
                0
            }) + (if b1 {
                2int
            } else {
                0
            }) + (if b2 {
                4int
            } else {
                0
            }),
    ;
}

// ---------------------------------------------------------------------------
// Canonical nodes.
// ---------------------------------------------------------------------------

/// The in-memory node keeps the disk node's fields, adds the plane index
/// as an unsigned value, and splits the second child slot by kind, as the
/// loader does: both child slots are visited in order and the second visit
/// wins.
pub open spec fn snode_matches(sn: snode_t, n: dnode_t) -> bool {
    &&& sn.plane_num == n.plane_num
    &&& sn.plane_idx == spec_u32_of_i32(n.plane_num)
    &&& sn.children[0] == n.children[0]
    &&& sn.children[1] == n.children[1]
    &&& sn.leaf_children_idx == (if n.children[1] >= 0 {
        0u32
    } else {
        (-1 - n.children[1] as int) as u32
    })
    &&& sn.node_children_idx == (if n.children[1] >= 0 {
        n.children[1] as u32
    } else {
        0u32
    })
    &&& sn.mins == n.mins
    &&& sn.maxs == n.maxs
    &&& sn.first_face == n.first_face
    &&& sn.num_faces == n.num_faces
    &&& sn.area == n.area
    &&& sn.pad0[0] == 0 && sn.pad0[1] == 0
}

/// Canonicalises every disk node.
pub fn parse_nodes(dnodes: &Vec<dnode_t>) -> (r: Vec<snode_t>)
    ensures
        r@.len() == dnodes@.len(),
        forall|i: int| 0 <= i < r@.len() ==> snode_matches(#[trigger] r@[i], dnodes@[i]),
{
    let mut snodes: Vec<snode_t> = Vec::new();
    let mut i: usize = 0;
    while i < dnodes.len()
        invariant
            i <= dnodes@.len(),
            snodes@.len() == i,
            forall|j: int| 0 <= j < i ==> snode_matches(#[trigger] snodes@[j], dnodes@[j]),
        decreases dnodes@.len() - i,
    {
        let n = &dnodes[i];
        let mut sn = snode_t {
            mins: n.mins,
            maxs: n.maxs,
            plane_num: n.plane_num,
            plane_idx: u32_of_i32(n.plane_num),
            first_face: n.first_face,
            num_faces: n.num_faces,
            children: [n.children[0], n.children[1]],
            leaf_children_idx: 0,
            node_children_idx: 0,
            area: n.area,
            pad0: [0, 0],
        };
        // Both child slots are classified in order; the second slot's
        // classification is the one that remains, as in the disk loader.
        let mut s: usize = 0;
        while s < 2
            invariant
                s <= 2,
                sn.plane_num == n.plane_num,
                sn.plane_idx == spec_u32_of_i32(n.plane_num),
                sn.children[0] == n.children[0],
                sn.children[1] == n.children[1],
                sn.mins == n.mins,
                sn.maxs == n.maxs,
                sn.first_face == n.first_face,
                sn.num_faces == n.num_faces,
                sn.area == n.area,
                sn.pad0[0] == 0 && sn.pad0[1] == 0,
                s >= 1 ==> sn.leaf_children_idx == (if n.children[s - 1] >= 0 {
                    0u32
                } else {
                    (-1 - n.children[s - 1] as int) as u32
                }),
                s >= 1 ==> sn.node_children_idx == (if n.children[s - 1] >= 0 {
                    n.children[s - 1] as u32
                } else {
                    0u32
                }),
            decreases 2 - s,
        {
            let c = n.children[s];
            if c >= 0 {
                sn.leaf_children_idx = 0;
                sn.node_children_idx = c as u32;
            } else {
                sn.leaf_children_idx = (-1 - c) as u32;
                sn.node_children_idx = 0;
            }
            s += 1;
        }
        snodes.push(sn);
        i += 1;
    }
    snodes
}

/// Whether a signed child slot stays inside the two tables it may point
/// into: a negative child must decode to a leaf index below the leaf
/// count, a non-negative one must itself be below the node count.
pub open spec fn spec_child_in_bounds(c: i32, n_nodes: int, n_leaves: int) -> bool {
    if c < 0 {
        -1 - c < n_leaves
    } else {
        c < n_nodes
    }
}

/// Node child-kind law: a child slot within bounds denotes either a valid
/// leaf index or a valid node index, decided by its sign alone, and never
/// both.
pub proof fn lemma_node_child_kind(c: i32, n_nodes: int, n_leaves: int)
    requires
        spec_child_in_bounds(c, n_nodes, n_leaves),
    ensures
        c < 0 ==> 0 <= -1 - c < n_leaves,
        c >= 0 ==> 0 <= c < n_nodes,
        (c < 0) ==> !(c >= 0),
{
}

impl BSP {
    /// Every child reference of every node stays within the node and
    /// leaf tables, under the sign convention of `spec_child_in_bounds`.
    pub open spec fn children_in_bounds(&self) -> bool {
        forall|i: int, s: int|
            0 <= i < self.nodes@.len() && 0 <= s < 2 ==> spec_child_in_bounds(
                #[trigger] self.nodes@[i].children[s],
                self.nodes@.len() as int,
                self.leaves@.len() as int,
            )
    }
}

/// Node child-kind law over a whole model: in a model whose child
/// references are in bounds, each node's child slot denotes a valid leaf
/// index exactly when it is negative and a valid node index exactly when
/// it is not.
pub proof fn lemma_model_child_kinds(b: &BSP, i: int, s: int)
    requires
        b.children_in_bounds(),
        0 <= i < b.nodes@.len(),
        0 <= s < 2,
    ensures
        b.nodes@[i].children[s] < 0 ==> 0 <= -1 - b.nodes@[i].children[s] < b.leaves@.len(),
        b.nodes@[i].children[s] >= 0 ==> b.nodes@[i].children[s] < b.nodes@.len(),
{
    lemma_node_child_kind(b.nodes@[i].children[s], b.nodes@.len() as int, b.leaves@.len() as int);
}

/// Decodes a negative child slot into its leaf index.
pub fn leaf_index_of_child(c: i32) -> (r: u32)
    requires
        c < 0,
    ensures
        r == -1 - c as int,
{
    (-1 - c) as u32
}

// ---------------------------------------------------------------------------
// Polygon derivation.
// ---------------------------------------------------------------------------

/// The absolute edge index a signed surf-edge selects.
pub open spec fn spec_surfedge_abs(sei: i32) -> int {
    if sei >= 0 {
        sei as int
    } else {
        -(sei as int)
    }
}

/// Whether one surf-edge reference resolves: the edge index it selects is
/// within the edge table and the endpoint it selects is within the vertex
/// table.  A positive surf-edge selects the edge's first endpoint, a
/// negative one the second.
pub open spec fn spec_surfedge_ok(sei: i32, ed: Seq<dedge_t>, ve: Seq<mvertex_t>) -> bool {
    &&& spec_surfedge_abs(sei) < ed.len()
    &&& (if sei >= 0 {
        ed[spec_surfedge_abs(sei)].v[0] < ve.len()
    } else {
        ed[spec_surfedge_abs(sei)].v[1] < ve.len()
    })
}

/// The position the `j`-th surf-edge of face `f` resolves to.
pub open spec fn spec_face_vertex(f: dface_t, j: int, se: Seq<i32>, ed: Seq<dedge_t>, ve: Seq<
    mvertex_t,
>) -> [u32; 3] {
    let sei = se[f.first_edge + j];
    if sei >= 0 {
        ve[ed[spec_surfedge_abs(sei)].v[0] as int].position
    } else {
        ve[ed[spec_surfedge_abs(sei)].v[1] as int].position
    }
}

/// Whether every table reference the face's polygon needs stays within
/// bounds: its plane index, its surf-edge range, and each surf-edge's edge
/// and vertex references.
pub open spec fn spec_face_refs_ok(f: dface_t, se: Seq<i32>, ed: Seq<dedge_t>, ve: Seq<mvertex_t>,
    pl: Seq<cplane_t>) -> bool {
    &&& f.plane_num < pl.len()
    &&& 0 <= f.first_edge
    &&& f.first_edge + f.num_edges <= se.len()
    &&& forall|j: int| 0 <= j < f.num_edges ==> spec_surfedge_ok(#[trigger] se[f.first_edge + j], ed, ve)
}

/// Whether a face contributes a polygon: it passes the edge-count and
/// tex-info filter and all of its references resolve.
pub open spec fn spec_face_contributes(f: dface_t, se: Seq<i32>, ed: Seq<dedge_t>, ve: Seq<
    mvertex_t,
>, pl: Seq<cplane_t>) -> bool {
    &&& 3 <= f.num_edges <= MAX_SURFINFO_VERTS
    &&& f.tex_info > 0
    &&& spec_face_refs_ok(f, se, ed, ve, pl)
}

/// How many polygons the first `faces.len()` faces contribute.
pub open spec fn spec_polygon_count(faces: Seq<dface_t>, se: Seq<i32>, ed: Seq<dedge_t>, ve: Seq<
    mvertex_t,
>, pl: Seq<cplane_t>) -> int
    decreases faces.len(),
{
    if faces.len() == 0 {
        0
    } else {
        spec_polygon_count(faces.drop_last(), se, ed, ve, pl) + (if spec_face_contributes(
            faces.last(),
            se,
            ed,
            ve,
            pl,
        ) {
            1int
        } else {
            0
        })
    }
}

/// The polygon a contributing face yields: the resolved vertex positions
/// in surf-edge order, their count, and the face's plane.
pub open spec fn polygon_matches(p: Polygon, f: dface_t, se: Seq<i32>, ed: Seq<dedge_t>, ve: Seq<
    mvertex_t,
>, pl: Seq<cplane_t>) -> bool {
    &&& p.vert_num == f.num_edges
    &&& p.verts@.len() == f.num_edges
    &&& forall|j: int| 0 <= j < f.num_edges ==> #[trigger] p.verts@[j] == spec_face_vertex(
        f,
        j,
        se,
        ed,
        ve,
    )
    &&& p.plane.origin == pl[f.plane_num as int].normal
    &&& p.plane.distance == pl[f.plane_num as int].distance
    &&& p.skip == 0
}

/// Polygon filter law: for a face whose table references are all within
/// bounds, the face contributes a polygon exactly when it has between 3
/// and 32 edges and a positive tex-info index.
pub proof fn lemma_polygon_filter(f: dface_t, se: Seq<i32>, ed: Seq<dedge_t>, ve: Seq<mvertex_t>,
    pl: Seq<cplane_t>)
    requires
        spec_face_refs_ok(f, se, ed, ve, pl),
    ensures
        spec_face_contributes(f, se, ed, ve, pl) <==> (3 <= f.num_edges <= MAX_SURFINFO_VERTS
            && f.tex_info > 0),
{
}

/// Each face changes the polygon count by exactly one when it contributes
/// and by nothing when it does not.
pub proof fn lemma_polygon_count_step(faces: Seq<dface_t>, se: Seq<i32>, ed: Seq<dedge_t>, ve: Seq<
    mvertex_t,
>, pl: Seq<cplane_t>, k: int)
    requires
        0 <= k < faces.len(),
    ensures
        spec_polygon_count(faces.take(k + 1), se, ed, ve, pl) == spec_polygon_count(
            faces.take(k),
            se,
            ed,
            ve,
            pl,
        ) + (if spec_face_contributes(faces[k], se, ed, ve, pl) {
            1int
        } else {
            0
        }),
{
    assert(faces.take(k + 1).drop_last() =~= faces.take(k));
    assert(faces.take(k + 1).last() == faces[k]);
}

/// The polygon count never falls as more faces are considered.
pub proof fn lemma_polygon_count_le(faces: Seq<dface_t>, se: Seq<i32>, ed: Seq<dedge_t>, ve: Seq<
    mvertex_t,
>, pl: Seq<cplane_t>, a: int, b: int)
    requires
        0 <= a <= b <= faces.len(),
    ensures
        spec_polygon_count(faces.take(a), se, ed, ve, pl) <= spec_polygon_count(
            faces.take(b),
            se,
            ed,
            ve,
            pl,
        ),
    decreases b - a,
{
    if a < b {
        lemma_polygon_count_step(faces, se, ed, ve, pl, b - 1);
        lemma_polygon_count_le(faces, se, ed, ve, pl, a, b - 1);
    }
}

/// Resolves the vertex positions of one face by walking its surf-edge
/// range, or reports that some reference is out of bounds.
fn resolve_face_verts(f: &dface_t, surf_edges: &Vec<i32>, edges: &Vec<dedge_t>, vertexes: &Vec<
    mvertex_t,
>) -> (r: Option<Vec<[u32; 3]>>)
    requires
        3 <= f.num_edges <= MAX_SURFINFO_VERTS,
    ensures
        match r {
            Some(v) => {
                &&& 0 <= f.first_edge
                &&& f.first_edge + f.num_edges <= surf_edges@.len()
                &&& forall|j: int| 0 <= j < f.num_edges ==> spec_surfedge_ok(
                    #[trigger] surf_edges@[f.first_edge + j],
                    edges@,
                    vertexes@,
                )
                &&& v@.len() == f.num_edges
                &&& forall|j: int| 0 <= j < f.num_edges ==> #[trigger] v@[j] == spec_face_vertex(
                    *f,
                    j,
                    surf_edges@,
                    edges@,
                    vertexes@,
                )
            },
            None => !(0 <= f.first_edge && f.first_edge + f.num_edges <= surf_edges@.len()
                && forall|j: int| 0 <= j < f.num_edges ==> spec_surfedge_ok(
                #[trigger] surf_edges@[f.first_edge + j],
                edges@,
                vertexes@,
            )),
        },
{
    if f.first_edge < 0 {
        return None;
    }
    let fe = f.first_edge as usize;
    let n = f.num_edges as usize;
    if fe > surf_edges.len() || n > surf_edges.len() - fe {
        return None;
    }
    let mut verts: Vec<[u32; 3]> = Vec::new();
    let mut j: usize = 0;
    while j < n
        invariant
            j <= n,
            n == f.num_edges,
            fe == f.first_edge,
            fe + n <= surf_edges@.len(),
            verts@.len() == j,
            forall|j2: int| 0 <= j2 < j ==> spec_surfedge_ok(
                #[trigger] surf_edges@[fe + j2],
                edges@,
                vertexes@,
            ),
            forall|j2: int| 0 <= j2 < j ==> #[trigger] verts@[j2] == spec_face_vertex(
                *f,
                j2,
                surf_edges@,
                edges@,
                vertexes@,
            ),
        decreases n - j,
    {
        let sei = surf_edges[fe + j];
        let abs: usize = if sei >= 0 {
            sei as usize
        } else {
            (-(sei as i64)) as usize
        };
        if abs >= edges.len() {
            return None;
        }
        let vi: usize = if sei >= 0 {
            edges[abs].v[0] as usize
        } else {
            edges[abs].v[1] as usize
        };
        if vi >= vertexes.len() {
            return None;
        }
        verts.push(vertexes[vi].position);
        j += 1;
    }
    Some(verts)
}

/// Derives one polygon per qualifying face, in face order.  A face
/// qualifies when it passes the edge-count and tex-info filter and every
/// table reference it makes resolves; a face with a dangling reference is
/// skipped rather than faulted on.
pub fn parse_polygons(faces: &Vec<dface_t>, surf_edges: &Vec<i32>, edges: &Vec<dedge_t>, vertexes:
    &Vec<mvertex_t>, planes: &Vec<cplane_t>) -> (r: Vec<Polygon>)
    ensures
        r@.len() == spec_polygon_count(faces@, surf_edges@, edges@, vertexes@, planes@),
        forall|k: int| 0 <= k < faces@.len() && spec_face_contributes(
            #[trigger] faces@[k],
            surf_edges@,
            edges@,
            vertexes@,
            planes@,
        ) ==> polygon_matches(
            r@[spec_polygon_count(faces@.take(k), surf_edges@, edges@, vertexes@, planes@)],
            faces@[k],
            surf_edges@,
            edges@,
            vertexes@,
            planes@,
        ),
{
    let ghost se = surf_edges@;
    let ghost ed = edges@;
    let ghost ve = vertexes@;
    let ghost pl = planes@;
    let mut polys: Vec<Polygon> = Vec::new();
    let mut k: usize = 0;
    while k < faces.len()
        invariant
            k <= faces@.len(),
            se == surf_edges@,
            ed == edges@,
            ve == vertexes@,
            pl == planes@,
            polys@.len() == spec_polygon_count(faces@.take(k as int), se, ed, ve, pl),
            forall|k2: int| 0 <= k2 < k && spec_face_contributes(#[trigger] faces@[k2], se, ed, ve, pl)
                ==> polygon_matches(
                polys@[spec_polygon_count(faces@.take(k2), se, ed, ve, pl)],
                faces@[k2],
                se,
                ed,
                ve,
                pl,
            ),
        decreases faces@.len() - k,
    {
        let f = &faces[k];
        proof {
            lemma_polygon_count_step(faces@, se, ed, ve, pl, k as int);
        }
        if f.num_edges >= 3 && f.num_edges <= 32 && f.tex_info > 0 && (f.plane_num as usize)
            < planes.len() {
            match resolve_face_verts(f, surf_edges, edges, vertexes) {
                Some(verts) => {
                    proof {
                        assert forall|k2: int|
                            0 <= k2 < k && spec_face_contributes(#[trigger] faces@[k2], se, ed, ve, pl)
                            implies spec_polygon_count(faces@.take(k2), se, ed, ve, pl)
                            < polys@.len() by {
                            lemma_polygon_count_step(faces@, se, ed, ve, pl, k2);
                            lemma_polygon_count_le(faces@, se, ed, ve, pl, k2 + 1, k as int);
                        }
                    }
                    let ghost prior = polys@;
                    let poly = Polygon::with(verts, f, &planes[f.plane_num as usize]);
                    polys.push(poly);
                    proof {
                        assert(polys@.len() == prior.len() + 1);
                        assert(polygon_matches(
                            polys@[prior.len() as int],
                            faces@[k as int],
                            se,
                            ed,
                            ve,
                            pl,
                        ));
                        assert forall|k2: int|
                            0 <= k2 < k + 1 && spec_face_contributes(
                                #[trigger] faces@[k2],
                                se,
                                ed,
                                ve,
                                pl,
                            ) implies polygon_matches(
                            polys@[spec_polygon_count(faces@.take(k2), se, ed, ve, pl)],
                            faces@[k2],
                            se,
                            ed,
                            ve,
                            pl,
                        ) by {
                            if k2 < k {
                                let idx = spec_polygon_count(faces@.take(k2), se, ed, ve, pl);
                                assert(idx < prior.len());
                                lemma_polygon_count_le(faces@, se, ed, ve, pl, 0, k2);
                                assert(spec_polygon_count(faces@.take(0), se, ed, ve, pl) == 0);
                                assert(0 <= idx);
                                assert(polys@ == prior.push(poly));
                                assert(polys@[idx] == prior[idx]);
                            } else {
                                assert(spec_polygon_count(faces@.take(k2), se, ed, ve, pl)
                                    == prior.len());
                            }
                        }
                    }
                },
                None => {
                    assert(!spec_face_contributes(faces@[k as int], se, ed, ve, pl));
                },
            }
        } else {
            assert(!spec_face_contributes(faces@[k as int], se, ed, ve, pl));
        }
        k += 1;
    }
    proof {
        assert(faces@.take(faces@.len() as int) =~= faces@);
    }
    polys
}

// ---------------------------------------------------------------------------
// The aggregate model.
// ---------------------------------------------------------------------------

/// The lump directory slots the model reads.
pub open spec fn spec_slot_fileofs(s: Seq<u8>, k: int) -> i32 {
    spec_le_i32(s, 8 + 16 * k)
}

pub open spec fn spec_slot_filelen(s: Seq<u8>, k: int) -> i32 {
    spec_le_i32(s, 12 + 16 * k)
}

pub open spec fn spec_slot_size_ok(s: Seq<u8>, k: int, size: int) -> bool {
    spec_slot_filelen(s, k) > 0 && spec_slot_filelen(s, k) as int % size == 0
}

pub open spec fn spec_slot_extent_ok(s: Seq<u8>, k: int) -> bool {
    spec_slot_fileofs(s, k) >= 0 && spec_slot_fileofs(s, k) + spec_slot_filelen(s, k) <= s.len()
}

pub open spec fn spec_slot_ok(s: Seq<u8>, k: int, size: int) -> bool {
    spec_slot_size_ok(s, k, size) && spec_slot_extent_ok(s, k)
}

pub open spec fn spec_slot_count(s: Seq<u8>, k: int, size: int) -> int {
    spec_slot_filelen(s, k) as int / size
}

/// Which loading step rejects a byte image, and with which error; `Ok`
/// when every step accepts it.  The steps run in the loader's order: the
/// header read, the magic word, the version, then each required lump (a
/// bad length before a bad extent), then the two leaf-table bounds.
pub open spec fn spec_load_outcome(s: Seq<u8>) -> Result<(), BspError> {
    if s.len() < HEADER_SIZE {
        Err(BspError::IoError)
    } else if spec_le_i32(s, 0) != HEADER_MAGIC {
        Err(BspError::InvalidMagic)
    } else if spec_le_i32(s, 4) < 19 {
        Err(BspError::UnsupportedVersion)
    } else if !spec_slot_size_ok(s, 3, 12) {
        Err(BspError::InvalidLumpSize)
    } else if !spec_slot_extent_ok(s, 3) {
        Err(BspError::IoError)
    } else if !spec_slot_size_ok(s, 1, 20) {
        Err(BspError::InvalidLumpSize)
    } else if !spec_slot_extent_ok(s, 1) {
        Err(BspError::IoError)
    } else if !spec_slot_size_ok(s, 12, 4) {
        Err(BspError::InvalidLumpSize)
    } else if !spec_slot_extent_ok(s, 12) {
        Err(BspError::IoError)
    } else if !spec_slot_size_ok(s, 13, 4) {
        Err(BspError::InvalidLumpSize)
    } else if !spec_slot_extent_ok(s, 13) {
        Err(BspError::IoError)
    } else if !spec_slot_size_ok(s, 10, 48) {
        Err(BspError::InvalidLumpSize)
    } else if !spec_slot_extent_ok(s, 10) {
        Err(BspError::IoError)
    } else if !spec_slot_size_ok(s, 5, 32) {
        Err(BspError::InvalidLumpSize)
    } else if !spec_slot_extent_ok(s, 5) {
        Err(BspError::IoError)
    } else if !spec_slot_size_ok(s, 7, 58) {
        Err(BspError::InvalidLumpSize)
    } else if !spec_slot_extent_ok(s, 7) {
        Err(BspError::IoError)
    } else if !spec_slot_size_ok(s, 6, 72) {
        Err(BspError::InvalidLumpSize)
    } else if !spec_slot_extent_ok(s, 6) {
        Err(BspError::IoError)
    } else if !spec_slot_size_ok(s, 18, 12) {
        Err(BspError::InvalidLumpSize)
    } else if !spec_slot_extent_ok(s, 18) {
        Err(BspError::IoError)
    } else if !spec_slot_size_ok(s, 19, 8) {
        Err(BspError::InvalidLumpSize)
    } else if !spec_slot_extent_ok(s, 19) {
        Err(BspError::IoError)
    } else if !spec_slot_size_ok(s, 16, 2) {
        Err(BspError::InvalidLumpSize)
    } else if !spec_slot_extent_ok(s, 16) {
        Err(BspError::IoError)
    } else if spec_slot_count(s, 16, 2) > MAX_MAP_LEAFBRUSHES {
        Err(BspError::LeafTableOverflow)
    } else if spec_slot_count(s, 16, 2) == 0 {
        Err(BspError::LeafTableEmpty)
    } else if !spec_slot_size_ok(s, 17, 2) {
        Err(BspError::InvalidLumpSize)
    } else if !spec_slot_extent_ok(s, 17) {
        Err(BspError::IoError)
    } else if spec_slot_count(s, 17, 2) > MAX_MAP_LEAFBRUSHES {
        Err(BspError::LeafTableOverflow)
    } else if spec_slot_count(s, 17, 2) == 0 {
        Err(BspError::LeafTableEmpty)
    } else {
        Ok(())
    }
}

/// The typed in-memory model: every table the traversal reads, plus the
/// derived canonical planes, canonical nodes and polygons.  Built once
/// from a byte image and immutable afterwards.
#[derive(Debug)]
pub struct BSP {
    pub vertexes: Vec<mvertex_t>,
    pub dplanes: Vec<dplane_t>,
    pub planes: Vec<cplane_t>,
    pub edges: Vec<dedge_t>,
    pub surf_edges: Vec<i32>,
    pub leaves: Vec<dleaf_t>,
    pub dnodes: Vec<dnode_t>,
    pub nodes: Vec<snode_t>,
    pub faces: Vec<dface_t>,
    pub tex_info: Vec<texinfo_t>,
    pub brushes: Vec<dbrush_t>,
    pub brush_sides: Vec<dbrushside_t>,
    pub leaf_faces: Vec<u16>,
    pub leaf_brushes: Vec<u16>,
    pub polys: Vec<Polygon>,
}

/// Every table of the model equals, record by record, what the byte image
/// stores in the corresponding lump; the derived tables equal their
/// canonicalisations.
pub open spec fn bsp_tables_match(b: BSP, s: Seq<u8>) -> bool {
    &&& b.vertexes@.len() == spec_slot_count(s, 3, 12)
    &&& forall|i: int| 0 <= i < b.vertexes@.len() ==> crate::native::vertex_matches(
        #[trigger] b.vertexes@[i],
        s,
        spec_slot_fileofs(s, 3) + 12 * i,
    )
    &&& b.dplanes@.len() == spec_slot_count(s, 1, 20)
    &&& forall|i: int| 0 <= i < b.dplanes@.len() ==> crate::native::plane_matches(
        #[trigger] b.dplanes@[i],
        s,
        spec_slot_fileofs(s, 1) + 20 * i,
    )
    &&& b.planes@.len() == b.dplanes@.len()
    &&& forall|i: int| 0 <= i < b.planes@.len() ==> cplane_matches(#[trigger] b.planes@[i], b.dplanes@[i])
    &&& b.edges@.len() == spec_slot_count(s, 12, 4)
    &&& forall|i: int| 0 <= i < b.edges@.len() ==> crate::native::edge_matches(
        #[trigger] b.edges@[i],
        s,
        spec_slot_fileofs(s, 12) + 4 * i,
    )
    &&& b.surf_edges@.len() == spec_slot_count(s, 13, 4)
    &&& forall|i: int| 0 <= i < b.surf_edges@.len() ==> #[trigger] b.surf_edges@[i] == spec_le_i32(
        s,
        spec_slot_fileofs(s, 13) + 4 * i,
    )
    &&& b.leaves@.len() == spec_slot_count(s, 10, 48)
    &&& forall|i: int| 0 <= i < b.leaves@.len() ==> crate::native::leaf_matches(
        #[trigger] b.leaves@[i],
        s,
        spec_slot_fileofs(s, 10) + 48 * i,
    )
    &&& b.dnodes@.len() == spec_slot_count(s, 5, 32)
    &&& forall|i: int| 0 <= i < b.dnodes@.len() ==> crate::native::node_matches(
        #[trigger] b.dnodes@[i],
        s,
        spec_slot_fileofs(s, 5) + 32 * i,
    )
    &&& b.nodes@.len() == b.dnodes@.len()
    &&& forall|i: int| 0 <= i < b.nodes@.len() ==> snode_matches(#[trigger] b.nodes@[i], b.dnodes@[i])
    &&& b.faces@.len() == spec_slot_count(s, 7, 58)
    &&& forall|i: int| 0 <= i < b.faces@.len() ==> crate::native::face_matches(
        #[trigger] b.faces@[i],
        s,
        spec_slot_fileofs(s, 7) + 58 * i,
    )
    &&& b.tex_info@.len() == spec_slot_count(s, 6, 72)
    &&& forall|i: int| 0 <= i < b.tex_info@.len() ==> crate::native::texinfo_matches(
        #[trigger] b.tex_info@[i],
        s,
        spec_slot_fileofs(s, 6) + 72 * i,
    )
    &&& b.brushes@.len() == spec_slot_count(s, 18, 12)
    &&& forall|i: int| 0 <= i < b.brushes@.len() ==> crate::native::brush_matches(
        #[trigger] b.brushes@[i],
        s,
        spec_slot_fileofs(s, 18) + 12 * i,
    )
    &&& b.brush_sides@.len() == spec_slot_count(s, 19, 8)
    &&& forall|i: int| 0 <= i < b.brush_sides@.len() ==> crate::native::brushside_matches(
        #[trigger] b.brush_sides@[i],
        s,
        spec_slot_fileofs(s, 19) + 8 * i,
    )
    &&& b.leaf_faces@.len() == spec_slot_count(s, 16, 2)
    &&& 1 <= b.leaf_faces@.len() <= MAX_MAP_LEAFBRUSHES
    &&& forall|i: int| 0 <= i < b.leaf_faces@.len() ==> #[trigger] b.leaf_faces@[i] == crate::native::spec_le_u16(
        s,
        spec_slot_fileofs(s, 16) + 2 * i,
    )
    &&& b.leaf_brushes@.len() == spec_slot_count(s, 17, 2)
    &&& 1 <= b.leaf_brushes@.len() <= MAX_MAP_LEAFBRUSHES
    &&& forall|i: int| 0 <= i < b.leaf_brushes@.len() ==> #[trigger] b.leaf_brushes@[i]
        == crate::native::spec_le_u16(s, spec_slot_fileofs(s, 17) + 2 * i)
    &&& b.polys@.len() == spec_polygon_count(b.faces@, b.surf_edges@, b.edges@, b.vertexes@, b.planes@)
    &&& forall|k: int| 0 <= k < b.faces@.len() && spec_face_contributes(
        #[trigger] b.faces@[k],
        b.surf_edges@,
        b.edges@,
        b.vertexes@,
        b.planes@,
    ) ==> polygon_matches(
        b.polys@[spec_polygon_count(
            b.faces@.take(k),
            b.surf_edges@,
            b.edges@,
            b.vertexes@,
            b.planes@,
        )],
        b.faces@[k],
        b.surf_edges@,
        b.edges@,
        b.vertexes@,
        b.planes@,
    )
}

impl BSP {
    /// Builds the model from the bytes of a map file.  Accepts exactly
    /// the images that pass every loading step, and returns for every
    /// rejected image the error of the first step that rejects it.
    pub fn parse(bytes: &Vec<u8>) -> (r: Result<BSP, BspError>)
        ensures
            match r {
                Ok(b) => spec_load_outcome(bytes@) == Ok::<(), BspError>(()) && bsp_tables_match(
                    b,
                    bytes@,
                ),
                Err(e) => spec_load_outcome(bytes@) == Err::<(), BspError>(e),
            },
    {
        let header = match crate::native::parse_header(bytes) {
            Ok(h) => h,
            Err(e) => {
                return Err(e);
            },
        };
        if header.ident != HEADER_MAGIC {
            return Err(BspError::InvalidMagic);
        }
        if header.version < 19 {
            return Err(BspError::UnsupportedVersion);
        }
        let vertexes = match crate::native::parse_vertex_lump(bytes, &header.lumps[3]) {
            Ok(v) => v,
            Err(e) => {
                return Err(e);
            },
        };
        let dplanes = match crate::native::parse_plane_lump(bytes, &header.lumps[1]) {
            Ok(v) => v,
            Err(e) => {
                return Err(e);
            },
        };
        let planes = parse_planes(&dplanes);
        let edges = match crate::native::parse_edge_lump(bytes, &header.lumps[12]) {
            Ok(v) => v,
            Err(e) => {
                return Err(e);
            },
        };
        let surf_edges = match crate::native::parse_surfedge_lump(bytes, &header.lumps[13]) {
            Ok(v) => v,
            Err(e) => {
                return Err(e);
            },
        };
        let leaves = match crate::native::parse_leaf_lump(bytes, &header.lumps[10]) {
            Ok(v) => v,
            Err(e) => {
                return Err(e);
            },
        };
        let dnodes = match crate::native::parse_node_lump(bytes, &header.lumps[5]) {
            Ok(v) => v,
            Err(e) => {
                return Err(e);
            },
        };
        let nodes = parse_nodes(&dnodes);
        let faces = match crate::native::parse_face_lump(bytes, &header.lumps[7]) {
            Ok(v) => v,
            Err(e) => {
                return Err(e);
            },
        };
        let tex_info = match crate::native::parse_texinfo_lump(bytes, &header.lumps[6]) {
            Ok(v) => v,
            Err(e) => {
                return Err(e);
            },
        };
        let brushes = match crate::native::parse_brush_lump(bytes, &header.lumps[18]) {
            Ok(v) => v,
            Err(e) => {
                return Err(e);
            },
        };
        let brush_sides = match crate::native::parse_brushside_lump(bytes, &header.lumps[19]) {
            Ok(v) => v,
            Err(e) => {
                return Err(e);
            },
        };
        let leaf_faces = match crate::native::parse_u16_lump(bytes, &header.lumps[16]) {
            Ok(v) => v,
            Err(e) => {
                return Err(e);
            },
        };
        if leaf_faces.len() > MAX_MAP_LEAFBRUSHES {
            return Err(BspError::LeafTableOverflow);
        }
        if leaf_faces.len() == 0 {
            return Err(BspError::LeafTableEmpty);
        }
        let leaf_brushes = match crate::native::parse_u16_lump(bytes, &header.lumps[17]) {
            Ok(v) => v,
            Err(e) => {
                return Err(e);
            },
        };
        if leaf_brushes.len() > MAX_MAP_LEAFBRUSHES {
            return Err(BspError::LeafTableOverflow);
        }
        if leaf_brushes.len() == 0 {
            return Err(BspError::LeafTableEmpty);
        }
        let polys = parse_polygons(&faces, &surf_edges, &edges, &vertexes, &planes);
        Ok(
            BSP {
                vertexes,
                dplanes,
                planes,
                edges,
                surf_edges,
                leaves,
                dnodes,
                nodes,
                faces,
                tex_info,
                brushes,
                brush_sides,
                leaf_faces,
                leaf_brushes,
                polys,
            },
        )
    }
}

} // verus!
