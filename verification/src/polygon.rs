//! Per-face polygons derived from the face, surf-edge, edge and vertex
//! tables.
//!
//! A polygon keeps the face's resolved vertex positions and its plane.
//! Positions and plane components are IEEE-754 single-precision bit
//! patterns, as everywhere in the model; the outward edge planes that the
//! traversal clips against are real-arithmetic quantities and are derived
//! from these vertices downstream, outside this library.

use vstd::prelude::*;

use crate::native::{cplane_t, dface_t};

verus! {

/// Most vertices a usable polygon may have.
pub const MAX_SURFINFO_VERTS: usize = 32;

/// A plane as the traversal consumes it: a normal and a distance, both as
/// single-precision bit patterns.
#[derive(Clone, Copy, Debug)]
pub struct Plane {
    pub origin: [u32; 3],
    pub distance: u32,
}

impl Plane {
    /// The zero plane.
    pub fn new() -> (r: Plane)
        ensures
            r.origin[0] == 0 && r.origin[1] == 0 && r.origin[2] == 0,
            r.distance == 0,
    {
        Plane { origin: [0, 0, 0], distance: 0 }
    }

    /// The canonical plane's normal and distance, unchanged.
    pub fn from(plane: &cplane_t) -> (r: Plane)
        ensures
            r.origin == plane.normal,
            r.distance == plane.distance,
    {
        Plane { origin: [plane.normal[0], plane.normal[1], plane.normal[2]], distance: plane.distance }
    }
}

/// One qualifying face's polygon: its resolved vertex positions, their
/// count, and the face's plane.
#[derive(Clone, Debug)]
pub struct Polygon {
    pub verts: Vec<[u32; 3]>,
    pub vert_num: usize,
    pub plane: Plane,
    pub skip: i32,
}

impl Polygon {
    /// Builds the polygon of one face from its already-resolved vertex
    /// positions and its canonical plane.
    pub fn with(verts: Vec<[u32; 3]>, surface: &dface_t, plane: &cplane_t) -> (r: Polygon)
        requires
            verts@.len() == surface.num_edges,
            0 <= surface.num_edges <= MAX_SURFINFO_VERTS,
        ensures
            r.verts@ == verts@,
            r.vert_num == surface.num_edges,
            r.plane.origin == plane.normal,
            r.plane.distance == plane.distance,
            r.skip == 0,
    {
        Polygon {
            verts,
            vert_num: surface.num_edges as usize,
            plane: Plane::from(plane),
            skip: 0,
        }
    }
}

} // verus!
