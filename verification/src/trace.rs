//! Contents bitmask policy: which brushes take part in a ray cast.
//!
//! The traversal itself works on single-precision coordinates and lives
//! with the rest of the real-arithmetic code, outside this library; the
//! decision of which brushes it may hit is integer logic and is stated
//! and verified here.

use vstd::prelude::*;

use crate::native::{dbrush_t, dleaf_t};

verus! {

/// No contents.
pub const CONTENTS_EMPTY: i32 = 0;

/// An eye is never valid in a solid.
pub const CONTENTS_SOLID: i32 = 0x1;

/// Translucent, but not watery (glass).
pub const CONTENTS_WINDOW: i32 = 0x2;

pub const CONTENTS_AUX: i32 = 0x4;

/// Alpha-tested "grate" textures: bullets and sight pass through, solids
/// do not.
pub const CONTENTS_GRATE: i32 = 0x8;

pub const CONTENTS_SLIME: i32 = 0x10;

pub const CONTENTS_WATER: i32 = 0x20;

pub const CONTENTS_MIST: i32 = 0x40;

/// Things that cannot be seen through (may be non-solid though).
pub const CONTENTS_OPAQUE: i32 = 0x80;

/// Hits entities which are pushed around (doors, plats and the like).
pub const CONTENTS_MOVEABLE: i32 = 0x4000;

/// Should never be on a brush, only in game.
pub const CONTENTS_MONSTER: i32 = 0x2000000;

pub const CONTENTS_DEBRIS: i32 = 0x4000000;

/// The contents bits of geometry that blocks bullets and sight.
pub const MASK_SHOT_HULL: i32 = CONTENTS_SOLID | CONTENTS_MOVEABLE | CONTENTS_MONSTER
    | CONTENTS_WINDOW | CONTENTS_DEBRIS | CONTENTS_GRATE;

/// Whether a brush with these contents takes part in a ray cast: some bit
/// of the shot-hull mask is set.
pub open spec fn spec_brush_blocks(contents: i32) -> bool {
    contents & MASK_SHOT_HULL != 0
}

/// The traversal sweeps a brush exactly when this holds of its contents;
/// every other brush is passed through.
pub fn brush_blocks(contents: i32) -> (r: bool)
    ensures
        r == spec_brush_blocks(contents),
{
    contents & MASK_SHOT_HULL != 0
}

/// Whether slot `i` of a leaf's brush range selects a brush to sweep:
/// the slot stays inside the leaf-brush table, the entry names a brush
/// inside the brush table, and that brush's contents pass the shot-hull
/// mask.  A slot that fails any of these is passed over.
pub open spec fn spec_slot_selects(leaf: dleaf_t, lb: Seq<u16>, brushes: Seq<dbrush_t>, i: int) -> bool {
    &&& leaf.first_leaf_brush + i < lb.len()
    &&& lb[leaf.first_leaf_brush + i] < brushes.len()
    &&& spec_brush_blocks(brushes[lb[leaf.first_leaf_brush + i] as int].contents)
}

/// How many of the leaf's first `n` brush slots select a brush.
pub open spec fn spec_sweep_count(leaf: dleaf_t, lb: Seq<u16>, brushes: Seq<dbrush_t>, n: int) -> int
    decreases n,
    when n >= 0
{
    if n <= 0 {
        0
    } else {
        spec_sweep_count(leaf, lb, brushes, n - 1) + (if spec_slot_selects(leaf, lb, brushes, n - 1) {
            1int
        } else {
            0
        })
    }
}

/// The sweep count never falls as more slots are considered.
pub proof fn lemma_sweep_count_le(leaf: dleaf_t, lb: Seq<u16>, brushes: Seq<dbrush_t>, a: int, b: int)
    requires
        0 <= a <= b,
    ensures
        spec_sweep_count(leaf, lb, brushes, a) <= spec_sweep_count(leaf, lb, brushes, b),
    decreases b - a,
{
    if a < b {
        lemma_sweep_count_le(leaf, lb, brushes, a, b - 1);
    }
}

/// The brush indices a leaf hands to the brush sweep, in slot order: one
/// for each slot of its brush range that selects a brush, and no others.
pub fn leaf_sweep_brushes(leaf: &dleaf_t, leaf_brushes: &Vec<u16>, brushes: &Vec<dbrush_t>) -> (r:
    Vec<u16>)
    ensures
        r@.len() == spec_sweep_count(*leaf, leaf_brushes@, brushes@, leaf.num_leaf_brushes as int),
        forall|i: int|
            0 <= i < leaf.num_leaf_brushes && spec_slot_selects(*leaf, leaf_brushes@, brushes@, i)
                ==> #[trigger] r@[spec_sweep_count(*leaf, leaf_brushes@, brushes@, i)]
                == leaf_brushes@[leaf.first_leaf_brush + i],
        forall|j: int|
            0 <= j < r@.len() ==> #[trigger] r@[j] < brushes@.len() && spec_brush_blocks(
                brushes@[r@[j] as int].contents,
            ),
{
    let n = leaf.num_leaf_brushes as usize;
    let first = leaf.first_leaf_brush as usize;
    let mut r: Vec<u16> = Vec::new();
    let mut i: usize = 0;
    while i < n
        invariant
            i <= n,
            n == leaf.num_leaf_brushes,
            first == leaf.first_leaf_brush,
            r@.len() == spec_sweep_count(*leaf, leaf_brushes@, brushes@, i as int),
            forall|i2: int|
                0 <= i2 < i && spec_slot_selects(*leaf, leaf_brushes@, brushes@, i2)
                    ==> #[trigger] r@[spec_sweep_count(*leaf, leaf_brushes@, brushes@, i2)]
                    == leaf_brushes@[leaf.first_leaf_brush + i2],
            forall|j: int|
                0 <= j < r@.len() ==> #[trigger] r@[j] < brushes@.len() && spec_brush_blocks(
                    brushes@[r@[j] as int].contents,
                ),
        decreases n - i,
    {
        let slot = first + i;
        if slot < leaf_brushes.len() {
            let brush_idx = leaf_brushes[slot];
            if (brush_idx as usize) < brushes.len() && brush_blocks(
                brushes[brush_idx as usize].contents,
            ) {
                let ghost prior = r@;
                r.push(brush_idx);
                proof {
                    assert forall|i2: int|
                        0 <= i2 < i + 1 && spec_slot_selects(*leaf, leaf_brushes@, brushes@, i2)
                        implies #[trigger] r@[spec_sweep_count(*leaf, leaf_brushes@, brushes@, i2)]
                        == leaf_brushes@[leaf.first_leaf_brush + i2] by {
                        if i2 < i {
                            let idx = spec_sweep_count(*leaf, leaf_brushes@, brushes@, i2);
                            lemma_sweep_count_le(*leaf, leaf_brushes@, brushes@, 0, i2);
                            lemma_sweep_count_le(*leaf, leaf_brushes@, brushes@, i2 + 1, i as int);
                            assert(idx < prior.len());
                            assert(r@[idx] == prior[idx]);
                        }
                    }
                }
            }
        }
        i += 1;
    }
    r
}

/// Whether slot `i` of a leaf's face range stays inside the leaf-face
/// table.
pub open spec fn spec_face_slot_ok(leaf: dleaf_t, lf: Seq<u16>, i: int) -> bool {
    leaf.first_leaf_face + i < lf.len()
}

/// How many of the leaf's first `n` face slots stay inside the table.
pub open spec fn spec_face_slot_count(leaf: dleaf_t, lf: Seq<u16>, n: int) -> int
    decreases n,
    when n >= 0
{
    if n <= 0 {
        0
    } else {
        spec_face_slot_count(leaf, lf, n - 1) + (if spec_face_slot_ok(leaf, lf, n - 1) {
            1int
        } else {
            0
        })
    }
}

/// The face indices a leaf hands to the surface sweep, in slot order: one
/// for each slot of its face range that stays inside the leaf-face table.
/// A slot past the table is passed over rather than faulted on.
pub fn leaf_sweep_faces(leaf: &dleaf_t, leaf_faces: &Vec<u16>) -> (r: Vec<u16>)
    ensures
        r@.len() == spec_face_slot_count(*leaf, leaf_faces@, leaf.num_leaf_faces as int),
        forall|i: int|
            0 <= i < leaf.num_leaf_faces && spec_face_slot_ok(*leaf, leaf_faces@, i)
                ==> #[trigger] r@[spec_face_slot_count(*leaf, leaf_faces@, i)]
                == leaf_faces@[leaf.first_leaf_face + i],
{
    let n = leaf.num_leaf_faces as usize;
    let first = leaf.first_leaf_face as usize;
    let mut r: Vec<u16> = Vec::new();
    let mut i: usize = 0;
    while i < n
        invariant
            i <= n,
            n == leaf.num_leaf_faces,
            first == leaf.first_leaf_face,
            r@.len() == spec_face_slot_count(*leaf, leaf_faces@, i as int),
            r@.len() <= i,
            forall|i2: int|
                0 <= i2 < i && spec_face_slot_ok(*leaf, leaf_faces@, i2)
                    ==> #[trigger] r@[spec_face_slot_count(*leaf, leaf_faces@, i2)]
                    == leaf_faces@[leaf.first_leaf_face + i2],
        decreases n - i,
    {
        let slot = first + i;
        if slot < leaf_faces.len() {
            let ghost prior = r@;
            r.push(leaf_faces[slot]);
            proof {
                assert forall|i2: int|
                    0 <= i2 < i + 1 && spec_face_slot_ok(*leaf, leaf_faces@, i2)
                    implies #[trigger] r@[spec_face_slot_count(*leaf, leaf_faces@, i2)]
                    == leaf_faces@[leaf.first_leaf_face + i2] by {
                    if i2 < i {
                        let idx = spec_face_slot_count(*leaf, leaf_faces@, i2);
                        lemma_face_slot_count_le(*leaf, leaf_faces@, 0, i2);
                        lemma_face_slot_count_le(*leaf, leaf_faces@, i2 + 1, i as int);
                        assert(idx < prior.len());
                        assert(r@[idx] == prior[idx]);
                    }
                }
            }
        }
        i += 1;
    }
    r
}

/// The face-slot count never falls as more slots are considered.
pub proof fn lemma_face_slot_count_le(leaf: dleaf_t, lf: Seq<u16>, a: int, b: int)
    requires
        0 <= a <= b,
    ensures
        spec_face_slot_count(leaf, lf, a) <= spec_face_slot_count(leaf, lf, b),
    decreases b - a,
{
    if a < b {
        lemma_face_slot_count_le(leaf, lf, a, b - 1);
    }
}

} // verus!
