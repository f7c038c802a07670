//! Properties of the decoder that hold for every input, stated once and
//! proved from the contracts of the decoding functions.

use crate::bounds::Bounds;
use crate::decode::axis_word;
use crate::decode::good_bounds;
use crate::decode::lump_in_range;
use crate::decode::num_vertices;
use crate::decode::BSP38;
use crate::fbits::f32_is_nan;
use crate::fbits::f32_key;
use crate::geometry::face_edge_count;
use crate::geometry::face_tris;
use crate::geometry::num_faces;
use vstd::prelude::*;

verus! {

/// A decoded file's directory has exactly 19 entries, and every entry
/// names a byte range that lies inside the file's buffer.
pub proof fn lemma_directory_in_range(f: BSP38, k: int)
    requires
        f.wf(),
        0 <= k < 19,
    ensures
        f.lumps@.len() == 19,
        0 <= f.lumps@[k].offset as int,
        0 <= f.lumps@[k].length as int,
        f.lumps@[k].offset as int + f.lumps@[k].length as int <= f.bytes@.len(),
{
    assert(lump_in_range(f.bytes@, k));
}

/// On any axis where some vertex has a non-NaN coordinate, a correct
/// bounding box orders its minimum at or below its maximum.
pub proof fn lemma_bounds_ordered(b: Seq<u8>, bd: Bounds, i: int, j: int)
    requires
        good_bounds(b, bd),
        0 <= i < num_vertices(b),
        0 <= j < 3,
        !f32_is_nan(axis_word(b, i, j)),
    ensures
        f32_key(bd.min@[j]) <= f32_key(bd.max@[j]),
{
    assert(f32_key(bd.min@[j]) <= f32_key(axis_word(b, i, j)));
}

/// Every vertex of a decoded file lies inside its cached bounding box,
/// on every axis where the vertex's coordinate is not NaN.
pub proof fn lemma_bounds_contain(f: BSP38, i: int, j: int)
    requires
        f.wf(),
        0 <= i < num_vertices(f.bytes@),
        0 <= j < 3,
        !f32_is_nan(axis_word(f.bytes@, i, j)),
    ensures
        f32_key(f.bounds.min@[j]) <= f32_key(axis_word(f.bytes@, i, j)),
        f32_key(axis_word(f.bytes@, i, j)) <= f32_key(f.bounds.max@[j]),
{
}

/// A file with no vertices keeps the empty-box sentinel: +infinity
/// minima and -infinity maxima on every axis.
pub proof fn lemma_empty_bounds_sentinel(b: Seq<u8>, bd: Bounds, j: int)
    requires
        good_bounds(b, bd),
        num_vertices(b) == 0,
        0 <= j < 3,
    ensures
        bd.min@[j] == crate::fbits::F32_POS_INF,
        bd.max@[j] == crate::fbits::F32_NEG_INF,
{
}

/// A face with at least three boundary points fans into exactly two
/// fewer triangles than it has points; a face with fewer points fans
/// into none.
pub proof fn lemma_fan_triangle_count(b: Seq<u8>, k: int)
    requires
        0 <= k < num_faces(b),
    ensures
        face_edge_count(b, k) >= 3 ==> face_tris(b, k).len() == face_edge_count(b, k) - 2,
        face_edge_count(b, k) < 3 ==> face_tris(b, k).len() == 0,
{
}

} // verus!
