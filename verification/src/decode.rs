//! The decoded "IBSP" container: header, lump directory, raw bytes, and
//! the cached bounding box.
//!
//! Decoding is all-or-nothing: [`BSP38::from_bytes`] validates the magic
//! tag, the header length and every directory entry's byte range before a
//! value is ever returned, so a constructed file can be read without any
//! out-of-range access to its buffer.

use crate::bounds::Bounds;
use crate::bytes::le32;
use crate::bytes::le_i16;
use crate::bytes::le_i32;
use crate::bytes::read_i16_at;
use crate::bytes::read_i32_at;
use crate::bytes::read_u32_at;
use crate::fbits::f32_is_nan;
use crate::fbits::f32_key;
use crate::fbits::f32_min_bits;
use crate::fbits::f32_max_bits;
use crate::fbits::F32_NEG_INF;
use crate::fbits::F32_POS_INF;
use vstd::prelude::*;

verus! {

/// Number of entries in the lump directory.
pub const NUM_LUMPS: usize = 19;

/// Directory index of the plane lump.
pub const LUMP_PLANES: usize = 1;

/// Directory index of the vertex lump.
pub const LUMP_VERTICES: usize = 2;

/// Directory index of the texture-info lump.
pub const LUMP_TEXINFO: usize = 5;

/// Directory index of the face lump.
pub const LUMP_FACES: usize = 6;

/// Directory index of the edge lump.
pub const LUMP_EDGES: usize = 11;

/// Directory index of the face-edge lump.
pub const LUMP_FACE_EDGES: usize = 12;

/// Why a buffer was rejected.
#[derive(Debug, Clone, Copy, PartialEq, Eq, Structural)]
pub enum BspError {
    /// The buffer is too short for the magic tag, header and directory.
    Truncated,
    /// The first four bytes are not the ASCII tag "IBSP".
    BadMagic,
    /// A directory entry's byte range lies outside the buffer.
    LumpOutOfRange,
    /// A cross-reference (edge, plane, texture-info or face-edge index)
    /// points outside its target sequence.
    IndexOutOfRange,
}

/// One directory entry: a byte range of the buffer.
#[derive(Debug, Clone, Copy)]
pub struct BSP38Lump {
    pub offset: i32,
    pub length: i32,
}

/// A decoded file: validated header fields, the directory, the raw bytes,
/// and the bounding box computed once at construction.
#[derive(Debug)]
pub struct BSP38 {
    pub magic: String,
    pub version: u32,
    pub lumps: Vec<BSP38Lump>,
    pub bytes: Vec<u8>,
    pub bounds: Bounds,
}

/// The first four bytes are the ASCII tag "IBSP".
pub open spec fn magic_ok(b: Seq<u8>) -> bool {
    b.len() >= 4 && b[0] == 0x49u8 && b[1] == 0x42u8 && b[2] == 0x53u8 && b[3] == 0x50u8
}

/// Offset field of directory entry `k`.
pub open spec fn lump_off(b: Seq<u8>, k: int) -> int {
    le_i32(b, 8 + 8 * k)
}

/// Length field of directory entry `k`.
pub open spec fn lump_len(b: Seq<u8>, k: int) -> int {
    le_i32(b, 12 + 8 * k)
}

/// Directory entry `k` names a byte range inside the buffer.
pub open spec fn lump_in_range(b: Seq<u8>, k: int) -> bool {
    0 <= lump_off(b, k) && 0 <= lump_len(b, k) && lump_off(b, k) + lump_len(b, k) <= b.len()
}

/// The buffer holds a full directory and every entry is in range.
pub open spec fn dir_ok(b: Seq<u8>) -> bool {
    b.len() >= 160 && forall|k: int| 0 <= k < 19 ==> lump_in_range(b, k)
}

/// The buffer decodes: magic tag, full header, in-range directory.
pub open spec fn header_ok(b: Seq<u8>) -> bool {
    magic_ok(b) && dir_ok(b)
}

/// Byte offset of the vertex lump.
pub open spec fn vert_off(b: Seq<u8>) -> int {
    lump_off(b, 2)
}

/// Number of decoded vertices: 12 bytes each.
pub open spec fn num_vertices(b: Seq<u8>) -> int {
    lump_len(b, 2) / 12
}

/// The `j`-th float word of the vertex lump (3 words per vertex).
pub open spec fn vert_word(b: Seq<u8>, j: int) -> u32 {
    le32(b, vert_off(b) + 4 * j)
}

/// Coordinate `j` of vertex `i`, as a float word.
pub open spec fn axis_word(b: Seq<u8>, i: int, j: int) -> u32 {
    vert_word(b, 3 * i + j)
}

/// `bd` is the axis-aligned box of the buffer's vertices: every non-NaN
/// coordinate lies between the axis minimum and maximum, each extreme is
/// either attained by some vertex or still the empty sentinel, and an
/// empty vertex lump leaves the sentinel box.
pub open spec fn good_bounds(b: Seq<u8>, bd: Bounds) -> bool {
    &&& forall|i: int, j: int|
        0 <= i < num_vertices(b) && 0 <= j < 3 && !f32_is_nan(axis_word(b, i, j))
            ==> f32_key(bd.min@[j]) <= f32_key(axis_word(b, i, j)) && f32_key(axis_word(b, i, j))
            <= f32_key(bd.max@[j])
    &&& forall|j: int| 0 <= j < 3 ==> !f32_is_nan(bd.min@[j]) && !f32_is_nan(bd.max@[j])
    &&& forall|j: int|
        0 <= j < 3 ==> (bd.min@[j] == F32_POS_INF || exists|i: int|
            0 <= i < num_vertices(b) && axis_word(b, i, j) == bd.min@[j])
    &&& forall|j: int|
        0 <= j < 3 ==> (bd.max@[j] == F32_NEG_INF || exists|i: int|
            0 <= i < num_vertices(b) && axis_word(b, i, j) == bd.max@[j])
    &&& num_vertices(b) == 0 ==> forall|j: int|
        0 <= j < 3 ==> bd.min@[j] == F32_POS_INF && bd.max@[j] == F32_NEG_INF
}

impl BSP38 {
    /// The header fields and directory agree exactly with the raw bytes.
    pub open spec fn wf_header(self) -> bool {
        &&& header_ok(self.bytes@)
        &&& self.magic@ == "IBSP"@
        &&& self.version == le32(self.bytes@, 4)
        &&& self.lumps@.len() == 19
        &&& forall|k: int|
            0 <= k < 19 ==> self.lumps@[k].offset as int == lump_off(self.bytes@, k)
                && self.lumps@[k].length as int == lump_len(self.bytes@, k)
    }

    /// A fully decoded file: valid header and a correct cached box.
    pub open spec fn wf(self) -> bool {
        self.wf_header() && good_bounds(self.bytes@, self.bounds)
    }

    /// Decode a complete buffer. Succeeds exactly on buffers with the
    /// "IBSP" tag, a full 160-byte header, and a directory whose 19
    /// entries all name byte ranges inside the buffer.
    pub fn from_bytes(bytes: Vec<u8>) -> (r: Result<BSP38, BspError>)
        ensures
            r.is_ok() <==> header_ok(bytes@),
            r matches Ok(f) ==> f.wf() && f.bytes@ == bytes@,
            bytes@.len() < 4 ==> r == Result::<BSP38, BspError>::Err(BspError::Truncated),
            bytes@.len() >= 4 && !magic_ok(bytes@) ==> r == Result::<BSP38, BspError>::Err(
                BspError::BadMagic,
            ),
            magic_ok(bytes@) && bytes@.len() < 160 ==> r == Result::<BSP38, BspError>::Err(
                BspError::Truncated,
            ),
            magic_ok(bytes@) && bytes@.len() >= 160 && !dir_ok(bytes@) ==> r == Result::<
                BSP38,
                BspError,
            >::Err(BspError::LumpOutOfRange),
    {
        let n: usize = bytes.len();
        if n < 4 {
            return Err(BspError::Truncated);
        }
        if !(bytes[0] == 0x49 && bytes[1] == 0x42 && bytes[2] == 0x53 && bytes[3] == 0x50) {
            return Err(BspError::BadMagic);
        }
        if n < 160 {
            return Err(BspError::Truncated);
        }
        let version: u32 = read_u32_at(&bytes, 4);
        let mut lumps: Vec<BSP38Lump> = Vec::new();
        let mut k: usize = 0;
        while k < 19
            invariant
                k <= 19,
                n == bytes@.len(),
                n >= 160,
                magic_ok(bytes@),
                lumps@.len() == k,
                forall|t: int|
                    0 <= t < k ==> lumps@[t].offset as int == lump_off(bytes@, t)
                        && lumps@[t].length as int == lump_len(bytes@, t) && lump_in_range(
                        bytes@,
                        t,
                    ),
            decreases 19 - k,
        {
            let off: i32 = read_i32_at(&bytes, 8 + 8 * k);
            let len: i32 = read_i32_at(&bytes, 12 + 8 * k);
            if off < 0 || len < 0 || (off as u64) + (len as u64) > (n as u64) {
                proof {
                    assert(!lump_in_range(bytes@, k as int));
                }
                return Err(BspError::LumpOutOfRange);
            }
            lumps.push(BSP38Lump { offset: off, length: len });
            k += 1;
        }
        let magic: String = "IBSP".to_owned();
        let mut file = BSP38 { magic, version, lumps, bytes, bounds: Bounds::default() };
        let bd: Bounds = file.compute_bounds();
        file.bounds = bd;
        Ok(file)
    }

    /// The cached bounding box.
    pub fn bounds(&self) -> (r: Bounds)
        requires
            self.wf(),
        ensures
            r == self.bounds,
            good_bounds(self.bytes@, r),
    {
        self.bounds
    }

    /// Decode the vertex lump: three float words per vertex, in file
    /// order.
    pub fn read_vertices(&self) -> (r: Vec<u32>)
        requires
            self.wf_header(),
        ensures
            r@.len() == 3 * num_vertices(self.bytes@),
            forall|j: int| 0 <= j < r@.len() ==> r@[j] == vert_word(self.bytes@, j),
    {
        let lump: BSP38Lump = self.lumps[LUMP_VERTICES];
        proof {
            assert(lump_in_range(self.bytes@, 2));
            assert(lump.offset as int == lump_off(self.bytes@, 2));
            assert(lump.length as int == lump_len(self.bytes@, 2));
        }
        let off: usize = lump.offset as usize;
        let llen: usize = lump.length as usize;
        let count: usize = llen / 12;
        proof {
            assert(count as int == num_vertices(self.bytes@));
            assert(12 * (llen as int / 12) <= llen as int) by (nonlinear_arith)
                requires llen >= 0;
        }
        let total: usize = 3 * count;
        let mut r: Vec<u32> = Vec::new();
        let mut j: usize = 0;
        while j < total
            invariant
                total == 3 * num_vertices(self.bytes@),
                12 * num_vertices(self.bytes@) <= lump_len(self.bytes@, 2),
                off as int == vert_off(self.bytes@),
                off + lump_len(self.bytes@, 2) <= self.bytes@.len(),
                self.wf_header(),
                j <= total,
                r@.len() == j,
                forall|t: int| 0 <= t < j ==> r@[t] == vert_word(self.bytes@, t),
            decreases total - j,
        {
            let w: u32 = read_u32_at(&self.bytes, off + 4 * j);
            r.push(w);
            j += 1;
        }
        r
    }

    /// Reduce the vertex sequence to its per-axis extremes.
    fn compute_bounds(&self) -> (r: Bounds)
        requires
            self.wf_header(),
        ensures
            good_bounds(self.bytes@, r),
    {
        let verts: Vec<u32> = self.read_vertices();
        let n: usize = verts.len() / 3;
        proof {
            assert(n as int == num_vertices(self.bytes@)) by (nonlinear_arith)
                requires
                    verts@.len() == 3 * num_vertices(self.bytes@),
                    n == verts@.len() / 3,
                    num_vertices(self.bytes@) >= 0;
        }
        let ghost b = self.bytes@;
        let mut min0: u32 = F32_POS_INF;
        let mut min1: u32 = F32_POS_INF;
        let mut min2: u32 = F32_POS_INF;
        let mut max0: u32 = F32_NEG_INF;
        let mut max1: u32 = F32_NEG_INF;
        let mut max2: u32 = F32_NEG_INF;
        let mut i: usize = 0;
        while i < n
            invariant
                i <= n,
                n as int == num_vertices(b),
                b == self.bytes@,
                verts@.len() == 3 * num_vertices(b),
                forall|t: int| 0 <= t < verts@.len() ==> verts@[t] == vert_word(b, t),
                !f32_is_nan(min0) && !f32_is_nan(min1) && !f32_is_nan(min2),
                !f32_is_nan(max0) && !f32_is_nan(max1) && !f32_is_nan(max2),
                forall|t: int|
                    0 <= t < i && !f32_is_nan(axis_word(b, t, 0)) ==> f32_key(min0) <= f32_key(
                        axis_word(b, t, 0),
                    ) && f32_key(axis_word(b, t, 0)) <= f32_key(max0),
                forall|t: int|
                    0 <= t < i && !f32_is_nan(axis_word(b, t, 1)) ==> f32_key(min1) <= f32_key(
                        axis_word(b, t, 1),
                    ) && f32_key(axis_word(b, t, 1)) <= f32_key(max1),
                forall|t: int|
                    0 <= t < i && !f32_is_nan(axis_word(b, t, 2)) ==> f32_key(min2) <= f32_key(
                        axis_word(b, t, 2),
                    ) && f32_key(axis_word(b, t, 2)) <= f32_key(max2),
                min0 == F32_POS_INF || exists|t: int| 0 <= t < i && axis_word(b, t, 0) == min0,
                min1 == F32_POS_INF || exists|t: int| 0 <= t < i && axis_word(b, t, 1) == min1,
                min2 == F32_POS_INF || exists|t: int| 0 <= t < i && axis_word(b, t, 2) == min2,
                max0 == F32_NEG_INF || exists|t: int| 0 <= t < i && axis_word(b, t, 0) == max0,
                max1 == F32_NEG_INF || exists|t: int| 0 <= t < i && axis_word(b, t, 1) == max1,
                max2 == F32_NEG_INF || exists|t: int| 0 <= t < i && axis_word(b, t, 2) == max2,
            decreases n - i,
        {
            let w0: u32 = verts[3 * i];
            let w1: u32 = verts[3 * i + 1];
            let w2: u32 = verts[3 * i + 2];
            min0 = f32_min_bits(min0, w0);
            min1 = f32_min_bits(min1, w1);
            min2 = f32_min_bits(min2, w2);
            max0 = f32_max_bits(max0, w0);
            max1 = f32_max_bits(max1, w1);
            max2 = f32_max_bits(max2, w2);
            proof {
                assert(axis_word(b, i as int, 0) == w0);
                assert(axis_word(b, i as int, 1) == w1);
                assert(axis_word(b, i as int, 2) == w2);
            }
            i += 1;
        }
        let r = Bounds { min: [min0, min1, min2], max: [max0, max1, max2] };
        proof {
            assert(r.min@[0] == min0 && r.min@[1] == min1 && r.min@[2] == min2);
            assert(r.max@[0] == max0 && r.max@[1] == max1 && r.max@[2] == max2);
        }
        r
    }
}

/// Byte offset of the edge lump.
pub open spec fn edge_off(b: Seq<u8>) -> int {
    lump_off(b, 11)
}

/// Number of edges: 4 bytes each, two signed 16-bit vertex indices.
pub open spec fn num_edges(b: Seq<u8>) -> int {
    lump_len(b, 11) / 4
}

/// First vertex index of edge `e` (signed 16-bit).
pub open spec fn edge_v0(b: Seq<u8>, e: int) -> int {
    le_i16(b, edge_off(b) + 4 * e)
}

/// Second vertex index of edge `e` (signed 16-bit).
pub open spec fn edge_v1(b: Seq<u8>, e: int) -> int {
    le_i16(b, edge_off(b) + 4 * e + 2)
}

/// Edge `e`'s two vertex indices name decoded vertices.
pub open spec fn edge_idx_ok(b: Seq<u8>, e: int) -> bool {
    &&& 0 <= edge_v0(b, e) < num_vertices(b)
    &&& 0 <= edge_v1(b, e) < num_vertices(b)
}

/// Every edge's two vertex indices name decoded vertices.
pub open spec fn edges_ok(b: Seq<u8>) -> bool {
    forall|e: int| 0 <= e < num_edges(b) ==> #[trigger] edge_idx_ok(b, e)
}

/// The `m`-th float word of the resolved edge-endpoint sequence: six
/// words per edge, the start vertex's position then the end vertex's.
pub open spec fn edge_word(b: Seq<u8>, m: int) -> u32 {
    if m % 6 < 3 {
        vert_word(b, 3 * edge_v0(b, m / 6) + m % 6)
    } else {
        vert_word(b, 3 * edge_v1(b, m / 6) + m % 6 - 3)
    }
}

/// Byte offset of the face-edge lump.
pub open spec fn fe_off(b: Seq<u8>) -> int {
    lump_off(b, 12)
}

/// Number of face-edge slots: one signed 32-bit value each.
pub open spec fn num_face_edges(b: Seq<u8>) -> int {
    lump_len(b, 12) / 4
}

/// Signed face-edge value in slot `i`.
pub open spec fn fe_val(b: Seq<u8>, i: int) -> int {
    le_i32(b, fe_off(b) + 4 * i)
}

/// Byte offset of the plane lump.
pub open spec fn plane_off(b: Seq<u8>) -> int {
    lump_off(b, 1)
}

/// Number of planes: 20 bytes each.
pub open spec fn num_planes(b: Seq<u8>) -> int {
    lump_len(b, 1) / 20
}

/// The `j`-th float word of plane `p`: normal x, y, z, then distance.
pub open spec fn plane_word(b: Seq<u8>, p: int, j: int) -> u32 {
    le32(b, plane_off(b) + 20 * p + 4 * j)
}

impl BSP38 {
    /// Decode the edge lump into resolved endpoint positions: for each
    /// edge, the three float words of its start vertex followed by the
    /// three of its end vertex. Fails exactly when some edge names a
    /// vertex outside the decoded vertex sequence.
    pub fn read_edges(&self) -> (r: Result<Vec<u32>, BspError>)
        requires
            self.wf_header(),
        ensures
            r.is_ok() <==> edges_ok(self.bytes@),
            r matches Ok(v) ==> v@.len() == 6 * num_edges(self.bytes@) && forall|m: int|
                0 <= m < v@.len() ==> v@[m] == edge_word(self.bytes@, m),
            !edges_ok(self.bytes@) ==> r == Result::<Vec<u32>, BspError>::Err(
                BspError::IndexOutOfRange,
            ),
    {
        let ghost b = self.bytes@;
        let verts: Vec<u32> = self.read_vertices();
        let nv: usize = verts.len() / 3;
        proof {
            assert(nv as int == num_vertices(b)) by (nonlinear_arith)
                requires
                    verts@.len() == 3 * num_vertices(b),
                    nv == verts@.len() / 3,
                    num_vertices(b) >= 0;
            assert(lump_in_range(b, 11));
            assert(self.lumps@[11].offset as int == lump_off(b, 11));
            assert(self.lumps@[11].length as int == lump_len(b, 11));
        }
        let lump: BSP38Lump = self.lumps[LUMP_EDGES];
        let off: usize = lump.offset as usize;
        let llen: usize = lump.length as usize;
        let count: usize = llen / 4;
        proof {
            assert(count as int == num_edges(b));
            assert(4 * (llen as int / 4) <= llen as int) by (nonlinear_arith)
                requires llen >= 0;
        }
        let mut r: Vec<u32> = Vec::new();
        let mut e: usize = 0;
        while e < count
            invariant
                self.wf_header(),
                b == self.bytes@,
                nv as int == num_vertices(b),
                verts@.len() == 3 * num_vertices(b),
                forall|t: int| 0 <= t < verts@.len() ==> verts@[t] == vert_word(b, t),
                count as int == num_edges(b),
                off as int == edge_off(b),
                off + 4 * count <= self.bytes@.len(),
                e <= count,
                r@.len() == 6 * e,
                forall|t: int| 0 <= t < e ==> #[trigger] edge_idx_ok(b, t),
                forall|m: int| 0 <= m < r@.len() ==> r@[m] == edge_word(b, m),
            decreases count - e,
        {
            let i0: i16 = read_i16_at(&self.bytes, off + 4 * e);
            let i1: i16 = read_i16_at(&self.bytes, off + 4 * e + 2);
            proof {
                assert(edge_v0(b, e as int) == i0 as int);
                assert(edge_v1(b, e as int) == i1 as int);
            }
            if i0 < 0 || i1 < 0 {
                proof {
                    assert(!edge_idx_ok(b, e as int));
                    assert(!edges_ok(b));
                }
                return Err(BspError::IndexOutOfRange);
            }
            let v0: usize = i0 as usize;
            let v1: usize = i1 as usize;
            if v0 >= nv || v1 >= nv {
                proof {
                    assert(!edge_idx_ok(b, e as int));
                    assert(!edges_ok(b));
                }
                return Err(BspError::IndexOutOfRange);
            }
            proof {
                assert(edge_idx_ok(b, e as int));
            }
            r.push(verts[3 * v0]);
            r.push(verts[3 * v0 + 1]);
            r.push(verts[3 * v0 + 2]);
            r.push(verts[3 * v1]);
            r.push(verts[3 * v1 + 1]);
            r.push(verts[3 * v1 + 2]);
            proof {
                assert forall|m: int| 6 * e <= m < 6 * e + 6 implies r@[m] == edge_word(b, m) by {
                    assert(m / 6 == e as int && m % 6 == m - 6 * e) by (nonlinear_arith)
                        requires 6 * e <= m < 6 * e + 6;
                }
            }
            e += 1;
        }
        proof {
            assert(edges_ok(b));
        }
        Ok(r)
    }

    /// Decode the face-edge lump: one signed 32-bit value per slot.
    pub fn read_face_edges(&self) -> (r: Vec<i32>)
        requires
            self.wf_header(),
        ensures
            r@.len() == num_face_edges(self.bytes@),
            forall|i: int| 0 <= i < r@.len() ==> r@[i] as int == fe_val(self.bytes@, i),
    {
        let ghost b = self.bytes@;
        proof {
            assert(lump_in_range(b, 12));
            assert(self.lumps@[12].offset as int == lump_off(b, 12));
            assert(self.lumps@[12].length as int == lump_len(b, 12));
        }
        let lump: BSP38Lump = self.lumps[LUMP_FACE_EDGES];
        let off: usize = lump.offset as usize;
        let llen: usize = lump.length as usize;
        let count: usize = llen / 4;
        proof {
            assert(count as int == num_face_edges(b));
            assert(4 * (llen as int / 4) <= llen as int) by (nonlinear_arith)
                requires llen >= 0;
        }
        let mut r: Vec<i32> = Vec::new();
        let mut i: usize = 0;
        while i < count
            invariant
                self.wf_header(),
                b == self.bytes@,
                count as int == num_face_edges(b),
                off as int == fe_off(b),
                off + 4 * count <= self.bytes@.len(),
                i <= count,
                r@.len() == i,
                forall|t: int| 0 <= t < i ==> r@[t] as int == fe_val(b, t),
            decreases count - i,
        {
            let w: i32 = read_i32_at(&self.bytes, off + 4 * i);
            r.push(w);
            i += 1;
        }
        r
    }

    /// Decode the plane lump: for each plane the three normal words and
    /// the distance word, in file order; the type tag is read over and
    /// discarded.
    pub fn read_planes(&self) -> (r: Vec<[u32; 4]>)
        requires
            self.wf_header(),
        ensures
            r@.len() == num_planes(self.bytes@),
            forall|p: int, j: int|
                0 <= p < r@.len() && 0 <= j < 4 ==> r@[p]@[j] == plane_word(self.bytes@, p, j),
    {
        let ghost b = self.bytes@;
        proof {
            assert(lump_in_range(b, 1));
            assert(self.lumps@[1].offset as int == lump_off(b, 1));
            assert(self.lumps@[1].length as int == lump_len(b, 1));
        }
        let lump: BSP38Lump = self.lumps[LUMP_PLANES];
        let off: usize = lump.offset as usize;
        let llen: usize = lump.length as usize;
        let count: usize = llen / 20;
        proof {
            assert(count as int == num_planes(b));
            assert(20 * (llen as int / 20) <= llen as int) by (nonlinear_arith)
                requires llen >= 0;
        }
        let mut r: Vec<[u32; 4]> = Vec::new();
        let mut p: usize = 0;
        while p < count
            invariant
                self.wf_header(),
                b == self.bytes@,
                count as int == num_planes(b),
                off as int == plane_off(b),
                off + 20 * count <= self.bytes@.len(),
                p <= count,
                r@.len() == p,
                forall|t: int, j: int|
                    0 <= t < p && 0 <= j < 4 ==> r@[t]@[j] == plane_word(b, t, j),
            decreases count - p,
        {
            let w0: u32 = read_u32_at(&self.bytes, off + 20 * p);
            let w1: u32 = read_u32_at(&self.bytes, off + 20 * p + 4);
            let w2: u32 = read_u32_at(&self.bytes, off + 20 * p + 8);
            let w3: u32 = read_u32_at(&self.bytes, off + 20 * p + 12);
            r.push([w0, w1, w2, w3]);
            p += 1;
        }
        r
    }
}

} // verus!
