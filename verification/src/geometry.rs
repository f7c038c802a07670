//! Face decoding and fan triangulation.
//!
//! Each face names a plane, a texture-info record and a contiguous run of
//! signed face-edge slots. A slot's absolute value picks an edge; its
//! sign picks which endpoint of that edge is the boundary point. The
//! boundary loop is fan-triangulated from its first point, and each
//! candidate triangle carries the face's (possibly negated) plane normal.
//!
//! Whether a candidate fan triangle must be emitted forward `(a, b, c)`
//! or reversed `(c, b, a)` depends on the sign of a floating-point dot
//! product, which the caller computes from the candidate's words;
//! [`BSP38::read_faces`] then assembles the final flat buffers from those
//! decisions and the caller-computed UV words.

use crate::decode::edge_word;
use crate::decode::edges_ok;
use crate::decode::fe_val;
use crate::decode::lump_in_range;
use crate::decode::lump_len;
use crate::decode::lump_off;
use crate::decode::num_edges;
use crate::decode::num_face_edges;
use crate::decode::num_planes;
use crate::decode::plane_off;
use crate::decode::plane_word;
use crate::decode::BspError;
use crate::decode::BSP38;
use crate::decode::LUMP_FACES;
use crate::decode::LUMP_PLANES;
use crate::bytes::le16;
use crate::bytes::le32;
use crate::bytes::read_u16_at;
use crate::bytes::read_u32_at;
use crate::fbits::f32_neg;
use crate::fbits::f32_neg_bits;
use crate::texinfo::num_tex;
use vstd::prelude::*;

verus! {

/// A 3-vector of float words.
#[derive(Debug, Clone, Copy, PartialEq, Eq, Structural)]
pub struct Pt {
    pub x: u32,
    pub y: u32,
    pub z: u32,
}

/// One candidate fan triangle of a face, before orientation.
///
/// `step` is the fan index within the face (the first triangle of a face
/// has step 2, matching the boundary point it ends at); the candidate
/// order is `(a, b, c)` and `normal` is the face's resolved plane normal.
#[derive(Debug, Clone, Copy, PartialEq, Eq, Structural)]
pub struct Triangle {
    pub face: usize,
    pub step: usize,
    pub a: Pt,
    pub b: Pt,
    pub c: Pt,
    pub normal: Pt,
    pub tex: usize,
}

/// Byte offset of the face lump.
pub open spec fn face_off(b: Seq<u8>) -> int {
    lump_off(b, 6)
}

/// Number of faces: 20 bytes each.
pub open spec fn num_faces(b: Seq<u8>) -> int {
    lump_len(b, 6) / 20
}

/// Plane index of face `k`.
pub open spec fn face_plane(b: Seq<u8>, k: int) -> int {
    le16(b, face_off(b) + 20 * k) as int
}

/// Plane-side flag of face `k`; 0 means the stored normal is negated.
pub open spec fn face_side(b: Seq<u8>, k: int) -> int {
    le16(b, face_off(b) + 20 * k + 2) as int
}

/// First face-edge slot of face `k`.
pub open spec fn face_first_edge(b: Seq<u8>, k: int) -> int {
    le32(b, face_off(b) + 20 * k + 4) as int
}

/// Number of face-edge slots of face `k`.
pub open spec fn face_edge_count(b: Seq<u8>, k: int) -> int {
    le16(b, face_off(b) + 20 * k + 8) as int
}

/// Texture-info index of face `k`.
pub open spec fn face_tex(b: Seq<u8>, k: int) -> int {
    le16(b, face_off(b) + 20 * k + 10) as int
}

/// Component `j` of face `k`'s resolved normal: the plane's normal word,
/// sign-flipped when the side flag is 0.
pub open spec fn face_normal_word(b: Seq<u8>, k: int, j: int) -> u32 {
    if face_side(b, k) == 0 {
        f32_neg(plane_word(b, face_plane(b, k), j))
    } else {
        plane_word(b, face_plane(b, k), j)
    }
}

/// Face `k`'s resolved normal.
pub open spec fn face_normal(b: Seq<u8>, k: int) -> Pt {
    Pt {
        x: face_normal_word(b, k, 0),
        y: face_normal_word(b, k, 1),
        z: face_normal_word(b, k, 2),
    }
}

/// Face-edge slot `i` names an edge that exists; a non-negative value
/// uses that edge's start point, a negative one the end point of the
/// edge at its absolute value.
pub open spec fn fe_slot_ok(b: Seq<u8>, i: int) -> bool {
    if fe_val(b, i) >= 0 {
        fe_val(b, i) < num_edges(b)
    } else {
        -fe_val(b, i) < num_edges(b)
    }
}

/// Index into the resolved edge-word sequence of the boundary point that
/// slot `i` selects.
pub open spec fn fe_point_base(b: Seq<u8>, i: int) -> int {
    if fe_val(b, i) >= 0 {
        6 * fe_val(b, i)
    } else {
        6 * -fe_val(b, i) + 3
    }
}

/// Boundary point `j` of face `k`.
pub open spec fn face_pt(b: Seq<u8>, k: int, j: int) -> Pt {
    Pt {
        x: edge_word(b, fe_point_base(b, face_first_edge(b, k) + j)),
        y: edge_word(b, fe_point_base(b, face_first_edge(b, k) + j) + 1),
        z: edge_word(b, fe_point_base(b, face_first_edge(b, k) + j) + 2),
    }
}

/// Face `k`'s cross-references are all in range.
pub open spec fn face_ok(b: Seq<u8>, k: int) -> bool {
    &&& face_plane(b, k) < num_planes(b)
    &&& face_tex(b, k) < num_tex(b)
    &&& face_first_edge(b, k) + face_edge_count(b, k) <= num_face_edges(b)
    &&& forall|j: int|
        0 <= j < face_edge_count(b, k) ==> #[trigger] fe_slot_ok(b, face_first_edge(b, k) + j)
}

/// Every face's cross-references are in range.
pub open spec fn faces_ok(b: Seq<u8>) -> bool {
    forall|k: int| 0 <= k < num_faces(b) ==> #[trigger] face_ok(b, k)
}

/// Number of fan triangles of face `k`: two fewer than its boundary
/// points, and none for a degenerate face.
pub open spec fn tri_count(b: Seq<u8>, k: int) -> int {
    if face_edge_count(b, k) >= 3 {
        face_edge_count(b, k) - 2
    } else {
        0
    }
}

/// Candidate fan triangle `s` of face `k`: the boundary's first point
/// and the pair at `s + 1`, `s + 2`.
pub open spec fn mk_tri(b: Seq<u8>, k: int, s: int) -> Triangle {
    Triangle {
        face: k as usize,
        step: (s + 2) as usize,
        a: face_pt(b, k, 0),
        b: face_pt(b, k, s + 1),
        c: face_pt(b, k, s + 2),
        normal: face_normal(b, k),
        tex: face_tex(b, k) as usize,
    }
}

/// All candidate triangles of face `k`, in fan order.
pub open spec fn face_tris(b: Seq<u8>, k: int) -> Seq<Triangle> {
    Seq::new(tri_count(b, k) as nat, |s: int| mk_tri(b, k, s))
}

/// Candidate triangles of the first `n` faces, concatenated in face
/// order.
pub open spec fn tris_upto(b: Seq<u8>, n: int) -> Seq<Triangle>
    decreases n,
{
    if n <= 0 {
        Seq::empty()
    } else {
        tris_upto(b, n - 1) + face_tris(b, n - 1)
    }
}

/// Every candidate triangle of the buffer, in face then fan order.
pub open spec fn all_tris(b: Seq<u8>) -> Seq<Triangle> {
    tris_upto(b, num_faces(b))
}

impl BSP38 {
    /// Decode every face into its candidate fan triangles. Fails exactly
    /// when an edge, plane, texture-info or face-edge cross-reference
    /// points outside its target sequence.
    pub fn face_triangles(&self) -> (r: Result<Vec<Triangle>, BspError>)
        requires
            self.wf_header(),
        ensures
            r.is_ok() <==> edges_ok(self.bytes@) && faces_ok(self.bytes@),
            r matches Ok(v) ==> v@ == all_tris(self.bytes@),
            !(edges_ok(self.bytes@) && faces_ok(self.bytes@)) ==> r == Result::<
                Vec<Triangle>,
                BspError,
            >::Err(BspError::IndexOutOfRange),
    {
        let ghost b = self.bytes@;
        let edge_data: Vec<u32> = match self.read_edges() {
            Ok(v) => v,
            Err(e) => {
                return Err(e);
            },
        };
        let ne: usize = edge_data.len() / 6;
        let face_edges: Vec<i32> = self.read_face_edges();
        let nfe: usize = face_edges.len();
        proof {
            assert(ne as int == num_edges(b)) by (nonlinear_arith)
                requires
                    edge_data@.len() == 6 * num_edges(b),
                    ne == edge_data@.len() / 6,
                    num_edges(b) >= 0;
            assert(lump_in_range(b, 1));
            assert(self.lumps@[1].offset as int == lump_off(b, 1));
            assert(self.lumps@[1].length as int == lump_len(b, 1));
            assert(lump_in_range(b, 5));
            assert(self.lumps@[5].length as int == lump_len(b, 5));
            assert(lump_in_range(b, 6));
            assert(self.lumps@[6].offset as int == lump_off(b, 6));
            assert(self.lumps@[6].length as int == lump_len(b, 6));
        }
        let poff: usize = self.lumps[LUMP_PLANES].offset as usize;
        let np: usize = (self.lumps[LUMP_PLANES].length as usize) / 20;
        let nt: usize = (self.lumps[5].length as usize) / 76;
        let foff: usize = self.lumps[LUMP_FACES].offset as usize;
        let flen: usize = self.lumps[LUMP_FACES].length as usize;
        let nf: usize = flen / 20;
        proof {
            assert(np as int == num_planes(b));
            assert(nt as int == num_tex(b));
            assert(nf as int == num_faces(b));
            assert(20 * (self.lumps@[1].length as int / 20) <= self.lumps@[1].length as int)
                by (nonlinear_arith)
                requires self.lumps@[1].length >= 0;
            assert(20 * (flen as int / 20) <= flen as int) by (nonlinear_arith)
                requires flen >= 0;
        }
        let mut tris: Vec<Triangle> = Vec::new();
        let mut k: usize = 0;
        while k < nf
            invariant
                self.wf_header(),
                b == self.bytes@,
                edges_ok(b),
                edge_data@.len() == 6 * num_edges(b),
                forall|m: int| 0 <= m < edge_data@.len() ==> edge_data@[m] == edge_word(b, m),
                ne as int == num_edges(b),
                face_edges@.len() == num_face_edges(b),
                forall|i: int| 0 <= i < face_edges@.len() ==> face_edges@[i] as int == fe_val(b, i),
                nfe as int == num_face_edges(b),
                poff as int == plane_off(b),
                np as int == num_planes(b),
                poff + 20 * np <= self.bytes@.len(),
                nt as int == num_tex(b),
                foff as int == face_off(b),
                nf as int == num_faces(b),
                foff + 20 * nf <= self.bytes@.len(),
                k <= nf,
                forall|t: int| 0 <= t < k ==> #[trigger] face_ok(b, t),
                tris@ == tris_upto(b, k as int),
            decreases nf - k,
        {
            let fbase: usize = foff + 20 * k;
            let plane_index: usize = read_u16_at(&self.bytes, fbase) as usize;
            let plane_side: u16 = read_u16_at(&self.bytes, fbase + 2);
            let edge_index: usize = read_u32_at(&self.bytes, fbase + 4) as usize;
            let edge_count: usize = read_u16_at(&self.bytes, fbase + 8) as usize;
            let tex_index: usize = read_u16_at(&self.bytes, fbase + 10) as usize;
            if plane_index >= np || tex_index >= nt || edge_index > nfe || edge_count > nfe
                - edge_index {
                proof {
                    assert(!face_ok(b, k as int));
                }
                return Err(BspError::IndexOutOfRange);
            }
            let nw0: u32 = read_u32_at(&self.bytes, poff + 20 * plane_index);
            let nw1: u32 = read_u32_at(&self.bytes, poff + 20 * plane_index + 4);
            let nw2: u32 = read_u32_at(&self.bytes, poff + 20 * plane_index + 8);
            let normal: Pt = if plane_side == 0 {
                Pt { x: f32_neg_bits(nw0), y: f32_neg_bits(nw1), z: f32_neg_bits(nw2) }
            } else {
                Pt { x: nw0, y: nw1, z: nw2 }
            };
            proof {
                assert(normal == face_normal(b, k as int));
            }
            let mut pts: Vec<Pt> = Vec::new();
            let mut j: usize = 0;
            while j < edge_count
                invariant
                    b == self.bytes@,
                    edge_data@.len() == 6 * num_edges(b),
                    forall|m: int| 0 <= m < edge_data@.len() ==> edge_data@[m] == edge_word(b, m),
                    ne as int == num_edges(b),
                    face_edges@.len() == num_face_edges(b),
                    forall|i: int|
                        0 <= i < face_edges@.len() ==> face_edges@[i] as int == fe_val(b, i),
                    nfe as int == num_face_edges(b),
                    k < nf,
                    nf as int == num_faces(b),
                    edge_index as int == face_first_edge(b, k as int),
                    edge_count as int == face_edge_count(b, k as int),
                    edge_index + edge_count <= nfe,
                    j <= edge_count,
                    pts@.len() == j,
                    forall|t: int| 0 <= t < j ==> pts@[t] == face_pt(b, k as int, t),
                    forall|t: int|
                        0 <= t < j ==> #[trigger] fe_slot_ok(b, face_first_edge(b, k as int) + t),
                decreases edge_count - j,
            {
                let fi: i32 = face_edges[edge_index + j];
                let base: usize = if fi >= 0 {
                    let e: usize = fi as usize;
                    if e >= ne {
                        proof {
                            assert(!fe_slot_ok(b, face_first_edge(b, k as int) + j));
                            assert(!face_ok(b, k as int));
                        }
                        return Err(BspError::IndexOutOfRange);
                    }
                    6 * e
                } else {
                    let e: usize = (-(fi as i64)) as usize;
                    if e >= ne {
                        proof {
                            assert(!fe_slot_ok(b, face_first_edge(b, k as int) + j));
                            assert(!face_ok(b, k as int));
                        }
                        return Err(BspError::IndexOutOfRange);
                    }
                    6 * e + 3
                };
                proof {
                    assert(fe_slot_ok(b, face_first_edge(b, k as int) + j));
                    assert(base as int == fe_point_base(b, face_first_edge(b, k as int) + j));
                }
                pts.push(Pt { x: edge_data[base], y: edge_data[base + 1], z: edge_data[base + 2] });
                j += 1;
            }
            proof {
                assert(face_ok(b, k as int));
            }
            let mut s: usize = 2;
            while s < pts.len()
                invariant
                    b == self.bytes@,
                    k < nf,
                    nf as int == num_faces(b),
                    pts@.len() == face_edge_count(b, k as int),
                    forall|t: int| 0 <= t < pts@.len() ==> pts@[t] == face_pt(b, k as int, t),
                    normal == face_normal(b, k as int),
                    tex_index as int == face_tex(b, k as int),
                    2 <= s,
                    pts@.len() >= 3 ==> s <= pts@.len(),
                    pts@.len() < 3 ==> s == 2,
                    tris@ == tris_upto(b, k as int) + face_tris(b, k as int).subrange(
                        0,
                        if s - 2 <= tri_count(b, k as int) { (s - 2) as int } else { 0 },
                    ),
                decreases pts@.len() - s,
            {
                tris.push(
                    Triangle {
                        face: k,
                        step: s,
                        a: pts[0],
                        b: pts[s - 1],
                        c: pts[s],
                        normal,
                        tex: tex_index,
                    },
                );
                proof {
                    assert(tris@.last() == mk_tri(b, k as int, s - 2));
                    assert(tris@ =~= tris_upto(b, k as int) + face_tris(b, k as int).subrange(
                        0,
                        s - 1,
                    ));
                }
                s += 1;
            }
            proof {
                assert(tris@ =~= tris_upto(b, k as int + 1));
            }
            k += 1;
        }
        proof {
            assert(faces_ok(b));
            assert(tris@ == all_tris(b));
        }
        Ok(tris)
    }
}

/// The four parallel flat output buffers: three position words, three
/// normal words and three color words per emitted vertex, two texture
/// words per emitted vertex, three vertices per triangle.
#[derive(Debug)]
pub struct FaceData {
    pub points: Vec<u32>,
    pub normals: Vec<u32>,
    pub colors: Vec<u32>,
    pub uv: Vec<u32>,
}

/// Component `c` of debug-palette entry `idx` (float words of the nine
/// RGB triples).
pub open spec fn palette_word(idx: int, c: int) -> u32 {
    if idx == 0 {
        if c == 0 { 0x3F72F1AA } else if c == 1 { 0x3F21A36E } else { 0x3F0E9100 }
    } else if idx == 1 {
        if c == 0 { 0x3E9E9E1B } else if c == 1 { 0x3F3BB98C } else { 0x3F46C8B4 }
    } else if idx == 2 {
        if c == 0 { 0x3F71F213 } else if c == 1 { 0x3F30B0F2 } else { 0x3E149518 }
    } else if idx == 3 {
        if c == 0 { 0x3F43C361 } else if c == 1 { 0x3F5BDA51 } else { 0x3ECACD9F }
    } else if idx == 4 {
        if c == 0 { 0x3F38BAC7 } else if c == 1 { 0x3E0C985F } else { 0x3DC0B780 }
    } else if idx == 5 {
        if c == 0 { 0x3EDEDFA4 } else if c == 1 { 0x3F128F5C } else { 0x3E20AA65 }
    } else if idx == 6 {
        if c == 0 { 0x3EE8E8A7 } else if c == 1 { 0x3E28A71E } else { 0x3BFF9724 }
    } else if idx == 7 {
        if c == 0 { 0x3F118FC5 } else if c == 1 { 0x3E9C9EED } else { 0x3F1E9E1B }
    } else {
        if c == 0 { 0x3E9096BC } else if c == 1 { 0x3ECECBFB } else { 0x3E20AA65 }
    }
}

/// Palette index of a triangle: face index plus fan step, modulo the
/// palette size.
pub open spec fn tri_color_idx(t: Triangle) -> int {
    (t.face + t.step) % 9
}

/// The nine position words a triangle emits: candidate order `(a, b, c)`
/// when `wind` holds, reversed `(c, b, a)` otherwise.
pub open spec fn tri_points(t: Triangle, wind: bool) -> Seq<u32> {
    if wind {
        seq![t.a.x, t.a.y, t.a.z, t.b.x, t.b.y, t.b.z, t.c.x, t.c.y, t.c.z]
    } else {
        seq![t.c.x, t.c.y, t.c.z, t.b.x, t.b.y, t.b.z, t.a.x, t.a.y, t.a.z]
    }
}

/// The nine normal words a triangle emits: its flat normal, once per
/// vertex.
pub open spec fn tri_normals(t: Triangle) -> Seq<u32> {
    seq![
        t.normal.x,
        t.normal.y,
        t.normal.z,
        t.normal.x,
        t.normal.y,
        t.normal.z,
        t.normal.x,
        t.normal.y,
        t.normal.z,
    ]
}

/// The nine color words a triangle emits: its palette triple, once per
/// vertex.
pub open spec fn tri_colors(t: Triangle) -> Seq<u32> {
    seq![
        palette_word(tri_color_idx(t), 0),
        palette_word(tri_color_idx(t), 1),
        palette_word(tri_color_idx(t), 2),
        palette_word(tri_color_idx(t), 0),
        palette_word(tri_color_idx(t), 1),
        palette_word(tri_color_idx(t), 2),
        palette_word(tri_color_idx(t), 0),
        palette_word(tri_color_idx(t), 1),
        palette_word(tri_color_idx(t), 2),
    ]
}

/// The six texture words a triangle emits, given the six caller-computed
/// words for its candidate corners in order: kept when the candidate
/// order is kept, corner-swapped when the triangle is reversed.
pub open spec fn tri_uv(u6: Seq<u32>, wind: bool) -> Seq<u32> {
    if wind {
        u6
    } else {
        seq![u6[4], u6[5], u6[2], u6[3], u6[0], u6[1]]
    }
}

/// The `q`-th nine-word chunk of a flat buffer.
pub open spec fn chunk9(s: Seq<u32>, q: int) -> Seq<u32> {
    s.subrange(9 * q, 9 * q + 9)
}

/// The `q`-th six-word chunk of a flat buffer.
pub open spec fn chunk6(s: Seq<u32>, q: int) -> Seq<u32> {
    s.subrange(6 * q, 6 * q + 6)
}

/// The emitted buffers `fd` are the assembly of the triangles `ts` under
/// the winding decisions `winds` and corner texture words `uvs`.
pub open spec fn assembled(fd: FaceData, ts: Seq<Triangle>, winds: Seq<bool>, uvs: Seq<u32>) -> bool {
    &&& fd.points@.len() == 9 * ts.len()
    &&& fd.normals@.len() == 9 * ts.len()
    &&& fd.colors@.len() == 9 * ts.len()
    &&& fd.uv@.len() == 6 * ts.len()
    &&& forall|q: int| 0 <= q < ts.len() ==> #[trigger] chunk9(fd.points@, q) == tri_points(ts[q], winds[q])
    &&& forall|q: int| 0 <= q < ts.len() ==> #[trigger] chunk9(fd.normals@, q) == tri_normals(ts[q])
    &&& forall|q: int| 0 <= q < ts.len() ==> #[trigger] chunk9(fd.colors@, q) == tri_colors(ts[q])
    &&& forall|q: int| 0 <= q < ts.len() ==> #[trigger] chunk6(fd.uv@, q) == tri_uv(chunk6(uvs, q), winds[q])
}

/// The palette triple of entry `idx`.
fn palette_color(idx: usize) -> (r: [u32; 3])
    requires
        idx < 9,
    ensures
        r@[0] == palette_word(idx as int, 0),
        r@[1] == palette_word(idx as int, 1),
        r@[2] == palette_word(idx as int, 2),
{
    if idx == 0 {
        [0x3F72F1AA, 0x3F21A36E, 0x3F0E9100]
    } else if idx == 1 {
        [0x3E9E9E1B, 0x3F3BB98C, 0x3F46C8B4]
    } else if idx == 2 {
        [0x3F71F213, 0x3F30B0F2, 0x3E149518]
    } else if idx == 3 {
        [0x3F43C361, 0x3F5BDA51, 0x3ECACD9F]
    } else if idx == 4 {
        [0x3F38BAC7, 0x3E0C985F, 0x3DC0B780]
    } else if idx == 5 {
        [0x3EDEDFA4, 0x3F128F5C, 0x3E20AA65]
    } else if idx == 6 {
        [0x3EE8E8A7, 0x3E28A71E, 0x3BFF9724]
    } else if idx == 7 {
        [0x3F118FC5, 0x3E9C9EED, 0x3F1E9E1B]
    } else {
        [0x3E9096BC, 0x3ECECBFB, 0x3E20AA65]
    }
}

/// Assemble the flat output buffers from candidate triangles, one
/// winding decision per triangle (true keeps the candidate order) and
/// six caller-computed texture words per triangle.
pub fn assemble_face_data(tris: &Vec<Triangle>, winds: &Vec<bool>, uvs: &Vec<u32>) -> (r: FaceData)
    requires
        winds@.len() == tris@.len(),
        uvs@.len() == 6 * tris@.len(),
    ensures
        assembled(r, tris@, winds@, uvs@),
{
    let n: usize = tris.len();
    let n_uv: usize = uvs.len();
    let mut points: Vec<u32> = Vec::new();
    let mut normals: Vec<u32> = Vec::new();
    let mut colors: Vec<u32> = Vec::new();
    let mut uv: Vec<u32> = Vec::new();
    let mut t: usize = 0;
    while t < n
        invariant
            n == tris@.len(),
            winds@.len() == n,
            uvs@.len() == 6 * n,
            t <= n,
            n_uv == 6 * n,
            points@.len() == 9 * t,
            normals@.len() == 9 * t,
            colors@.len() == 9 * t,
            uv@.len() == 6 * t,
            forall|q: int| 0 <= q < t ==> #[trigger] chunk9(points@, q) == tri_points(tris@[q], winds@[q]),
            forall|q: int| 0 <= q < t ==> #[trigger] chunk9(normals@, q) == tri_normals(tris@[q]),
            forall|q: int| 0 <= q < t ==> #[trigger] chunk9(colors@, q) == tri_colors(tris@[q]),
            forall|q: int| 0 <= q < t ==> #[trigger] chunk6(uv@, q) == tri_uv(chunk6(uvs@, q), winds@[q]),
        decreases n - t,
    {
        let ghost old_points = points@;
        let ghost old_normals = normals@;
        let ghost old_colors = colors@;
        let ghost old_uv = uv@;
        let tri: Triangle = tris[t];
        let wind: bool = winds[t];
        if wind {
            points.push(tri.a.x);
            points.push(tri.a.y);
            points.push(tri.a.z);
            points.push(tri.b.x);
            points.push(tri.b.y);
            points.push(tri.b.z);
            points.push(tri.c.x);
            points.push(tri.c.y);
            points.push(tri.c.z);
            uv.push(uvs[6 * t]);
            uv.push(uvs[6 * t + 1]);
            uv.push(uvs[6 * t + 2]);
            uv.push(uvs[6 * t + 3]);
            uv.push(uvs[6 * t + 4]);
            uv.push(uvs[6 * t + 5]);
        } else {
            points.push(tri.c.x);
            points.push(tri.c.y);
            points.push(tri.c.z);
            points.push(tri.b.x);
            points.push(tri.b.y);
            points.push(tri.b.z);
            points.push(tri.a.x);
            points.push(tri.a.y);
            points.push(tri.a.z);
            uv.push(uvs[6 * t + 4]);
            uv.push(uvs[6 * t + 5]);
            uv.push(uvs[6 * t + 2]);
            uv.push(uvs[6 * t + 3]);
            uv.push(uvs[6 * t]);
            uv.push(uvs[6 * t + 1]);
        }
        let mut rep: usize = 0;
        while rep < 3
            invariant
                rep <= 3,
                normals@.len() == 9 * t + 3 * rep,
                normals@ == old_normals + tri_normals(tri).subrange(0, 3 * rep),
            decreases 3 - rep,
        {
            normals.push(tri.normal.x);
            normals.push(tri.normal.y);
            normals.push(tri.normal.z);
            proof {
                assert(normals@ =~= old_normals + tri_normals(tri).subrange(0, 3 * rep + 3));
            }
            rep += 1;
        }
        let cidx: usize = (tri.face % 9 + tri.step % 9) % 9;
        proof {
            vstd::arithmetic::div_mod::lemma_add_mod_noop(tri.face as int, tri.step as int, 9);
        }
        let col: [u32; 3] = palette_color(cidx);
        let mut rep2: usize = 0;
        while rep2 < 3
            invariant
                rep2 <= 3,
                cidx < 9,
                col@[0] == palette_word(cidx as int, 0),
                col@[1] == palette_word(cidx as int, 1),
                col@[2] == palette_word(cidx as int, 2),
                cidx as int == tri_color_idx(tri),
                colors@.len() == 9 * t + 3 * rep2,
                colors@ == old_colors + tri_colors(tri).subrange(0, 3 * rep2),
            decreases 3 - rep2,
        {
            colors.push(col[0]);
            colors.push(col[1]);
            colors.push(col[2]);
            proof {
                assert(colors@ =~= old_colors + tri_colors(tri).subrange(0, 3 * rep2 + 3));
            }
            rep2 += 1;
        }
        proof {
            assert forall|q: int| 0 <= q < t + 1 implies #[trigger] chunk9(points@, q)
                == tri_points(tris@[q], winds@[q]) by {
                if q < t {
                    assert(chunk9(points@, q) =~= chunk9(old_points, q));
                } else {
                    assert(chunk9(points@, q) =~= tri_points(tri, wind));
                }
            }
            assert forall|q: int| 0 <= q < t + 1 implies #[trigger] chunk9(normals@, q)
                == tri_normals(tris@[q]) by {
                if q < t {
                    assert(chunk9(normals@, q) =~= chunk9(old_normals, q));
                } else {
                    assert(tri_normals(tri).subrange(0, 9) =~= tri_normals(tri));
                    assert(chunk9(normals@, q) =~= tri_normals(tri));
                }
            }
            assert forall|q: int| 0 <= q < t + 1 implies #[trigger] chunk9(colors@, q)
                == tri_colors(tris@[q]) by {
                if q < t {
                    assert(chunk9(colors@, q) =~= chunk9(old_colors, q));
                } else {
                    assert(tri_colors(tri).subrange(0, 9) =~= tri_colors(tri));
                    assert(chunk9(colors@, q) =~= tri_colors(tri));
                }
            }
            assert forall|q: int| 0 <= q < t + 1 implies #[trigger] chunk6(uv@, q) == tri_uv(
                chunk6(uvs@, q),
                winds@[q],
            ) by {
                if q < t {
                    assert(chunk6(uv@, q) =~= chunk6(old_uv, q));
                } else {
                    assert(chunk6(uv@, q) =~= tri_uv(chunk6(uvs@, q), wind));
                }
            }
        }
        t += 1;
    }
    FaceData { points, normals, colors, uv }
}

impl BSP38 {
    /// Reconstruct the renderable mesh: decode every face's candidate
    /// triangles, then assemble the flat buffers under the caller's
    /// per-triangle winding decisions and per-corner texture words.
    ///
    /// A winding decision is true when the candidate order `(a, b, c)`
    /// is kept, which the caller derives from the sign of the dot
    /// product between the candidate's geometric normal and its face
    /// normal; the texture words are the planar projection of each
    /// candidate corner onto the face's texture axes.
    pub fn read_faces(&self, winds: &Vec<bool>, uvs: &Vec<u32>) -> (r: Result<FaceData, BspError>)
        requires
            self.wf_header(),
            winds@.len() == all_tris(self.bytes@).len(),
            uvs@.len() == 6 * all_tris(self.bytes@).len(),
        ensures
            r.is_ok() <==> edges_ok(self.bytes@) && faces_ok(self.bytes@),
            r matches Ok(fd) ==> assembled(fd, all_tris(self.bytes@), winds@, uvs@),
            !(edges_ok(self.bytes@) && faces_ok(self.bytes@)) ==> r == Result::<
                FaceData,
                BspError,
            >::Err(BspError::IndexOutOfRange),
    {
        let tris: Vec<Triangle> = match self.face_triangles() {
            Ok(v) => v,
            Err(e) => {
                return Err(e);
            },
        };
        Ok(assemble_face_data(&tris, winds, uvs))
    }
}

} // verus!
