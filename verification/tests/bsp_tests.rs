use bsp38::BspError;
use bsp38::BSP38;

// Build a file: "IBSP" tag, version 38, 19-entry directory, payloads
// appended after the 160-byte header in the order given.
fn build_bsp(lumps: &[(usize, Vec<u8>)]) -> Vec<u8> {
    let mut dir: Vec<(i32, i32)> = vec![(0, 0); 19];
    let mut payload: Vec<u8> = Vec::new();
    for (idx, data) in lumps {
        dir[*idx] = ((160 + payload.len()) as i32, data.len() as i32);
        payload.extend_from_slice(data);
    }
    let mut out: Vec<u8> = Vec::new();
    out.extend_from_slice(b"IBSP");
    out.extend_from_slice(&38u32.to_le_bytes());
    for (o, l) in dir {
        out.extend_from_slice(&o.to_le_bytes());
        out.extend_from_slice(&l.to_le_bytes());
    }
    out.extend_from_slice(&payload);
    out
}

fn vertex_lump(vs: &[[f32; 3]]) -> Vec<u8> {
    let mut out = Vec::new();
    for v in vs {
        for c in v {
            out.extend_from_slice(&c.to_le_bytes());
        }
    }
    out
}

fn edge_lump(es: &[(i16, i16)]) -> Vec<u8> {
    let mut out = Vec::new();
    for (a, b) in es {
        out.extend_from_slice(&a.to_le_bytes());
        out.extend_from_slice(&b.to_le_bytes());
    }
    out
}

fn plane_lump(ps: &[([f32; 3], f32)]) -> Vec<u8> {
    let mut out = Vec::new();
    for (n, d) in ps {
        for c in n {
            out.extend_from_slice(&c.to_le_bytes());
        }
        out.extend_from_slice(&d.to_le_bytes());
        out.extend_from_slice(&0u32.to_le_bytes());
    }
    out
}

fn face_edge_lump(fes: &[i32]) -> Vec<u8> {
    let mut out = Vec::new();
    for v in fes {
        out.extend_from_slice(&v.to_le_bytes());
    }
    out
}

// (plane, side, first_edge, edge_count, tex)
fn face_lump(fs: &[(u16, u16, u32, u16, u16)]) -> Vec<u8> {
    let mut out = Vec::new();
    for (p, s, fe, ec, tx) in fs {
        out.extend_from_slice(&p.to_le_bytes());
        out.extend_from_slice(&s.to_le_bytes());
        out.extend_from_slice(&fe.to_le_bytes());
        out.extend_from_slice(&ec.to_le_bytes());
        out.extend_from_slice(&tx.to_le_bytes());
        out.extend_from_slice(&0u32.to_le_bytes());
        out.extend_from_slice(&0u32.to_le_bytes());
    }
    out
}

// (u axis, u0, v axis, v0, name bytes)
fn texinfo_lump(ts: &[([f32; 3], f32, [f32; 3], f32, &[u8])]) -> Vec<u8> {
    let mut out = Vec::new();
    for (u, u0, v, v0, name) in ts {
        for c in u {
            out.extend_from_slice(&c.to_le_bytes());
        }
        out.extend_from_slice(&u0.to_le_bytes());
        for c in v {
            out.extend_from_slice(&c.to_le_bytes());
        }
        out.extend_from_slice(&v0.to_le_bytes());
        out.extend_from_slice(&0u32.to_le_bytes());
        out.extend_from_slice(&0u32.to_le_bytes());
        let mut nm = [0u8; 32];
        nm[..name.len()].copy_from_slice(name);
        out.extend_from_slice(&nm);
        out.extend_from_slice(&0u32.to_le_bytes());
    }
    out
}

// The winding decision and UV words the reconstruction asks its caller
// for: wind is true (candidate order kept) when the candidate's
// geometric normal points against the face normal.
fn winds_and_uvs(bsp: &BSP38) -> (Vec<bool>, Vec<u32>) {
    let tris = bsp.face_triangles().unwrap();
    let tex = bsp.read_texture_info();
    let mut winds = Vec::new();
    let mut uvs = Vec::new();
    for t in &tris {
        let a = [
            f32::from_bits(t.a.x),
            f32::from_bits(t.a.y),
            f32::from_bits(t.a.z),
        ];
        let b = [
            f32::from_bits(t.b.x),
            f32::from_bits(t.b.y),
            f32::from_bits(t.b.z),
        ];
        let c = [
            f32::from_bits(t.c.x),
            f32::from_bits(t.c.y),
            f32::from_bits(t.c.z),
        ];
        let n = [
            f32::from_bits(t.normal.x),
            f32::from_bits(t.normal.y),
            f32::from_bits(t.normal.z),
        ];
        let cross = [
            (b[1] - a[1]) * (c[2] - a[2]) - (b[2] - a[2]) * (c[1] - a[1]),
            (b[2] - a[2]) * (c[0] - a[0]) - (b[0] - a[0]) * (c[2] - a[2]),
            (b[0] - a[0]) * (c[1] - a[1]) - (b[1] - a[1]) * (c[0] - a[0]),
        ];
        let norm = (cross[0].powi(2) + cross[1].powi(2) + cross[2].powi(2)).sqrt();
        let wind: [f32; 3] = [cross[0] / norm, cross[1] / norm, cross[2] / norm];
        let dot: f32 = wind.iter().zip(&n).map(|(w, x)| w * x).sum();
        winds.push(dot < 0.0);
        let ti = &tex[t.tex];
        let ua = [
            f32::from_bits(ti.u[0]),
            f32::from_bits(ti.u[1]),
            f32::from_bits(ti.u[2]),
        ];
        let va = [
            f32::from_bits(ti.v[0]),
            f32::from_bits(ti.v[1]),
            f32::from_bits(ti.v[2]),
        ];
        let u0 = f32::from_bits(ti.u0);
        let v0 = f32::from_bits(ti.v0);
        for p in [a, b, c] {
            let uu = u0 + p[0] * ua[0] + p[1] * ua[1] + p[2] * ua[2];
            let vv = v0 + p[0] * va[0] + p[1] * va[1] + p[2] * va[2];
            uvs.push(uu.to_bits());
            uvs.push(vv.to_bits());
        }
    }
    (winds, uvs)
}

#[test]
fn decode_minimal_round_trip() {
    let bytes = build_bsp(&[(2, vertex_lump(&[[1.0, 2.0, 3.0]]))]);
    let f = BSP38::from_bytes(bytes.clone()).unwrap();
    assert_eq!(f.magic.as_str(), "IBSP");
    assert_eq!(f.version, 38);
    assert_eq!(f.lumps.len(), 19);
    for l in &f.lumps {
        assert!(l.offset >= 0 && l.length >= 0);
        assert!((l.offset as usize) + (l.length as usize) <= bytes.len());
    }
    let vs = f.read_vertices();
    assert_eq!(vs.len(), 3);
    assert_eq!(f32::from_bits(vs[0]), 1.0);
    assert_eq!(f32::from_bits(vs[1]), 2.0);
    assert_eq!(f32::from_bits(vs[2]), 3.0);
    let bd = f.bounds();
    for j in 0..3 {
        assert_eq!(f32::from_bits(bd.min[j]), [1.0f32, 2.0, 3.0][j]);
        assert_eq!(f32::from_bits(bd.max[j]), [1.0f32, 2.0, 3.0][j]);
    }
}

#[test]
fn decode_rejects_bad_magic() {
    let mut bytes = build_bsp(&[]);
    bytes[0] = b'X';
    assert_eq!(BSP38::from_bytes(bytes).unwrap_err(), BspError::BadMagic);
    let short = b"QBSP".to_vec();
    assert_eq!(BSP38::from_bytes(short).unwrap_err(), BspError::BadMagic);
    let mut lower = build_bsp(&[]);
    lower[3] = b'p';
    assert_eq!(BSP38::from_bytes(lower).unwrap_err(), BspError::BadMagic);
}

#[test]
fn decode_rejects_truncated() {
    assert_eq!(BSP38::from_bytes(Vec::new()).unwrap_err(), BspError::Truncated);
    assert_eq!(BSP38::from_bytes(b"IB".to_vec()).unwrap_err(), BspError::Truncated);
    assert_eq!(
        BSP38::from_bytes(b"IBSP\x26\x00\x00\x00".to_vec()).unwrap_err(),
        BspError::Truncated
    );
    let cut = build_bsp(&[])[..150].to_vec();
    assert_eq!(BSP38::from_bytes(cut).unwrap_err(), BspError::Truncated);
}

#[test]
fn decode_rejects_lump_out_of_range() {
    let mut bytes = build_bsp(&[]);
    // vertices entry claims 12 bytes past the end of the buffer
    bytes[8 + 8 * 2..8 + 8 * 2 + 4].copy_from_slice(&160i32.to_le_bytes());
    bytes[8 + 8 * 2 + 4..8 + 8 * 2 + 8].copy_from_slice(&12i32.to_le_bytes());
    assert_eq!(BSP38::from_bytes(bytes).unwrap_err(), BspError::LumpOutOfRange);
    let mut neg = build_bsp(&[]);
    neg[8..12].copy_from_slice(&(-8i32).to_le_bytes());
    assert_eq!(BSP38::from_bytes(neg).unwrap_err(), BspError::LumpOutOfRange);
}

#[test]
fn bounds_of_empty_vertex_lump_is_sentinel() {
    let f = BSP38::from_bytes(build_bsp(&[])).unwrap();
    let bd = f.bounds();
    for j in 0..3 {
        assert_eq!(f32::from_bits(bd.min[j]), f32::INFINITY);
        assert_eq!(f32::from_bits(bd.max[j]), f32::NEG_INFINITY);
    }
}

#[test]
fn bounds_min_max_contain_all_vertices() {
    let vs = [
        [1.0f32, -5.0, 0.25],
        [-3.5, 7.0, 0.5],
        [2.0, 0.0, -9.75],
    ];
    let f = BSP38::from_bytes(build_bsp(&[(2, vertex_lump(&vs))])).unwrap();
    let bd = f.bounds();
    let min: Vec<f32> = bd.min.iter().map(|w| f32::from_bits(*w)).collect();
    let max: Vec<f32> = bd.max.iter().map(|w| f32::from_bits(*w)).collect();
    assert_eq!(min, vec![-3.5, -5.0, -9.75]);
    assert_eq!(max, vec![2.0, 7.0, 0.5]);
    for j in 0..3 {
        assert!(min[j] <= max[j]);
        for v in &vs {
            assert!(min[j] <= v[j] && v[j] <= max[j]);
        }
    }
}

#[test]
fn read_edges_resolves_endpoint_positions() {
    let vs = [[0.0f32, 0.0, 0.0], [1.0, 0.0, 0.0], [1.0, 1.0, 0.0]];
    let bytes = build_bsp(&[
        (2, vertex_lump(&vs)),
        (11, edge_lump(&[(0, 1), (2, 0)])),
    ]);
    let f = BSP38::from_bytes(bytes).unwrap();
    let e = f.read_edges().unwrap();
    let vals: Vec<f32> = e.iter().map(|w| f32::from_bits(*w)).collect();
    assert_eq!(
        vals,
        vec![0.0, 0.0, 0.0, 1.0, 0.0, 0.0, 1.0, 1.0, 0.0, 0.0, 0.0, 0.0]
    );
}

#[test]
fn read_edges_rejects_bad_vertex_index() {
    let vs = [[0.0f32, 0.0, 0.0]];
    let bytes = build_bsp(&[(2, vertex_lump(&vs)), (11, edge_lump(&[(0, 1)]))]);
    let f = BSP38::from_bytes(bytes).unwrap();
    assert_eq!(f.read_edges(), Err(BspError::IndexOutOfRange));
}

#[test]
fn read_face_edges_decodes_signed_values() {
    let bytes = build_bsp(&[(12, face_edge_lump(&[3, -2, 0]))]);
    let f = BSP38::from_bytes(bytes).unwrap();
    assert_eq!(f.read_face_edges(), vec![3, -2, 0]);
}

#[test]
fn read_planes_decodes_normals_and_distance() {
    let bytes = build_bsp(&[(1, plane_lump(&[([0.0, 0.0, 1.0], 5.0)]))]);
    let f = BSP38::from_bytes(bytes).unwrap();
    let ps = f.read_planes();
    assert_eq!(ps.len(), 1);
    assert_eq!(f32::from_bits(ps[0][0]), 0.0);
    assert_eq!(f32::from_bits(ps[0][1]), 0.0);
    assert_eq!(f32::from_bits(ps[0][2]), 1.0);
    assert_eq!(f32::from_bits(ps[0][3]), 5.0);
}

#[test]
fn texture_name_trims_nul_padding() {
    let bytes = build_bsp(&[(
        5,
        texinfo_lump(&[([1.0, 0.0, 0.0], 0.0, [0.0, 1.0, 0.0], 0.0, b"e1u1/")]),
    )]);
    let f = BSP38::from_bytes(bytes).unwrap();
    let ts = f.read_texture_info();
    assert_eq!(ts.len(), 1);
    assert_eq!(ts[0].texture.as_str(), "e1u1/");
}

#[test]
fn texture_name_trims_surrounding_whitespace() {
    let bytes = build_bsp(&[(
        5,
        texinfo_lump(&[([1.0, 0.0, 0.0], 0.0, [0.0, 1.0, 0.0], 0.0, b"  wall 2 \t")]),
    )]);
    let f = BSP38::from_bytes(bytes).unwrap();
    let ts = f.read_texture_info();
    assert_eq!(ts[0].texture.as_str(), "wall 2");
}

// A square face in the plane z = 0: four boundary points from four
// edges, walked with the signed face-edge convention.
fn square_file(plane_normal: [f32; 3], side: u16) -> Vec<u8> {
    let vs = [
        [0.0f32, 0.0, 0.0],
        [1.0, 0.0, 0.0],
        [1.0, 1.0, 0.0],
        [0.0, 1.0, 0.0],
    ];
    let edges = [(0i16, 1i16), (1, 2), (2, 3), (0, 3)];
    // the last edge is traversed end-to-start through a negative slot
    let fes = [0i32, 1, 2, -3];
    build_bsp(&[
        (2, vertex_lump(&vs)),
        (11, edge_lump(&edges)),
        (12, face_edge_lump(&fes)),
        (1, plane_lump(&[(plane_normal, 0.0)])),
        (5, texinfo_lump(&[([1.0, 0.0, 0.0], 0.5, [0.0, 1.0, 0.0], 0.25, b"e1u1/floor")])),
        (6, face_lump(&[(0, side, 0, 4, 0)])),
    ])
}

#[test]
fn fan_emits_edge_count_minus_two_triangles() {
    let f = BSP38::from_bytes(square_file([0.0, 0.0, 1.0], 1)).unwrap();
    let tris = f.face_triangles().unwrap();
    assert_eq!(tris.len(), 2);
    assert_eq!(tris[0].step, 2);
    assert_eq!(tris[1].step, 3);
    let (winds, uvs) = winds_and_uvs(&f);
    let fd = f.read_faces(&winds, &uvs).unwrap();
    assert_eq!(fd.points.len(), 2 * 9);
    assert_eq!(fd.normals.len(), 2 * 9);
    assert_eq!(fd.colors.len(), 2 * 9);
    assert_eq!(fd.uv.len(), 2 * 6);
}

#[test]
fn degenerate_face_emits_no_triangles() {
    let vs = [[0.0f32, 0.0, 0.0], [1.0, 0.0, 0.0]];
    let bytes = build_bsp(&[
        (2, vertex_lump(&vs)),
        (11, edge_lump(&[(0, 1)])),
        (12, face_edge_lump(&[0])),
        (1, plane_lump(&[([0.0, 0.0, 1.0], 0.0)])),
        (5, texinfo_lump(&[([1.0, 0.0, 0.0], 0.0, [0.0, 1.0, 0.0], 0.0, b"x")])),
        (6, face_lump(&[(0, 1, 0, 1, 0)])),
    ]);
    let f = BSP38::from_bytes(bytes).unwrap();
    let tris = f.face_triangles().unwrap();
    assert_eq!(tris.len(), 0);
    let fd = f.read_faces(&Vec::new(), &Vec::new()).unwrap();
    assert_eq!(fd.points.len(), 0);
    assert_eq!(fd.uv.len(), 0);
}

#[test]
fn face_with_bad_plane_index_is_rejected() {
    let vs = [[0.0f32, 0.0, 0.0], [1.0, 0.0, 0.0], [1.0, 1.0, 0.0]];
    let bytes = build_bsp(&[
        (2, vertex_lump(&vs)),
        (11, edge_lump(&[(0, 1), (1, 2), (2, 0)])),
        (12, face_edge_lump(&[0, 1, 2])),
        (1, plane_lump(&[([0.0, 0.0, 1.0], 0.0)])),
        (5, texinfo_lump(&[([1.0, 0.0, 0.0], 0.0, [0.0, 1.0, 0.0], 0.0, b"x")])),
        (6, face_lump(&[(7, 1, 0, 3, 0)])),
    ]);
    let f = BSP38::from_bytes(bytes).unwrap();
    assert_eq!(f.face_triangles(), Err(BspError::IndexOutOfRange));
}

#[test]
fn face_with_bad_edge_reference_is_rejected() {
    let vs = [[0.0f32, 0.0, 0.0], [1.0, 0.0, 0.0], [1.0, 1.0, 0.0]];
    let bytes = build_bsp(&[
        (2, vertex_lump(&vs)),
        (11, edge_lump(&[(0, 1), (1, 2), (2, 0)])),
        (12, face_edge_lump(&[0, 1, 9])),
        (1, plane_lump(&[([0.0, 0.0, 1.0], 0.0)])),
        (5, texinfo_lump(&[([1.0, 0.0, 0.0], 0.0, [0.0, 1.0, 0.0], 0.0, b"x")])),
        (6, face_lump(&[(0, 1, 0, 3, 0)])),
    ]);
    let f = BSP38::from_bytes(bytes).unwrap();
    assert_eq!(f.face_triangles(), Err(BspError::IndexOutOfRange));
}

fn emitted_triangles(fd: &bsp38::FaceData) -> Vec<[[f32; 3]; 3]> {
    let mut out = Vec::new();
    for t in 0..fd.points.len() / 9 {
        let p = |i: usize| {
            [
                f32::from_bits(fd.points[9 * t + 3 * i]),
                f32::from_bits(fd.points[9 * t + 3 * i + 1]),
                f32::from_bits(fd.points[9 * t + 3 * i + 2]),
            ]
        };
        out.push([p(0), p(1), p(2)]);
    }
    out
}

// One triangular face whose candidate fan normal already opposes the
// face normal: the candidate order must be kept.
#[test]
fn triangle_kept_when_winding_opposes_normal() {
    // side flag 1 keeps the stored plane normal (0, 0, 1); the boundary
    // (0,0,0) (1,0,0) (1,1,0) winds counter-clockwise, so the candidate
    // cross product points along +z and the dot is positive: reversed.
    let vs = [[0.0f32, 0.0, 0.0], [1.0, 0.0, 0.0], [1.0, 1.0, 0.0]];
    let bytes = build_bsp(&[
        (2, vertex_lump(&vs)),
        (11, edge_lump(&[(0, 1), (1, 2), (2, 0)])),
        (12, face_edge_lump(&[0, 1, 2])),
        (1, plane_lump(&[([0.0, 0.0, -1.0], 0.0)])),
        (5, texinfo_lump(&[([1.0, 0.0, 0.0], 0.0, [0.0, 1.0, 0.0], 0.0, b"x")])),
        (6, face_lump(&[(0, 1, 0, 3, 0)])),
    ]);
    // face normal (0,0,-1); candidate cross points along +z; dot < 0,
    // so the candidate order (a, b, c) is kept.
    let f = BSP38::from_bytes(bytes).unwrap();
    let (winds, uvs) = winds_and_uvs(&f);
    assert_eq!(winds, vec![true]);
    let fd = f.read_faces(&winds, &uvs).unwrap();
    let tris = emitted_triangles(&fd);
    assert_eq!(
        tris[0],
        [[0.0, 0.0, 0.0], [1.0, 0.0, 0.0], [1.0, 1.0, 0.0]]
    );
}

// The same boundary against the opposite face normal: the emitted
// triangle must be the reversed candidate.
#[test]
fn triangle_reversed_when_winding_matches_normal() {
    let f = BSP38::from_bytes(square_file([0.0, 0.0, 1.0], 1)).unwrap();
    let (winds, uvs) = winds_and_uvs(&f);
    assert_eq!(winds, vec![false, false]);
    let fd = f.read_faces(&winds, &uvs).unwrap();
    let tris = emitted_triangles(&fd);
    // candidate (0,0,0) (1,0,0) (1,1,0) reversed
    assert_eq!(
        tris[0],
        [[1.0, 1.0, 0.0], [1.0, 0.0, 0.0], [0.0, 0.0, 0.0]]
    );
    // candidate (0,0,0) (1,1,0) (0,1,0) reversed
    assert_eq!(
        tris[1],
        [[0.0, 1.0, 0.0], [1.0, 1.0, 0.0], [0.0, 0.0, 0.0]]
    );
}

#[test]
fn emitted_winding_agrees_with_assigned_normal() {
    for (normal, side) in [([0.0f32, 0.0, 1.0], 1u16), ([0.0, 0.0, 1.0], 0)] {
        let f = BSP38::from_bytes(square_file(normal, side)).unwrap();
        let (winds, uvs) = winds_and_uvs(&f);
        let fd = f.read_faces(&winds, &uvs).unwrap();
        let tris = emitted_triangles(&fd);
        for (t, tri) in tris.iter().enumerate() {
            let [a, b, c] = *tri;
            let e1 = [b[0] - a[0], b[1] - a[1], b[2] - a[2]];
            let e2 = [c[0] - a[0], c[1] - a[1], c[2] - a[2]];
            // winding normal oriented with the emit rule's sign
            // convention: cross of the edges taken as (c - a) x (b - a)
            let cross = [
                e2[1] * e1[2] - e2[2] * e1[1],
                e2[2] * e1[0] - e2[0] * e1[2],
                e2[0] * e1[1] - e2[1] * e1[0],
            ];
            let n = [
                f32::from_bits(fd.normals[9 * t]),
                f32::from_bits(fd.normals[9 * t + 1]),
                f32::from_bits(fd.normals[9 * t + 2]),
            ];
            let dot = cross[0] * n[0] + cross[1] * n[1] + cross[2] * n[2];
            assert!(dot >= 0.0);
        }
    }
}

#[test]
fn uv_is_planar_projection_onto_texture_axes() {
    let f = BSP38::from_bytes(square_file([0.0, 0.0, 1.0], 1)).unwrap();
    let (winds, uvs) = winds_and_uvs(&f);
    let fd = f.read_faces(&winds, &uvs).unwrap();
    // u = 0.5 + x, v = 0.25 + y for every emitted vertex
    for i in 0..fd.points.len() / 3 {
        let x = f32::from_bits(fd.points[3 * i]);
        let y = f32::from_bits(fd.points[3 * i + 1]);
        let u = f32::from_bits(fd.uv[2 * i]);
        let v = f32::from_bits(fd.uv[2 * i + 1]);
        assert_eq!(u, 0.5 + x);
        assert_eq!(v, 0.25 + y);
    }
}

#[test]
fn colors_follow_debug_palette() {
    let f = BSP38::from_bytes(square_file([0.0, 0.0, 1.0], 1)).unwrap();
    let (winds, uvs) = winds_and_uvs(&f);
    let fd = f.read_faces(&winds, &uvs).unwrap();
    // face 0, steps 2 and 3: palette entries 2 and 3, repeated per vertex
    let p2 = [0.9451f32, 0.6902, 0.1451];
    let p3 = [0.7647f32, 0.8588, 0.3961];
    for v in 0..3 {
        for c in 0..3 {
            assert_eq!(f32::from_bits(fd.colors[9 * 0 + 3 * v + c]), p2[c]);
            assert_eq!(f32::from_bits(fd.colors[9 * 1 + 3 * v + c]), p3[c]);
        }
    }
}

#[test]
fn flat_normals_repeat_face_normal() {
    let f = BSP38::from_bytes(square_file([0.0, 0.0, 1.0], 0)).unwrap();
    let (winds, uvs) = winds_and_uvs(&f);
    let fd = f.read_faces(&winds, &uvs).unwrap();
    // side flag 0 negates the stored (0, 0, 1) normal
    for v in 0..fd.normals.len() / 3 {
        assert_eq!(f32::from_bits(fd.normals[3 * v]), 0.0);
        assert_eq!(f32::from_bits(fd.normals[3 * v + 1]), 0.0);
        assert_eq!(f32::from_bits(fd.normals[3 * v + 2]), -1.0);
    }
}
