use noise::noise_fns::generators::open_simplex::{
    vertices_2d, vertices_3d_high, vertices_3d_low, vertices_3d_mid, vertices_4d, OpenSimplex,
};
use noise::noise_fns::{NoiseFn, Seedable};

fn floor(x: f64) -> (f64, isize) {
    let f = x.floor();
    (f, f as isize)
}

fn walk(seed: u64) -> impl FnMut() -> f64 {
    let mut state = seed;
    move || {
        state ^= state << 13;
        state ^= state >> 7;
        state ^= state << 17;
        (state >> 11) as f64 / (1u64 << 53) as f64 * 40.0 - 20.0
    }
}

#[test]
fn open_simplex_is_continuous_2d() {
    let noise = OpenSimplex::new(floor);
    let mut next = walk(0x9E37_79B9_7F4A_7C15);
    for _ in 0..20_000 {
        let p = [next(), next()];
        let q = [p[0] + 1e-6, p[1] - 1e-6];
        let a: f64 = noise.get(p);
        let b: f64 = noise.get(q);
        assert!((a - b).abs() < 1e-4, "{:?} {} {}", p, a, b);
        assert!(a.abs() <= 1.0);
    }
}

#[test]
fn open_simplex_is_continuous_3d() {
    let noise = OpenSimplex::new(floor).set_seed(5);
    let mut next = walk(0x1234_5678_9ABC_DEF1);
    for _ in 0..20_000 {
        let p = [next(), next(), next()];
        let q = [p[0] + 1e-6, p[1] - 1e-6, p[2] + 1e-6];
        let a: f64 = noise.get(p);
        let b: f64 = noise.get(q);
        assert!((a - b).abs() < 1e-4, "{:?} {} {}", p, a, b);
        assert!(a.abs() <= 1.0);
    }
}

#[test]
fn open_simplex_is_continuous_4d() {
    let noise = OpenSimplex::new(floor).set_seed(9);
    let mut next = walk(0x0F0F_1234_5678_9ABC);
    for _ in 0..20_000 {
        let p = [next(), next(), next(), next()];
        let q = [p[0] + 1e-6, p[1] - 1e-6, p[2] + 1e-6, p[3] + 1e-6];
        let a: f64 = noise.get(p);
        let b: f64 = noise.get(q);
        assert!((a - b).abs() < 1e-4, "{:?} {} {}", p, a, b);
        assert!(a.abs() <= 1.0);
    }
}

#[test]
fn open_simplex_is_deterministic_and_seeded() {
    let a = OpenSimplex::new(floor).set_seed(1);
    let b = OpenSimplex::new(floor).set_seed(1);
    let c = OpenSimplex::new(floor).set_seed(2);
    assert_eq!(a.seed(), 1);
    let mut differ = 0;
    for i in 0..200 {
        let p = [i as f64 * 0.173 + 0.31, i as f64 * 0.291 + 0.77, 0.5];
        let x: f64 = a.get(p);
        let y: f64 = b.get(p);
        let z: f64 = c.get(p);
        assert_eq!(x.to_bits(), y.to_bits());
        if x != z {
            differ += 1;
        }
    }
    assert!(differ > 150);
}

#[test]
fn vertex_tables() {
    assert_eq!(vertices_2d(true, true, true), vec![[1, 0], [0, 1], [0, 0], [1, -1]]);
    assert_eq!(vertices_2d(true, true, false), vec![[1, 0], [0, 1], [0, 0], [-1, 1]]);
    assert_eq!(vertices_2d(true, false, false), vec![[1, 0], [0, 1], [0, 0], [1, 1]]);
    assert_eq!(vertices_2d(false, true, true), vec![[1, 0], [0, 1], [1, 1], [2, 0]]);
    assert_eq!(vertices_2d(false, true, false), vec![[1, 0], [0, 1], [1, 1], [0, 2]]);
    assert_eq!(vertices_2d(false, false, true), vec![[1, 0], [0, 1], [1, 1], [0, 0]]);
    assert_eq!(vertices_3d_low(true, 1)[4..], [[1, -1, 0], [1, 0, -1]]);
    assert_eq!(vertices_3d_low(true, 2)[4..], [[-1, 1, 0], [0, 1, -1]]);
    assert_eq!(vertices_3d_low(true, 4)[4..], [[-1, 0, 1], [0, -1, 1]]);
    assert_eq!(vertices_3d_low(false, 3)[4..], [[1, 1, 0], [1, 1, -1]]);
    assert_eq!(vertices_3d_low(false, 5)[4..], [[1, 0, 1], [1, -1, 1]]);
    assert_eq!(vertices_3d_low(false, 6)[4..], [[0, 1, 1], [-1, 1, 1]]);
    assert_eq!(vertices_3d_high(true, 3)[4..], [[2, 1, 0], [1, 2, 0]]);
    assert_eq!(vertices_3d_high(true, 5)[4..], [[2, 0, 1], [1, 0, 2]]);
    assert_eq!(vertices_3d_high(true, 6)[4..], [[0, 2, 1], [0, 1, 2]]);
    assert_eq!(vertices_3d_high(false, 1)[4..], [[1, 0, 0], [2, 0, 0]]);
    assert_eq!(vertices_3d_high(false, 2)[4..], [[0, 1, 0], [0, 2, 0]]);
    assert_eq!(vertices_3d_high(false, 4)[4..], [[0, 0, 1], [0, 0, 2]]);
    assert_eq!(vertices_3d_mid(3, true, 5, true)[6..], [[1, 1, 1], [2, 0, 0]]);
    assert_eq!(vertices_3d_mid(3, true, 6, true)[6..], [[1, 1, 1], [0, 2, 0]]);
    assert_eq!(vertices_3d_mid(6, true, 5, true)[6..], [[1, 1, 1], [0, 0, 2]]);
    assert_eq!(vertices_3d_mid(4, false, 2, false)[6..], [[0, 0, 0], [-1, 1, 1]]);
    assert_eq!(vertices_3d_mid(4, false, 1, false)[6..], [[0, 0, 0], [1, -1, 1]]);
    assert_eq!(vertices_3d_mid(1, false, 2, false)[6..], [[0, 0, 0], [1, 1, -1]]);
    assert_eq!(vertices_3d_mid(3, true, 2, false)[6..], [[1, 1, -1], [0, 2, 0]]);
    assert_eq!(vertices_3d_mid(4, false, 5, true)[6..], [[1, -1, 1], [0, 0, 2]]);
    assert_eq!(vertices_3d_mid(6, true, 1, false)[6..], [[-1, 1, 1], [2, 0, 0]]);
    assert_eq!(vertices_4d(0).len(), 5);
    assert_eq!(vertices_4d(1)[4], [1, 1, 1, 1]);
    assert_eq!(vertices_4d(2).len(), 10);
    assert_eq!(vertices_4d(2)[0], [1, 0, 0, 0]);
    assert_eq!(vertices_4d(3)[0], [1, 1, 1, 0]);
    assert_eq!(vertices_4d(3)[9], [0, 0, 1, 1]);
}

#[test]
fn open_simplex_near_the_origin_of_a_cell() {
    // The point (0.3, 0.2) lies in the cell at the origin, in its lower
    // triangle, nearer to the first axis than to the diagonal: the extra
    // vertex is (1, -1).
    let noise = OpenSimplex::new(floor);
    let v: f64 = noise.get([0.3, 0.2]);
    let table = noise::permutationtable::PermutationTable::new(0);
    let squish = 0.366_025_403_784_439;
    let mut sum = 0.0;
    for o in [[1i8, 0i8], [0, 1], [0, 0], [1, -1]] {
        let s = (o[0] + o[1]) as f64;
        let d = [0.3 - (o[0] as f64 + squish * s), 0.2 - (o[1] as f64 + squish * s)];
        let attn = 2.0 - (d[0] * d[0] + d[1] * d[1]);
        if attn > 0.0 {
            let g: [f64; 2] = noise::gradient::gradient2(table.at2([0, 0], o));
            sum += (attn * attn) * (attn * attn) * (d[0] * g[0] + d[1] * g[1]);
        }
    }
    assert!((v - sum * (1.0 / 14.0)).abs() < 1e-12);
    assert!(v.abs() > 1e-3);
    let at_vertex: f64 = noise.get([0.0, 0.0]);
    assert!(at_vertex.abs() < 1e-12);
    let w: f64 = noise.get([f64::NAN, 1.0, 2.0]);
    assert!(w.is_nan());
}

#[test]
fn open_simplex_gives_no_number_for_non_finite_points() {
    let noise = OpenSimplex::new(floor);
    let v: f64 = noise.get([f64::NAN, 0.5]);
    assert!(v.is_nan());
    let v: f64 = noise.get([0.5, f64::INFINITY]);
    assert!(v.is_nan());
    let v: f64 = noise.get([0.5, f64::NEG_INFINITY, 1.0]);
    assert!(v.is_nan());
    let v: f64 = noise.get([0.5, 0.25, f64::NAN, 1.0]);
    assert!(v.is_nan());
    let v: f64 = noise.get([f64::INFINITY, 0.25, 0.0, 1.0]);
    assert!(v.is_nan());
    assert_eq!(noise.seed(), 0);
}
