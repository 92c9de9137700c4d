use noise::noise_fns::generators::perlin::Perlin;
use noise::noise_fns::{NoiseFn, Seedable};

fn floor(x: f64) -> (f64, isize) {
    let f = x.floor();
    (f, f as isize)
}

#[test]
fn perlin_is_zero_at_lattice_points() {
    let perlin = Perlin::new(floor);
    assert_eq!(perlin.perlin_2d(3.0, -2.0), 0.0);
    assert_eq!(perlin.perlin_3d(1.0, 2.0, 3.0), 0.0);
}

#[test]
fn perlin_stays_in_range() {
    let perlin = Perlin::new(floor);
    let mut state: u64 = 0x2545_F491_4F6C_DD1D;
    let mut next = move || {
        state ^= state << 13;
        state ^= state >> 7;
        state ^= state << 17;
        (state >> 11) as f64 / (1u64 << 53) as f64 * 200.0 - 100.0
    };
    for _ in 0..10_000 {
        let flat = [next(), next()];
        let v: f64 = perlin.get(flat);
        assert!((-1.0..=1.0).contains(&v));
        let w = perlin.perlin_2d(flat[0], flat[1]);
        assert!((-1.0..=1.0).contains(&w));
        let solid = [next(), next(), next()];
        let v: f64 = perlin.get(solid);
        assert!((-1.0..=1.0).contains(&v));
        let v = perlin.perlin_3d_surflet(solid);
        assert!((-1.0..=1.0).contains(&v));
        let hyper = [next(), next(), next(), next()];
        let v: f64 = perlin.get(hyper);
        assert!((-1.0..=1.0).contains(&v));
    }
}

#[test]
fn perlin_is_deterministic() {
    let a = Perlin::new(floor).set_seed(7);
    let b = Perlin::new(floor).set_seed(7);
    for i in 0..100 {
        let p = [i as f64 * 0.37 + 0.11, i as f64 * -0.21 + 0.5];
        let x: f64 = a.get(p);
        let y: f64 = b.get(p);
        assert_eq!(x.to_bits(), y.to_bits());
        let z: f64 = a.get(p);
        assert_eq!(x.to_bits(), z.to_bits());
    }
}

#[test]
fn seeds_give_different_noise() {
    let a = Perlin::new(floor).set_seed(1);
    let b = Perlin::new(floor).set_seed(2);
    let mut differ = 0;
    for i in 0..200 {
        let p = [i as f64 * 0.173 + 0.31, i as f64 * 0.291 + 0.77];
        let x: f64 = a.get(p);
        let y: f64 = b.get(p);
        if x != y {
            differ += 1;
        }
    }
    assert!(differ > 150);
}

#[test]
fn serial_and_parallel_batches_agree() {
    let perlin = Perlin::new(floor).set_seed(3);
    let x: Vec<f64> = (0..500).map(|i| i as f64 * 0.13 - 20.0).collect();
    let y: Vec<f64> = (0..500).map(|i| i as f64 * -0.07 + 3.0).collect();
    let z: Vec<f64> = (0..500).map(|i| i as f64 * 0.011).collect();
    let serial = perlin.perlin_2d_autovec(&x, &y);
    let parallel = perlin.perlin_2d_autovec_pariter(&x, &y);
    assert_eq!(serial.len(), 500);
    assert_eq!(
        serial.iter().map(|v| v.to_bits()).collect::<Vec<_>>(),
        parallel.iter().map(|v| v.to_bits()).collect::<Vec<_>>()
    );
    assert_eq!(serial[17], perlin.perlin_2d(x[17], y[17]));
    assert!(serial.iter().any(|v| *v != serial[0]));
    let serial = perlin.perlin_3d_autovec(&x, &y, &z);
    let parallel = perlin.perlin_3d_autovec_pariter(&x, &y, &z);
    assert_eq!(serial, parallel);
    assert_eq!(serial[499], perlin.perlin_3d(x[499], y[499], z[499]));
}

#[test]
fn non_finite_points_give_no_number() {
    let perlin = Perlin::new(floor);
    assert!(perlin.perlin_2d(f64::NAN, 0.5).is_nan());
    assert!(perlin.perlin_3d(0.5, f64::INFINITY, 0.5).is_nan());
    let v: f64 = perlin.get([f64::NAN, 0.5]);
    assert!(v.is_nan());
    let v: f64 = perlin.get([0.5, f64::INFINITY]);
    assert!(v.is_nan());
    let v: f64 = perlin.get([f64::NEG_INFINITY, 0.5, 0.25, 0.125]);
    assert!(v.is_nan());
    assert!(perlin.perlin_3d_surflet([0.5, f64::NAN, 0.5]).is_nan());
}

#[test]
fn known_values() {
    // At the centre of a cell every corner is half a diagonal away: the
    // attenuation is 1 - 1/2 and its fourth power 1/16.
    let perlin = Perlin::new(floor);
    let v: f64 = perlin.get([0.5, 0.5]);
    let table = noise::permutationtable::PermutationTable::new(0);
    let mut sum = 0.0;
    for (dx, dy) in [(0i8, 0i8), (1, 0), (0, 1), (1, 1)] {
        let g: [f64; 2] = noise::gradient::gradient2(table.at2([0, 0], [dx, dy]));
        let d = [0.5 - dx as f64, 0.5 - dy as f64];
        sum += 0.0625 * (d[0] * g[0] + d[1] * g[1]);
    }
    assert_eq!(v, (sum * (256.0 / 81.0)).clamp(-1.0, 1.0));
    assert_ne!(v, 0.0);
}
