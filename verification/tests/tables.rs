use noise::gradient::{get2, get3, get4, gradient2, gradient3, gradient4};
use noise::permutationtable::PermutationTable;
use noise::scalar::{abs, clamp, constant, fourth_power, lerp, max, min, s_curve3};

#[test]
fn table_is_a_permutation() {
    for seed in [0u32, 1, 2, 12_421_343, u32::MAX] {
        let table = PermutationTable::new(seed);
        let mut seen = [false; 256];
        for x in 0..256isize {
            let h = table.get1(x);
            assert!(h < 256);
            assert!(!seen[h]);
            seen[h] = true;
        }
    }
}

#[test]
fn table_depends_on_the_seed_alone() {
    let a = PermutationTable::new(42);
    let b = PermutationTable::new(42);
    let c = PermutationTable::new(43);
    let mut differ = 0;
    for x in -300..300isize {
        assert_eq!(a.get2([x, 7 - x]), b.get2([x, 7 - x]));
        assert_eq!(a.get4([x, 1, 2, 3]), b.get4([x, 1, 2, 3]));
        if a.get3([x, x, x]) != c.get3([x, x, x]) {
            differ += 1;
        }
    }
    assert!(differ > 500);
}

#[test]
fn hash_reads_the_low_byte_of_each_coordinate() {
    let table = PermutationTable::new(9);
    assert_eq!(table.get1(5), table.get1(5 + 256));
    assert_eq!(table.get1(-1), table.get1(255));
    assert_eq!(table.get2([3, -4]), table.get2([3 - 512, 252]));
    assert_eq!(table.get3([isize::MAX, isize::MIN, 0]), table.get3([255, 0, 256]));
    assert_eq!(table.at2([10, 20], [1, -1]), table.get2([11, 19]));
    assert_eq!(table.at3([-1, 255, 0], [2, 1, -1]), table.get3([1, 0, -1]));
    assert_eq!(table.at4([isize::MAX, 0, 0, 0], [1, 0, 0, 2]), table.get4([0, 0, 0, 2]));
    assert_eq!(table.get2([3, 4]), table.get1((table.get1(3) + 4) as isize));
}

#[test]
fn first_shuffle_step_of_seed_one() {
    // xorshift of 1 is 270369; 270369 % 256 = 33: the entry at 255 is 33.
    let table = PermutationTable::new(1);
    assert_eq!(table.get1(255), 33);
    // xorshift of 2 is 540738; 540738 % 256 = 66.
    let table = PermutationTable::new(2);
    assert_eq!(table.get1(255), 66);
}

#[test]
fn gradient_directions() {
    assert_eq!(get2(0), [1, 0]);
    assert_eq!(get2(1), [-1, 0]);
    assert_eq!(get2(2), [0, 1]);
    assert_eq!(get2(3), [0, -1]);
    assert_eq!(get2(4), [1, 1]);
    assert_eq!(get2(7), [-1, -1]);
    assert_eq!(get2(15), [-1, -1]);
    assert_eq!(get3(0), [1, 1, 0]);
    assert_eq!(get3(5), [-1, 0, 1]);
    assert_eq!(get3(11), [0, -1, -1]);
    assert_eq!(get3(12), [1, 1, 0]);
    assert_eq!(get3(24), [1, 1, 1]);
    assert_eq!(get3(31), [-1, -1, -1]);
    assert_eq!(get4(0), [0, 1, 1, 1]);
    assert_eq!(get4(9), [-1, 0, 1, 1]);
    assert_eq!(get4(31), [-1, -1, -1, 0]);
    assert_eq!(get4(32), [1, 1, 1, 1]);
    assert_eq!(get4(63), [-1, -1, -1, -1]);
    for k in 0..64usize {
        let d = get4(k);
        let o = (0..64).map(get4).find(|e| (0..4).all(|i| e[i] == -d[i]));
        assert!(o.is_some());
    }
}

#[test]
fn gradients_have_unit_length() {
    for k in 0..8 {
        let g: [f64; 2] = gradient2(k);
        assert!((g[0] * g[0] + g[1] * g[1] - 1.0).abs() < 1e-15);
    }
    for k in 0..32 {
        let g: [f64; 3] = gradient3(k);
        assert!((g.iter().map(|c| c * c).sum::<f64>() - 1.0).abs() < 1e-15);
    }
    for k in 0..64 {
        let g: [f64; 4] = gradient4(k);
        assert!((g.iter().map(|c| c * c).sum::<f64>() - 1.0).abs() < 1e-15);
    }
    let g: [f64; 2] = gradient2(5);
    assert_eq!(g, [-std::f64::consts::FRAC_1_SQRT_2, std::f64::consts::FRAC_1_SQRT_2]);
}

#[test]
fn constants_are_exact() {
    let c: f64 = constant([3, 10518, 8090, 56636, 0], 4);
    assert_eq!(c, 3.160_493_827_160_493_7);
    assert_eq!(c, 256.0 / 81.0);
    let c: f64 = constant([0, 23987, 55106, 49765, 27648], 4);
    assert_eq!(c, 0.366_025_403_784_439);
    let c: f64 = constant([2, 11141, 7864, 20971, 32768], 4);
    assert_eq!(c, 2.17);
    let c: f64 = constant([0, 0, 0, 0, 5], 0);
    assert_eq!(c, 5.0);
}

#[test]
fn scalar_formulas() {
    assert_eq!(clamp(5.0, -1.0, 1.0), 1.0);
    assert_eq!(clamp(-5.0, -1.0, 1.0), -1.0);
    assert_eq!(clamp(0.5, -1.0, 1.0), 0.5);
    assert_eq!(max(1.0, 2.0), 2.0);
    assert_eq!(min(1.0, 2.0), 1.0);
    assert_eq!(abs(-2.5), 2.5);
    assert_eq!(abs(2.5), 2.5);
    assert_eq!(abs(-0.0f64).to_bits(), 0.0f64.to_bits());
    assert_eq!(lerp(1.0, 3.0, 0.25), 1.5);
    assert_eq!(s_curve3(0.5), 0.5);
    assert_eq!(s_curve3(0.25), 0.15625);
    assert_eq!(fourth_power(-3.0), 81.0);
}
