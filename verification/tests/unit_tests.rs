// Scenario tests on concrete corners.

use gradient_sampler::digest::corner_digest;
use gradient_sampler::gradient::build_from_stream;
use gradient_sampler::gradient::create_gradient;
use gradient_sampler::gradient::GradientError;

// The corner [1.0, 2.0, 3.0] as coordinate bit patterns.
fn example_corner() -> Vec<u32> {
    vec![1.0f32.to_bits(), 2.0f32.to_bits(), 3.0f32.to_bits()]
}

// Scales the signs of a gradient by k = 1 / sqrt(n - 1).
fn scale(signs: &Vec<i8>) -> Vec<f32> {
    let k = 1.0 / f32::sqrt((signs.len() - 1) as f32);
    let mut out: Vec<f32> = Vec::new();
    for s in signs {
        out.push((*s as f32) * k);
    }
    out
}

// A corner of [1.0, 2.0, 3.0] must deterministically yield a 3-element
// vector with exactly one entry 0.0, the others each +-0.70711, and a
// Euclidean norm within 0.01 of 1.0.
#[test]
fn concrete_example() {
    let corner = example_corner();
    let g = create_gradient(&corner).unwrap();
    assert_eq!(g.signs.len(), 3);

    let v = scale(&g.signs);
    let k = 0.70711f32;

    let mut zero_count = 0;
    for i in 0..3 {
        if v[i] == 0.0 {
            zero_count += 1;
            assert_eq!(i, g.zero_index);
        } else {
            assert!((v[i].abs() - k).abs() <= 0.0001);
        }
    }
    assert_eq!(zero_count, 1);

    let norm = (v[0] * v[0] + v[1] * v[1] + v[2] * v[2]).sqrt();
    assert!((norm - 1.0).abs() <= 0.01);

    // The same call must repeat bit-identically.
    let h = create_gradient(&corner).unwrap();
    assert_eq!(g.signs, h.signs);
    assert_eq!(g.zero_index, h.zero_index);
    let w = scale(&h.signs);
    for i in 0..3 {
        assert_eq!(v[i].to_bits(), w[i].to_bits());
    }
}

// Corners of fewer than two coordinates are rejected: no non-finite
// vector is ever produced for them.
#[test]
fn degenerate_corner_rejected() {
    let empty: Vec<u32> = Vec::new();
    assert_eq!(create_gradient(&empty), Err(GradientError::InvalidDimension));

    let single: Vec<u32> = vec![4.25f32.to_bits()];
    assert_eq!(create_gradient(&single), Err(GradientError::InvalidDimension));
}

// Repeated generation for one corner gives identical signs, for several
// dimensions.
#[test]
fn same_corner_same_gradient() {
    for n in 2..12u32 {
        let corner: Vec<u32> = (0..n).map(|i| (i as f32 * 0.5 - 1.0).to_bits()).collect();
        let a = create_gradient(&corner).unwrap();
        let b = create_gradient(&corner).unwrap();
        assert_eq!(a.signs, b.signs);
        assert_eq!(a.zero_index, b.zero_index);
    }
}

// Exactly one component of every generated gradient is zero; the rest
// are full steps.
#[test]
fn exactly_one_zero_component() {
    for n in 2..30usize {
        let corner: Vec<u32> = (0..n).map(|i| (i as u32).wrapping_mul(2654435761)).collect();
        let g = create_gradient(&corner).unwrap();
        assert_eq!(g.signs.len(), n);
        assert!(g.zero_index < n);
        let mut zeros = 0;
        for i in 0..n {
            if g.signs[i] == 0 {
                zeros += 1;
                assert_eq!(i, g.zero_index);
            } else {
                assert!(g.signs[i] == 1 || g.signs[i] == -1);
            }
        }
        assert_eq!(zeros, 1);
    }
}

// The byte stream fully determines the gradient: a known stream must
// give the known signs. With the stream [0, 1, .., 9] and n = 2, byte 0
// is even (step down) and byte 1 is odd (step up); the little-endian
// value of bytes 2..10 is even, so axis 0 is zeroed.
#[test]
fn build_from_stream_exact_values() {
    let stream: Vec<u8> = vec![0, 1, 2, 3, 4, 5, 6, 7, 8, 9];
    let g = build_from_stream(2, &stream);
    assert_eq!(g.signs, vec![0i8, 1i8]);
    assert_eq!(g.zero_index, 0);

    // An odd little-endian tail zeroes axis 1 instead.
    let stream2: Vec<u8> = vec![0, 1, 3, 3, 4, 5, 6, 7, 8, 9];
    let g2 = build_from_stream(2, &stream2);
    assert_eq!(g2.signs, vec![-1i8, 0i8]);
    assert_eq!(g2.zero_index, 1);
}

// Hashing the same coordinates in the same order gives the same digest;
// the digest feeds the whole pipeline, so it must be stable.
#[test]
fn digest_is_deterministic() {
    let corner = example_corner();
    assert_eq!(corner_digest(&corner), corner_digest(&corner));

    let other: Vec<u32> = vec![7, 8, 9, 10];
    assert_eq!(corner_digest(&other), corner_digest(&other));
}
