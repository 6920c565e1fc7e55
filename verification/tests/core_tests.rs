use eliaschaosfractal::entropy::{fractal_dim_milli, CosmicEntropy, EntropySample};
use eliaschaosfractal::numfmt::{ilog2_u64, u64_to_string};
use eliaschaosfractal::ring::RingBuffer;
use eliaschaosfractal::RecursionMirror;

fn sample(p: u64) -> EntropySample {
    EntropySample { primary: p, secondary: 0, tertiary: 0, active_nodes: 0 }
}

#[test]
fn ring_keeps_capacity_and_evicts_oldest() {
    let mut ring: RingBuffer<EntropySample> = RingBuffer::new(3);
    ring.append(sample(1));
    ring.append(sample(2));
    ring.append(sample(3));
    assert_eq!(ring.len(), 3);
    ring.append(sample(4));
    assert_eq!(ring.len(), 3);
    assert_eq!(ring.get(0).primary, 2);
    assert_eq!(ring.get(1).primary, 3);
    assert_eq!(ring.get(2).primary, 4);
    assert_eq!(ring.get_latest().unwrap().primary, 4);
}

#[test]
fn ring_full_capacity_history() {
    let mut ring: RingBuffer<EntropySample> = RingBuffer::new(1000);
    let mut i: u64 = 0;
    while i < 1005 {
        ring.append(sample(i));
        assert!(ring.len() <= 1000);
        i += 1;
    }
    assert_eq!(ring.len(), 1000);
    assert_eq!(ring.get(0).primary, 5);
    assert_eq!(ring.get_latest().unwrap().primary, 1004);
}

#[test]
fn entropy_signal_is_clamped_for_any_magnitude() {
    let mut seed: u64 = 0x2545F4914F6CDD1D;
    let mut i = 0;
    let mut ring: RingBuffer<EntropySample> = RingBuffer::new(1000);
    while i < 200 {
        seed = seed.wrapping_mul(6364136223846793005).wrapping_add(1442695040888963407);
        ring.append(sample(seed));
        let dim = fractal_dim_milli(Some(&ring), seed);
        assert!((1000..=10000).contains(&dim));
        i += 1;
    }
    assert_eq!(fractal_dim_milli(None, u64::MAX), 1000);
    assert_eq!(fractal_dim_milli(Some(&ring), u64::MAX), 10000);
    let empty: RingBuffer<EntropySample> = RingBuffer::new(1000);
    assert_eq!(fractal_dim_milli(Some(&empty), 0), 1000);
}

#[test]
fn reflect_message_is_exact() {
    let msg = RecursionMirror::reflect(2, 0, "micro", None);
    assert_eq!(msg, "Recursion at scale micro: depth 2, entropy 0, fractalDim 1000");
}

#[test]
fn cosmic_entropy_formula() {
    let s = EntropySample { primary: 1, secondary: 2, tertiary: 3, active_nodes: 4 };
    // component sum 10, active 7 so log2(8) == 3
    assert_eq!(CosmicEntropy::calculate(Some(&s), 7), 30);
    assert_eq!(CosmicEntropy::calculate(None, 7), 0);
}

#[test]
fn cosmic_entropy_saturates() {
    let s = EntropySample {
        primary: u64::MAX,
        secondary: u64::MAX,
        tertiary: u64::MAX,
        active_nodes: u64::MAX,
    };
    assert_eq!(CosmicEntropy::calculate(Some(&s), u64::MAX), u64::MAX);
}

#[test]
fn decimal_rendering() {
    assert_eq!(u64_to_string(0), "0");
    assert_eq!(u64_to_string(7), "7");
    assert_eq!(u64_to_string(12345), "12345");
    assert_eq!(u64_to_string(u64::MAX), "18446744073709551615");
}

#[test]
fn integer_log2() {
    assert_eq!(ilog2_u64(1), 0);
    assert_eq!(ilog2_u64(2), 1);
    assert_eq!(ilog2_u64(3), 1);
    assert_eq!(ilog2_u64(1024), 10);
    assert_eq!(ilog2_u64(u64::MAX), 63);
}
