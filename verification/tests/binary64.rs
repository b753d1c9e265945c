use miniplot::binary64::{index_to_bits, HIDDEN_BIT, ONE};

fn expect_same(n: u64) {
    assert_eq!(index_to_bits(n as usize), (n as f64).to_bits(), "at {}", n);
}

#[test]
fn one_is_the_pattern_of_one() {
    assert_eq!(ONE, 1.0f64.to_bits());
    assert_eq!(f64::from_bits(ONE), 1.0);
}

#[test]
fn hidden_bit_is_two_to_the_52() {
    assert_eq!(HIDDEN_BIT, 1u64 << 52);
}

#[test]
fn index_zero_is_all_zero_bits() {
    assert_eq!(index_to_bits(0), 0);
    assert_eq!(f64::from_bits(index_to_bits(0)), 0.0);
}

#[test]
fn small_indices_are_exact() {
    assert_eq!(index_to_bits(1), 0x3FF0_0000_0000_0000);
    assert_eq!(index_to_bits(2), 0x4000_0000_0000_0000);
    assert_eq!(index_to_bits(3), 0x4008_0000_0000_0000);
    for n in 0..=5000u64 {
        expect_same(n);
        assert_eq!(f64::from_bits(index_to_bits(n as usize)), n as f64);
    }
}

#[test]
fn powers_of_two_and_their_neighbours() {
    for e in 0..64u32 {
        let p = 1u64 << e;
        expect_same(p);
        expect_same(p - 1);
        expect_same(p + 1);
        expect_same(p | (p >> 1));
        expect_same(p + (p >> 3) + 1);
    }
}

#[test]
fn largest_exact_integers() {
    let limit = 1u64 << 53;
    for n in (limit - 64)..=limit {
        expect_same(n);
        assert_eq!(f64::from_bits(index_to_bits(n as usize)) as u64, n);
    }
}

#[test]
fn ties_go_to_the_even_significand() {
    let limit = 1u64 << 53;
    // Halfway between two neighbours: the one with the even significand wins.
    assert_eq!(index_to_bits((limit + 1) as usize), (limit as f64).to_bits());
    assert_eq!(index_to_bits((limit + 3) as usize), ((limit + 4) as f64).to_bits());
    assert_eq!(index_to_bits((limit + 5) as usize), ((limit + 4) as f64).to_bits());
    for n in limit..(limit + 200) {
        expect_same(n);
    }
    let wide = 1u64 << 60;
    for k in 0..2000u64 {
        expect_same(wide + k * 64);
        expect_same(wide + k * 64 + 1);
        expect_same(wide + k * 128 - 1);
    }
}

#[test]
fn rounding_can_carry_into_the_exponent() {
    assert_eq!(index_to_bits(u64::MAX as usize), 0x43F0_0000_0000_0000);
    expect_same(u64::MAX);
    expect_same(u64::MAX - 1);
    expect_same((1u64 << 54) - 1);
    expect_same((1u64 << 63) - 1);
    for k in 0..3000u64 {
        expect_same(u64::MAX - k);
    }
}

#[test]
fn scattered_values_agree_with_the_conversion() {
    let mut n: u64 = 0x9E37_79B9_7F4A_7C15;
    for _ in 0..20000 {
        n ^= n << 13;
        n ^= n >> 7;
        n ^= n << 17;
        expect_same(n);
        expect_same(n >> 5);
        expect_same(n >> 11);
        expect_same(n >> 12);
        expect_same(n >> 30);
    }
}
