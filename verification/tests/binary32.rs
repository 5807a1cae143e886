use horus::binary32::Binary32;

fn converts_like_the_language(n: u32) {
    let expected = (n as f32).to_bits();
    assert_eq!(Binary32::from_u32(n).to_bits(), expected, "n = {}", n);
}

#[test]
fn zero_is_positive_zero() {
    assert_eq!(Binary32::from_u32(0).to_bits(), 0);
    assert_eq!(Binary32::new_zero().to_bits(), 0.0f32.to_bits());
}

#[test]
fn one_and_two() {
    assert_eq!(Binary32::from_u32(1).to_bits(), 0x3f80_0000);
    assert_eq!(Binary32::from_u32(2).to_bits(), 0x4000_0000);
    assert_eq!(Binary32::from_u32(3).to_bits(), 0x4040_0000);
}

#[test]
fn common_surface_sizes() {
    assert_eq!(Binary32::from_u32(600).to_bits(), 0x4416_0000);
    assert_eq!(Binary32::from_u32(700).to_bits(), 0x442f_0000);
    assert_eq!(Binary32::from_u32(800).to_bits(), 0x4448_0000);
    assert_eq!(f32::from_bits(Binary32::from_u32(1920).to_bits()), 1920.0);
    assert_eq!(f32::from_bits(Binary32::from_u32(1080).to_bits()), 1080.0);
}

#[test]
fn every_integer_below_two_to_the_24_is_exact() {
    let mut n: u32 = 0;
    while n < (1 << 24) {
        assert_eq!(f32::from_bits(Binary32::from_u32(n).to_bits()) as u32, n);
        n += 4099;
    }
    converts_like_the_language((1 << 24) - 1);
    converts_like_the_language(1 << 24);
}

#[test]
fn ties_go_to_the_even_significand() {
    // 2^24 + 1 lies halfway between 2^24 and 2^24 + 2: the even significand is below.
    assert_eq!(Binary32::from_u32((1 << 24) + 1).to_bits(), 0x4b80_0000);
    // 2^24 + 3 lies halfway between 2^24 + 2 and 2^24 + 4: the even significand is above.
    assert_eq!(Binary32::from_u32((1 << 24) + 3).to_bits(), 0x4b80_0002);
    converts_like_the_language((1 << 24) + 1);
    converts_like_the_language((1 << 24) + 2);
    converts_like_the_language((1 << 24) + 3);
    converts_like_the_language((1 << 25) + 2);
    converts_like_the_language((1 << 25) + 6);
}

#[test]
fn rounding_may_carry_into_the_next_power_of_two() {
    // The largest u32 rounds up to 2^32.
    assert_eq!(Binary32::from_u32(u32::MAX).to_bits(), 0x4f80_0000);
    assert_eq!(Binary32::from_u32(0xffff_ff7f).to_bits(), 0x4f7f_ffff);
    assert_eq!(Binary32::from_u32(0xffff_ff80).to_bits(), 0x4f80_0000);
    converts_like_the_language(0x01ff_ffff);
    converts_like_the_language(0x03ff_fffe);
    converts_like_the_language(0x7fff_ffff);
}

#[test]
fn powers_of_two_and_their_neighbours() {
    let mut e: u32 = 0;
    while e < 32 {
        let p: u32 = 1 << e;
        converts_like_the_language(p);
        converts_like_the_language(p - 1);
        converts_like_the_language(p.wrapping_add(1));
        converts_like_the_language(p | (p >> 1));
        converts_like_the_language(p | (p >> 1) | 1);
        e += 1;
    }
}

#[test]
fn agrees_with_the_language_on_a_scattered_sample() {
    let mut state: u32 = 0x2545_f491;
    let mut i: u32 = 0;
    while i < 200_000 {
        state ^= state << 13;
        state ^= state >> 17;
        state ^= state << 5;
        converts_like_the_language(state);
        converts_like_the_language(state >> (i % 32));
        i += 1;
    }
}

#[test]
fn conversion_is_monotone() {
    let mut previous = Binary32::from_u32(0).to_bits();
    let mut n: u32 = 1;
    while n < u32::MAX - 65_537 {
        let bits = Binary32::from_u32(n).to_bits();
        assert!(previous <= bits);
        previous = bits;
        n += 65_537;
    }
}

#[test]
fn bits_round_trip() {
    let b = Binary32::from_bits(0x4049_0fdb);
    assert_eq!(b.to_bits(), 0x4049_0fdb);
    assert_eq!(b.bits, std::f32::consts::PI.to_bits());
    assert_eq!(Binary32::from_bits(0xbf80_0000), Binary32 { bits: (-1.0f32).to_bits() });
}
