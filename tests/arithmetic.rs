use agc_emulator::arith::{
    add_modified, as_i32, bit16, correct, ones_complement16, ones_complement32, sign_bit,
    sign_extend, NEG_ONE, NEG_ZERO,
};

#[test]
fn test_add_positive() {
    let a = 0b0000000000000011; // 3
    let b = 0b1111111111111101; // -2
    let sum = add_modified(a, b);
    assert_eq!(sum, 0b0000000000000001); // 1
}

#[test]
fn test_add_negative() {
    let a = 0b0000000000000011; // 3
    let b = 0b1111111111111010; // -5
    let sum = add_modified(a, b);
    assert_eq!(sum, 0b1111111111111101); // -2
}

#[test]
fn test_add_positive_overflow() {
    let a = 0b0000000000000011; // 3
    let b = 0b0011111111111110; // 16382
    let sum = add_modified(a, b);
    assert_eq!(sum, 0b0100000000000001); // 1 with positive overflow
}

#[test]
fn test_add_negative_overflow() {
    let a = 0b1100000000000000; // -16383
    let b = 0b1111111111111110; // -1
    let sum = add_modified(a, b);
    assert_eq!(sum, 0b1011111111111111); // -0 with negative overflow
}

#[test]
fn test_ones_complement() {
    let n1 = 32767;
    let n2 = -32767;
    assert_eq!(ones_complement32(n1), 32767);
    assert_eq!(ones_complement32(n2), 0xFFFF8000);
    assert_eq!(ones_complement16(n1 as i16), 32767);
    assert_eq!(ones_complement16(n2 as i16), 0x8000);
}

#[test]
fn test_i32_conversion() {
    let n1 = 0;
    let n2 = 0xFFFF; // negative zero
    let n3 = 8;
    let n4 = 0xFFF7;
    let n5 = 0x8001;
    let n6 = 1;
    let n7 = 0xFFFE;
    let n8 = 0x7FFE;
    assert_eq!(as_i32(n1), 0);
    assert_eq!(as_i32(n2), 0);
    assert_eq!(as_i32(n3), 8);
    assert_eq!(as_i32(n4), -8);
    assert_eq!(as_i32(n5), as_i32(n6));
    assert_eq!(as_i32(n7), as_i32(n8));
}

#[test]
fn tests_test_add_positive() {
    let a = 0b0000000000000011; // 3
    let b = 0b1111111111111101; // -2
    let sum = add_modified(a, b);
    assert_eq!(sum, 0b0000000000000001); // 1
}

#[test]
fn tests_test_add_negative() {
    let a = 0b0000000000000011; // 3
    let b = 0b1111111111111010; // -5
    let sum = add_modified(a, b);
    assert_eq!(sum, 0b1111111111111101); // -2
}

#[test]
fn tests_test_add_positive_overflow() {
    let a = 0b0000000000000011; // 3
    let b = 0b0011111111111110; // 16382
    let sum = add_modified(a, b);
    assert_eq!(sum, 0b0100000000000001); // 1 with positive overflow
}

#[test]
fn tests_test_add_negative_overflow() {
    let a = 0b1100000000000000; // -16383
    let b = 0b1111111111111110; // -1
    let sum = add_modified(a, b);
    assert_eq!(sum, 0b1011111111111111); // -0 with negative overflow
}

#[test]
fn tests_test_ones_complement() {
    let n1 = 5;
    let n2 = -9;
    assert_eq!(ones_complement32(n1), 5);
    assert_eq!(ones_complement32(n2), 0xFFFFFFF6)
}

#[test]
fn add_fifteen_bit_words_with_end_around_carry() {
    // -2 in fifteen-bit form added to -0 in fifteen-bit form: the carry out
    // of bit 14 comes back into bit 0 and stays in bit 15.
    assert_eq!(add_modified(0x7FFD, 0x7FFF), 0xFFFD);
    assert_eq!(add_modified(0, 0), 0);
    assert_eq!(add_modified(NEG_ZERO, NEG_ZERO), NEG_ZERO);
    assert_eq!(add_modified(1, NEG_ONE), NEG_ZERO);
}

#[test]
fn overflow_results_decode_by_their_tag() {
    // +1 with positive overflow: tag clear, sign set.
    let pos = add_modified(3, 16382);
    assert_eq!(bit16(pos), 0);
    assert_eq!(sign_bit(pos), 1);
    assert_eq!(correct(pos), 0x0001);
    // -0 with negative overflow: tag set, sign clear.
    let neg = add_modified(0b1100000000000000, NEG_ONE);
    assert_eq!(bit16(neg), 1);
    assert_eq!(sign_bit(neg), 0);
    assert_eq!(correct(neg), NEG_ZERO);
}

#[test]
fn correct_leaves_values_without_overflow() {
    assert_eq!(correct(0x0005), 0x0005);
    assert_eq!(correct(0xFFFA), 0xFFFA);
    assert_eq!(correct(0x4005), 0x0005);
    assert_eq!(correct(0xBFFA), 0xFFFA);
}

#[test]
fn sign_extend_copies_bit_fourteen() {
    assert_eq!(sign_extend(0x7FFD), 0xFFFD);
    assert_eq!(sign_extend(0x3FFF), 0x3FFF);
    assert_eq!(sign_extend(0xBFFF), 0x3FFF);
    assert_eq!(sign_extend(0x4000), 0xC000);
}

#[test]
fn signed_round_trip_for_sample_words() {
    for w in [0u16, 1, 8, 0x3FFF, 0x4000, 0x7FF7, 0x7FFE, 0x5555, 0x2AAA] {
        assert_eq!(ones_complement16(as_i32(w) as i16), sign_extend(w));
    }
    // Negative zero comes back as positive zero.
    assert_eq!(ones_complement16(as_i32(0x7FFF) as i16), 0);
}

#[test]
fn complement_symmetry_for_sample_integers() {
    for n in [1i16, 5, 100, 16383, 32767] {
        assert_eq!(ones_complement16(n), !ones_complement16(-n));
    }
    for n in [1i32, 9, 268402689, 2147483647] {
        assert_eq!(ones_complement32(n), !ones_complement32(-n));
    }
    assert_eq!(ones_complement16(i16::MIN), 0x7FFF);
}

#[test]
fn as_i32_reads_the_extremes() {
    assert_eq!(as_i32(0x3FFF), 16383);
    assert_eq!(as_i32(0x4000), -16383);
    assert_eq!(as_i32(0xC000), -16383);
}
