use sha512_block::{ch, gamma0, gamma1, maj, rotr, sigma0, sigma1};

#[test]
fn rotr_exact_values() {
    assert_eq!(rotr(0x0123456789abcdef, 8), 0xef0123456789abcd);
    assert_eq!(rotr(1, 1), 0x8000000000000000);
    assert_eq!(rotr(0x8000000000000000, 63), 1);
    assert_eq!(rotr(0xffffffffffffffff, 17), 0xffffffffffffffff);
}

#[test]
fn ch_exact_values() {
    // All-ones selector picks y, all-zeros selector picks z.
    assert_eq!(ch(0xffffffffffffffff, 0x1234, 0x5678), 0x1234);
    assert_eq!(ch(0, 0x1234, 0x5678), 0x5678);
    assert_eq!(ch(0xf0f0f0f0f0f0f0f0, 0xffffffffffffffff, 0), 0xf0f0f0f0f0f0f0f0);
}

#[test]
fn maj_exact_values() {
    assert_eq!(maj(0x1234, 0x1234, 0xffff), 0x1234);
    assert_eq!(maj(0, 0xabcd, 0xabcd), 0xabcd);
    assert_eq!(maj(0xff00, 0x0ff0, 0x00ff), 0x0ff0);
}

#[test]
fn schedule_mixers_exact_values() {
    // gamma0(1) = rotr(1,1) ^ rotr(1,8) ^ (1 >> 7)
    assert_eq!(gamma0(1), 0x8000000000000000 ^ 0x0100000000000000);
    // gamma1(1) = rotr(1,19) ^ rotr(1,61) ^ (1 >> 6)
    assert_eq!(gamma1(1), (1u64 << 45) ^ (1u64 << 3));
}

#[test]
fn round_mixers_exact_values() {
    // sigma0(1) = rotr(1,28) ^ rotr(1,34) ^ rotr(1,39)
    assert_eq!(sigma0(1), (1u64 << 36) ^ (1u64 << 30) ^ (1u64 << 25));
    // sigma1(1) = rotr(1,14) ^ rotr(1,18) ^ rotr(1,41)
    assert_eq!(sigma1(1), (1u64 << 50) ^ (1u64 << 46) ^ (1u64 << 23));
}
