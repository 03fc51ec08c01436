use sha2::{Digest, Sha512};
use sha512_block::{hash, hash_checked, HashError};

/// A small deterministic pseudo-random generator for test inputs.
fn xorshift(state: &mut u64) -> u64 {
    let mut x = *state;
    x ^= x << 13;
    x ^= x >> 7;
    x ^= x << 17;
    *state = x;
    x
}

fn random_32(state: &mut u64) -> [u8; 32] {
    let mut out = [0u8; 32];
    for chunk in 0..4 {
        let word = xorshift(state).to_be_bytes();
        out[chunk * 8..chunk * 8 + 8].copy_from_slice(&word);
    }
    out
}

fn reference_digest(r: &[u8; 32], p: &[u8; 32], d: &[u8; 32]) -> [u8; 64] {
    let mut msg = Vec::new();
    msg.extend_from_slice(r);
    msg.extend_from_slice(p);
    msg.extend_from_slice(d);
    let out = Sha512::digest(&msg);
    let mut expected = [0u8; 64];
    expected.copy_from_slice(out.as_slice());
    expected
}

#[test]
fn output_is_64_bytes() {
    let out = hash(&[7u8; 32], &[11u8; 32], &[13u8; 32]);
    assert_eq!(out.len(), 64);
}

#[test]
fn repeated_calls_identical() {
    let mut state = 0x1234_5678_9abc_def0u64;
    for _ in 0..16 {
        let r = random_32(&mut state);
        let p = random_32(&mut state);
        let d = random_32(&mut state);
        let first = hash(&r, &p, &d);
        let second = hash(&r, &p, &d);
        assert_eq!(first, second);
    }
}

#[test]
fn all_zero_triad_matches_reference() {
    let zero = [0u8; 32];
    let out = hash(&zero, &zero, &zero);
    let expected = reference_digest(&zero, &zero, &zero);
    assert_eq!(out, expected);
}

#[test]
fn ff_nonce_zero_rest_matches_reference() {
    let ff = [0xffu8; 32];
    let zero = [0u8; 32];
    let out = hash(&ff, &zero, &zero);
    let expected = reference_digest(&ff, &zero, &zero);
    assert_eq!(out, expected);
}

#[test]
fn all_ff_triad_matches_reference() {
    let ff = [0xffu8; 32];
    let out = hash(&ff, &ff, &ff);
    let expected = reference_digest(&ff, &ff, &ff);
    assert_eq!(out, expected);
}

#[test]
fn random_triads_match_reference() {
    let mut state = 0xdead_beef_cafe_f00du64;
    for _ in 0..64 {
        let r = random_32(&mut state);
        let p = random_32(&mut state);
        let d = random_32(&mut state);
        let out = hash(&r, &p, &d);
        let expected = reference_digest(&r, &p, &d);
        assert_eq!(out, expected);
    }
}

fn hamming_distance(a: &[u8; 64], b: &[u8; 64]) -> u32 {
    let mut total = 0u32;
    for i in 0..64 {
        total += (a[i] ^ b[i]).count_ones();
    }
    total
}

#[test]
fn avalanche_single_bit_flips() {
    let mut state = 0x0bad_5eed_0bad_5eedu64;
    let r = random_32(&mut state);
    let p = random_32(&mut state);
    let d = random_32(&mut state);
    let base = hash(&r, &p, &d);
    let mut total: u64 = 0;
    let mut flips: u64 = 0;
    for input in 0..3 {
        for byte in 0..32 {
            for bit in 0..8 {
                let mut r2 = r;
                let mut p2 = p;
                let mut d2 = d;
                match input {
                    0 => r2[byte] ^= 1u8 << bit,
                    1 => p2[byte] ^= 1u8 << bit,
                    _ => d2[byte] ^= 1u8 << bit,
                }
                let out = hash(&r2, &p2, &d2);
                let dist = hamming_distance(&base, &out);
                // Each flip changes close to half of the 512 output bits.
                assert!(156 <= dist && dist <= 356, "distance {} out of range", dist);
                total += dist as u64;
                flips += 1;
            }
        }
    }
    let mean = total / flips;
    assert!(246 <= mean && mean <= 266, "mean distance {} out of range", mean);
}

#[test]
fn checked_rejects_wrong_lengths() {
    let ok = [0u8; 32];
    let short = [0u8; 31];
    let long = [0u8; 33];
    assert_eq!(hash_checked(&short, &ok, &ok), Err(HashError::InvalidLength));
    assert_eq!(hash_checked(&ok, &long, &ok), Err(HashError::InvalidLength));
    assert_eq!(hash_checked(&ok, &ok, &[]), Err(HashError::InvalidLength));
}

#[test]
fn checked_agrees_with_fixed_size_entry_point() {
    let r = [0x21u8; 32];
    let p = [0x42u8; 32];
    let d = [0x63u8; 32];
    let via_checked = hash_checked(&r[..], &p[..], &d[..]).unwrap();
    assert_eq!(via_checked, hash(&r, &p, &d));
}
