use sha2::{Digest, Sha512};
use sha512_block::{hash, sha512};

fn decode_hex(hex: &str) -> Vec<u8> {
    let bytes = hex.as_bytes();
    assert!(bytes.len() % 2 == 0);
    let digit = |c: u8| -> u8 {
        match c {
            b'0'..=b'9' => c - b'0',
            b'a'..=b'f' => c - b'a' + 10,
            _ => panic!("not a hex digit"),
        }
    };
    let mut out = Vec::new();
    for pair in bytes.chunks(2) {
        out.push(digit(pair[0]) * 16 + digit(pair[1]));
    }
    out
}

#[test]
fn sha512_abc_known_vector() {
    let out = sha512(b"abc");
    let expected = decode_hex(
        "ddaf35a193617abacc417349ae20413112e6fa4e89a97ea20a9eeee64b55d39a\
         2192992a274fc1a836ba3c23a3feebbd454d4423643ce80e2a9ac94fa54ca49f",
    );
    assert_eq!(&out[..], &expected[..]);
}

#[test]
fn sha512_empty_known_vector() {
    let out = sha512(b"");
    let expected = decode_hex(
        "cf83e1357eefb8bdf1542850d66d8007d620e4050b5715dc83f4a921d36ce9ce\
         47d0d13c5d85f2b0ff8318d2877eec2f63b931bd47417a81a538327af927da3e",
    );
    assert_eq!(&out[..], &expected[..]);
}

#[test]
fn sha512_all_single_block_lengths_match_reference() {
    // Every message length that fits in a single padded block.
    for len in 0..=111usize {
        let msg: Vec<u8> = (0..len).map(|i| (i as u8).wrapping_mul(37).wrapping_add(5)).collect();
        let out = sha512(&msg);
        let expected = Sha512::digest(&msg);
        assert_eq!(&out[..], expected.as_slice());
    }
}

#[test]
fn hash_equals_sha512_of_concatenation() {
    let r = [0x42u8; 32];
    let p = [0x17u8; 32];
    let d = [0xa5u8; 32];
    let mut msg = Vec::new();
    msg.extend_from_slice(&r);
    msg.extend_from_slice(&p);
    msg.extend_from_slice(&d);
    let via_triad = hash(&r, &p, &d);
    let via_generic = sha512(&msg);
    assert_eq!(via_triad, via_generic);
    let oracle = Sha512::digest(&msg);
    assert_eq!(&via_triad[..], oracle.as_slice());
}
