//! Single-block SHA-512.
//!
//! The library computes the SHA-512 digest of one message block: either the
//! fixed 96-byte concatenation of three 32-byte values (`hash`), or any
//! message short enough to be padded into a single 1024-bit block
//! (`sha512`). Every executable function carries a contract relating it to
//! the mathematical model in [`model`].

pub mod model;

use vstd::prelude::*;
use crate::model::{
    spec_rotr, spec_gamma0, spec_gamma1, spec_sigma0, spec_sigma1, spec_ch, spec_maj, spec_k,
    spec_word_be, spec_byte_of_word, spec_w, spec_state, spec_round, spec_digest_words,
    spec_be_bytes, spec_block, spec_hash, spec_padded_bytes, spec_sha512,
};

verus! {

/// Rotate the 64-bit word `x` right by `n` bits.
pub fn rotr(x: u64, n: u32) -> (r: u64)
    requires
        0 < n < 64,
    ensures
        r == spec_rotr(x, n as u64),
{
    (x >> (n as u64)) | (x << (64 - (n as u64)))
}

/// The schedule mixing function written as the lower-case sigma-0.
pub fn gamma0(x: u64) -> (r: u64)
    ensures
        r == spec_gamma0(x),
{
    rotr(x, 1) ^ rotr(x, 8) ^ (x >> 7u64)
}

/// The schedule mixing function written as the lower-case sigma-1.
pub fn gamma1(x: u64) -> (r: u64)
    ensures
        r == spec_gamma1(x),
{
    rotr(x, 19) ^ rotr(x, 61) ^ (x >> 6u64)
}

/// The round mixing function written as the upper-case sigma-0.
pub fn sigma0(x: u64) -> (r: u64)
    ensures
        r == spec_sigma0(x),
{
    rotr(x, 28) ^ rotr(x, 34) ^ rotr(x, 39)
}

/// The round mixing function written as the upper-case sigma-1.
pub fn sigma1(x: u64) -> (r: u64)
    ensures
        r == spec_sigma1(x),
{
    rotr(x, 14) ^ rotr(x, 18) ^ rotr(x, 41)
}

/// The "choose" function: each bit of `x` selects the bit of `y` or of `z`.
pub fn ch(x: u64, y: u64, z: u64) -> (r: u64)
    ensures
        r == spec_ch(x, y, z),
{
    (x & y) ^ (!x & z)
}

/// The "majority" function: each output bit is the majority of the inputs' bits.
pub fn maj(x: u64, y: u64, z: u64) -> (r: u64)
    ensures
        r == spec_maj(x, y, z),
{
    (x & y) ^ (x & z) ^ (y & z)
}

/// The round constant of round `i`.
fn round_constant(i: usize) -> (r: u64)
    requires
        i < 80,
    ensures
        r == spec_k(i as int),
{
    match i {
        0 => 0x428a2f98d728ae22u64,
        1 => 0x7137449123ef65cdu64,
        2 => 0xb5c0fbcfec4d3b2fu64,
        3 => 0xe9b5dba58189dbbcu64,
        4 => 0x3956c25bf348b538u64,
        5 => 0x59f111f1b605d019u64,
        6 => 0x923f82a4af194f9bu64,
        7 => 0xab1c5ed5da6d8118u64,
        8 => 0xd807aa98a3030242u64,
        9 => 0x12835b0145706fbeu64,
        10 => 0x243185be4ee4b28cu64,
        11 => 0x550c7dc3d5ffb4e2u64,
        12 => 0x72be5d74f27b896fu64,
        13 => 0x80deb1fe3b1696b1u64,
        14 => 0x9bdc06a725c71235u64,
        15 => 0xc19bf174cf692694u64,
        16 => 0xe49b69c19ef14ad2u64,
        17 => 0xefbe4786384f25e3u64,
        18 => 0x0fc19dc68b8cd5b5u64,
        19 => 0x240ca1cc77ac9c65u64,
        20 => 0x2de92c6f592b0275u64,
        21 => 0x4a7484aa6ea6e483u64,
        22 => 0x5cb0a9dcbd41fbd4u64,
        23 => 0x76f988da831153b5u64,
        24 => 0x983e5152ee66dfabu64,
        25 => 0xa831c66d2db43210u64,
        26 => 0xb00327c898fb213fu64,
        27 => 0xbf597fc7beef0ee4u64,
        28 => 0xc6e00bf33da88fc2u64,
        29 => 0xd5a79147930aa725u64,
        30 => 0x06ca6351e003826fu64,
        31 => 0x142929670a0e6e70u64,
        32 => 0x27b70a8546d22ffcu64,
        33 => 0x2e1b21385c26c926u64,
        34 => 0x4d2c6dfc5ac42aedu64,
        35 => 0x53380d139d95b3dfu64,
        36 => 0x650a73548baf63deu64,
        37 => 0x766a0abb3c77b2a8u64,
        38 => 0x81c2c92e47edaee6u64,
        39 => 0x92722c851482353bu64,
        40 => 0xa2bfe8a14cf10364u64,
        41 => 0xa81a664bbc423001u64,
        42 => 0xc24b8b70d0f89791u64,
        43 => 0xc76c51a30654be30u64,
        44 => 0xd192e819d6ef5218u64,
        45 => 0xd69906245565a910u64,
        46 => 0xf40e35855771202au64,
        47 => 0x106aa07032bbd1b8u64,
        48 => 0x19a4c116b8d2d0c8u64,
        49 => 0x1e376c085141ab53u64,
        50 => 0x2748774cdf8eeb99u64,
        51 => 0x34b0bcb5e19b48a8u64,
        52 => 0x391c0cb3c5c95a63u64,
        53 => 0x4ed8aa4ae3418acbu64,
        54 => 0x5b9cca4f7763e373u64,
        55 => 0x682e6ff3d6b2b8a3u64,
        56 => 0x748f82ee5defb2fcu64,
        57 => 0x78a5636f43172f60u64,
        58 => 0x84c87814a1f0ab72u64,
        59 => 0x8cc702081a6439ecu64,
        60 => 0x90befffa23631e28u64,
        61 => 0xa4506cebde82bde9u64,
        62 => 0xbef9a3f7b2c67915u64,
        63 => 0xc67178f2e372532bu64,
        64 => 0xca273eceea26619cu64,
        65 => 0xd186b8c721c0c207u64,
        66 => 0xeada7dd6cde0eb1eu64,
        67 => 0xf57d4f7fee6ed178u64,
        68 => 0x06f067aa72176fbau64,
        69 => 0x0a637dc5a2c898a6u64,
        70 => 0x113f9804bef90daeu64,
        71 => 0x1b710b35131c471bu64,
        72 => 0x28db77f523047d84u64,
        73 => 0x32caab7b40c72493u64,
        74 => 0x3c9ebe0a15c9bebcu64,
        75 => 0x431d67c49c100d4cu64,
        76 => 0x4cc5d4becb3e42b6u64,
        77 => 0x597f299cfc657e2au64,
        78 => 0x5fcb6fab3ad6faecu64,
        79 => 0x6c44198c4a475817u64,
        _ => 0u64,
    }
}

/// The 64-bit word read big-endian from bytes `8*i .. 8*i + 8` of `b`.
fn load_be(b: &[u8], i: usize) -> (r: u64)
    requires
        8 * i + 8 <= b@.len(),
    ensures
        r == spec_word_be(b@, i as int),
{
    let _len: usize = b.len();
    ((b[8 * i] as u64) << 56u64)
        | ((b[8 * i + 1] as u64) << 48u64)
        | ((b[8 * i + 2] as u64) << 40u64)
        | ((b[8 * i + 3] as u64) << 32u64)
        | ((b[8 * i + 4] as u64) << 24u64)
        | ((b[8 * i + 5] as u64) << 16u64)
        | ((b[8 * i + 6] as u64) << 8u64)
        | (b[8 * i + 7] as u64)
}

/// Store the word `w` big-endian into bytes `8*i .. 8*i + 8` of `out`.
fn store_be(out: &mut [u8; 64], i: usize, w: u64)
    requires
        i < 8,
    ensures
        forall|j: int| 0 <= j < 8 ==> final(out)@[8 * (i as int) + j] == spec_byte_of_word(w, j),
        forall|j: int|
            0 <= j < 64 && !(8 * (i as int) <= j < 8 * (i as int) + 8) ==> final(out)@[j] == old(
                out,
            )@[j],
{
    out[8 * i] = (w >> 56u64) as u8;
    out[8 * i + 1] = (w >> 48u64) as u8;
    out[8 * i + 2] = (w >> 40u64) as u8;
    out[8 * i + 3] = (w >> 32u64) as u8;
    out[8 * i + 4] = (w >> 24u64) as u8;
    out[8 * i + 5] = (w >> 16u64) as u8;
    out[8 * i + 6] = (w >> 8u64) as u8;
    out[8 * i + 7] = w as u8;
}

/// One SHA-512 compression of the 16-word block `m`: schedule expansion,
/// 80 rounds from the initial hash value, Davies-Meyer feed-forward, and
/// big-endian serialization of the eight output words.
fn compress_block(m: &[u64; 16]) -> (out: [u8; 64])
    ensures
        out@ == spec_be_bytes(spec_digest_words(m@)),
{
    let ghost blk: Seq<u64> = m@;
    let mut w = [0u64; 80];
    let mut i: usize = 0;
    while i < 16
        invariant
            i <= 16,
            blk == m@,
            forall|j: int| 0 <= j < i ==> w@[j] == spec_w(blk, j),
        decreases 16 - i,
    {
        w[i] = m[i];
        i += 1;
    }
    while i < 80
        invariant
            16 <= i <= 80,
            blk == m@,
            forall|j: int| 0 <= j < i ==> w@[j] == spec_w(blk, j),
        decreases 80 - i,
    {
        let t = w[i - 16]
            .wrapping_add(gamma0(w[i - 15]))
            .wrapping_add(w[i - 7])
            .wrapping_add(gamma1(w[i - 2]));
        w[i] = t;
        proof {
            assert(spec_w(blk, i as int) == spec_w(blk, i - 16).wrapping_add(
                spec_gamma0(spec_w(blk, i - 15)),
            ).wrapping_add(spec_w(blk, i - 7)).wrapping_add(spec_gamma1(spec_w(blk, i - 2))));
        }
        i += 1;
    }

    let mut a = 0x6a09e667f3bcc908u64;
    let mut b = 0xbb67ae8584caa73bu64;
    let mut c = 0x3c6ef372fe94f82bu64;
    let mut d = 0xa54ff53a5f1d36f1u64;
    let mut e = 0x510e527fade682d1u64;
    let mut f = 0x9b05688c2b3e6c1fu64;
    let mut g = 0x1f83d9abfb41bd6bu64;
    let mut h = 0x5be0cd19137e2179u64;
    let mut r: usize = 0;
    while r < 80
        invariant
            r <= 80,
            blk == m@,
            forall|j: int| 0 <= j < 80 ==> w@[j] == spec_w(blk, j),
            a == spec_state(blk, r as int)[0],
            b == spec_state(blk, r as int)[1],
            c == spec_state(blk, r as int)[2],
            d == spec_state(blk, r as int)[3],
            e == spec_state(blk, r as int)[4],
            f == spec_state(blk, r as int)[5],
            g == spec_state(blk, r as int)[6],
            h == spec_state(blk, r as int)[7],
        decreases 80 - r,
    {
        let ghost st = spec_state(blk, r as int);
        let kr = round_constant(r);
        let t1 = h
            .wrapping_add(sigma1(e))
            .wrapping_add(ch(e, f, g))
            .wrapping_add(kr)
            .wrapping_add(w[r]);
        let t2 = sigma0(a).wrapping_add(maj(a, b, c));
        h = g;
        g = f;
        f = e;
        e = d.wrapping_add(t1);
        d = c;
        c = b;
        b = a;
        a = t1.wrapping_add(t2);
        proof {
            assert(spec_state(blk, r as int + 1) == spec_round(st, spec_k(r as int), spec_w(
                blk,
                r as int,
            )));
        }
        r += 1;
    }

    let d0 = 0x6a09e667f3bcc908u64.wrapping_add(a);
    let d1 = 0xbb67ae8584caa73bu64.wrapping_add(b);
    let d2 = 0x3c6ef372fe94f82bu64.wrapping_add(c);
    let d3 = 0xa54ff53a5f1d36f1u64.wrapping_add(d);
    let d4 = 0x510e527fade682d1u64.wrapping_add(e);
    let d5 = 0x9b05688c2b3e6c1fu64.wrapping_add(f);
    let d6 = 0x1f83d9abfb41bd6bu64.wrapping_add(g);
    let d7 = 0x5be0cd19137e2179u64.wrapping_add(h);
    let mut out = [0u8; 64];
    store_be(&mut out, 0, d0);
    store_be(&mut out, 1, d1);
    store_be(&mut out, 2, d2);
    store_be(&mut out, 3, d3);
    store_be(&mut out, 4, d4);
    store_be(&mut out, 5, d5);
    store_be(&mut out, 6, d6);
    store_be(&mut out, 7, d7);
    proof {
        assert(out@ =~= spec_be_bytes(spec_digest_words(blk)));
    }
    out
}

/// The 64-byte SHA-512 digest of the 96-byte concatenation of the three
/// 32-byte inputs: a nonce-like value `r`, a public key, and a precomputed
/// 32-byte message digest.
pub fn hash(r: &[u8; 32], pubkey: &[u8; 32], digest: &[u8; 32]) -> (out: [u8; 64])
    ensures
        out@ == spec_hash(r@, pubkey@, digest@),
        out@.len() == 64,
{
    let mut m = [0u64; 16];
    m[0] = load_be(r.as_slice(), 0);
    m[1] = load_be(r.as_slice(), 1);
    m[2] = load_be(r.as_slice(), 2);
    m[3] = load_be(r.as_slice(), 3);
    m[4] = load_be(pubkey.as_slice(), 0);
    m[5] = load_be(pubkey.as_slice(), 1);
    m[6] = load_be(pubkey.as_slice(), 2);
    m[7] = load_be(pubkey.as_slice(), 3);
    m[8] = load_be(digest.as_slice(), 0);
    m[9] = load_be(digest.as_slice(), 1);
    m[10] = load_be(digest.as_slice(), 2);
    m[11] = load_be(digest.as_slice(), 3);
    m[12] = 0x8000000000000000u64;
    m[13] = 0u64;
    m[14] = 0u64;
    m[15] = 0x0000000000000300u64;
    proof {
        assert(m@ =~= spec_block(r@, pubkey@, digest@));
    }
    compress_block(&m)
}

/// The SHA-512 digest of any message short enough to be padded into a
/// single 1024-bit block, through the same uniform round function.
pub fn sha512(msg: &[u8]) -> (out: [u8; 64])
    requires
        msg@.len() <= 111,
    ensures
        out@ == spec_sha512(msg@),
        out@.len() == 64,
{
    let len: usize = msg.len();
    let mut padded = [0u8; 128];
    let mut i: usize = 0;
    while i < len
        invariant
            i <= len,
            len == msg@.len(),
            len <= 111,
            forall|j: int| 0 <= j < i ==> padded@[j] == msg@[j],
            forall|j: int| i <= j < 128 ==> padded@[j] == 0u8,
        decreases len - i,
    {
        padded[i] = msg[i];
        i += 1;
    }
    padded[len] = 0x80u8;
    let bits: u64 = (len as u64) * 8;
    padded[120] = (bits >> 56u64) as u8;
    padded[121] = (bits >> 48u64) as u8;
    padded[122] = (bits >> 40u64) as u8;
    padded[123] = (bits >> 32u64) as u8;
    padded[124] = (bits >> 24u64) as u8;
    padded[125] = (bits >> 16u64) as u8;
    padded[126] = (bits >> 8u64) as u8;
    padded[127] = bits as u8;
    proof {
        assert(padded@ =~= spec_padded_bytes(msg@));
    }
    let mut m = [0u64; 16];
    let mut k: usize = 0;
    while k < 16
        invariant
            k <= 16,
            padded@ == spec_padded_bytes(msg@),
            msg@.len() <= 111,
            forall|j: int| 0 <= j < k ==> m@[j] == spec_word_be(padded@, j),
        decreases 16 - k,
    {
        m[k] = load_be(padded.as_slice(), k);
        k += 1;
    }
    proof {
        assert(m@ =~= Seq::new(16, |j: int| spec_word_be(spec_padded_bytes(msg@), j)));
    }
    compress_block(&m)
}

/// Why a dynamically sized input was rejected.
#[derive(Clone, Copy, Debug, PartialEq, Eq)]
pub enum HashError {
    /// One of the three inputs is not exactly 32 bytes.
    InvalidLength,
}

/// Copy a 32-byte slice into an owned 32-byte array.
fn copy32(src: &[u8]) -> (out: [u8; 32])
    requires
        src@.len() == 32,
    ensures
        out@ == src@,
{
    let mut out = [0u8; 32];
    let mut i: usize = 0;
    while i < 32
        invariant
            i <= 32,
            src@.len() == 32,
            forall|j: int| 0 <= j < i ==> out@[j] == src@[j],
        decreases 32 - i,
    {
        out[i] = src[i];
        i += 1;
    }
    proof {
        assert(out@ =~= src@);
    }
    out
}

/// `hash` for callers holding dynamically sized buffers: fails fast with
/// `InvalidLength`, before any computation, unless each of the three inputs
/// is exactly 32 bytes.
pub fn hash_checked(r: &[u8], pubkey: &[u8], digest: &[u8]) -> (res: Result<
    [u8; 64],
    HashError,
>)
    ensures
        match res {
            Ok(out) => r@.len() == 32 && pubkey@.len() == 32 && digest@.len() == 32 && out@
                == spec_hash(r@, pubkey@, digest@),
            Err(e) => e == HashError::InvalidLength && !(r@.len() == 32 && pubkey@.len() == 32
                && digest@.len() == 32),
        },
{
    if r.len() != 32 || pubkey.len() != 32 || digest.len() != 32 {
        return Err(HashError::InvalidLength);
    }
    let rb = copy32(r);
    let pb = copy32(pubkey);
    let db = copy32(digest);
    Ok(hash(&rb, &pb, &db))
}

} // verus!
