//! Mathematical model of the single-block SHA-512 computation.
//!
//! Everything here is specification code: the word-level mixing functions,
//! the round-constant and initial-hash-value tables, the message-schedule
//! recurrence, the 80-round compression, padding, and big-endian
//! (de)serialization, stated over `Seq` and the fixed-width integer types.

use vstd::prelude::*;

verus! {

/// Right rotation of a 64-bit word by `n` bits, for `0 < n < 64`.
pub open spec fn spec_rotr(x: u64, n: u64) -> u64
    recommends
        0 < n < 64,
{
    (x >> n) | (x << ((64 - n) as u64))
}

/// The schedule mixing function traditionally written as the lower-case sigma-0.
pub open spec fn spec_gamma0(x: u64) -> u64 {
    spec_rotr(x, 1) ^ spec_rotr(x, 8) ^ (x >> 7u64)
}

/// The schedule mixing function traditionally written as the lower-case sigma-1.
pub open spec fn spec_gamma1(x: u64) -> u64 {
    spec_rotr(x, 19) ^ spec_rotr(x, 61) ^ (x >> 6u64)
}

/// The round mixing function traditionally written as the upper-case sigma-0.
pub open spec fn spec_sigma0(x: u64) -> u64 {
    spec_rotr(x, 28) ^ spec_rotr(x, 34) ^ spec_rotr(x, 39)
}

/// The round mixing function traditionally written as the upper-case sigma-1.
pub open spec fn spec_sigma1(x: u64) -> u64 {
    spec_rotr(x, 14) ^ spec_rotr(x, 18) ^ spec_rotr(x, 41)
}

/// The "choose" function: each bit of `x` selects the bit of `y` or of `z`.
pub open spec fn spec_ch(x: u64, y: u64, z: u64) -> u64 {
    (x & y) ^ (!x & z)
}

/// The "majority" function: each output bit is the majority of the input bits.
pub open spec fn spec_maj(x: u64, y: u64, z: u64) -> u64 {
    (x & y) ^ (x & z) ^ (y & z)
}

/// The SHA-512 round-constant table: the first 64 bits of the fractional
/// parts of the cube roots of the first 80 primes, indexed by round.
pub open spec fn spec_k(i: int) -> u64 {
    if i == 0 { 0x428a2f98d728ae22u64 }
    else if i == 1 { 0x7137449123ef65cdu64 }
    else if i == 2 { 0xb5c0fbcfec4d3b2fu64 }
    else if i == 3 { 0xe9b5dba58189dbbcu64 }
    else if i == 4 { 0x3956c25bf348b538u64 }
    else if i == 5 { 0x59f111f1b605d019u64 }
    else if i == 6 { 0x923f82a4af194f9bu64 }
    else if i == 7 { 0xab1c5ed5da6d8118u64 }
    else if i == 8 { 0xd807aa98a3030242u64 }
    else if i == 9 { 0x12835b0145706fbeu64 }
    else if i == 10 { 0x243185be4ee4b28cu64 }
    else if i == 11 { 0x550c7dc3d5ffb4e2u64 }
    else if i == 12 { 0x72be5d74f27b896fu64 }
    else if i == 13 { 0x80deb1fe3b1696b1u64 }
    else if i == 14 { 0x9bdc06a725c71235u64 }
    else if i == 15 { 0xc19bf174cf692694u64 }
    else if i == 16 { 0xe49b69c19ef14ad2u64 }
    else if i == 17 { 0xefbe4786384f25e3u64 }
    else if i == 18 { 0x0fc19dc68b8cd5b5u64 }
    else if i == 19 { 0x240ca1cc77ac9c65u64 }
    else if i == 20 { 0x2de92c6f592b0275u64 }
    else if i == 21 { 0x4a7484aa6ea6e483u64 }
    else if i == 22 { 0x5cb0a9dcbd41fbd4u64 }
    else if i == 23 { 0x76f988da831153b5u64 }
    else if i == 24 { 0x983e5152ee66dfabu64 }
    else if i == 25 { 0xa831c66d2db43210u64 }
    else if i == 26 { 0xb00327c898fb213fu64 }
    else if i == 27 { 0xbf597fc7beef0ee4u64 }
    else if i == 28 { 0xc6e00bf33da88fc2u64 }
    else if i == 29 { 0xd5a79147930aa725u64 }
    else if i == 30 { 0x06ca6351e003826fu64 }
    else if i == 31 { 0x142929670a0e6e70u64 }
    else if i == 32 { 0x27b70a8546d22ffcu64 }
    else if i == 33 { 0x2e1b21385c26c926u64 }
    else if i == 34 { 0x4d2c6dfc5ac42aedu64 }
    else if i == 35 { 0x53380d139d95b3dfu64 }
    else if i == 36 { 0x650a73548baf63deu64 }
    else if i == 37 { 0x766a0abb3c77b2a8u64 }
    else if i == 38 { 0x81c2c92e47edaee6u64 }
    else if i == 39 { 0x92722c851482353bu64 }
    else if i == 40 { 0xa2bfe8a14cf10364u64 }
    else if i == 41 { 0xa81a664bbc423001u64 }
    else if i == 42 { 0xc24b8b70d0f89791u64 }
    else if i == 43 { 0xc76c51a30654be30u64 }
    else if i == 44 { 0xd192e819d6ef5218u64 }
    else if i == 45 { 0xd69906245565a910u64 }
    else if i == 46 { 0xf40e35855771202au64 }
    else if i == 47 { 0x106aa07032bbd1b8u64 }
    else if i == 48 { 0x19a4c116b8d2d0c8u64 }
    else if i == 49 { 0x1e376c085141ab53u64 }
    else if i == 50 { 0x2748774cdf8eeb99u64 }
    else if i == 51 { 0x34b0bcb5e19b48a8u64 }
    else if i == 52 { 0x391c0cb3c5c95a63u64 }
    else if i == 53 { 0x4ed8aa4ae3418acbu64 }
    else if i == 54 { 0x5b9cca4f7763e373u64 }
    else if i == 55 { 0x682e6ff3d6b2b8a3u64 }
    else if i == 56 { 0x748f82ee5defb2fcu64 }
    else if i == 57 { 0x78a5636f43172f60u64 }
    else if i == 58 { 0x84c87814a1f0ab72u64 }
    else if i == 59 { 0x8cc702081a6439ecu64 }
    else if i == 60 { 0x90befffa23631e28u64 }
    else if i == 61 { 0xa4506cebde82bde9u64 }
    else if i == 62 { 0xbef9a3f7b2c67915u64 }
    else if i == 63 { 0xc67178f2e372532bu64 }
    else if i == 64 { 0xca273eceea26619cu64 }
    else if i == 65 { 0xd186b8c721c0c207u64 }
    else if i == 66 { 0xeada7dd6cde0eb1eu64 }
    else if i == 67 { 0xf57d4f7fee6ed178u64 }
    else if i == 68 { 0x06f067aa72176fbau64 }
    else if i == 69 { 0x0a637dc5a2c898a6u64 }
    else if i == 70 { 0x113f9804bef90daeu64 }
    else if i == 71 { 0x1b710b35131c471bu64 }
    else if i == 72 { 0x28db77f523047d84u64 }
    else if i == 73 { 0x32caab7b40c72493u64 }
    else if i == 74 { 0x3c9ebe0a15c9bebcu64 }
    else if i == 75 { 0x431d67c49c100d4cu64 }
    else if i == 76 { 0x4cc5d4becb3e42b6u64 }
    else if i == 77 { 0x597f299cfc657e2au64 }
    else if i == 78 { 0x5fcb6fab3ad6faecu64 }
    else { 0x6c44198c4a475817u64 }
}

/// The SHA-512 initial hash value: the first 64 bits of the fractional
/// parts of the square roots of the first 8 primes.
pub open spec fn spec_iv(i: int) -> u64 {
    if i == 0 { 0x6a09e667f3bcc908u64 }
    else if i == 1 { 0xbb67ae8584caa73bu64 }
    else if i == 2 { 0x3c6ef372fe94f82bu64 }
    else if i == 3 { 0xa54ff53a5f1d36f1u64 }
    else if i == 4 { 0x510e527fade682d1u64 }
    else if i == 5 { 0x9b05688c2b3e6c1fu64 }
    else if i == 6 { 0x1f83d9abfb41bd6bu64 }
    else { 0x5be0cd19137e2179u64 }
}

/// The message schedule: entries 0 to 15 are the message block itself,
/// entries 16 to 79 follow the SHA-512 expansion recurrence, with all
/// additions modulo 2^64.
pub open spec fn spec_w(block: Seq<u64>, i: int) -> u64
    recommends
        block.len() == 16,
        0 <= i < 80,
    decreases i,
{
    if i < 16 {
        block[i]
    } else {
        spec_w(block, i - 16)
            .wrapping_add(spec_gamma0(spec_w(block, i - 15)))
            .wrapping_add(spec_w(block, i - 7))
            .wrapping_add(spec_gamma1(spec_w(block, i - 2)))
    }
}

/// One compression round: `st` is the working state (a..h as indices 0..7),
/// `k` the round constant and `w` the schedule word of this round.
pub open spec fn spec_round(st: Seq<u64>, k: u64, w: u64) -> Seq<u64>
    recommends
        st.len() == 8,
{
    let t1 = st[7]
        .wrapping_add(spec_sigma1(st[4]))
        .wrapping_add(spec_ch(st[4], st[5], st[6]))
        .wrapping_add(k)
        .wrapping_add(w);
    let t2 = spec_sigma0(st[0]).wrapping_add(spec_maj(st[0], st[1], st[2]));
    seq![
        t1.wrapping_add(t2),
        st[0],
        st[1],
        st[2],
        st[3].wrapping_add(t1),
        st[4],
        st[5],
        st[6],
    ]
}

/// The working state after the first `n` rounds on `block`, starting from
/// the initial hash value before round 0.
pub open spec fn spec_state(block: Seq<u64>, n: int) -> Seq<u64>
    recommends
        block.len() == 16,
        0 <= n <= 80,
    decreases n,
{
    if n <= 0 {
        Seq::new(8, |i: int| spec_iv(i))
    } else {
        spec_round(spec_state(block, n - 1), spec_k(n - 1), spec_w(block, n - 1))
    }
}

/// The eight output words: Davies-Meyer feed-forward of the initial hash
/// value into the state after all 80 rounds.
pub open spec fn spec_digest_words(block: Seq<u64>) -> Seq<u64>
    recommends
        block.len() == 16,
{
    Seq::new(8, |i: int| spec_iv(i).wrapping_add(spec_state(block, 80)[i]))
}

/// Byte `j` (0 = most significant) of the big-endian encoding of `w`.
pub open spec fn spec_byte_of_word(w: u64, j: int) -> u8
    recommends
        0 <= j < 8,
{
    if j == 7 {
        w as u8
    } else {
        (w >> (((7 - j) * 8) as u64)) as u8
    }
}

/// Big-endian serialization of a word sequence, 8 bytes per word.
pub open spec fn spec_be_bytes(words: Seq<u64>) -> Seq<u8> {
    Seq::new(words.len() * 8, |i: int| spec_byte_of_word(words[i / 8], i % 8))
}

/// The 64-bit word read big-endian from bytes `8*i .. 8*i + 8` of `b`.
pub open spec fn spec_word_be(b: Seq<u8>, i: int) -> u64
    recommends
        0 <= i,
        8 * i + 8 <= b.len(),
{
    ((b[8 * i] as u64) << 56u64)
        | ((b[8 * i + 1] as u64) << 48u64)
        | ((b[8 * i + 2] as u64) << 40u64)
        | ((b[8 * i + 3] as u64) << 32u64)
        | ((b[8 * i + 4] as u64) << 24u64)
        | ((b[8 * i + 5] as u64) << 16u64)
        | ((b[8 * i + 6] as u64) << 8u64)
        | (b[8 * i + 7] as u64)
}

/// The single padded message block of the fixed 96-byte triad: words 0 to 11
/// carry the three 32-byte inputs big-endian, word 12 is the mandatory
/// padding bit, and word 15 is the 768-bit message length.
pub open spec fn spec_block(r: Seq<u8>, p: Seq<u8>, d: Seq<u8>) -> Seq<u64>
    recommends
        r.len() == 32,
        p.len() == 32,
        d.len() == 32,
{
    Seq::new(16, |i: int|
        if i < 4 { spec_word_be(r, i) }
        else if i < 8 { spec_word_be(p, i - 4) }
        else if i < 12 { spec_word_be(d, i - 8) }
        else if i == 12 { 0x8000000000000000u64 }
        else if i < 15 { 0u64 }
        else { 0x0000000000000300u64 })
}

/// The 64-byte digest of the triad `r`, `p`, `d` of 32-byte values: one
/// SHA-512 compression of their 96-byte concatenation.
pub open spec fn spec_hash(r: Seq<u8>, p: Seq<u8>, d: Seq<u8>) -> Seq<u8>
    recommends
        r.len() == 32,
        p.len() == 32,
        d.len() == 32,
{
    spec_be_bytes(spec_digest_words(spec_block(r, p, d)))
}

/// SHA-512 padding of a message that fits in one block: the message, one
/// `0x80` byte, zeros, and the 128-bit big-endian bit length (whose upper
/// 8 bytes are zero for any representable message).
pub open spec fn spec_padded_bytes(msg: Seq<u8>) -> Seq<u8>
    recommends
        msg.len() <= 111,
{
    Seq::new(128, |i: int|
        if i < msg.len() { msg[i] }
        else if i == msg.len() { 0x80u8 }
        else if i < 120 { 0u8 }
        else { spec_byte_of_word((8 * msg.len()) as u64, i - 120) })
}

/// The SHA-512 digest of a message short enough for a single padded block.
pub open spec fn spec_sha512(msg: Seq<u8>) -> Seq<u8>
    recommends
        msg.len() <= 111,
{
    spec_be_bytes(spec_digest_words(Seq::new(16, |i: int| spec_word_be(spec_padded_bytes(msg), i))))
}

/// Law: the digest of a valid triad is exactly 64 bytes long.
pub proof fn lemma_digest_length(r: Seq<u8>, p: Seq<u8>, d: Seq<u8>)
    requires
        r.len() == 32,
        p.len() == 32,
        d.len() == 32,
    ensures
        spec_hash(r, p, d).len() == 64,
{
}

/// Law: the triad digest equals the general SHA-512 digest of the 96-byte
/// concatenation of the three inputs. The fixed padding words of the triad
/// block are exactly what SHA-512 padding produces for a 96-byte message.
pub proof fn lemma_hash_is_sha512(r: Seq<u8>, p: Seq<u8>, d: Seq<u8>)
    requires
        r.len() == 32,
        p.len() == 32,
        d.len() == 32,
    ensures
        spec_hash(r, p, d) == spec_sha512(r + p + d),
{
    let msg = r + p + d;
    let padded = spec_padded_bytes(msg);
    assert(msg.len() == 96);

    assert forall|i: int| 0 <= i < 4 implies spec_word_be(padded, i) == spec_word_be(r, i) by {
        assert(padded[8 * i] == r[8 * i]);
        assert(padded[8 * i + 1] == r[8 * i + 1]);
        assert(padded[8 * i + 2] == r[8 * i + 2]);
        assert(padded[8 * i + 3] == r[8 * i + 3]);
        assert(padded[8 * i + 4] == r[8 * i + 4]);
        assert(padded[8 * i + 5] == r[8 * i + 5]);
        assert(padded[8 * i + 6] == r[8 * i + 6]);
        assert(padded[8 * i + 7] == r[8 * i + 7]);
    }
    assert forall|i: int| 4 <= i < 8 implies spec_word_be(padded, i) == spec_word_be(p, i - 4) by {
        assert(padded[8 * i] == p[8 * (i - 4)]);
        assert(padded[8 * i + 1] == p[8 * (i - 4) + 1]);
        assert(padded[8 * i + 2] == p[8 * (i - 4) + 2]);
        assert(padded[8 * i + 3] == p[8 * (i - 4) + 3]);
        assert(padded[8 * i + 4] == p[8 * (i - 4) + 4]);
        assert(padded[8 * i + 5] == p[8 * (i - 4) + 5]);
        assert(padded[8 * i + 6] == p[8 * (i - 4) + 6]);
        assert(padded[8 * i + 7] == p[8 * (i - 4) + 7]);
    }
    assert forall|i: int| 8 <= i < 12 implies spec_word_be(padded, i) == spec_word_be(d, i - 8) by {
        assert(padded[8 * i] == d[8 * (i - 8)]);
        assert(padded[8 * i + 1] == d[8 * (i - 8) + 1]);
        assert(padded[8 * i + 2] == d[8 * (i - 8) + 2]);
        assert(padded[8 * i + 3] == d[8 * (i - 8) + 3]);
        assert(padded[8 * i + 4] == d[8 * (i - 8) + 4]);
        assert(padded[8 * i + 5] == d[8 * (i - 8) + 5]);
        assert(padded[8 * i + 6] == d[8 * (i - 8) + 6]);
        assert(padded[8 * i + 7] == d[8 * (i - 8) + 7]);
    }

    assert(padded[96] == 0x80u8);
    assert((0x80u64 << 56u64) | (0u64 << 48u64) | (0u64 << 40u64) | (0u64 << 32u64) | (0u64
        << 24u64) | (0u64 << 16u64) | (0u64 << 8u64) | 0u64 == 0x8000000000000000u64)
        by (bit_vector);
    assert(spec_word_be(padded, 12) == 0x8000000000000000u64);

    assert((0u64 << 56u64) | (0u64 << 48u64) | (0u64 << 40u64) | (0u64 << 32u64) | (0u64 << 24u64)
        | (0u64 << 16u64) | (0u64 << 8u64) | 0u64 == 0u64) by (bit_vector);
    assert(spec_word_be(padded, 13) == 0u64);
    assert(spec_word_be(padded, 14) == 0u64);

    assert((8 * msg.len()) as u64 == 768u64);
    assert((768u64 >> 56u64) as u8 == 0u8 && (768u64 >> 48u64) as u8 == 0u8 && (768u64
        >> 40u64) as u8 == 0u8 && (768u64 >> 32u64) as u8 == 0u8 && (768u64 >> 24u64) as u8 == 0u8
        && (768u64 >> 16u64) as u8 == 0u8 && (768u64 >> 8u64) as u8 == 3u8) by (bit_vector);
    assert((0u64 << 56u64) | (0u64 << 48u64) | (0u64 << 40u64) | (0u64 << 32u64) | (0u64 << 24u64)
        | (0u64 << 16u64) | (3u64 << 8u64) | 0u64 == 0x0000000000000300u64) by (bit_vector);
    assert(padded[120] == 0u8);
    assert(padded[121] == 0u8);
    assert(padded[122] == 0u8);
    assert(padded[123] == 0u8);
    assert(padded[124] == 0u8);
    assert(padded[125] == 0u8);
    assert(padded[126] == 3u8);
    assert(768u64 as u8 == 0u8) by (bit_vector);
    assert(padded[127] == 0u8);
    assert(spec_word_be(padded, 15) == 0x0000000000000300u64);

    assert(spec_block(r, p, d) =~= Seq::new(16, |i: int| spec_word_be(padded, i)));
}

} // verus!
