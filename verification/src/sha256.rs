//! SHA-256 (FIPS 180-4) for content-addressed evidence digests.
//!
//! [`sha256_spec`] is the standard definition over a byte sequence: the
//! message is padded with `0x80`, zeros and its 64-bit big-endian bit length
//! to a multiple of 64 bytes, each 64-byte block is expanded into a
//! 64-word schedule and compressed into the running state, and the final
//! state is serialised big-endian. [`Hasher`] absorbs bytes and its
//! [`Hasher::finalize`] is proved equal to that definition.
use vstd::prelude::*;

verus! {

/// Round constants: the first 32 bits of the fractional parts of the cube
/// roots of the first 64 primes.
pub const ROUND_CONSTANTS: [u32; 64] = [
    0x428a2f98, 0x71374491, 0xb5c0fbcf, 0xe9b5dba5, 0x3956c25b, 0x59f111f1, 0x923f82a4, 0xab1c5ed5,
    0xd807aa98, 0x12835b01, 0x243185be, 0x550c7dc3, 0x72be5d74, 0x80deb1fe, 0x9bdc06a7, 0xc19bf174,
    0xe49b69c1, 0xefbe4786, 0x0fc19dc6, 0x240ca1cc, 0x2de92c6f, 0x4a7484aa, 0x5cb0a9dc, 0x76f988da,
    0x983e5152, 0xa831c66d, 0xb00327c8, 0xbf597fc7, 0xc6e00bf3, 0xd5a79147, 0x06ca6351, 0x14292967,
    0x27b70a85, 0x2e1b2138, 0x4d2c6dfc, 0x53380d13, 0x650a7354, 0x766a0abb, 0x81c2c92e, 0x92722c85,
    0xa2bfe8a1, 0xa81a664b, 0xc24b8b70, 0xc76c51a3, 0xd192e819, 0xd6990624, 0xf40e3585, 0x106aa070,
    0x19a4c116, 0x1e376c08, 0x2748774c, 0x34b0bcb5, 0x391c0cb3, 0x4ed8aa4a, 0x5b9cca4f, 0x682e6ff3,
    0x748f82ee, 0x78a5636f, 0x84c87814, 0x8cc70208, 0x90befffa, 0xa4506ceb, 0xbef9a3f7, 0xc67178f2,
];

/// Initial hash value: the first 32 bits of the fractional parts of the
/// square roots of the first 8 primes.
pub const INITIAL_STATE: [u32; 8] = [
    0x6a09e667, 0xbb67ae85, 0x3c6ef372, 0xa54ff53a, 0x510e527f, 0x9b05688c, 0x1f83d9ab, 0x5be0cd19,
];

/// Right rotation of a 32-bit word, `0 < n < 32`.
pub open spec fn rotr(x: u32, n: u32) -> u32 {
    (x >> n) | (x << (32 - n) as u32)
}

pub open spec fn big_sigma0(x: u32) -> u32 {
    rotr(x, 2) ^ rotr(x, 13) ^ rotr(x, 22)
}

pub open spec fn big_sigma1(x: u32) -> u32 {
    rotr(x, 6) ^ rotr(x, 11) ^ rotr(x, 25)
}

pub open spec fn small_sigma0(x: u32) -> u32 {
    rotr(x, 7) ^ rotr(x, 18) ^ (x >> 3u32)
}

pub open spec fn small_sigma1(x: u32) -> u32 {
    rotr(x, 17) ^ rotr(x, 19) ^ (x >> 10u32)
}

pub open spec fn choose_bits(x: u32, y: u32, z: u32) -> u32 {
    (x & y) ^ (!x & z)
}

pub open spec fn majority(x: u32, y: u32, z: u32) -> u32 {
    (x & y) ^ (x & z) ^ (y & z)
}

/// Big-endian 32-bit word at byte offset `i`.
pub open spec fn be_word(bytes: Seq<u8>, i: int) -> u32 {
    (((bytes[i] as u32) << 24u32) | ((bytes[i + 1] as u32) << 16u32) | ((bytes[i + 2] as u32)
        << 8u32) | (bytes[i + 3] as u32)) as u32
}

/// Word `t` of the message schedule of one 64-byte block.
pub open spec fn schedule_word(block: Seq<u8>, t: int) -> u32
    decreases t,
{
    if t < 16 {
        be_word(block, 4 * t)
    } else {
        small_sigma1(schedule_word(block, t - 2)).wrapping_add(schedule_word(block, t - 7)).wrapping_add(
            small_sigma0(schedule_word(block, t - 15)),
        ).wrapping_add(schedule_word(block, t - 16))
    }
}

/// One compression round applied to the working variables `s`.
pub open spec fn round(s: Seq<u32>, k: u32, w: u32) -> Seq<u32> {
    let t1 = s[7].wrapping_add(big_sigma1(s[4])).wrapping_add(choose_bits(s[4], s[5], s[6])).wrapping_add(
        k,
    ).wrapping_add(w);
    let t2 = big_sigma0(s[0]).wrapping_add(majority(s[0], s[1], s[2]));
    seq![t1.wrapping_add(t2), s[0], s[1], s[2], s[3].wrapping_add(t1), s[4], s[5], s[6]]
}

/// Working variables after the first `t` rounds over `block`, from `h`.
pub open spec fn rounds(h: Seq<u32>, block: Seq<u8>, t: int) -> Seq<u32>
    decreases t,
{
    if t <= 0 {
        h
    } else {
        round(rounds(h, block, t - 1), ROUND_CONSTANTS[t - 1], schedule_word(block, t - 1))
    }
}

/// Compression of one 64-byte block into the state `h`.
pub open spec fn compress(h: Seq<u32>, block: Seq<u8>) -> Seq<u32> {
    let s = rounds(h, block, 64);
    Seq::new(8, |i: int| h[i].wrapping_add(s[i]))
}

/// State after the first `k` blocks of `data`, from `h`.
pub open spec fn hash_blocks(h: Seq<u32>, data: Seq<u8>, k: int) -> Seq<u32>
    decreases k,
{
    if k <= 0 {
        h
    } else {
        compress(hash_blocks(h, data, k - 1), data.subrange(64 * (k - 1), 64 * k))
    }
}

/// Number of zero bytes between the `0x80` marker and the length field.
pub open spec fn zero_padding_len(len: nat) -> nat {
    if len % 64 <= 55 {
        (55 - len % 64) as nat
    } else {
        (119 - len % 64) as nat
    }
}

/// Big-endian bytes of a 64-bit word.
pub open spec fn be_u64_bytes(x: u64) -> Seq<u8> {
    Seq::new(8, |i: int| ((x >> (8 * (7 - i)) as u64) & 0xff) as u8)
}

/// Message bit length modulo `2^64`.
pub open spec fn bit_length(len: nat) -> u64 {
    ((len * 8) % 0x1_0000_0000_0000_0000) as u64
}

/// The padded message: a multiple of 64 bytes.
pub open spec fn padded(msg: Seq<u8>) -> Seq<u8> {
    msg + seq![0x80u8] + Seq::new(zero_padding_len(msg.len()), |i: int| 0u8) + be_u64_bytes(
        bit_length(msg.len()),
    )
}

/// Big-endian serialisation of a state.
pub open spec fn state_bytes(h: Seq<u32>) -> Seq<u8> {
    Seq::new(32, |i: int| ((h[i / 4] >> (8 * (3 - i % 4)) as u32) & 0xff) as u8)
}

/// SHA-256 of a byte sequence.
pub open spec fn sha256_spec(msg: Seq<u8>) -> Seq<u8> {
    let p = padded(msg);
    state_bytes(hash_blocks(INITIAL_STATE@, p, (p.len() / 64) as int))
}


fn rotr_exec(x: u32, n: u32) -> (r: u32)
    requires
        0 < n < 32,
    ensures
        r == rotr(x, n),
{
    (x >> n) | (x << (32 - n))
}

fn be_word_exec(buf: &Vec<u8>, i: usize) -> (w: u32)
    requires
        i + 4 <= buf@.len() <= usize::MAX,
    ensures
        w == be_word(buf@, i as int),
{
    (((buf[i] as u32) << 24u32) | ((buf[i + 1] as u32) << 16u32) | ((buf[i + 2] as u32) << 8u32)
        | (buf[i + 3] as u32)) as u32
}

/// Message schedule of the block `buf[offset..offset + 64]`.
fn schedule(buf: &Vec<u8>, offset: usize) -> (w: Vec<u32>)
    requires
        offset + 64 <= buf@.len() <= usize::MAX,
    ensures
        w@.len() == 64,
        forall|t: int|
            0 <= t < 64 ==> #[trigger] w@[t] == schedule_word(
                buf@.subrange(offset as int, offset + 64),
                t,
            ),
{
    let ghost block = buf@.subrange(offset as int, offset + 64);
    let mut w: Vec<u32> = Vec::new();
    let mut t: usize = 0;
    while t < 64
        invariant
            offset + 64 <= buf@.len() <= usize::MAX,
            block == buf@.subrange(offset as int, offset + 64),
            0 <= t <= 64,
            w@.len() == t,
            forall|j: int| 0 <= j < t ==> #[trigger] w@[j] == schedule_word(block, j),
        decreases 64 - t,
    {
        if t < 16 {
            let word = be_word_exec(buf, offset + 4 * t);
            assert(be_word(block, 4 * t as int) == be_word(buf@, offset + 4 * t));
            w.push(word);
        } else {
            let s1 = rotr_exec(w[t - 2], 17) ^ rotr_exec(w[t - 2], 19) ^ (w[t - 2] >> 10u32);
            let s0 = rotr_exec(w[t - 15], 7) ^ rotr_exec(w[t - 15], 18) ^ (w[t - 15] >> 3u32);
            let word = s1.wrapping_add(w[t - 7]).wrapping_add(s0).wrapping_add(w[t - 16]);
            w.push(word);
        }
        t += 1;
    }
    w
}

/// Compression of the block `buf[offset..offset + 64]` into `h`.
fn compress_exec(h: &Vec<u32>, buf: &Vec<u8>, offset: usize) -> (next: Vec<u32>)
    requires
        h@.len() == 8,
        offset + 64 <= buf@.len() <= usize::MAX,
    ensures
        next@ == compress(h@, buf@.subrange(offset as int, offset + 64)),
{
    let ghost block = buf@.subrange(offset as int, offset + 64);
    let w = schedule(buf, offset);
    let mut a = h[0];
    let mut b = h[1];
    let mut c = h[2];
    let mut d = h[3];
    let mut e = h[4];
    let mut f = h[5];
    let mut g = h[6];
    let mut hh = h[7];
    assert(seq![a, b, c, d, e, f, g, hh] =~= rounds(h@, block, 0));
    let mut t: usize = 0;
    while t < 64
        invariant
            h@.len() == 8,
            w@.len() == 64,
            forall|j: int| 0 <= j < 64 ==> #[trigger] w@[j] == schedule_word(block, j),
            0 <= t <= 64,
            seq![a, b, c, d, e, f, g, hh] == rounds(h@, block, t as int),
        decreases 64 - t,
    {
        let ghost before = seq![a, b, c, d, e, f, g, hh];
        let s1 = rotr_exec(e, 6) ^ rotr_exec(e, 11) ^ rotr_exec(e, 25);
        let ch = (e & f) ^ (!e & g);
        let t1 = hh.wrapping_add(s1).wrapping_add(ch).wrapping_add(ROUND_CONSTANTS[t]).wrapping_add(
            w[t],
        );
        let s0 = rotr_exec(a, 2) ^ rotr_exec(a, 13) ^ rotr_exec(a, 22);
        let maj = (a & b) ^ (a & c) ^ (b & c);
        let t2 = s0.wrapping_add(maj);
        hh = g;
        g = f;
        f = e;
        e = d.wrapping_add(t1);
        d = c;
        c = b;
        b = a;
        a = t1.wrapping_add(t2);
        proof {
            assert(before == rounds(h@, block, t as int));
            assert(seq![a, b, c, d, e, f, g, hh] =~= round(
                before,
                ROUND_CONSTANTS[t as int],
                schedule_word(block, t as int),
            ));
        }
        t += 1;
    }
    let ghost s = rounds(h@, block, 64);
    let mut next: Vec<u32> = Vec::new();
    next.push(h[0].wrapping_add(a));
    next.push(h[1].wrapping_add(b));
    next.push(h[2].wrapping_add(c));
    next.push(h[3].wrapping_add(d));
    next.push(h[4].wrapping_add(e));
    next.push(h[5].wrapping_add(f));
    next.push(h[6].wrapping_add(g));
    next.push(h[7].wrapping_add(hh));
    assert(next@ =~= compress(h@, block));
    next
}

proof fn lemma_hash_blocks_agree(h: Seq<u32>, x: Seq<u8>, y: Seq<u8>, k: int)
    requires
        0 <= k,
        64 * k <= x.len(),
        64 * k <= y.len(),
        x.subrange(0, 64 * k) == y.subrange(0, 64 * k),
    ensures
        hash_blocks(h, x, k) == hash_blocks(h, y, k),
    decreases k,
{
    if k > 0 {
        assert(x.subrange(0, 64 * (k - 1)) =~= x.subrange(0, 64 * k).subrange(0, 64 * (k - 1)));
        assert(y.subrange(0, 64 * (k - 1)) =~= y.subrange(0, 64 * k).subrange(0, 64 * (k - 1)));
        lemma_hash_blocks_agree(h, x, y, k - 1);
        assert(x.subrange(64 * (k - 1), 64 * k) =~= x.subrange(0, 64 * k).subrange(
            64 * (k - 1),
            64 * k,
        ));
        assert(y.subrange(64 * (k - 1), 64 * k) =~= y.subrange(0, 64 * k).subrange(
            64 * (k - 1),
            64 * k,
        ));
    }
}

proof fn lemma_hash_blocks_split(h: Seq<u32>, p: Seq<u8>, m: int, j: int)
    requires
        0 <= m,
        0 <= j,
        64 * (m + j) <= p.len(),
    ensures
        hash_blocks(h, p, m + j) == hash_blocks(
            hash_blocks(h, p, m),
            p.subrange(64 * m, p.len() as int),
            j,
        ),
    decreases j,
{
    if j > 0 {
        lemma_hash_blocks_split(h, p, m, j - 1);
        let tail = p.subrange(64 * m, p.len() as int);
        assert(tail.subrange(64 * (j - 1), 64 * j) =~= p.subrange(
            64 * (m + j - 1),
            64 * (m + j),
        ));
    }
}

/// Streaming-interface SHA-256 hasher.
pub struct Hasher {
    data: Vec<u8>,
}

impl Hasher {
    /// Bytes absorbed so far.
    pub closed spec fn absorbed(&self) -> Seq<u8> {
        self.data@
    }

    /// A hasher that has absorbed nothing.
    pub fn new() -> (hasher: Self)
        ensures
            hasher.absorbed() == Seq::<u8>::empty(),
    {
        Hasher { data: Vec::new() }
    }

    /// Absorbs `bytes` after everything absorbed so far.
    pub fn update(&mut self, bytes: &[u8])
        ensures
            final(self).absorbed() == old(self).absorbed() + bytes@,
    {
        let mut i: usize = 0;
        let ghost start = self.data@;
        while i < bytes.len()
            invariant
                0 <= i <= bytes@.len(),
                self.data@ == start + bytes@.subrange(0, i as int),
            decreases bytes@.len() - i,
        {
            self.data.push(bytes[i]);
            assert(start + bytes@.subrange(0, i + 1) =~= (start + bytes@.subrange(0, i as int)).push(
                bytes@[i as int],
            ));
            i += 1;
        }
        assert(bytes@.subrange(0, bytes@.len() as int) =~= bytes@);
    }

    /// SHA-256 of every absorbed byte.
    pub fn finalize(self) -> (digest: [u8; 32])
        ensures
            digest@ == sha256_spec(self.absorbed()),
    {
        let data = self.data;
        let ghost msg = data@;
        let ghost p = padded(msg);
        let len = data.len();
        let full = len / 64;
        let mut h: Vec<u32> = Vec::new();
        let mut i: usize = 0;
        while i < 8
            invariant
                0 <= i <= 8,
                h@ =~= INITIAL_STATE@.subrange(0, i as int),
            decreases 8 - i,
        {
            h.push(INITIAL_STATE[i]);
            i += 1;
        }
        assert(p.subrange(0, 64 * full as int) =~= msg.subrange(0, 64 * full as int));
        let mut k: usize = 0;
        while k < full
            invariant
                data@ == msg,
                p == padded(msg),
                full == len / 64,
                len == msg.len(),
                0 <= k <= full,
                h@.len() == 8,
                h@ == hash_blocks(INITIAL_STATE@, msg, k as int),
            decreases full - k,
        {
            h = compress_exec(&h, &data, 64 * k);
            k += 1;
        }
        proof {
            lemma_hash_blocks_agree(INITIAL_STATE@, msg, p, full as int);
        }

        // Tail: the remaining bytes, the marker, zeros and the bit length.
        let mut tail: Vec<u8> = Vec::new();
        let mut i: usize = 64 * full;
        while i < len
            invariant
                data@ == msg,
                len == msg.len(),
                64 * full <= i <= len,
                tail@ == msg.subrange(64 * full as int, i as int),
            decreases len - i,
        {
            tail.push(data[i]);
            assert(msg.subrange(64 * full as int, i + 1) =~= msg.subrange(
                64 * full as int,
                i as int,
            ).push(msg[i as int]));
            i += 1;
        }
        tail.push(0x80);
        let rem = len % 64;
        let zeros = if rem <= 55 {
            55 - rem
        } else {
            119 - rem
        };
        let mut z: usize = 0;
        let ghost before_zeros = tail@;
        while z < zeros
            invariant
                0 <= z <= zeros,
                tail@ == before_zeros + Seq::new(z as nat, |i: int| 0u8),
            decreases zeros - z,
        {
            tail.push(0);
            assert(before_zeros + Seq::new((z + 1) as nat, |i: int| 0u8) =~= (before_zeros
                + Seq::new(z as nat, |i: int| 0u8)).push(0u8));
            z += 1;
        }
        let bits = (len as u64).wrapping_mul(8);
        let ghost before_length = tail@;
        let mut b: usize = 0;
        while b < 8
            invariant
                0 <= b <= 8,
                bits == bit_length(len as nat),
                tail@ == before_length + be_u64_bytes(bits).subrange(0, b as int),
            decreases 8 - b,
        {
            let byte = (#[verifier::truncate] (((bits >> (8 * (7 - b)) as u64) & 0xff) as u8));
            tail.push(byte);
            assert(before_length + be_u64_bytes(bits).subrange(0, b + 1) =~= (before_length
                + be_u64_bytes(bits).subrange(0, b as int)).push(byte));
            b += 1;
        }
        proof {
            assert(be_u64_bytes(bits).subrange(0, 8) =~= be_u64_bytes(bits));
            assert(tail@ =~= p.subrange(64 * full as int, p.len() as int));
        }
        let tail_blocks = tail.len() / 64;
        let mut j: usize = 0;
        while j < tail_blocks
            invariant
                tail_blocks == tail@.len() / 64,
                tail@.len() <= usize::MAX,
                tail@ == p.subrange(64 * full as int, p.len() as int),
                p == padded(msg),
                0 <= j <= tail_blocks,
                h@.len() == 8,
                h@ == hash_blocks(hash_blocks(INITIAL_STATE@, p, full as int), tail@, j as int),
            decreases tail_blocks - j,
        {
            h = compress_exec(&h, &tail, 64 * j);
            j += 1;
        }
        proof {
            lemma_hash_blocks_split(INITIAL_STATE@, p, full as int, tail_blocks as int);
            assert(p.len() / 64 == full + tail_blocks);
        }
        let mut digest = [0u8; 32];
        let mut i: usize = 0;
        while i < 32
            invariant
                0 <= i <= 32,
                h@.len() == 8,
                h@ == hash_blocks(INITIAL_STATE@, p, (p.len() / 64) as int),
                forall|x: int| 0 <= x < i ==> digest@[x] == state_bytes(h@)[x],
            decreases 32 - i,
        {
            let byte = (#[verifier::truncate] (((h[i / 4] >> (8 * (3 - i % 4)) as u32) & 0xff) as u8));
            digest[i] = byte;
            i += 1;
        }
        assert(digest@ =~= state_bytes(h@));
        digest
    }
}

} // verus!
