//! Deterministic digests: 64-bit FNV-1a and SHA-256.
use vstd::prelude::*;

verus! {

/// The FNV-1a offset basis.
pub const FNV_OFFSET: u64 = 0xcbf29ce484222325;

/// The FNV-1a prime.
pub const FNV_PRIME: u64 = 0x100000001b3;

/// The FNV-1a state after absorbing the bytes, in order, into `start`.
pub open spec fn fnv1a_from(start: u64, bytes: Seq<u8>) -> u64
    decreases bytes.len(),
{
    if bytes.len() == 0 {
        start
    } else {
        (fnv1a_from(start, bytes.drop_last()) ^ (bytes.last() as u64)).wrapping_mul(FNV_PRIME)
    }
}

/// The 64-bit FNV-1a hash of a byte string.
pub open spec fn fnv1a_of(bytes: Seq<u8>) -> u64 {
    fnv1a_from(FNV_OFFSET, bytes)
}

/// Hashes the UTF-8 bytes of a string with 64-bit FNV-1a.
pub fn stable_hash(value: &str) -> (h: u64)
    ensures
        h == fnv1a_of(vstd::utf8::encode_utf8(value@)),
{
    let bytes = value.as_bytes();
    let mut hash: u64 = FNV_OFFSET;
    let mut i: usize = 0;
    while i < bytes.len()
        invariant
            i <= bytes@.len(),
            hash == fnv1a_of(bytes@.subrange(0, i as int)),
        decreases bytes@.len() - i,
    {
        proof {
            let next = bytes@.subrange(0, i + 1);
            assert(next.drop_last() == bytes@.subrange(0, i as int));
            assert(next.last() == bytes@[i as int]);
        }
        hash = (hash ^ (bytes[i] as u64)).wrapping_mul(FNV_PRIME);
        i = i + 1;
    }
    assert(bytes@.subrange(0, i as int) == bytes@);
    hash
}

/// The SHA-256 round constants.
pub open spec fn round_constants() -> Seq<u32> {
    seq![
        0x428a2f98, 0x71374491, 0xb5c0fbcf, 0xe9b5dba5, 0x3956c25b, 0x59f111f1, 0x923f82a4,
        0xab1c5ed5, 0xd807aa98, 0x12835b01, 0x243185be, 0x550c7dc3, 0x72be5d74, 0x80deb1fe,
        0x9bdc06a7, 0xc19bf174, 0xe49b69c1, 0xefbe4786, 0x0fc19dc6, 0x240ca1cc, 0x2de92c6f,
        0x4a7484aa, 0x5cb0a9dc, 0x76f988da, 0x983e5152, 0xa831c66d, 0xb00327c8, 0xbf597fc7,
        0xc6e00bf3, 0xd5a79147, 0x06ca6351, 0x14292967, 0x27b70a85, 0x2e1b2138, 0x4d2c6dfc,
        0x53380d13, 0x650a7354, 0x766a0abb, 0x81c2c92e, 0x92722c85, 0xa2bfe8a1, 0xa81a664b,
        0xc24b8b70, 0xc76c51a3, 0xd192e819, 0xd6990624, 0xf40e3585, 0x106aa070, 0x19a4c116,
        0x1e376c08, 0x2748774c, 0x34b0bcb5, 0x391c0cb3, 0x4ed8aa4a, 0x5b9cca4f, 0x682e6ff3,
        0x748f82ee, 0x78a5636f, 0x84c87814, 0x8cc70208, 0x90befffa, 0xa4506ceb, 0xbef9a3f7,
        0xc67178f2,
    ]
}

/// The SHA-256 initial state.
pub open spec fn initial_state() -> Seq<u32> {
    seq![
        0x6a09e667,
        0xbb67ae85,
        0x3c6ef372,
        0xa54ff53a,
        0x510e527f,
        0x9b05688c,
        0x1f83d9ab,
        0x5be0cd19,
    ]
}

/// A word rotated right by `n` bits, `0 < n < 32`.
pub open spec fn rotated(x: u32, n: u32) -> u32 {
    (x >> n) | (x << ((32 - n) as u32))
}

/// The big-endian word at byte offset `at`.
pub open spec fn word_at(bytes: Seq<u8>, at: int) -> u32 {
    ((bytes[at] as u32) << 24u32) | ((bytes[at + 1] as u32) << 16u32) | ((bytes[at + 2] as u32)
        << 8u32) | (bytes[at + 3] as u32)
}

/// The message schedule word `t` of a 64-byte block.
pub open spec fn schedule(block: Seq<u8>, t: nat) -> u32
    decreases t,
{
    if t < 16 {
        word_at(block, 4 * t as int)
    } else {
        let w15 = schedule(block, (t - 15) as nat);
        let w2 = schedule(block, (t - 2) as nat);
        let s0 = rotated(w15, 7) ^ rotated(w15, 18) ^ (w15 >> 3u32);
        let s1 = rotated(w2, 17) ^ rotated(w2, 19) ^ (w2 >> 10u32);
        schedule(block, (t - 16) as nat).wrapping_add(s0).wrapping_add(
            schedule(block, (t - 7) as nat),
        ).wrapping_add(s1)
    }
}

/// One compression round on the eight working words.
pub open spec fn round(v: Seq<u32>, k: u32, w: u32) -> Seq<u32> {
    let s1 = rotated(v[4], 6) ^ rotated(v[4], 11) ^ rotated(v[4], 25);
    let choice = (v[4] & v[5]) ^ ((!v[4]) & v[6]);
    let temp1 = v[7].wrapping_add(s1).wrapping_add(choice).wrapping_add(k).wrapping_add(w);
    let s0 = rotated(v[0], 2) ^ rotated(v[0], 13) ^ rotated(v[0], 22);
    let majority = (v[0] & v[1]) ^ (v[0] & v[2]) ^ (v[1] & v[2]);
    let temp2 = s0.wrapping_add(majority);
    seq![
        temp1.wrapping_add(temp2),
        v[0],
        v[1],
        v[2],
        v[3].wrapping_add(temp1),
        v[4],
        v[5],
        v[6],
    ]
}

/// The working words after the first `t` rounds on a block.
pub open spec fn rounds(state: Seq<u32>, block: Seq<u8>, t: nat) -> Seq<u32>
    decreases t,
{
    if t == 0 {
        state
    } else {
        round(
            rounds(state, block, (t - 1) as nat),
            round_constants()[t - 1],
            schedule(block, (t - 1) as nat),
        )
    }
}

/// The state after a block has been compressed into it.
pub open spec fn compressed(state: Seq<u32>, block: Seq<u8>) -> Seq<u32> {
    let v = rounds(state, block, 64);
    Seq::new(8, |i: int| state[i].wrapping_add(v[i]))
}

/// The state after the first `n` blocks of a padded message.
pub open spec fn absorbed(message: Seq<u8>, n: nat) -> Seq<u32>
    decreases n,
{
    if n == 0 {
        initial_state()
    } else {
        compressed(
            absorbed(message, (n - 1) as nat),
            message.subrange(64 * (n - 1), 64 * n as int),
        )
    }
}

/// The eight bytes of a 64-bit number, most significant first.
pub open spec fn be_bytes(n: u64) -> Seq<u8> {
    seq![
        (n >> 56u64) as u8,
        (n >> 48u64) as u8,
        (n >> 40u64) as u8,
        (n >> 32u64) as u8,
        (n >> 24u64) as u8,
        (n >> 16u64) as u8,
        (n >> 8u64) as u8,
        n as u8,
    ]
}

/// A message followed by a one bit, zero bits and its bit length, filling whole blocks.
pub open spec fn padded(input: Seq<u8>) -> Seq<u8> {
    input.push(0x80) + Seq::new(((55 - input.len()) % 64) as nat, |i: int| 0u8) + be_bytes(
        (input.len() as u64).wrapping_mul(8),
    )
}

/// The byte `i` of a state, each word most significant byte first.
pub open spec fn state_byte(state: Seq<u32>, i: int) -> u8 {
    let w = state[i / 4];
    if i % 4 == 0 {
        (w >> 24u32) as u8
    } else if i % 4 == 1 {
        (w >> 16u32) as u8
    } else if i % 4 == 2 {
        (w >> 8u32) as u8
    } else {
        w as u8
    }
}

/// The SHA-256 digest of a byte string.
pub open spec fn sha256_of(input: Seq<u8>) -> Seq<u8> {
    let message = padded(input);
    let state = absorbed(message, message.len() / 64);
    Seq::new(32, |i: int| state_byte(state, i))
}

fn rotate(x: u32, n: u32) -> (r: u32)
    requires
        0 < n < 32,
    ensures
        r == rotated(x, n),
{
    (x >> n) | (x << (32 - n))
}

fn read_word(bytes: &Vec<u8>, at: usize) -> (r: u32)
    requires
        at + 3 < bytes@.len(),
    ensures
        r == word_at(bytes@, at as int),
{
    assert(at + 3 < bytes.len());
    ((bytes[at] as u32) << 24u32) | ((bytes[at + 1] as u32) << 16u32) | ((bytes[at + 2] as u32)
        << 8u32) | (bytes[at + 3] as u32)
}

fn constants() -> (k: Vec<u32>)
    ensures
        k@ == round_constants(),
{
    let k: Vec<u32> = vec![
        0x428a2f98, 0x71374491, 0xb5c0fbcf, 0xe9b5dba5, 0x3956c25b, 0x59f111f1, 0x923f82a4,
        0xab1c5ed5, 0xd807aa98, 0x12835b01, 0x243185be, 0x550c7dc3, 0x72be5d74, 0x80deb1fe,
        0x9bdc06a7, 0xc19bf174, 0xe49b69c1, 0xefbe4786, 0x0fc19dc6, 0x240ca1cc, 0x2de92c6f,
        0x4a7484aa, 0x5cb0a9dc, 0x76f988da, 0x983e5152, 0xa831c66d, 0xb00327c8, 0xbf597fc7,
        0xc6e00bf3, 0xd5a79147, 0x06ca6351, 0x14292967, 0x27b70a85, 0x2e1b2138, 0x4d2c6dfc,
        0x53380d13, 0x650a7354, 0x766a0abb, 0x81c2c92e, 0x92722c85, 0xa2bfe8a1, 0xa81a664b,
        0xc24b8b70, 0xc76c51a3, 0xd192e819, 0xd6990624, 0xf40e3585, 0x106aa070, 0x19a4c116,
        0x1e376c08, 0x2748774c, 0x34b0bcb5, 0x391c0cb3, 0x4ed8aa4a, 0x5b9cca4f, 0x682e6ff3,
        0x748f82ee, 0x78a5636f, 0x84c87814, 0x8cc70208, 0x90befffa, 0xa4506ceb, 0xbef9a3f7,
        0xc67178f2,
    ];
    assert(k@ =~= round_constants());
    k
}

/// The 64 schedule words of the block that starts at byte `at`.
fn expand(message: &Vec<u8>, at: usize) -> (words: Vec<u32>)
    requires
        at + 64 <= message@.len(),
    ensures
        words@.len() == 64,
        forall|t: int|
            0 <= t < 64 ==> #[trigger] words@[t] == schedule(
                message@.subrange(at as int, at + 64),
                t as nat,
            ),
{
    let ghost block = message@.subrange(at as int, at + 64);
    assert(at + 64 <= message.len());
    let mut words: Vec<u32> = Vec::new();
    let mut t: usize = 0;
    while t < 64
        invariant
            t <= 64,
            words@.len() == t,
            at + 64 <= message.len(),
            block == message@.subrange(at as int, at + 64),
            forall|j: int| 0 <= j < t ==> #[trigger] words@[j] == schedule(block, j as nat),
        decreases 64 - t,
    {
        if t < 16 {
            let w: u32 = read_word(message, at + 4 * t);
            assert(w == word_at(block, 4 * t as int));
            words.push(w);
        } else {
            let w15: u32 = words[t - 15];
            let w2: u32 = words[t - 2];
            let s0: u32 = rotate(w15, 7) ^ rotate(w15, 18) ^ (w15 >> 3u32);
            let s1: u32 = rotate(w2, 17) ^ rotate(w2, 19) ^ (w2 >> 10u32);
            let w: u32 = words[t - 16].wrapping_add(s0).wrapping_add(words[t - 7]).wrapping_add(s1);
            words.push(w);
        }
        t = t + 1;
    }
    words
}

/// Compresses the block that starts at byte `at` into the state.
fn compress(state: &Vec<u32>, message: &Vec<u8>, at: usize, k: &Vec<u32>) -> (r: Vec<u32>)
    requires
        state@.len() == 8,
        at + 64 <= message@.len(),
        k@ == round_constants(),
    ensures
        r@ == compressed(state@, message@.subrange(at as int, at + 64)),
{
    let ghost block = message@.subrange(at as int, at + 64);
    let words = expand(message, at);
    let mut v: Vec<u32> = Vec::new();
    for i in 0..8usize
        invariant
            state@.len() == 8,
            v@ == state@.subrange(0, i as int),
    {
        v.push(state[i]);
    }
    assert(v@ == state@);
    let mut t: usize = 0;
    while t < 64
        invariant
            t <= 64,
            v@.len() == 8,
            state@.len() == 8,
            k@ == round_constants(),
            k@.len() == 64,
            words@.len() == 64,
            forall|j: int| 0 <= j < 64 ==> #[trigger] words@[j] == schedule(block, j as nat),
            v@ == rounds(state@, block, t as nat),
        decreases 64 - t,
    {
        let s1: u32 = rotate(v[4], 6) ^ rotate(v[4], 11) ^ rotate(v[4], 25);
        let choice: u32 = (v[4] & v[5]) ^ ((!v[4]) & v[6]);
        let temp1: u32 = v[7].wrapping_add(s1).wrapping_add(choice).wrapping_add(
            k[t],
        ).wrapping_add(words[t]);
        let s0: u32 = rotate(v[0], 2) ^ rotate(v[0], 13) ^ rotate(v[0], 22);
        let majority: u32 = (v[0] & v[1]) ^ (v[0] & v[2]) ^ (v[1] & v[2]);
        let temp2: u32 = s0.wrapping_add(majority);
        let ghost before = v@;
        v = vec![
            temp1.wrapping_add(temp2),
            v[0],
            v[1],
            v[2],
            v[3].wrapping_add(temp1),
            v[4],
            v[5],
            v[6],
        ];
        assert(v@ =~= round(before, round_constants()[t as int], schedule(block, t as nat)));
        t = t + 1;
    }
    let mut r: Vec<u32> = Vec::new();
    for i in 0..8usize
        invariant
            state@.len() == 8,
            v@.len() == 8,
            v@ == rounds(state@, block, 64),
            r@ == compressed(state@, block).subrange(0, i as int),
    {
        r.push(state[i].wrapping_add(v[i]));
    }
    assert(r@ == compressed(state@, block));
    r
}

/// A copy of the input padded to whole blocks.
fn pad(input: &[u8]) -> (message: Vec<u8>)
    ensures
        message@ == padded(input@),
        message@.len() % 64 == 0,
{
    let mut message: Vec<u8> = Vec::new();
    for i in 0..input.len()
        invariant
            message@ == input@.subrange(0, i as int),
    {
        message.push(input[i]);
    }
    assert(message@ == input@);
    let bit_len: u64 = (message.len() as u64).wrapping_mul(8);
    message.push(0x80);
    let ghost zeros: nat = 0;
    let ghost total = ((55 - input@.len()) % 64) as nat;
    while message.len() % 64 != 56
        invariant
            zeros <= total,
            total == ((55 - input@.len()) % 64) as nat,
            message@ == input@.push(0x80) + Seq::new(zeros, |i: int| 0u8),
        decreases total - zeros,
    {
        message.push(0);
        proof {
            zeros = zeros + 1;
        }
        assert(message@ == input@.push(0x80) + Seq::new(zeros, |i: int| 0u8));
    }
    assert(zeros == total);
    message.push((bit_len >> 56u64) as u8);
    message.push((bit_len >> 48u64) as u8);
    message.push((bit_len >> 40u64) as u8);
    message.push((bit_len >> 32u64) as u8);
    message.push((bit_len >> 24u64) as u8);
    message.push((bit_len >> 16u64) as u8);
    message.push((bit_len >> 8u64) as u8);
    message.push(bit_len as u8);
    assert(message@ =~= padded(input@));
    message
}

/// Computes the SHA-256 digest of a byte string.
pub fn sha256(input: &[u8]) -> (digest: [u8; 32])
    ensures
        digest@ == sha256_of(input@),
{
    let message = pad(input);
    let k = constants();
    let mut state: Vec<u32> = vec![
        0x6a09e667,
        0xbb67ae85,
        0x3c6ef372,
        0xa54ff53a,
        0x510e527f,
        0x9b05688c,
        0x1f83d9ab,
        0x5be0cd19,
    ];
    assert(state@ =~= initial_state());
    let blocks: usize = message.len() / 64;
    let mut n: usize = 0;
    while n < blocks
        invariant
            n <= blocks,
            blocks == message.len() / 64,
            k@ == round_constants(),
            state@.len() == 8,
            state@ == absorbed(message@, n as nat),
        decreases blocks - n,
    {
        state = compress(&state, &message, 64 * n, &k);
        n = n + 1;
        assert(message@.subrange(64 * (n - 1), 64 * (n - 1) + 64) == message@.subrange(
            64 * (n - 1),
            64 * n as int,
        ));
    }
    let mut digest: [u8; 32] = [0;32];
    let mut i: usize = 0;
    while i < 8
        invariant
            i <= 8,
            state@.len() == 8,
            forall|j: int| 0 <= j < 4 * i ==> digest@[j] == #[trigger] state_byte(state@, j),
        decreases 8 - i,
    {
        let w: u32 = state[i];
        digest[4 * i] = (w >> 24u32) as u8;
        digest[4 * i + 1] = (w >> 16u32) as u8;
        digest[4 * i + 2] = (w >> 8u32) as u8;
        digest[4 * i + 3] = w as u8;
        i = i + 1;
    }
    assert(digest@ =~= sha256_of(input@));
    digest
}

} // verus!
