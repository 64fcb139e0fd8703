//! The memory of the running task's slot, as the kernel reads and writes
//! it: byte `k` of the slot is at user address `USER_BASE + k`; words are
//! eight bytes, little-endian.

use vstd::prelude::*;

verus! {

/// Byte `k` (from the least significant) of `v`.
pub open spec fn byte_of(v: u64, k: int) -> u8 {
    ((v >> ((8 * k) as u64)) & 0xff) as u8
}

/// The eight bytes of `v`, least significant first.
pub open spec fn word_bytes(v: u64) -> Seq<u8> {
    Seq::new(8, |k: int| byte_of(v, k))
}

/// The four bytes of `v`, least significant first.
pub open spec fn half_bytes(v: u32) -> Seq<u8> {
    Seq::new(4, |k: int| ((v >> ((8 * k) as u32)) & 0xff) as u8)
}

/// The word whose little-endian bytes are `b[0..8]`.
pub open spec fn bytes_word(b: Seq<u8>) -> u64 {
    (b[0] as u64) | ((b[1] as u64) << 8u64) | ((b[2] as u64) << 16u64) | ((b[3] as u64) << 24u64)
        | ((b[4] as u64) << 32u64) | ((b[5] as u64) << 40u64) | ((b[6] as u64) << 48u64) | ((
    b[7] as u64) << 56u64)
}

/// `m` with `b` written at `at`.
pub open spec fn put_bytes(m: Seq<u8>, at: int, b: Seq<u8>) -> Seq<u8> {
    Seq::new(m.len(), |k: int| if at <= k < at + b.len() { b[k - at] } else { m[k] })
}

/// Reading back a written word gives the word.
pub proof fn lemma_word_round_trip(v: u64)
    ensures
        bytes_word(word_bytes(v)) == v,
{
    let b = word_bytes(v);
    assert(b[0] == byte_of(v, 0) && b[1] == byte_of(v, 1) && b[2] == byte_of(v, 2) && b[3]
        == byte_of(v, 3));
    assert(b[4] == byte_of(v, 4) && b[5] == byte_of(v, 5) && b[6] == byte_of(v, 6) && b[7]
        == byte_of(v, 7));
    assert(((((v >> 0u64) & 0xff) as u8) as u64) | (((((v >> 8u64) & 0xff) as u8) as u64) << 8u64)
        | (((((v >> 16u64) & 0xff) as u8) as u64) << 16u64) | (((((v >> 24u64) & 0xff) as u8) as u64)
        << 24u64) | (((((v >> 32u64) & 0xff) as u8) as u64) << 32u64) | (((((v >> 40u64) & 0xff) as u8) as u64)
        << 40u64) | (((((v >> 48u64) & 0xff) as u8) as u64) << 48u64) | (((((v >> 56u64) & 0xff) as u8) as u64)
        << 56u64) == v) by (bit_vector);
}

/// Writes the eight bytes of `v` at index `at`.
pub fn write_word(mem: &mut Vec<u8>, at: usize, v: u64)
    requires
        at + 8 <= old(mem).len(),
    ensures
        final(mem)@ == put_bytes(old(mem)@, at as int, word_bytes(v)),
{
    let mut k: usize = 0;
    while k < 8
        invariant
            at + 8 <= mem.len(),
            mem@.len() == old(mem)@.len(),
            k <= 8,
            forall|i: int|
                0 <= i < mem@.len() ==> #[trigger] mem@[i] == (if at <= i < at + k {
                    byte_of(v, i - at)
                } else {
                    old(mem)@[i]
                }),
        decreases 8 - k,
    {
        let byte = ((v >> (8 * k as u64)) & 0xff) as u8;
        mem.set(at + k, byte);
        k = k + 1;
    }
    assert(mem@ =~= put_bytes(old(mem)@, at as int, word_bytes(v)));
}

/// Writes the four bytes of `v` at index `at`.
pub fn write_half(mem: &mut Vec<u8>, at: usize, v: u32)
    requires
        at + 4 <= old(mem).len(),
    ensures
        final(mem)@ == put_bytes(old(mem)@, at as int, half_bytes(v)),
{
    let mut k: usize = 0;
    while k < 4
        invariant
            at + 4 <= mem.len(),
            mem@.len() == old(mem)@.len(),
            k <= 4,
            forall|i: int|
                0 <= i < mem@.len() ==> #[trigger] mem@[i] == (if at <= i < at + k {
                    half_bytes(v)[i - at]
                } else {
                    old(mem)@[i]
                }),
        decreases 4 - k,
    {
        let byte = ((v >> (8 * k as u32)) & 0xff) as u8;
        mem.set(at + k, byte);
        k = k + 1;
    }
    assert(mem@ =~= put_bytes(old(mem)@, at as int, half_bytes(v)));
}

/// The word whose bytes are at `at .. at + 8`.
pub fn read_word(mem: &Vec<u8>, at: usize) -> (r: u64)
    requires
        at + 8 <= mem.len(),
    ensures
        r == bytes_word(mem@.subrange(at as int, at + 8)),
{
    let ghost b = mem@.subrange(at as int, at + 8);
    let r = (mem[at] as u64) | ((mem[at + 1] as u64) << 8) | ((mem[at + 2] as u64) << 16) | ((
    mem[at + 3] as u64) << 24) | ((mem[at + 4] as u64) << 32) | ((mem[at + 5] as u64) << 40) | ((
    mem[at + 6] as u64) << 48) | ((mem[at + 7] as u64) << 56);
    assert(b[0] == mem@[at as int] && b[1] == mem@[at + 1] && b[2] == mem@[at + 2] && b[3]
        == mem@[at + 3]);
    assert(b[4] == mem@[at + 4] && b[5] == mem@[at + 5] && b[6] == mem@[at + 6] && b[7]
        == mem@[at + 7]);
    r
}

} // verus!
