//! Checksum engine: a CRC-32 over arbitrary byte sequences.
//!
//! The variant is the widely used reflected CRC-32 (the IEEE polynomial,
//! bit-reversed as `0xEDB8_8320`), computed bit by bit: the running value
//! starts at all ones, each byte is folded in with eight shift-and-divide
//! steps, and the final value is complemented. The checksum is a total,
//! deterministic function of the byte sequence alone: no state, no
//! side effects, no failure case.

use vstd::prelude::*;

verus! {

/// The IEEE CRC-32 polynomial, reflected.
pub const CRC32_POLY: u32 = 0xEDB8_8320;

/// Initial value of the running remainder.
pub const CRC32_INIT: u32 = 0xFFFF_FFFF;

/// Value XOR-ed into the remainder after the last byte.
pub const CRC32_XOROUT: u32 = 0xFFFF_FFFF;

/// One shift-and-divide step of the bitwise CRC-32 recurrence.
pub open spec fn crc32_step(r: u32) -> u32 {
    if r & 1u32 == 1u32 {
        (r >> 1u32) ^ CRC32_POLY
    } else {
        r >> 1u32
    }
}

/// `n` successive steps of the recurrence, applied front to back.
pub open spec fn crc32_steps(r: u32, n: nat) -> u32
    decreases n,
{
    if n == 0 {
        r
    } else {
        crc32_steps(crc32_step(r), (n - 1) as nat)
    }
}

/// Folding one byte into the running remainder: XOR it into the low
/// eight bits, then take eight steps.
pub open spec fn crc32_update(r: u32, b: u8) -> u32 {
    crc32_steps(r ^ (b as u32), 8)
}

/// The running remainder after all bytes of `s`, folded left to right.
pub open spec fn crc32_acc(s: Seq<u8>) -> u32
    decreases s.len(),
{
    if s.len() == 0 {
        CRC32_INIT
    } else {
        crc32_update(crc32_acc(s.drop_last()), s.last())
    }
}

/// The CRC-32 of a byte sequence: the final remainder, complemented.
pub open spec fn crc32_of(s: Seq<u8>) -> u32 {
    crc32_acc(s) ^ CRC32_XOROUT
}

/// Folds one byte into the running remainder.
fn update_byte(r: u32, b: u8) -> (res: u32)
    ensures
        res == crc32_update(r, b),
{
    let mut acc: u32 = r ^ (b as u32);
    let mut j: usize = 0;
    while j < 8
        invariant
            j <= 8,
            crc32_steps(acc, (8 - j) as nat) == crc32_steps(r ^ (b as u32), 8),
        decreases 8 - j,
    {
        let stepped: u32 = if acc & 1 == 1 {
            (acc >> 1) ^ CRC32_POLY
        } else {
            acc >> 1
        };
        proof {
            assert(stepped == crc32_step(acc));
            assert(crc32_steps(acc, (8 - j) as nat) == crc32_steps(stepped, (8 - (j + 1)) as nat));
        }
        acc = stepped;
        j += 1;
    }
    acc
}

/// Computes the CRC-32 of the whole byte sequence.
pub fn compute_crc(data: &Vec<u8>) -> (r: u32)
    ensures
        r == crc32_of(data@),
{
    let mut acc: u32 = CRC32_INIT;
    let mut i: usize = 0;
    while i < data.len()
        invariant
            i <= data.len(),
            acc == crc32_acc(data@.take(i as int)),
        decreases data.len() - i,
    {
        acc = update_byte(acc, data[i]);
        proof {
            let s = data@.take(i + 1 as int);
            assert(s.drop_last() =~= data@.take(i as int));
            assert(s.last() == data@[i as int]);
        }
        i += 1;
    }
    proof {
        assert(data@.take(data.len() as int) =~= data@);
    }
    acc ^ CRC32_XOROUT
}

/// The checksum is deterministic: two byte sequences that are equal have
/// equal checksums, so repeated runs over the same input agree.
pub proof fn lemma_crc_deterministic(a: Seq<u8>, b: Seq<u8>)
    requires
        a == b,
    ensures
        crc32_of(a) == crc32_of(b),
{
}

/// The empty sequence checks out to zero: no byte is folded in, so the
/// complemented initial remainder cancels against the final XOR.
pub proof fn lemma_crc_empty()
    ensures
        crc32_of(Seq::<u8>::empty()) == 0u32,
{
    assert(crc32_acc(Seq::<u8>::empty()) == CRC32_INIT);
    assert(0xFFFF_FFFFu32 ^ 0xFFFF_FFFFu32 == 0u32) by (bit_vector);
}

} // verus!
