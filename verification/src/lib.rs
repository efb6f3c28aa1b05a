//! A boundary layer between native code and a foreign caller.
//!
//! The foreign caller owns every buffer and callback it hands across the
//! boundary, and nothing it hands over can be trusted as given: pointers
//! may be null, callbacks may be absent. An unverified shim performs the
//! raw crossings (dereferencing, snapshotting element values, adapting
//! foreign calling conventions); this library receives only plain values
//! from it — scalars, element snapshots, callback closures, the nullness
//! of a reported pointer — and performs every decision and computation on
//! them under a proved contract: buffer validation, callback-presence
//! checks, wrapping arithmetic over buffer contents, bounded fills, and a
//! CRC-32 checksum over byte sequences.
//!
//! Double-precision scalars cross the boundary as their bit patterns
//! (`u64`), so that the verified code never holds a floating-point value;
//! the shim converts between the two representations at the edge.

use vstd::prelude::*;

pub mod boundary;
pub mod crc;

use crate::boundary::BoundaryError;

verus! {

/// Squares a fixed-width integer with two's-complement wrap-around on
/// overflow, as fixed-width multiplication at the boundary does. Where
/// the true square fits the type, the result is exact.
pub fn square(x: i32) -> (r: i32)
    ensures
        r == x.wrapping_mul(x),
        x as int * x as int <= i32::MAX as int ==> r == x as int * x as int,
{
    let r = x.wrapping_mul(x);
    proof {
        assert(x as int * x as int >= 0) by (nonlinear_arith);
        let v = x as int * x as int;
        if v <= i32::MAX as int {
            assert(v % 0x1_0000_0000 == v) by (nonlinear_arith)
                requires
                    0 <= v < 0x1_0000_0000,
            ;
        }
    }
    r
}

/// The mathematical (unbounded) sum of a sequence of unsigned 32-bit
/// elements, folded left to right.
pub open spec fn sum_u32(s: Seq<u32>) -> int
    decreases s.len(),
{
    if s.len() == 0 {
        0
    } else {
        sum_u32(s.drop_last()) + s.last()
    }
}

/// Sums the elements of a read-only buffer snapshot. The result is the
/// arithmetic sum reduced modulo 2^32: fixed-width accumulation wraps on
/// overflow, and the sum of the empty buffer is zero.
pub fn sum_array(elems: &Vec<u32>) -> (r: u32)
    ensures
        r as int == sum_u32(elems@) % 0x1_0000_0000,
{
    let mut acc: u32 = 0;
    let mut i: usize = 0;
    while i < elems.len()
        invariant
            i <= elems.len(),
            acc as int == sum_u32(elems@.take(i as int)) % 0x1_0000_0000,
        decreases elems.len() - i,
    {
        let v = elems[i];
        proof {
            let m = 0x1_0000_0000 as int;
            let s_prev = sum_u32(elems@.take(i as int));
            let s_next = elems@.take(i + 1 as int);
            assert(s_next.drop_last() =~= elems@.take(i as int));
            assert(s_next.last() == elems@[i as int]);
            vstd::arithmetic::div_mod::lemma_add_mod_noop(s_prev, v as int, m);
            vstd::arithmetic::div_mod::lemma_small_mod(v as nat, m as nat);
            let t = acc as int + v as int;
            if t <= u32::MAX as int {
                vstd::arithmetic::div_mod::lemma_small_mod(t as nat, m as nat);
            } else {
                vstd::arithmetic::div_mod::lemma_mod_multiples_vanish(1, t - m, m);
                vstd::arithmetic::div_mod::lemma_small_mod((t - m) as nat, m as nat);
            }
        }
        acc = acc.wrapping_add(v);
        i += 1;
    }
    proof {
        assert(elems@.take(elems.len() as int) =~= elems@);
    }
    acc
}

/// IEEE-754 double-precision bit pattern of the constant two, the value
/// the in-place overwrite stores into every element.
pub const DOUBLE_TWO_BITS: u64 = 0x4000_0000_0000_0000;

/// Overwrites every element of a mutable buffer snapshot with the
/// constant two (as a double-precision bit pattern). Exactly the buffer's
/// own elements are written: the length is unchanged, and no index at or
/// beyond it is touched.
pub fn mutate_numpy_array(elems: &mut Vec<u64>)
    ensures
        final(elems)@.len() == old(elems)@.len(),
        forall|i: int| 0 <= i < final(elems)@.len() ==> final(elems)@[i] == DOUBLE_TWO_BITS,
{
    let mut i: usize = 0;
    while i < elems.len()
        invariant
            i <= elems.len(),
            elems@.len() == old(elems)@.len(),
            forall|k: int| 0 <= k < i ==> elems@[k] == DOUBLE_TWO_BITS,
        decreases elems.len() - i,
    {
        elems.set(i, DOUBLE_TWO_BITS);
        i += 1;
    }
}

/// Invokes an optional foreign callback with the literal demonstration
/// argument 42. An absent callback is a contract violation, reported
/// before anything else happens; a present one is invoked exactly once.
pub fn call_me_back<F: Fn(i32)>(f: Option<F>) -> (r: Result<(), BoundaryError>)
    requires
        f matches Some(g) ==> call_requires(g, (42i32,)),
    ensures
        r is Ok <==> f is Some,
        f matches Some(g) ==> call_ensures(g, (42i32,), ()),
        r matches Err(e) ==> e == BoundaryError::NullCallback,
{
    match f {
        Some(g) => {
            g(42);
            Ok(())
        },
        None => Err(BoundaryError::NullCallback),
    }
}

/// Reads one double-precision scalar back from an optional foreign
/// callback. The callback is handed a place for one scalar and yields
/// the bit pattern it left there (the unverified shim adapts the foreign
/// out-parameter convention to this shape); whatever comes back is
/// returned unchanged. An absent callback is a contract violation.
pub fn get_double_from_python<F: Fn() -> u64>(f: Option<F>) -> (r: Result<u64, BoundaryError>)
    requires
        f matches Some(g) ==> call_requires(g, ()),
    ensures
        r is Ok <==> f is Some,
        f matches Some(g) ==> (r matches Ok(v) && call_ensures(g, (), v)),
        r matches Err(e) ==> e == BoundaryError::NullCallback,
{
    match f {
        Some(g) => Ok(g()),
        None => Err(BoundaryError::NullCallback),
    }
}

/// Number of elements requested from the foreign allocator.
pub const FOREIGN_ALLOC_LEN: usize = 4;

/// IEEE-754 double-precision bit pattern of the constant forty-two, the
/// value stored into every element of the foreign-allocated buffer.
pub const DOUBLE_FORTY_TWO_BITS: u64 = 0x4045_0000_0000_0000;

/// A fresh buffer of `len` elements, every one equal to `val`.
fn filled(len: usize, val: u64) -> (v: Vec<u64>)
    ensures
        v@.len() == len,
        forall|i: int| 0 <= i < v@.len() ==> v@[i] == val,
{
    let mut v: Vec<u64> = Vec::new();
    let mut i: usize = 0;
    while i < len
        invariant
            i <= len,
            v@.len() == i,
            forall|k: int| 0 <= k < i ==> v@[k] == val,
        decreases len - i,
    {
        v.push(val);
        i += 1;
    }
    v
}

/// Requests a buffer of [`FOREIGN_ALLOC_LEN`] elements from an optional
/// foreign allocation callback and produces the values to store in it:
/// every element the constant forty-two. The callback receives the
/// requested count and reports whether it wrote a non-null buffer
/// address back through its out-parameter (the unverified shim adapts
/// the foreign convention to this shape). An absent callback, or a null
/// reported address, is a contract violation, reported before any write
/// is attempted. The foreign side alone guarantees that its allocation
/// really holds the requested count — that part of the contract is
/// trust-based and cannot be checked from here.
pub fn fill_array<F: Fn(usize) -> bool>(f: Option<F>) -> (r: Result<Vec<u64>, BoundaryError>)
    requires
        f matches Some(g) ==> call_requires(g, (FOREIGN_ALLOC_LEN,)),
    ensures
        f is None ==> (r matches Err(e) && e == BoundaryError::NullCallback),
        f matches Some(g) ==> (match r {
            Ok(v) => call_ensures(g, (FOREIGN_ALLOC_LEN,), true) && v@.len() == FOREIGN_ALLOC_LEN
                && (forall|i: int| 0 <= i < v@.len() ==> v@[i] == DOUBLE_FORTY_TWO_BITS),
            Err(e) => e == BoundaryError::NullPointer && call_ensures(
                g,
                (FOREIGN_ALLOC_LEN,),
                false,
            ),
        }),
{
    match f {
        Some(g) => {
            let reported_non_null = g(FOREIGN_ALLOC_LEN);
            if reported_non_null {
                Ok(filled(FOREIGN_ALLOC_LEN, DOUBLE_FORTY_TWO_BITS))
            } else {
                Err(BoundaryError::NullPointer)
            }
        },
        None => Err(BoundaryError::NullCallback),
    }
}

} // verus!
