//! Encoding of execution results.
//!
//! The entry point of a module returns an ordered sequence of 32-bit integer
//! values. A `Ret` payload is the concatenation of each value's fixed-width
//! byte form, least significant byte first (the byte order of the supported
//! hosts), in call order. A value of any other kind is not representable and
//! is reported as an error, never truncated.

use vstd::prelude::*;

verus! {

/// The unsigned 32-bit value with the same bit pattern as `v`.
pub open spec fn u32_of_i32(v: i32) -> u32 {
    if v >= 0 {
        v as u32
    } else {
        (v + 0x1_0000_0000) as u32
    }
}

/// The four wire bytes of one 32-bit value, least significant first.
pub open spec fn wire_bytes(v: i32) -> Seq<u8> {
    let u = u32_of_i32(v);
    seq![
        (u % 256) as u8,
        ((u / 256) % 256) as u8,
        ((u / 0x1_0000) % 256) as u8,
        ((u / 0x100_0000) % 256) as u8,
    ]
}

/// The wire bytes of a whole result sequence: each value's four bytes, in
/// call order.
pub open spec fn spec_results_bytes(vals: Seq<i32>) -> Seq<u8>
    decreases vals.len(),
{
    if vals.len() == 0 {
        Seq::empty()
    } else {
        spec_results_bytes(vals.drop_last()) + wire_bytes(vals.last())
    }
}

/// Appends the four wire bytes of `v` to `out`.
fn push_wire_bytes(out: &mut Vec<u8>, v: i32)
    ensures
        final(out)@ == old(out)@ + wire_bytes(v),
{
    let u: u32 = if v >= 0 {
        v as u32
    } else {
        ((v as i64) + 0x1_0000_0000) as u32
    };
    assert(u == u32_of_i32(v));
    out.push((u % 256) as u8);
    out.push(((u / 256) % 256) as u8);
    out.push(((u / 0x1_0000) % 256) as u8);
    out.push(((u / 0x100_0000) % 256) as u8);
    assert(out@ =~= old(out)@ + wire_bytes(v));
}

/// Encodes a result sequence into its `Ret` payload bytes.
pub fn encode_results(vals: &Vec<i32>) -> (r: Vec<u8>)
    ensures
        r@ == spec_results_bytes(vals@),
{
    let mut out: Vec<u8> = Vec::new();
    let mut i: usize = 0;
    while i < vals.len()
        invariant
            i <= vals@.len(),
            out@ == spec_results_bytes(vals@.subrange(0, i as int)),
        decreases vals@.len() - i,
    {
        push_wire_bytes(&mut out, vals[i]);
        i = i + 1;
        assert(vals@.subrange(0, i as int).drop_last() =~= vals@.subrange(0, i - 1 as int));
        assert(out@ =~= spec_results_bytes(vals@.subrange(0, i as int)));
    }
    assert(vals@.subrange(0, vals@.len() as int) =~= vals@);
    out
}

/// Law: the wire form of a value loses nothing — its four bytes recompose to
/// exactly the value's 32-bit pattern.
pub proof fn lemma_wire_bytes_lossless(v: i32)
    ensures
        ({
            let b = wire_bytes(v);
            b[0] + 0x100 * b[1] + 0x1_0000 * b[2] + 0x100_0000 * b[3] == u32_of_i32(v)
        }),
{
    let u = u32_of_i32(v);
    assert((u % 256) + 0x100 * ((u / 0x100) % 256) + 0x1_0000 * ((u / 0x1_0000) % 256)
        + 0x100_0000 * ((u / 0x100_0000) % 256) == u) by (bit_vector);
}

/// Law: distinct values never share a wire form, so no value is truncated
/// into another's encoding.
pub proof fn lemma_wire_bytes_injective(a: i32, b: i32)
    requires
        wire_bytes(a) == wire_bytes(b),
    ensures
        a == b,
{
    lemma_wire_bytes_lossless(a);
    lemma_wire_bytes_lossless(b);
    assert(wire_bytes(a)[0] == wire_bytes(b)[0]);
    assert(wire_bytes(a)[1] == wire_bytes(b)[1]);
    assert(wire_bytes(a)[2] == wire_bytes(b)[2]);
    assert(wire_bytes(a)[3] == wire_bytes(b)[3]);
    assert(u32_of_i32(a) == u32_of_i32(b));
}

/// Whether every raw result value was a 32-bit integer.
pub open spec fn all_i32(vals: Seq<Option<i32>>) -> bool {
    forall|i: int| 0 <= i < vals.len() ==> vals[i] is Some
}

/// The integer contents of a raw result sequence whose values are all 32-bit
/// integers.
pub open spec fn unwrap_all(vals: Seq<Option<i32>>) -> Seq<i32> {
    Seq::new(vals.len(), |i: int| vals[i].unwrap())
}

/// Collects raw result values into integers, or reports that some value was
/// of another kind: `Some` exactly when every value is a 32-bit integer.
pub fn collect_i32s(vals: &Vec<Option<i32>>) -> (r: Option<Vec<i32>>)
    ensures
        r is Some <==> all_i32(vals@),
        r matches Some(v) ==> v@ == unwrap_all(vals@),
{
    let mut out: Vec<i32> = Vec::new();
    let mut i: usize = 0;
    while i < vals.len()
        invariant
            i <= vals@.len(),
            out@.len() == i,
            forall|j: int| 0 <= j < i ==> vals@[j] == Some(out@[j]),
        decreases vals@.len() - i,
    {
        let cur: Option<i32> = vals[i];
        match cur {
            Some(v) => {
                assert(vals@[i as int] == Some(v));
                out.push(v);
                assert(out@[i as int] == v);
            },
            None => {
                assert(vals@[i as int] is None);
                assert(!all_i32(vals@));
                return None;
            },
        }
        i = i + 1;
    }
    assert(forall|j: int| 0 <= j < vals@.len() ==> vals@[j] is Some);
    assert(out@ =~= unwrap_all(vals@));
    Some(out)
}

} // verus!
