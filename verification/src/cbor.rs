//! A small CBOR writer.
//!
//! The payload configuration descriptor is a fixed CBOR shape: maps
//! and arrays of small sizes, unsigned and negative integers, text
//! strings, and byte slices written as arrays of integers. This
//! module gives the canonical encoding of those items, each byte
//! pinned by a specification function.

use vstd::prelude::*;

verus! {

/// The canonical header of one CBOR item: the major type in the three
/// high bits, and the argument in the low bits or in the following
/// big-endian bytes, in the shortest form that holds it.
pub open spec fn spec_cbor_header(major: u8, val: u64) -> Seq<u8> {
    if val < 24 {
        seq![(major * 32 + val) as u8]
    } else if val < 256 {
        seq![(major * 32 + 24) as u8, val as u8]
    } else if val < 65536 {
        seq![(major * 32 + 25) as u8, (val / 256) as u8, (val % 256) as u8]
    } else if val < 0x100000000 {
        seq![
            (major * 32 + 26) as u8,
            (val / 0x1000000) as u8,
            (val / 0x10000 % 256) as u8,
            (val / 256 % 256) as u8,
            (val % 256) as u8,
        ]
    } else {
        seq![
            (major * 32 + 27) as u8,
            (val / 0x100000000000000) as u8,
            (val / 0x1000000000000 % 256) as u8,
            (val / 0x10000000000 % 256) as u8,
            (val / 0x100000000 % 256) as u8,
            (val / 0x1000000 % 256) as u8,
            (val / 0x10000 % 256) as u8,
            (val / 256 % 256) as u8,
            (val % 256) as u8,
        ]
    }
}

/// The encoding of an unsigned integer.
pub open spec fn spec_cbor_uint(val: u64) -> Seq<u8> {
    spec_cbor_header(0, val)
}

/// The encoding of the negative integer `-1 - magnitude_minus_one`.
pub open spec fn spec_cbor_neg(magnitude_minus_one: u64) -> Seq<u8> {
    spec_cbor_header(1, magnitude_minus_one)
}

/// The encoding of a text string with the given UTF-8 bytes.
pub open spec fn spec_cbor_tstr(bytes: Seq<u8>) -> Seq<u8> {
    spec_cbor_header(3, bytes.len() as u64) + bytes
}

/// The encodings of the given bytes as integer items, in order.
pub open spec fn spec_cbor_uint_items(bytes: Seq<u8>) -> Seq<u8>
    decreases bytes.len(),
{
    if bytes.len() == 0 {
        Seq::empty()
    } else {
        spec_cbor_uint_items(bytes.drop_last()) + spec_cbor_uint(bytes.last() as u64)
    }
}

/// The encoding of a byte slice as an array of integers, one item per
/// byte.
pub open spec fn spec_cbor_byte_array(bytes: Seq<u8>) -> Seq<u8> {
    spec_cbor_header(4, bytes.len() as u64) + spec_cbor_uint_items(bytes)
}

/// Append the canonical header of one item.
pub fn cbor_header(out: &mut Vec<u8>, major: u8, val: u64)
    requires
        major < 8,
    ensures
        final(out)@ == old(out)@ + spec_cbor_header(major, val),
{
    if val < 24 {
        out.push(major * 32 + val as u8);
    } else if val < 256 {
        out.push(major * 32 + 24);
        out.push(val as u8);
    } else if val < 65536 {
        out.push(major * 32 + 25);
        out.push((val / 256) as u8);
        out.push((val % 256) as u8);
    } else if val < 0x100000000 {
        out.push(major * 32 + 26);
        out.push((val / 0x1000000) as u8);
        out.push((val / 0x10000 % 256) as u8);
        out.push((val / 256 % 256) as u8);
        out.push((val % 256) as u8);
    } else {
        out.push(major * 32 + 27);
        out.push((val / 0x100000000000000) as u8);
        out.push((val / 0x1000000000000 % 256) as u8);
        out.push((val / 0x10000000000 % 256) as u8);
        out.push((val / 0x100000000 % 256) as u8);
        out.push((val / 0x1000000 % 256) as u8);
        out.push((val / 0x10000 % 256) as u8);
        out.push((val / 256 % 256) as u8);
        out.push((val % 256) as u8);
    }
    proof {
        assert(final(out)@ =~= old(out)@ + spec_cbor_header(major, val));
    }
}

/// Append an unsigned integer item.
pub fn cbor_uint(out: &mut Vec<u8>, val: u64)
    ensures
        final(out)@ == old(out)@ + spec_cbor_uint(val),
{
    cbor_header(out, 0, val);
}

/// Append the negative integer item `-1 - magnitude_minus_one`.
pub fn cbor_neg(out: &mut Vec<u8>, magnitude_minus_one: u64)
    ensures
        final(out)@ == old(out)@ + spec_cbor_neg(magnitude_minus_one),
{
    cbor_header(out, 1, magnitude_minus_one);
}

/// Append a text string item.
pub fn cbor_tstr(out: &mut Vec<u8>, s: &str)
    ensures
        final(out)@ == old(out)@ + spec_cbor_tstr(vstd::utf8::encode_utf8(s@)),
{
    let bytes = s.as_bytes();
    cbor_header(out, 3, bytes.len() as u64);
    let ghost mid = out@;
    let n = bytes.len();
    let mut i: usize = 0;
    while i < n
        invariant
            n == bytes@.len(),
            0 <= i <= n,
            out@ == mid + bytes@.subrange(0, i as int),
        decreases n - i,
    {
        out.push(bytes[i]);
        proof {
            assert(out@ =~= mid + bytes@.subrange(0, i + 1));
        }
        i = i + 1;
    }
    proof {
        assert(bytes@.subrange(0, n as int) =~= bytes@);
        assert(out@ =~= old(out)@ + spec_cbor_tstr(vstd::utf8::encode_utf8(s@)));
    }
}

/// Append the header of a map with the given number of pairs.
pub fn cbor_map_header(out: &mut Vec<u8>, pairs: u64)
    ensures
        final(out)@ == old(out)@ + spec_cbor_header(5, pairs),
{
    cbor_header(out, 5, pairs);
}

/// Append the header of an array with the given number of items.
pub fn cbor_array_header(out: &mut Vec<u8>, items: u64)
    ensures
        final(out)@ == old(out)@ + spec_cbor_header(4, items),
{
    cbor_header(out, 4, items);
}

/// Append a byte slice as an array of integer items.
pub fn cbor_byte_array(out: &mut Vec<u8>, bytes: &[u8])
    ensures
        final(out)@ == old(out)@ + spec_cbor_byte_array(bytes@),
{
    cbor_header(out, 4, bytes.len() as u64);
    let ghost mid = out@;
    let n = bytes.len();
    let mut i: usize = 0;
    while i < n
        invariant
            n == bytes@.len(),
            0 <= i <= n,
            out@ == mid + spec_cbor_uint_items(bytes@.subrange(0, i as int)),
        decreases n - i,
    {
        cbor_uint(out, bytes[i] as u64);
        proof {
            let head = bytes@.subrange(0, i + 1);
            assert(head.drop_last() =~= bytes@.subrange(0, i as int));
            assert(head.last() == bytes@[i as int]);
            assert(out@ =~= mid + spec_cbor_uint_items(head));
        }
        i = i + 1;
    }
    proof {
        assert(bytes@.subrange(0, n as int) =~= bytes@);
        assert(out@ =~= old(out)@ + spec_cbor_byte_array(bytes@));
    }
}

} // verus!
