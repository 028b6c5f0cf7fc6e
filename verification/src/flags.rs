use vstd::prelude::*;

use crate::errors::Groth16Error;

verus! {

/// The two most-significant bits of a field element's most-significant byte,
/// reserved for the compression flags (sign of the omitted y-coordinate, or
/// point at infinity). The field modulus never uses these bits, so the
/// overwrite is lossless.
pub const FLAGS_MASK: u8 = 0xC0;

/// The bits of the most-significant byte that carry field-element value.
pub const VALUE_MASK: u8 = 0x3F;

/// The flag bits of a byte.
pub open spec fn flag_bits(b: u8) -> u8 {
    b & 0xC0
}

/// The value bits of a byte, with the reserved flag bits cleared.
pub open spec fn value_bits(b: u8) -> u8 {
    b & 0x3F
}

/// `c` with the flag bits of its most-significant byte (index `len - 1`, in
/// the backend's native little-endian order) cleared.
pub open spec fn spec_clear_flags(c: Seq<u8>) -> Seq<u8>
    recommends
        c.len() >= 1,
{
    c.update(c.len() - 1, value_bits(c[c.len() - 1]))
}

/// `c` with `mask` OR-ed into its most-significant byte (index `len - 1`, in
/// the backend's native little-endian order).
pub open spec fn spec_inject_flags(c: Seq<u8>, mask: u8) -> Seq<u8>
    recommends
        c.len() >= 1,
{
    c.update(c.len() - 1, c[c.len() - 1] | mask)
}

/// Reads the flag bitmask from the most-significant byte of a field element
/// in the backend's native little-endian order.
pub fn extract_flags(bytes: &[u8]) -> (r: Result<u8, Groth16Error>)
    ensures
        match r {
            Ok(m) => bytes@.len() >= 1 && m == flag_bits(bytes@[bytes@.len() - 1]),
            Err(e) => bytes@.len() == 0 && e == Groth16Error::InvalidLength,
        },
{
    if bytes.len() == 0 {
        return Err(Groth16Error::InvalidLength);
    }
    Ok(bytes[bytes.len() - 1] & FLAGS_MASK)
}

/// Returns a copy of `bytes` with the reserved flag bits of the
/// most-significant byte cleared, recovering the true field-element value.
pub fn clear_flags(bytes: &[u8]) -> (r: Result<Vec<u8>, Groth16Error>)
    ensures
        match r {
            Ok(v) => bytes@.len() >= 1 && v@ == spec_clear_flags(bytes@),
            Err(e) => bytes@.len() == 0 && e == Groth16Error::InvalidLength,
        },
{
    if bytes.len() == 0 {
        return Err(Groth16Error::InvalidLength);
    }
    let mut v = vstd::slice::slice_to_vec(bytes);
    let last = v.len() - 1;
    let b = v[last] & VALUE_MASK;
    v[last] = b;
    Ok(v)
}

/// Returns a copy of `bytes` with `mask` OR-ed into the most-significant
/// byte, embedding a flag bitmask into a field element's reserved top bits.
pub fn inject_flags(bytes: &[u8], mask: u8) -> (r: Result<Vec<u8>, Groth16Error>)
    ensures
        match r {
            Ok(v) => bytes@.len() >= 1 && v@ == spec_inject_flags(bytes@, mask),
            Err(e) => bytes@.len() == 0 && e == Groth16Error::InvalidLength,
        },
{
    if bytes.len() == 0 {
        return Err(Groth16Error::InvalidLength);
    }
    let mut v = vstd::slice::slice_to_vec(bytes);
    let last = v.len() - 1;
    let b = v[last] | mask;
    v[last] = b;
    Ok(v)
}

/// Flag-bit isolation: clearing the two reserved bits of the
/// most-significant byte and re-injecting the flags read from the same bytes
/// reproduces the encoding exactly, because flag bits and value bits occupy
/// disjoint positions.
pub proof fn lemma_flag_bit_isolation(c: Seq<u8>)
    requires
        c.len() >= 1,
    ensures
        spec_inject_flags(spec_clear_flags(c), flag_bits(c[c.len() - 1])) == c,
{
    let b = c[c.len() - 1];
    assert((b & 0x3F) | (b & 0xC0) == b) by (bit_vector);
    assert(spec_inject_flags(spec_clear_flags(c), flag_bits(b)) =~= c);
}

} // verus!
