use vstd::prelude::*;

verus! {

/// Errors surfaced by the point codec. Decompression and compression failures
/// mean the backend rejected the bytes (off-curve x-coordinate, invalid flag
/// combination, or a coordinate that is no canonical field element);
/// `InvalidLength` means a byte sequence handed to the endianness converter
/// was not a whole number of limbs.
#[derive(Clone, Copy, Debug, PartialEq, Eq, Structural)]
pub enum Groth16Error {
    DecompressingG1Failed,
    DecompressingG2Failed,
    CompressingG1Failed,
    CompressingG2Failed,
    InvalidLength,
}

} // verus!
