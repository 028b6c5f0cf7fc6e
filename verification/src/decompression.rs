use vstd::prelude::*;

use crate::alt_bn128::{
    g1_compress_of, g1_decompress_of, g2_compress_of, g2_decompress_of, sys_g1_compress,
    sys_g1_decompress, sys_g2_compress, sys_g2_decompress,
};
use crate::errors::Groth16Error;

verus! {

/// Decompresses a G1 point from its 32-byte wire form (big-endian
/// x-coordinate with the flag bits in the two most-significant bits of byte
/// 0) into the 64-byte uncompressed wire form, or fails when the backend
/// rejects the bytes.
pub fn decompress_g1(g1_bytes: &[u8; 32]) -> (r: Result<[u8; 64], Groth16Error>)
    ensures
        match r {
            Ok(u) => g1_decompress_of(g1_bytes@) == Some(u@),
            Err(e) => g1_decompress_of(g1_bytes@) is None && e
                == Groth16Error::DecompressingG1Failed,
        },
{
    match sys_g1_decompress(g1_bytes) {
        Ok(u) => Ok(u),
        Err(_) => Err(Groth16Error::DecompressingG1Failed),
    }
}

/// Decompresses a G2 point from its 64-byte wire form into the 128-byte
/// uncompressed wire form, or fails when the backend rejects the bytes.
pub fn decompress_g2(g2_bytes: &[u8; 64]) -> (r: Result<[u8; 128], Groth16Error>)
    ensures
        match r {
            Ok(u) => g2_decompress_of(g2_bytes@) == Some(u@),
            Err(e) => g2_decompress_of(g2_bytes@) is None && e
                == Groth16Error::DecompressingG2Failed,
        },
{
    match sys_g2_decompress(g2_bytes) {
        Ok(u) => Ok(u),
        Err(_) => Err(Groth16Error::DecompressingG2Failed),
    }
}

/// Compresses a G1 point from its 64-byte uncompressed wire form into the
/// 32-byte compressed wire form, or fails when the backend rejects the
/// coordinates.
pub fn compress_g1(g1_bytes: &[u8; 64]) -> (r: Result<[u8; 32], Groth16Error>)
    ensures
        match r {
            Ok(c) => g1_compress_of(g1_bytes@) == Some(c@),
            Err(e) => g1_compress_of(g1_bytes@) is None && e == Groth16Error::CompressingG1Failed,
        },
{
    match sys_g1_compress(g1_bytes) {
        Ok(c) => Ok(c),
        Err(_) => Err(Groth16Error::CompressingG1Failed),
    }
}

/// Compresses a G2 point from its 128-byte uncompressed wire form into the
/// 64-byte compressed wire form, or fails when the backend rejects the
/// coordinates.
pub fn compress_g2(g2_bytes: &[u8; 128]) -> (r: Result<[u8; 64], Groth16Error>)
    ensures
        match r {
            Ok(c) => g2_compress_of(g2_bytes@) == Some(c@),
            Err(e) => g2_compress_of(g2_bytes@) is None && e == Groth16Error::CompressingG2Failed,
        },
{
    match sys_g2_compress(g2_bytes) {
        Ok(c) => Ok(c),
        Err(_) => Err(Groth16Error::CompressingG2Failed),
    }
}

} // verus!
