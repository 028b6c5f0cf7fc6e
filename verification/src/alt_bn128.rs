use vstd::prelude::*;

use solana_program::alt_bn128::compression::prelude::{
    alt_bn128_g1_compress, alt_bn128_g1_decompress, alt_bn128_g2_compress,
    alt_bn128_g2_decompress, AltBn128CompressionError,
};

verus! {

/// Error kinds of the alt_bn128 host interface, with a stable numeric code
/// for crossing a remote-procedure boundary: every kind maps to a distinct
/// code, and every code outside the known range collapses to
/// `UnexpectedError`.
#[derive(Clone, Debug, PartialEq, Eq)]
pub enum AltBn128Error {
    InvalidInputData,
    GroupError,
    SliceOutOfBounds,
    UnexpectedError,
    TryIntoVecError(Vec<u8>),
    ProjectiveToG1Failed,
}

/// The numeric code of each error kind.
pub open spec fn spec_error_code(e: AltBn128Error) -> u64 {
    match e {
        AltBn128Error::InvalidInputData => 1,
        AltBn128Error::GroupError => 2,
        AltBn128Error::SliceOutOfBounds => 3,
        AltBn128Error::TryIntoVecError(_) => 4,
        AltBn128Error::ProjectiveToG1Failed => 5,
        AltBn128Error::UnexpectedError => 0,
    }
}

impl AltBn128Error {
    /// Decodes a numeric error code received across the host boundary.
    /// Codes 1 through 5 name a kind; every other code is `UnexpectedError`.
    pub fn from_code(v: u64) -> (r: AltBn128Error)
        ensures
            v == 1 ==> r == AltBn128Error::InvalidInputData,
            v == 2 ==> r == AltBn128Error::GroupError,
            v == 3 ==> r == AltBn128Error::SliceOutOfBounds,
            v == 4 ==> (r matches AltBn128Error::TryIntoVecError(b) && b@ == Seq::<u8>::empty()),
            v == 5 ==> r == AltBn128Error::ProjectiveToG1Failed,
            !(1 <= v <= 5) ==> r == AltBn128Error::UnexpectedError,
            spec_error_code(r) == if 1 <= v <= 5 { v } else { 0 },
    {
        match v {
            1 => AltBn128Error::InvalidInputData,
            2 => AltBn128Error::GroupError,
            3 => AltBn128Error::SliceOutOfBounds,
            4 => AltBn128Error::TryIntoVecError(Vec::new()),
            5 => AltBn128Error::ProjectiveToG1Failed,
            _ => AltBn128Error::UnexpectedError,
        }
    }

    /// The numeric code under which this kind crosses the host boundary.
    pub fn to_code(&self) -> (r: u64)
        ensures
            r == spec_error_code(*self),
    {
        match self {
            AltBn128Error::InvalidInputData => 1,
            AltBn128Error::GroupError => 2,
            AltBn128Error::SliceOutOfBounds => 3,
            AltBn128Error::TryIntoVecError(_) => 4,
            AltBn128Error::ProjectiveToG1Failed => 5,
            AltBn128Error::UnexpectedError => 0,
        }
    }
}

impl From<u64> for AltBn128Error {
    fn from(v: u64) -> (r: AltBn128Error) {
        AltBn128Error::from_code(v)
    }
}

/// The decoded kind for code 4 carries an empty vector, a payload that spec
/// equality cannot denote, so conversion through `From` promises nothing;
/// `from_code` carries the exact contract.
impl vstd::std_specs::convert::FromSpecImpl<u64> for AltBn128Error {
    open spec fn obeys_from_spec() -> bool {
        false
    }

    open spec fn from_spec(v: u64) -> AltBn128Error {
        AltBn128Error::UnexpectedError
    }
}

impl From<AltBn128Error> for u64 {
    fn from(v: AltBn128Error) -> (r: u64) {
        v.to_code()
    }
}

impl vstd::std_specs::convert::FromSpecImpl<AltBn128Error> for u64 {
    open spec fn obeys_from_spec() -> bool {
        true
    }

    open spec fn from_spec(v: AltBn128Error) -> u64 {
        spec_error_code(v)
    }
}

/// A plain 64-byte uncompressed G1 point (two 32-byte big-endian field
/// elements), as carried on the wire.
#[derive(Clone, Copy, Debug, PartialEq, Eq)]
pub struct PodG1(pub [u8; 64]);

/// A plain 128-byte uncompressed G2 point (two extension-field elements of
/// two 32-byte limbs each), as carried on the wire.
#[derive(Clone, Copy, Debug, PartialEq, Eq)]
pub struct PodG2(pub [u8; 128]);

/// The error type of the curve-arithmetic backend's compression primitives.
#[verifier::external_type_specification]
#[verifier::external_body]
pub struct ExAltBn128CompressionError(AltBn128CompressionError);

/// What the backend's G1 decompression returns on a 32-byte compressed point:
/// `Some` uncompressed 64 bytes exactly when the input decodes to a point.
pub uninterp spec fn g1_decompress_of(c: Seq<u8>) -> Option<Seq<u8>>;

/// What the backend's G2 decompression returns on a 64-byte compressed point.
pub uninterp spec fn g2_decompress_of(c: Seq<u8>) -> Option<Seq<u8>>;

/// What the backend's G1 compression returns on 64 uncompressed bytes:
/// `Some` compressed 32 bytes exactly when the coordinates deserialize.
pub uninterp spec fn g1_compress_of(u: Seq<u8>) -> Option<Seq<u8>>;

/// What the backend's G2 compression returns on 128 uncompressed bytes.
pub uninterp spec fn g2_compress_of(u: Seq<u8>) -> Option<Seq<u8>>;

/// Relies on solana_program's alt_bn128_g1_decompress: a deterministic
/// function of the input bytes alone (limb reversal, point deserialization
/// with flag handling, re-serialization of both affine coordinates), which
/// rejects bytes that decode to no point.
#[verifier::external_body]
pub(crate) fn sys_g1_decompress(bytes: &[u8; 32]) -> (r: Result<
    [u8; 64],
    AltBn128CompressionError,
>)
    ensures
        match r {
            Ok(u) => g1_decompress_of(bytes@) == Some(u@),
            Err(_) => g1_decompress_of(bytes@) is None,
        },
{
    alt_bn128_g1_decompress(bytes.as_slice())
}

/// Relies on solana_program's alt_bn128_g2_decompress: deterministic in the
/// input bytes alone, rejecting bytes that decode to no point.
#[verifier::external_body]
pub(crate) fn sys_g2_decompress(bytes: &[u8; 64]) -> (r: Result<
    [u8; 128],
    AltBn128CompressionError,
>)
    ensures
        match r {
            Ok(u) => g2_decompress_of(bytes@) == Some(u@),
            Err(_) => g2_decompress_of(bytes@) is None,
        },
{
    alt_bn128_g2_decompress(bytes.as_slice())
}

/// Relies on solana_program's alt_bn128_g1_compress: deterministic in the
/// input bytes alone, rejecting coordinates that are no canonical field
/// elements.
#[verifier::external_body]
pub(crate) fn sys_g1_compress(bytes: &[u8; 64]) -> (r: Result<
    [u8; 32],
    AltBn128CompressionError,
>)
    ensures
        match r {
            Ok(c) => g1_compress_of(bytes@) == Some(c@),
            Err(_) => g1_compress_of(bytes@) is None,
        },
{
    alt_bn128_g1_compress(bytes.as_slice())
}

/// Relies on solana_program's alt_bn128_g2_compress: deterministic in the
/// input bytes alone, rejecting coordinates that are no canonical field
/// elements.
#[verifier::external_body]
pub(crate) fn sys_g2_compress(bytes: &[u8; 128]) -> (r: Result<
    [u8; 64],
    AltBn128CompressionError,
>)
    ensures
        match r {
            Ok(c) => g2_compress_of(bytes@) == Some(c@),
            Err(_) => g2_compress_of(bytes@) is None,
        },
{
    alt_bn128_g2_compress(bytes.as_slice())
}

} // verus!

