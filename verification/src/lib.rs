//! Byte-level compression codec for BN254 (alt_bn128) elliptic-curve points as
//! used in Groth16 proof verification: conversion between big-endian wire
//! order and the little-endian order of the curve-arithmetic backend, the
//! flag-bit protocol of compressed points, and the error taxonomy for
//! malformed inputs. The curve arithmetic itself (solving the curve equation
//! for the omitted coordinate) is delegated to the backend.

pub mod alt_bn128;
pub mod decompression;
pub mod endianness;
pub mod errors;
pub mod flags;
