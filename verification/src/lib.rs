//! Decoder for a predictive 4-bit-per-sample compressed audio bitstream,
//! together with the indexed archive container that commonly bundles such
//! streams.  Header interpretation, filter-coefficient derivation, per-block
//! sample reconstruction, loop-point remapping and channel interleaving are
//! all verified; file and device I/O stay outside the library.

use vstd::prelude::*;

pub mod adx_buffer;
pub mod adx_file;
pub mod afs_file;
pub mod sample_decoder;

verus! {

/// Errors that can end session construction.  Once a session is open,
/// decoding itself never fails: out-of-range arithmetic is absorbed by
/// clamping.
#[derive(Clone, Copy, Debug, PartialEq, Eq, Structural)]
pub enum AdxError {
    /// The source is shorter than the layout its own header demands.
    TruncatedInput,
}

/// The big-endian 16-bit value stored at `data[i]`, `data[i + 1]`.
pub open spec fn u16_be(data: Seq<u8>, i: int) -> int {
    data[i] * 0x100 + data[i + 1]
}

/// The big-endian 32-bit value stored at `data[i]` .. `data[i + 3]`.
pub open spec fn u32_be(data: Seq<u8>, i: int) -> int {
    data[i] * 0x1000000 + data[i + 1] * 0x10000 + data[i + 2] * 0x100 + data[i + 3]
}

/// The little-endian 32-bit value stored at `data[i]` .. `data[i + 3]`.
pub open spec fn u32_le(data: Seq<u8>, i: int) -> int {
    data[i + 3] * 0x1000000 + data[i + 2] * 0x10000 + data[i + 1] * 0x100 + data[i]
}

/// Reads the big-endian 16-bit value at the front of `data`.
pub fn get_u16(data: &[u8]) -> (r: u16)
    requires
        data@.len() >= 2,
    ensures
        r == u16_be(data@, 0),
{
    (data[0] as u16) * 0x100 + (data[1] as u16)
}

/// Reads the big-endian 32-bit value at the front of `data`.
pub fn get_u32(data: &[u8]) -> (r: u32)
    requires
        data@.len() >= 4,
    ensures
        r == u32_be(data@, 0),
{
    (data[0] as u32) * 0x1000000 + (data[1] as u32) * 0x10000 + (data[2] as u32) * 0x100
        + (data[3] as u32)
}

} // verus!
