//! Header interpretation for the compressed stream.
//!
//! `AdxFile` holds every header field of one stream together with its
//! encoded payload, and builds decode sessions from them.  The header layout
//! is big-endian and version-dependent: versions 3 and 4 carry a 20-byte
//! loop descriptor at different fixed offsets; any other version simply has
//! no loop.

use vstd::prelude::*;
use vstd::slice::{slice_subrange, slice_to_vec};

use crate::{AdxError, get_u16, get_u32, u16_be, u32_be};
use crate::adx_buffer::{AdxBuffer, AdxBufferCopy, StreamCursor};
use crate::sample_decoder::{Decoder, spec_new_decoder};

verus! {

/// The source is long enough for the fixed header, for the loop descriptor
/// its version demands, and for the 6-byte marker ending 4 bytes past
/// `data_offset`.
pub open spec fn spec_header_ok(data: Seq<u8>) -> bool {
    &&& data.len() >= 19
    &&& (data[18] == 3 ==> data.len() >= 44)
    &&& (data[18] == 4 ==> data.len() >= 56)
    &&& u16_be(data, 2) >= 2
    &&& data.len() >= u16_be(data, 2) + 4
}

/// Whether the stream loops: version 3 goes by the descriptor's first word
/// alone; version 4 additionally treats a zero loop end as no loop; any
/// other version never loops.
pub open spec fn spec_has_loop(data: Seq<u8>) -> bool {
    if data[18] == 3 {
        u32_be(data, 0x18) != 0
    } else if data[18] == 4 {
        u32_be(data, 0x24) != 0 && u32_be(data, 0x30) != 0
    } else {
        false
    }
}

/// The loop start sample index the descriptor carries, zero without one.
pub open spec fn spec_loop_start(data: Seq<u8>) -> int {
    if data[18] == 3 {
        u32_be(data, 0x1C)
    } else if data[18] == 4 {
        u32_be(data, 0x28)
    } else {
        0
    }
}

/// The loop end sample index the descriptor carries, zero without one.
pub open spec fn spec_loop_end(data: Seq<u8>) -> int {
    if data[18] == 3 {
        u32_be(data, 0x24)
    } else if data[18] == 4 {
        u32_be(data, 0x30)
    } else {
        0
    }
}

/// One parsed stream: every header field, the loop points in the sample
/// domain, the 6-byte marker found before the payload, and the encoded
/// payload itself.
pub struct AdxFile {
    pub encoded_buffer: Vec<u8>,
    pub cri_text: Vec<u8>,
    pub file_code: u16,
    pub offset: u16,
    pub encoding_type: u8,
    pub block_size: u8,
    pub sample_bit_depth: u8,
    pub channel_count: u8,
    pub sample_rate: u32,
    pub sample_count: u32,
    pub highpass_frequency: u16,
    pub version: u8,
    pub has_loop: bool,
    pub loop_start_sample: u32,
    pub loop_end_sample: u32,
}

impl AdxFile {
    /// Every field holds what the header bytes say.
    pub open spec fn parsed_from(self, data: Seq<u8>) -> bool {
        &&& self.file_code == u16_be(data, 0)
        &&& self.offset == u16_be(data, 2)
        &&& self.encoding_type == data[4]
        &&& self.block_size == data[5]
        &&& self.sample_bit_depth == data[6]
        &&& self.channel_count == data[7]
        &&& self.sample_rate == u32_be(data, 8)
        &&& self.sample_count == u32_be(data, 12)
        &&& self.highpass_frequency == u16_be(data, 16)
        &&& self.version == data[18]
        &&& self.has_loop == spec_has_loop(data)
        &&& self.loop_start_sample == spec_loop_start(data)
        &&& self.loop_end_sample == spec_loop_end(data)
        &&& self.cri_text@ == data.subrange(u16_be(data, 2) - 2, u16_be(data, 2) + 4)
        &&& self.encoded_buffer@ == data.subrange(u16_be(data, 2) + 4, data.len() as int)
    }

    /// Interprets a whole source: the fixed header, the version-dependent
    /// loop descriptor, the marker, and the payload that follows it.  Fails
    /// with `TruncatedInput` exactly when the source is shorter than that
    /// layout demands.
    pub fn new(data: &[u8]) -> (r: Result<AdxFile, AdxError>)
        ensures
            r is Ok <==> spec_header_ok(data@),
            r matches Ok(f) ==> f.parsed_from(data@),
            r is Err ==> r == Err::<AdxFile, AdxError>(AdxError::TruncatedInput),
    {
        if data.len() < 19 {
            return Err(AdxError::TruncatedInput);
        }
        let file_code: u16 = get_u16(data);
        let offset: u16 = get_u16(slice_subrange(data, 2, 4));
        let encoding_type: u8 = *vstd::slice::slice_index_get(data, 4);
        let block_size: u8 = *vstd::slice::slice_index_get(data, 5);
        let sample_bit_depth: u8 = *vstd::slice::slice_index_get(data, 6);
        let channel_count: u8 = *vstd::slice::slice_index_get(data, 7);
        let sample_rate: u32 = get_u32(slice_subrange(data, 8, 12));
        let sample_count: u32 = get_u32(slice_subrange(data, 12, 16));
        let highpass_frequency: u16 = get_u16(slice_subrange(data, 16, 18));
        let version: u8 = *vstd::slice::slice_index_get(data, 18);

        let mut has_loop: bool = false;
        let mut loop_start: u32 = 0;
        let mut loop_end: u32 = 0;

        if version == 3 {
            if data.len() < 44 {
                return Err(AdxError::TruncatedInput);
            }
            has_loop = get_u32(slice_subrange(data, 0x18, 0x1C)) != 0;
            loop_start = get_u32(slice_subrange(data, 0x1C, 0x20));
            loop_end = get_u32(slice_subrange(data, 0x24, 0x28));
        } else if version == 4 {
            if data.len() < 56 {
                return Err(AdxError::TruncatedInput);
            }
            has_loop = get_u32(slice_subrange(data, 0x24, 0x28)) != 0;
            loop_start = get_u32(slice_subrange(data, 0x28, 0x2C));
            loop_end = get_u32(slice_subrange(data, 0x30, 0x34));
            if loop_end == 0 {
                has_loop = false;
            }
        }

        if offset < 2 {
            return Err(AdxError::TruncatedInput);
        }
        let marker_start: usize = offset as usize - 2;
        let payload_start: usize = offset as usize + 4;
        if data.len() < payload_start {
            return Err(AdxError::TruncatedInput);
        }
        let cri_text: Vec<u8> = slice_to_vec(slice_subrange(data, marker_start, payload_start));
        let encoded_buffer: Vec<u8> = slice_to_vec(
            slice_subrange(data, payload_start, data.len()),
        );

        Ok(
            AdxFile {
                encoded_buffer,
                cri_text,
                file_code,
                offset,
                encoding_type,
                block_size,
                sample_bit_depth,
                channel_count,
                sample_rate,
                sample_count,
                highpass_frequency,
                version,
                has_loop,
                loop_start_sample: loop_start,
                loop_end_sample: loop_end,
            },
        )
    }

    /// Builds the bank of per-channel decoders, each derived from this
    /// stream's cutoff and sample rate with zero history.
    fn build_decoders(&self) -> (decoders: Vec<Decoder>)
        ensures
            decoders@.len() == self.channel_count as int,
            forall|i: int| 0 <= i < decoders@.len() ==> (#[trigger] decoders@[i]).wf(),
            forall|i: int|
                0 <= i < decoders@.len() ==> #[trigger] decoders@[i] == spec_new_decoder(
                    self.highpass_frequency as int,
                    self.sample_rate as int,
                ),
    {
        let n: usize = self.channel_count as usize;
        let mut decoders: Vec<Decoder> = Vec::new();
        let mut i: usize = 0;
        while i < n
            invariant
                i <= n,
                decoders@.len() == i,
                forall|k: int| 0 <= k < decoders@.len() ==> (#[trigger] decoders@[k]).wf(),
                forall|k: int|
                    0 <= k < decoders@.len() ==> #[trigger] decoders@[k] == spec_new_decoder(
                        self.highpass_frequency as int,
                        self.sample_rate as int,
                    ),
            decreases n - i,
        {
            decoders.push(Decoder::new(self.highpass_frequency as u32, self.sample_rate));
            i = i + 1;
        }
        decoders
    }

    /// Opens a decode session that borrows this file's payload.
    pub fn get_decoder(&self) -> (d: AdxBuffer<'_>)
        ensures
            d.cursor.wf(),
            d.buffer@ == self.encoded_buffer@,
            d.cursor.cache@.len() == 0,
            d.cursor.buffer_offset == 0,
            d.cursor.channels == self.channel_count,
            d.cursor.has_loop == self.has_loop,
            d.cursor.loop_start == self.loop_start_sample,
            d.cursor.loop_end == self.loop_end_sample,
            forall|i: int|
                0 <= i < d.cursor.decoders@.len() ==> #[trigger] d.cursor.decoders@[i]
                    == spec_new_decoder(self.highpass_frequency as int, self.sample_rate as int),
    {
        let decoders: Vec<Decoder> = self.build_decoders();
        AdxBuffer {
            buffer: self.encoded_buffer.as_slice(),
            cursor: StreamCursor {
                cache: Vec::new(),
                buffer_offset: 0,
                channels: self.channel_count,
                has_loop: self.has_loop,
                loop_start: self.loop_start_sample,
                loop_end: self.loop_end_sample,
                decoders,
            },
        }
    }

    /// Opens a decode session that owns a copy of this file's payload.
    pub fn get_into_iterator(&self) -> (d: AdxBufferCopy)
        ensures
            d.cursor.wf(),
            d.buffer@ == self.encoded_buffer@,
            d.cursor.cache@.len() == 0,
            d.cursor.buffer_offset == 0,
            d.cursor.channels == self.channel_count,
            d.cursor.has_loop == self.has_loop,
            d.cursor.loop_start == self.loop_start_sample,
            d.cursor.loop_end == self.loop_end_sample,
            forall|i: int|
                0 <= i < d.cursor.decoders@.len() ==> #[trigger] d.cursor.decoders@[i]
                    == spec_new_decoder(self.highpass_frequency as int, self.sample_rate as int),
    {
        let decoders: Vec<Decoder> = self.build_decoders();
        let buffer: Vec<u8> = slice_to_vec(self.encoded_buffer.as_slice());
        AdxBufferCopy {
            buffer,
            cursor: StreamCursor {
                cache: Vec::new(),
                buffer_offset: 0,
                channels: self.channel_count,
                has_loop: self.has_loop,
                loop_start: self.loop_start_sample,
                loop_end: self.loop_end_sample,
                decoders,
            },
        }
    }
}

} // verus!
