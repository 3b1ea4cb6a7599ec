//! The pull-based decode session.
//!
//! A `StreamCursor` walks an encoded payload one block group at a time: per
//! outer step it applies the loop rewind check once to the shared byte
//! cursor, decodes one 18-byte block per channel, interleaves the per-channel
//! blocks into frames and serves them from a cache, one sample per pull.
//! `AdxBuffer` and `AdxBufferCopy` wrap a cursor around a borrowed and an
//! owned payload respectively.

use vstd::prelude::*;
use vstd::slice::slice_subrange;

use crate::u16_be;
use crate::sample_decoder::{Decoder, spec_decoded_value, spec_decoder_after};

verus! {

/// The byte offset of a sample index within one channel's sub-stream: every
/// 16 samples occupy one 18-byte block, so two header bytes are added for
/// each full 16-sample unit already consumed.
pub open spec fn spec_byte_offset(n: int) -> int {
    n + 2 * (n / 16)
}

/// Converts a sample-domain loop point into its byte-domain block offset.
pub fn byte_offset(n: u32) -> (r: u64)
    ensures
        r == spec_byte_offset(n as int),
{
    (n as u64) + 2 * ((n as u64) / 16)
}

/// One coded byte yields two samples: the high nibble first, then the low
/// nibble, each pushed through the channel's decoder.
pub open spec fn spec_decode_pair(d: Decoder, byte: u8, scale: int) -> (Seq<i16>, Decoder) {
    let v1: int = spec_decoded_value(d, byte as int / 16, scale);
    let d1: Decoder = spec_decoder_after(d, byte as int / 16, scale);
    let v2: int = spec_decoded_value(d1, byte as int % 16, scale);
    let d2: Decoder = spec_decoder_after(d1, byte as int % 16, scale);
    (seq![v1 as i16, v2 as i16], d2)
}

/// Decodes a block payload byte by byte, threading the channel history
/// through every sample in order.
pub open spec fn spec_decode_payload(payload: Seq<u8>, d: Decoder, scale: int) -> (Seq<
    i16,
>, Decoder)
    decreases payload.len(),
{
    if payload.len() == 0 {
        (Seq::<i16>::empty(), d)
    } else {
        let prev: (Seq<i16>, Decoder) = spec_decode_payload(payload.drop_last(), d, scale);
        let pair: (Seq<i16>, Decoder) = spec_decode_pair(prev.1, payload.last(), scale);
        (prev.0 + pair.0, pair.1)
    }
}

/// Decodes one 18-byte block: the big-endian scale from its first two bytes,
/// then 32 samples from the 16 payload bytes.
pub open spec fn spec_decode_block(block: Seq<u8>, d: Decoder) -> (Seq<i16>, Decoder) {
    spec_decode_payload(block.skip(2), d, u16_be(block, 0))
}

/// Block decoding with a given prior history is deterministic: the samples
/// and the final history are a function of the block bytes and the history.
pub proof fn lemma_block_decode_deterministic(
    block: Seq<u8>,
    d: Decoder,
    r1: (Seq<i16>, Decoder),
    r2: (Seq<i16>, Decoder),
)
    requires
        r1 == spec_decode_block(block, d),
        r2 == spec_decode_block(block, d),
    ensures
        r1 == r2,
{
}

/// The shared decode state behind every session: the sample cache, the
/// shared byte cursor, the channel layout, the loop points in the sample
/// domain, and one decoder per channel.
pub struct StreamCursor {
    pub cache: Vec<i16>,
    pub buffer_offset: u64,
    pub channels: u8,
    pub has_loop: bool,
    pub loop_start: u32,
    pub loop_end: u32,
    pub decoders: Vec<Decoder>,
}

impl StreamCursor {
    /// One decoder per channel, each with coefficients in range.
    pub open spec fn wf(self) -> bool {
        &&& self.decoders@.len() == self.channels as int
        &&& forall|i: int| 0 <= i < self.decoders@.len() ==> (#[trigger] self.decoders@[i]).wf()
    }

    /// The fields that never change over a session.
    pub open spec fn same_config(self, other: StreamCursor) -> bool {
        &&& self.channels == other.channels
        &&& self.has_loop == other.has_loop
        &&& self.loop_start == other.loop_start
        &&& self.loop_end == other.loop_end
    }

    /// Decodes the 18-byte block `block` with channel `channel`'s decoder,
    /// returning its 32 samples and updating only that channel's history.
    fn decode_block(&mut self, block: &[u8], channel: u8) -> (out: Vec<i16>)
        requires
            old(self).wf(),
            (channel as int) < old(self).decoders@.len(),
            block@.len() == 18,
        ensures
            final(self).wf(),
            final(self).same_config(*old(self)),
            final(self).cache == old(self).cache,
            final(self).buffer_offset == old(self).buffer_offset,
            out@.len() == 32,
            ({
                let r = spec_decode_block(block@, old(self).decoders@[channel as int]);
                &&& out@ == r.0
                &&& final(self).decoders@ == old(self).decoders@.update(channel as int, r.1)
            }),
    {
        let scale: u16 = crate::get_u16(block);
        let idx: usize = channel as usize;
        let mut d: Decoder = self.decoders[idx];
        let ghost d0: Decoder = self.decoders@[channel as int];
        let mut out: Vec<i16> = Vec::new();
        let ghost payload: Seq<u8> = block@.skip(2);
        assert(payload.len() == 16);
        let mut i: usize = 0;
        while i < 16
            invariant
                i <= 16,
                block@.len() == 18,
                payload == block@.skip(2),
                scale == u16_be(block@, 0),
                d0.wf(),
                d.wf(),
                out@.len() == 2 * i,
                ({
                    let r = spec_decode_payload(payload.take(i as int), d0, scale as int);
                    out@ == r.0 && d == r.1
                }),
            decreases 16 - i,
        {
            let byte: u8 = *vstd::slice::slice_index_get(block, 2 + i);
            assert(byte == payload[i as int]);
            let high: u8 = byte / 16;
            let low: u8 = byte % 16;
            let first: i32 = d.decode_sample(high as i32, scale as i32);
            let second: i32 = d.decode_sample(low as i32, scale as i32);
            out.push(first as i16);
            out.push(second as i16);
            proof {
                let taken: Seq<u8> = payload.take(i + 1);
                assert(taken.drop_last() =~= payload.take(i as int));
                assert(taken.last() == payload[i as int]);
            }
            i = i + 1;
        }
        proof {
            assert(payload.take(16) =~= payload);
        }
        self.decoders[idx] = d;
        out
    }

    /// Interleaves one decoded block per channel into frames: frame `i`
    /// holds sample `i` of channel 0, then of channel 1, and so on.
    fn join_channels_blocks(&self, channel_blocks: &Vec<Vec<i16>>) -> (out: Vec<i16>)
        requires
            channel_blocks@.len() == self.channels as int,
            forall|c: int|
                0 <= c < channel_blocks@.len() ==> (#[trigger] channel_blocks@[c])@.len() == 32,
        ensures
            out@ == spec_interleave(channel_blocks.deep_view(), self.channels as int),
    {
        let ch: usize = self.channels as usize;
        let ghost blocks: Seq<Seq<i16>> = channel_blocks.deep_view();
        let mut out: Vec<i16> = Vec::new();
        let mut i: usize = 0;
        while i < 32
            invariant
                i <= 32,
                ch == self.channels as int,
                ch <= 255,
                blocks == channel_blocks.deep_view(),
                channel_blocks@.len() == ch,
                forall|c: int|
                    0 <= c < channel_blocks@.len() ==> (#[trigger] channel_blocks@[c])@.len()
                        == 32,
                out@.len() == i * ch,
                forall|j: int|
                    0 <= j < out@.len() ==> out@[j] == blocks[j % (ch as int)][j / (ch as int)],
            decreases 32 - i,
        {
            let mut c: usize = 0;
            while c < ch
                invariant
                    i < 32,
                    c <= ch,
                    ch == self.channels as int,
                    ch <= 255,
                    blocks == channel_blocks.deep_view(),
                    channel_blocks@.len() == ch,
                    forall|cc: int|
                        0 <= cc < channel_blocks@.len() ==> (#[trigger] channel_blocks@[cc])@.len()
                            == 32,
                    out@.len() == i * ch + c,
                    forall|j: int|
                        0 <= j < out@.len() ==> out@[j] == blocks[j % (ch as int)][j / (
                        ch as int)],
                decreases ch - c,
            {
                assert(i * ch + c < 32 * 255) by (nonlinear_arith)
                    requires
                        0 <= i < 32,
                        0 <= c < ch <= 255,
                ;
                let v: i16 = channel_blocks[c][i];
                out.push(v);
                proof {
                    assert(blocks[c as int] == channel_blocks@[c as int]@);
                    let j: int = i * ch + c;
                    vstd::arithmetic::div_mod::lemma_fundamental_div_mod_converse_mod(
                        j,
                        ch as int,
                        i as int,
                        c as int,
                    );
                    vstd::arithmetic::div_mod::lemma_fundamental_div_mod_converse_div(
                        j,
                        ch as int,
                        i as int,
                        c as int,
                    );
                }
                c = c + 1;
            }
            proof {
                assert(i * ch + ch == (i + 1) * ch) by (nonlinear_arith);
            }
            i = i + 1;
        }
        proof {
            assert(out@ =~= spec_interleave(blocks, self.channels as int));
        }
        out
    }
}

/// The consumer-visible order of one block group: `32 * channels` samples
/// where position `i` carries sample `i / channels` of channel
/// `i % channels`.
pub open spec fn spec_interleave(blocks: Seq<Seq<i16>>, channels: int) -> Seq<i16> {
    Seq::new((32 * channels) as nat, |i: int| blocks[i % channels][i / channels])
}

/// The shared cursor after the once-per-step rewind check: with a loop
/// active, a cursor at or past the loop end's byte offset snaps back to the
/// loop start's byte offset.
pub open spec fn spec_rewound_offset(s: StreamCursor) -> int {
    if s.has_loop && s.buffer_offset >= spec_byte_offset(s.loop_end as int) {
        spec_byte_offset(s.loop_start as int)
    } else {
        s.buffer_offset as int
    }
}

/// Decodes one 18-byte block per channel, channel `c` reading at byte
/// `offset + 18 * c`: the per-channel sample blocks and the decoder bank
/// after them.
pub open spec fn spec_block_group(
    buffer: Seq<u8>,
    offset: int,
    decoders: Seq<Decoder>,
    k: int,
) -> (Seq<Seq<i16>>, Seq<Decoder>)
    decreases k,
{
    if k <= 0 {
        (Seq::<Seq<i16>>::empty(), decoders)
    } else {
        let prev: (Seq<Seq<i16>>, Seq<Decoder>) = spec_block_group(buffer, offset, decoders, k - 1);
        let block: Seq<u8> = buffer.subrange(offset + 18 * (k - 1), offset + 18 * k);
        let r: (Seq<i16>, Decoder) = spec_decode_block(block, prev.1[k - 1]);
        (prev.0.push(r.0), prev.1.update(k - 1, r.1))
    }
}

/// What one refill step leaves behind: the rewind check is applied once to
/// the shared cursor; if a whole block group no longer fits before the end
/// of the payload the step yields nothing, otherwise it yields the
/// interleaved group and advances the cursor past it.
pub open spec fn refill_post(
    pre: StreamCursor,
    post: StreamCursor,
    buffer: Seq<u8>,
    out: Option<Seq<i16>>,
) -> bool {
    let off1: int = spec_rewound_offset(pre);
    let needed: int = 18 * (pre.channels as int);
    &&& post.same_config(pre)
    &&& post.cache == pre.cache
    &&& if off1 + needed > buffer.len() {
        &&& out is None
        &&& post.buffer_offset == off1
        &&& post.decoders == pre.decoders
    } else {
        let g = spec_block_group(buffer, off1, pre.decoders@, pre.channels as int);
        &&& out matches Some(v) && v == spec_interleave(g.0, pre.channels as int)
        &&& post.decoders@ == g.1
        &&& post.buffer_offset == off1 + needed
    }
}

impl StreamCursor {
    /// Runs one outer decode step over `buffer`: the loop rewind check once,
    /// then one block per channel, interleaved; `None` when no whole block
    /// group remains.
    fn get_next_block(&mut self, buffer: &[u8]) -> (out: Option<Vec<i16>>)
        requires
            old(self).wf(),
        ensures
            final(self).wf(),
            refill_post(
                *old(self),
                *final(self),
                buffer@,
                match out {
                    Some(v) => Some(v@),
                    None => None,
                },
            ),
    {
        if self.has_loop {
            let real_loop_end: u64 = byte_offset(self.loop_end);
            if self.buffer_offset >= real_loop_end {
                let real_loop_start: u64 = byte_offset(self.loop_start);
                self.buffer_offset = real_loop_start;
            }
        }
        let len: u64 = buffer.len() as u64;
        let needed: u64 = 18 * (self.channels as u64);
        if len < needed || self.buffer_offset > len - needed {
            return None;
        }
        let ghost off1: int = self.buffer_offset as int;
        let ghost d0: Seq<Decoder> = self.decoders@;
        let mut channel_blocks: Vec<Vec<i16>> = Vec::new();
        let mut channel: u8 = 0;
        while channel < self.channels
            invariant
                channel <= self.channels,
                self.wf(),
                self.same_config(*old(self)),
                self.cache == old(self).cache,
                d0 == old(self).decoders@,
                off1 == spec_rewound_offset(*old(self)),
                buffer@.len() <= usize::MAX,
                0 <= off1,
                off1 + 18 * (self.channels as int) <= buffer@.len(),
                self.buffer_offset == off1 + 18 * (channel as int),
                channel_blocks@.len() == channel as int,
                forall|c: int|
                    0 <= c < channel_blocks@.len() ==> (#[trigger] channel_blocks@[c])@.len()
                        == 32,
                ({
                    let g = spec_block_group(buffer@, off1, d0, channel as int);
                    channel_blocks.deep_view() == g.0 && self.decoders@ == g.1
                }),
            decreases self.channels - channel,
        {
            proof {
                assert(18 * (channel as int) + 18 <= 18 * (self.channels as int));
                assert(self.buffer_offset + 18 <= buffer@.len());
            }
            let start: usize = self.buffer_offset as usize;
            let block: &[u8] = slice_subrange(buffer, start, start + 18);
            self.buffer_offset = self.buffer_offset + 18;
            let decoded_block: Vec<i16> = self.decode_block(block, channel);
            channel_blocks.push(decoded_block);
            proof {
                let g1 = spec_block_group(buffer@, off1, d0, channel + 1);
                assert(decoded_block.deep_view() =~= decoded_block@);
                assert(channel_blocks.deep_view() =~~= g1.0);
            }
            channel = channel + 1;
        }
        let decoded_block: Vec<i16> = self.join_channels_blocks(&channel_blocks);
        Some(decoded_block)
    }
}

/// What one pull leaves behind: a cached sample is served first; an empty
/// cache triggers one refill step, whose first sample is served and whose
/// rest becomes the cache; `None` only when the refill step yields nothing.
pub open spec fn pull_post(
    pre: StreamCursor,
    post: StreamCursor,
    buffer: Seq<u8>,
    out: Option<i16>,
) -> bool {
    if pre.cache@.len() > 0 {
        &&& out == Some(pre.cache@[0])
        &&& post.cache@ == pre.cache@.drop_first()
        &&& post.buffer_offset == pre.buffer_offset
        &&& post.decoders == pre.decoders
        &&& post.same_config(pre)
    } else {
        let off1: int = spec_rewound_offset(pre);
        let needed: int = 18 * (pre.channels as int);
        &&& post.same_config(pre)
        &&& if off1 + needed > buffer.len() {
            &&& out is None
            &&& post.buffer_offset == off1
            &&& post.decoders == pre.decoders
            &&& post.cache@.len() == 0
        } else {
            let g = spec_block_group(buffer, off1, pre.decoders@, pre.channels as int);
            let samples: Seq<i16> = spec_interleave(g.0, pre.channels as int);
            &&& post.buffer_offset == off1 + needed
            &&& post.decoders@ == g.1
            &&& if samples.len() > 0 {
                &&& out == Some(samples[0])
                &&& post.cache@ == samples.drop_first()
            } else {
                &&& out is None
                &&& post.cache@.len() == 0
            }
        }
    }
}

impl StreamCursor {
    /// Serves the next sample of the interleaved stream, refilling the cache
    /// with one decoded block group when it runs empty; `None` signals
    /// end-of-stream.
    pub fn get_next_sample(&mut self, buffer: &[u8]) -> (out: Option<i16>)
        requires
            old(self).wf(),
        ensures
            final(self).wf(),
            pull_post(*old(self), *final(self), buffer@, out),
    {
        if self.cache.len() == 0 {
            match self.get_next_block(buffer) {
                Some(deque) => {
                    self.cache = deque;
                },
                None => {
                    return None;
                },
            }
        }
        if self.cache.len() == 0 {
            return None;
        }
        let ghost cache0: Seq<i16> = self.cache@;
        let s: i16 = self.cache.remove(0);
        proof {
            assert(cache0.remove(0) =~= cache0.drop_first());
        }
        Some(s)
    }
}

/// With a loop active, a cursor at or past the loop end's byte offset reads
/// its next block group from the loop start's byte offset; while that region
/// lies within the payload, a refill step always yields a group, so
/// end-of-stream is never reached.
pub proof fn lemma_loop_rewind(
    pre: StreamCursor,
    post: StreamCursor,
    buffer: Seq<u8>,
    out: Option<Seq<i16>>,
)
    requires
        pre.has_loop,
        pre.buffer_offset >= spec_byte_offset(pre.loop_end as int),
        spec_byte_offset(pre.loop_start as int) + 18 * (pre.channels as int) <= buffer.len(),
        refill_post(pre, post, buffer, out),
    ensures
        out is Some,
        post.buffer_offset == spec_byte_offset(pre.loop_start as int) + 18 * (
        pre.channels as int),
{
}

/// A decode session over a payload borrowed from its owner.
pub struct AdxBuffer<'a> {
    pub buffer: &'a [u8],
    pub cursor: StreamCursor,
}

impl<'a> AdxBuffer<'a> {
    /// Serves the next interleaved sample; `None` signals end-of-stream.
    pub fn get_next_sample(&mut self) -> (out: Option<i16>)
        requires
            old(self).cursor.wf(),
        ensures
            final(self).cursor.wf(),
            final(self).buffer == old(self).buffer,
            pull_post(old(self).cursor, final(self).cursor, old(self).buffer@, out),
    {
        self.cursor.get_next_sample(self.buffer)
    }
}

/// A decode session that owns a copy of its payload.
pub struct AdxBufferCopy {
    pub buffer: Vec<u8>,
    pub cursor: StreamCursor,
}

impl AdxBufferCopy {
    /// Serves the next interleaved sample; `None` signals end-of-stream.
    pub fn get_next_sample(&mut self) -> (out: Option<i16>)
        requires
            old(self).cursor.wf(),
        ensures
            final(self).cursor.wf(),
            final(self).buffer == old(self).buffer,
            pull_post(old(self).cursor, final(self).cursor, old(self).buffer@, out),
    {
        self.cursor.get_next_sample(self.buffer.as_slice())
    }
}

} // verus!
