//! Decoded track storage: a `TrackBuffer` is built once per `play` call from
//! the supplied encoded bytes and can be re-sliced from an arbitrary starting
//! offset without re-decoding, which is what makes restart-based seeking
//! cheap.
//!
//! The supported container is uncompressed 16-bit PCM in a canonical WAVE
//! file: a RIFF header, one `fmt ` chunk of 16 bytes, and one `data` chunk
//! holding whole frames. Anything else is rejected as a decode error.

use vstd::prelude::*;

use bytes::Bytes;

use crate::player::PlayerError;

verus! {

/// Declares `bytes::Bytes`, the cheaply cloneable byte buffer that encoded
/// tracks arrive in, so it can stand in signatures; it is opaque here and
/// read only through `bytes_as_slice`.
#[verifier::external_type_specification]
#[verifier::external_body]
pub struct ExBytes(Bytes);

/// The byte contents that a `bytes::Bytes` handle views.
pub uninterp spec fn bytes_content(b: Bytes) -> Seq<u8>;

/// Relies on `bytes::Bytes::as_ref` (`Bytes` dereferences to its byte
/// contents): returns the full slice that the handle views.
#[verifier::external_body]
pub(crate) fn bytes_as_slice(b: &Bytes) -> (r: &[u8])
    ensures
        r@ == bytes_content(*b),
{
    b.as_ref()
}

/// The 16-bit little-endian integer stored at offset `i` of `s`.
pub open spec fn u16_le(s: Seq<u8>, i: int) -> int {
    s[i] + 256 * s[i + 1]
}

/// The 32-bit little-endian integer stored at offset `i` of `s`.
pub open spec fn u32_le(s: Seq<u8>, i: int) -> int {
    s[i] + 256 * s[i + 1] + 65536 * s[i + 2] + 16777216 * s[i + 3]
}

/// A well-formed track: a canonical 44-byte WAVE header for uncompressed
/// 16-bit PCM, followed by the sample data it announces.
///
/// Offsets 0, 8, 12 and 36 hold the magics "RIFF", "WAVE", "fmt " and
/// "data"; the chunk sizes must match the input length exactly, the format
/// tag must be 1 (PCM), and the data chunk must hold whole frames.
pub open spec fn wav_well_formed(s: Seq<u8>) -> bool {
    &&& s.len() >= 44
    &&& s.len() - 8 <= 0xFFFF_FFFF
    &&& s[0] == 0x52 && s[1] == 0x49 && s[2] == 0x46 && s[3] == 0x46
    &&& u32_le(s, 4) == s.len() - 8
    &&& s[8] == 0x57 && s[9] == 0x41 && s[10] == 0x56 && s[11] == 0x45
    &&& s[12] == 0x66 && s[13] == 0x6d && s[14] == 0x74 && s[15] == 0x20
    &&& u32_le(s, 16) == 16
    &&& u16_le(s, 20) == 1
    &&& u16_le(s, 22) >= 1
    &&& u32_le(s, 24) >= 1
    &&& u16_le(s, 32) == 2 * u16_le(s, 22)
    &&& u16_le(s, 34) == 16
    &&& u32_le(s, 28) == u32_le(s, 24) * u16_le(s, 32)
    &&& s[36] == 0x64 && s[37] == 0x61 && s[38] == 0x74 && s[39] == 0x61
    &&& u32_le(s, 40) == s.len() - 44
    &&& (s.len() - 44) % u16_le(s, 32) == 0
}

/// One decoded track: interleaved 16-bit PCM frames plus the layout needed
/// to turn a millisecond offset back into a byte offset.
pub struct TrackBuffer {
    /// Interleaved channels per frame; at least one.
    pub channels: u16,
    /// Frames per second; at least one.
    pub sample_rate: u32,
    /// The raw sample data, a whole number of frames.
    pub data: Vec<u8>,
}

impl TrackBuffer {
    /// Bytes per frame: two per channel.
    pub open spec fn frame_bytes(self) -> int {
        2 * self.channels
    }

    /// Validity: nonzero layout fields and sample data cut into whole
    /// frames, no longer than a WAVE data chunk can announce.
    pub open spec fn wf(self) -> bool {
        &&& self.channels >= 1
        &&& self.sample_rate >= 1
        &&& self.data@.len() <= 0xFFFF_FFFF
        &&& self.data@.len() as int % self.frame_bytes() == 0
    }

    /// Number of whole frames stored.
    pub open spec fn frames(self) -> int {
        self.data@.len() as int / self.frame_bytes()
    }

    /// Track length in milliseconds, rounded down.
    pub open spec fn duration_ms_spec(self) -> int {
        self.frames() * 1000 / (self.sample_rate as int)
    }

    /// Track length in milliseconds, rounded down.
    pub fn duration_ms(&self) -> (r: u64)
        requires
            self.wf(),
        ensures
            r == self.duration_ms_spec(),
    {
        let fb: u64 = 2 * (self.channels as u64);
        let frames: u64 = (self.data.len() as u64) / fb;
        (frames * 1000) / (self.sample_rate as u64)
    }

    /// First byte of the frame that an offset of `offset_ms` milliseconds
    /// falls in, clamped to the end of the data.
    pub open spec fn start_byte_spec(self, offset_ms: u64) -> int {
        let raw = offset_ms * self.sample_rate / 1000;
        (if raw <= self.frames() {
            raw
        } else {
            self.frames()
        }) * self.frame_bytes()
    }

    /// Byte offset to restart rendering from after a seek to `offset_ms`.
    pub fn start_byte(&self, offset_ms: u64) -> (r: usize)
        requires
            self.wf(),
        ensures
            r == self.start_byte_spec(offset_ms),
            r <= self.data@.len(),
    {
        let fb: u128 = 2 * (self.channels as u128);
        proof {
            assert((offset_ms as u128) * (self.sample_rate as u128) < (0x1_0000_0000_0000_0000u128)
                * (0x1_0000_0000u128)) by (nonlinear_arith)
                requires
                    offset_ms <= 0xFFFF_FFFF_FFFF_FFFFu64,
                    self.sample_rate <= 0xFFFF_FFFFu32,
            ;
        }
        let raw: u128 = (offset_ms as u128) * (self.sample_rate as u128) / 1000;
        let frames: u128 = (self.data.len() as u128) / fb;
        let start: u128 = if raw <= frames {
            raw
        } else {
            frames
        };
        proof {
            assert(frames * fb == self.data@.len()) by {
                vstd::arithmetic::div_mod::lemma_fundamental_div_mod(
                    self.data@.len() as int,
                    fb as int,
                );
            }
            assert(start * fb <= frames * fb) by (nonlinear_arith)
                requires
                    start <= frames,
                    fb >= 2,
            ;
        }
        let byte: u128 = start * fb;
        byte as usize
    }

    /// The sample data from the frame that `offset_ms` falls in to the end
    /// of the track: re-slicing the buffered track in place of re-decoding.
    pub fn samples_from(&self, offset_ms: u64) -> (r: &[u8])
        requires
            self.wf(),
        ensures
            r@ == self.data@.subrange(self.start_byte_spec(offset_ms), self.data@.len() as int),
    {
        let start: usize = self.start_byte(offset_ms);
        vstd::slice::slice_subrange(self.data.as_slice(), start, self.data.len())
    }

    /// Decodes one track from raw container bytes. Succeeds exactly on a
    /// well-formed canonical PCM WAVE file; on success the returned buffer
    /// holds the announced layout and the whole data chunk.
    pub fn decode(data: &[u8]) -> (r: Result<TrackBuffer, PlayerError>)
        ensures
            r is Ok <==> wav_well_formed(data@),
            r matches Ok(t) ==> {
                &&& t.wf()
                &&& t.channels == u16_le(data@, 22)
                &&& t.sample_rate == u32_le(data@, 24)
                &&& t.data@ == data@.subrange(44, data@.len() as int)
            },
    {
        if data.len() < 44 {
            return Err(PlayerError::decode_failure());
        }
        if data.len() - 8 > 0xFFFF_FFFFusize {
            return Err(PlayerError::decode_failure());
        }
        if !(data[0] == 0x52 && data[1] == 0x49 && data[2] == 0x46 && data[3] == 0x46) {
            return Err(PlayerError::decode_failure());
        }
        let riff_size: u32 = read_u32_le(data, 4);
        if riff_size as usize != data.len() - 8 {
            return Err(PlayerError::decode_failure());
        }
        if !(data[8] == 0x57 && data[9] == 0x41 && data[10] == 0x56 && data[11] == 0x45) {
            return Err(PlayerError::decode_failure());
        }
        if !(data[12] == 0x66 && data[13] == 0x6d && data[14] == 0x74 && data[15] == 0x20) {
            return Err(PlayerError::decode_failure());
        }
        if read_u32_le(data, 16) != 16 {
            return Err(PlayerError::decode_failure());
        }
        if read_u16_le(data, 20) != 1 {
            return Err(PlayerError::decode_failure());
        }
        let channels: u16 = read_u16_le(data, 22);
        if channels == 0 {
            return Err(PlayerError::decode_failure());
        }
        let sample_rate: u32 = read_u32_le(data, 24);
        if sample_rate == 0 {
            return Err(PlayerError::decode_failure());
        }
        let block_align: u16 = read_u16_le(data, 32);
        if block_align as u32 != 2 * (channels as u32) {
            return Err(PlayerError::decode_failure());
        }
        if read_u16_le(data, 34) != 16 {
            return Err(PlayerError::decode_failure());
        }
        let byte_rate: u32 = read_u32_le(data, 28);
        proof {
            assert((sample_rate as u64) * (block_align as u64) <= 0xFFFF_FFFF_FFFF_FFFFu64)
                by (nonlinear_arith)
                requires
                    sample_rate <= 0xFFFF_FFFFu32,
                    block_align <= 0xFFFFu16,
            ;
        }
        if byte_rate as u64 != (sample_rate as u64) * (block_align as u64) {
            return Err(PlayerError::decode_failure());
        }
        if !(data[36] == 0x64 && data[37] == 0x61 && data[38] == 0x74 && data[39] == 0x61) {
            return Err(PlayerError::decode_failure());
        }
        let data_size: u32 = read_u32_le(data, 40);
        if data_size as usize != data.len() - 44 {
            return Err(PlayerError::decode_failure());
        }
        if (data.len() - 44) % (block_align as usize) != 0 {
            return Err(PlayerError::decode_failure());
        }
        let mut samples: Vec<u8> = Vec::new();
        let mut i: usize = 44;
        while i < data.len()
            invariant
                44 <= i <= data@.len(),
                samples@ == data@.subrange(44, i as int),
            decreases data@.len() - i,
        {
            samples.push(data[i]);
            proof {
                assert(samples@ =~= data@.subrange(44, i + 1));
            }
            i = i + 1;
        }
        proof {
            assert(samples@ =~= data@.subrange(44, data@.len() as int));
        }
        Ok(TrackBuffer { channels, sample_rate, data: samples })
    }
}

/// The 16-bit little-endian integer stored at offset `i` of `d`.
fn read_u16_le(d: &[u8], i: usize) -> (r: u16)
    requires
        i + 2 <= d@.len(),
    ensures
        r == u16_le(d@, i as int),
{
    (d[i] as u16) + 256 * (d[i + 1] as u16)
}

/// The 32-bit little-endian integer stored at offset `i` of `d`.
fn read_u32_le(d: &[u8], i: usize) -> (r: u32)
    requires
        i + 4 <= d@.len(),
    ensures
        r == u32_le(d@, i as int),
{
    (d[i] as u32) + 256 * (d[i + 1] as u32) + 65536 * (d[i + 2] as u32) + 16777216 * (d[i + 3]
        as u32)
}

} // verus!
