//! The two renderers: raw PCM (payload only) and RIFF/WAVE (payload behind a
//! fixed 44-byte header).

use crate::bytes::{
    encode_payload, encode_samples, le_bytes, le_val, lemma_le_bytes_len, lemma_le_round_trip,
    pow256, push_le_bytes,
};
use crate::{Buffer, OutputRenderer};
use vstd::prelude::*;

verus! {

/// The 44-byte RIFF/WAVE header for a payload of `payload_len` bytes at
/// `sample_rate` samples per second. Field layout, offsets in bytes,
/// multi-byte integers little-endian:
/// ChunkID "RIFF" (0), ChunkSize = payload_len + 44 (4), Format "WAVE" (8),
/// Subchunk1ID "fmt " (12), Subchunk1Size 16 (16), AudioFormat 1 (20),
/// NumChannels 1 (22), SampleRate (24), ByteRate = 8 * sample_rate (28),
/// BlockAlign 8 (32), BitsPerSample 64 (34), Subchunk2ID "data" (36),
/// Subchunk2Size = payload_len (40).
pub open spec fn wave_header(payload_len: int, sample_rate: int) -> Seq<u8> {
    seq![0x52u8, 0x49u8, 0x46u8, 0x46u8]  // "RIFF"
     + le_bytes(payload_len + 44, 4) + seq![0x57u8, 0x41u8, 0x56u8, 0x45u8]  // "WAVE"
     + seq![0x66u8, 0x6Du8, 0x74u8, 0x20u8]  // "fmt "
     + le_bytes(16, 4) + le_bytes(1, 2) + le_bytes(1, 2) + le_bytes(sample_rate, 4) + le_bytes(
        8 * sample_rate,
        4,
    ) + le_bytes(8, 2) + le_bytes(64, 2) + seq![0x64u8, 0x61u8, 0x74u8, 0x61u8]  // "data"
     + le_bytes(payload_len, 4)
}

/// RIFF/WAVE behind the same payload: the fixed 44-byte header, no footer.
pub struct WaveRenderer {
    pcm: PcmRenderer,
}

impl WaveRenderer {
    /// Build from sample bit patterns (IEEE-754 64-bit, one `u64` per
    /// sample) and a positive sample rate. The bounds keep the header's
    /// 32-bit size fields and the byte-rate arithmetic exact.
    pub fn new(raw: &[u64], sample_rate: i32) -> (r: Self)
        requires
            1 <= sample_rate,
            sample_rate * 64 <= i32::MAX,
            8 * raw@.len() + 44 <= u32::MAX,
        ensures
            r.wf(),
            r.buf() == encode_payload(raw@),
            r.buf().len() == 8 * raw@.len(),
            r.header() == Some(wave_header(8 * raw@.len() as int, sample_rate as int)),
            r.footer() == None::<Seq<u8>>,
    {
        Self { pcm: PcmRenderer::new(raw, sample_rate) }
    }
}

impl Buffer for WaveRenderer {
    closed spec fn buf(&self) -> Seq<u8> {
        self.pcm.buffer@
    }

    fn get_buffer(&self) -> (r: &[u8]) {
        self.pcm.buffer.as_slice()
    }
}

impl OutputRenderer for WaveRenderer {
    closed spec fn wf(&self) -> bool {
        &&& 1 <= self.pcm.sample_rate
        &&& self.pcm.sample_rate * 64 <= i32::MAX
        &&& self.pcm.buffer@.len() + 44 <= u32::MAX
    }

    closed spec fn header(&self) -> Option<Seq<u8>> {
        Some(wave_header(self.pcm.buffer@.len() as int, self.pcm.sample_rate as int))
    }

    closed spec fn footer(&self) -> Option<Seq<u8>> {
        None
    }

    fn get_header(&self) -> (r: Option<Vec<u8>>) {
        let buflen: u32 = self.pcm.buffer.len() as u32;
        let fsize: u32 = buflen + 44;
        let bits_per_sample: i32 = 64;
        let byte_rate: i32 = self.pcm.sample_rate * bits_per_sample / 8;
        let block_align: i32 = bits_per_sample / 8;
        let mut buf: Vec<u8> = Vec::new();

        buf.push(0x52);  // 'R'
        buf.push(0x49);  // 'I'
        buf.push(0x46);  // 'F'
        buf.push(0x46);  // 'F'
        push_le_bytes(&mut buf, fsize as u64, 4);
        buf.push(0x57);  // 'W'
        buf.push(0x41);  // 'A'
        buf.push(0x56);  // 'V'
        buf.push(0x45);  // 'E'
        buf.push(0x66);  // 'f'
        buf.push(0x6D);  // 'm'
        buf.push(0x74);  // 't'
        buf.push(0x20);  // ' '
        push_le_bytes(&mut buf, 16, 4);  // Subchunk1Size: PCM
        push_le_bytes(&mut buf, 1, 2);  // AudioFormat: linear quantization
        push_le_bytes(&mut buf, 1, 2);  // NumChannels: mono
        push_le_bytes(&mut buf, self.pcm.sample_rate as u64, 4);
        push_le_bytes(&mut buf, byte_rate as u64, 4);
        push_le_bytes(&mut buf, block_align as u64, 2);
        push_le_bytes(&mut buf, bits_per_sample as u64, 2);
        buf.push(0x64);  // 'd'
        buf.push(0x61);  // 'a'
        buf.push(0x74);  // 't'
        buf.push(0x61);  // 'a'
        push_le_bytes(&mut buf, buflen as u64, 4);

        proof {
            assert(buf@ =~= wave_header(
                self.pcm.buffer@.len() as int,
                self.pcm.sample_rate as int,
            ));
        }
        Some(buf)
    }

    fn get_footer(&self) -> (r: Option<Vec<u8>>) {
        None
    }
}

/// What the RIFF/WAVE header says, for every payload length and sample rate
/// a `WaveRenderer` can be built with: it is exactly 44 bytes; its literal
/// fields read "RIFF", "WAVE", "fmt " and "data"; and its numeric fields
/// little-endian-decode to ChunkSize = payload_len + 44, Subchunk1Size = 16,
/// AudioFormat = 1, NumChannels = 1, SampleRate, ByteRate = 8 * sample_rate,
/// BlockAlign = 8, BitsPerSample = 64 and Subchunk2Size = payload_len.
pub proof fn lemma_wave_header_fields(payload_len: int, sample_rate: int)
    requires
        0 <= payload_len,
        payload_len + 44 <= u32::MAX,
        1 <= sample_rate,
        sample_rate * 64 <= i32::MAX,
    ensures
        wave_header(payload_len, sample_rate).len() == 44,
        wave_header(payload_len, sample_rate).subrange(0, 4) == seq![0x52u8, 0x49u8, 0x46u8, 0x46u8],
        le_val(wave_header(payload_len, sample_rate).subrange(4, 8)) == payload_len + 44,
        wave_header(payload_len, sample_rate).subrange(8, 12) == seq![0x57u8, 0x41u8, 0x56u8, 0x45u8],
        wave_header(payload_len, sample_rate).subrange(12, 16) == seq![0x66u8, 0x6Du8, 0x74u8, 0x20u8],
        le_val(wave_header(payload_len, sample_rate).subrange(16, 20)) == 16,
        le_val(wave_header(payload_len, sample_rate).subrange(20, 22)) == 1,
        le_val(wave_header(payload_len, sample_rate).subrange(22, 24)) == 1,
        le_val(wave_header(payload_len, sample_rate).subrange(24, 28)) == sample_rate,
        le_val(wave_header(payload_len, sample_rate).subrange(28, 32)) == 8 * sample_rate,
        le_val(wave_header(payload_len, sample_rate).subrange(32, 34)) == 8,
        le_val(wave_header(payload_len, sample_rate).subrange(34, 36)) == 64,
        wave_header(payload_len, sample_rate).subrange(36, 40) == seq![0x64u8, 0x61u8, 0x74u8, 0x61u8],
        le_val(wave_header(payload_len, sample_rate).subrange(40, 44)) == payload_len,
{
    let h = wave_header(payload_len, sample_rate);
    lemma_le_bytes_len(payload_len + 44, 4);
    lemma_le_bytes_len(16, 4);
    lemma_le_bytes_len(1, 2);
    lemma_le_bytes_len(sample_rate, 4);
    lemma_le_bytes_len(8 * sample_rate, 4);
    lemma_le_bytes_len(8, 2);
    lemma_le_bytes_len(64, 2);
    lemma_le_bytes_len(payload_len, 4);
    assert(pow256(4) == 0x100000000 && pow256(2) == 0x10000) by {
        reveal_with_fuel(pow256, 5);
    }
    assert(h.subrange(0, 4) =~= seq![0x52u8, 0x49u8, 0x46u8, 0x46u8]);
    assert(h.subrange(4, 8) =~= le_bytes(payload_len + 44, 4));
    lemma_le_round_trip(payload_len + 44, 4);
    assert(h.subrange(8, 12) =~= seq![0x57u8, 0x41u8, 0x56u8, 0x45u8]);
    assert(h.subrange(12, 16) =~= seq![0x66u8, 0x6Du8, 0x74u8, 0x20u8]);
    assert(h.subrange(16, 20) =~= le_bytes(16, 4));
    lemma_le_round_trip(16, 4);
    assert(h.subrange(20, 22) =~= le_bytes(1, 2));
    lemma_le_round_trip(1, 2);
    assert(h.subrange(22, 24) =~= le_bytes(1, 2));
    assert(h.subrange(24, 28) =~= le_bytes(sample_rate, 4));
    lemma_le_round_trip(sample_rate, 4);
    assert(h.subrange(28, 32) =~= le_bytes(8 * sample_rate, 4));
    lemma_le_round_trip(8 * sample_rate, 4);
    assert(h.subrange(32, 34) =~= le_bytes(8, 2));
    lemma_le_round_trip(8, 2);
    assert(h.subrange(34, 36) =~= le_bytes(64, 2));
    lemma_le_round_trip(64, 2);
    assert(h.subrange(36, 40) =~= seq![0x64u8, 0x61u8, 0x74u8, 0x61u8]);
    assert(h.subrange(40, 44) =~= le_bytes(payload_len, 4));
    lemma_le_round_trip(payload_len, 4);
}

/// Headerless raw PCM: the encoded payload with no header and no footer.
pub struct PcmRenderer {
    buffer: Vec<u8>,
    sample_rate: i32,
}

impl PcmRenderer {
    /// The sample rate this renderer was built with.
    pub closed spec fn rate(&self) -> int {
        self.sample_rate as int
    }

    /// Build from sample bit patterns (IEEE-754 64-bit, one `u64` per
    /// sample): the payload is their little-endian encoding.
    pub fn new(raw: &[u64], sample_rate: i32) -> (r: Self)
        ensures
            r.buf() == encode_payload(raw@),
            r.buf().len() == 8 * raw@.len(),
            r.rate() == sample_rate as int,
    {
        Self { buffer: encode_samples(raw), sample_rate }
    }
}

impl Buffer for PcmRenderer {
    closed spec fn buf(&self) -> Seq<u8> {
        self.buffer@
    }

    fn get_buffer(&self) -> (r: &[u8]) {
        self.buffer.as_slice()
    }
}

impl OutputRenderer for PcmRenderer {
    open spec fn wf(&self) -> bool {
        true
    }

    open spec fn header(&self) -> Option<Seq<u8>> {
        None
    }

    open spec fn footer(&self) -> Option<Seq<u8>> {
        None
    }

    fn get_header(&self) -> (r: Option<Vec<u8>>) {
        None
    }

    fn get_footer(&self) -> (r: Option<Vec<u8>>) {
        None
    }
}

} // verus!
