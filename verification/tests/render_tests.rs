use waverender::audio::{PcmRenderer, WaveRenderer};
use waverender::bytes::encode_samples;
use waverender::{output_bytes, Buffer, FileWriter, OutputRenderer, StdoutWriter, Writer};

fn bits_of(samples: &[f64]) -> Vec<u64> {
    samples.iter().map(|s| s.to_bits()).collect()
}

fn le_u32(bytes: &[u8]) -> u32 {
    u32::from_le_bytes(bytes.try_into().unwrap())
}

fn le_u16(bytes: &[u8]) -> u16 {
    u16::from_le_bytes(bytes.try_into().unwrap())
}

#[test]
fn encode_len_empty() {
    assert_eq!(encode_samples(&[]).len(), 0);
    let pcm = PcmRenderer::new(&[], 8000);
    assert_eq!(pcm.get_buffer().len(), 0);
}

#[test]
fn encode_len_is_eight_per_sample() {
    let bits = bits_of(&[1.0, 2.5, -3.75]);
    assert_eq!(encode_samples(&bits).len(), 24);
    let pcm = PcmRenderer::new(&bits, 8000);
    assert_eq!(pcm.get_buffer().len(), 24);
}

#[test]
fn round_trip_reproduces_samples() {
    let samples = [
        0.0,
        -0.0,
        1.0,
        -1.0,
        0.5,
        -2.25,
        1e-300,
        -1e300,
        f64::MIN_POSITIVE,
        f64::MAX,
    ];
    let bits = bits_of(&samples);
    let payload = encode_samples(&bits);
    assert_eq!(payload.len(), 8 * samples.len());
    for (i, chunk) in payload.chunks(8).enumerate() {
        let decoded = f64::from_le_bytes(chunk.try_into().unwrap());
        assert_eq!(decoded.to_bits(), samples[i].to_bits());
    }
}

#[test]
fn wave_header_field_layout() {
    let bits = bits_of(&[0.25; 5]);
    let wave = WaveRenderer::new(&bits, 44100);
    let header = wave.get_header().unwrap();
    assert_eq!(header.len(), 44);
    assert_eq!(&header[0..4], b"RIFF");
    assert_eq!(le_u32(&header[4..8]), 40 + 44);
    assert_eq!(&header[8..12], b"WAVE");
    assert_eq!(&header[12..16], b"fmt ");
    assert_eq!(le_u32(&header[16..20]), 16);
    assert_eq!(le_u16(&header[20..22]), 1);
    assert_eq!(le_u16(&header[22..24]), 1);
    assert_eq!(le_u32(&header[24..28]), 44100);
    assert_eq!(le_u32(&header[28..32]), 44100 * 8);
    assert_eq!(le_u16(&header[32..34]), 8);
    assert_eq!(le_u16(&header[34..36]), 64);
    assert_eq!(&header[36..40], b"data");
    assert_eq!(le_u32(&header[40..44]), 40);
}

#[test]
fn two_samples_at_8000() {
    let bits = bits_of(&[1.0, -1.0]);
    assert_eq!(bits[0], 0x3FF0000000000000);
    assert_eq!(bits[1], 0xBFF0000000000000);
    let wave = WaveRenderer::new(&bits, 8000);
    let payload = wave.get_buffer();
    assert_eq!(payload.len(), 16);
    assert_eq!(payload[0..8], [0x00, 0x00, 0x00, 0x00, 0x00, 0x00, 0xF0, 0x3F]);
    assert_eq!(payload[8..16], [0x00, 0x00, 0x00, 0x00, 0x00, 0x00, 0xF0, 0xBF]);
    let header = wave.get_header().unwrap();
    assert_eq!(le_u32(&header[24..28]), 8000);
    assert_eq!(le_u32(&header[28..32]), 64000);
    assert_eq!(le_u32(&header[40..44]), 16);
    assert_eq!(le_u32(&header[4..8]), 60);
}

#[test]
fn empty_sample_sequence() {
    let pcm = PcmRenderer::new(&[], 8000);
    assert_eq!(pcm.get_buffer().len(), 0);
    assert!(pcm.get_header().is_none());
    let wave = WaveRenderer::new(&[], 8000);
    assert_eq!(wave.get_buffer().len(), 0);
    let header = wave.get_header().unwrap();
    assert_eq!(header.len(), 44);
    assert_eq!(le_u32(&header[40..44]), 0);
    assert_eq!(le_u32(&header[4..8]), 44);
    // The full stream written to a sink is exactly the header, nothing after.
    let out = output_bytes(&wave);
    assert_eq!(out, header);
}

#[test]
fn output_is_header_then_payload_then_footer() {
    let bits = bits_of(&[1.0, -1.0, 0.5]);
    let wave = WaveRenderer::new(&bits, 8000);
    let header = wave.get_header().unwrap();
    let out = output_bytes(&wave);
    assert_eq!(out.len(), 44 + 24);
    assert_eq!(&out[0..44], header.as_slice());
    assert_eq!(&out[44..], wave.get_buffer());
    assert!(wave.get_footer().is_none());

    let pcm = PcmRenderer::new(&bits, 8000);
    let out = output_bytes(&pcm);
    assert_eq!(out.as_slice(), pcm.get_buffer());
}

#[test]
fn stdout_write_succeeds() {
    let bits = bits_of(&[1.0, -1.0]);
    let wave = WaveRenderer::new(&bits, 8000);
    assert!(StdoutWriter::new().write(wave).is_ok());
    let pcm = PcmRenderer::new(&bits, 8000);
    assert!(StdoutWriter::new().write(pcm).is_ok());
}

#[test]
fn file_writer_keeps_its_path() {
    let writer = FileWriter::new("tone.wav");
    assert_eq!(writer.file_name(), "tone.wav");
}
