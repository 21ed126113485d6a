//! The recording format and its encoding as a WAV stream.
//!
//! Every recording is 16 kHz mono 16-bit PCM, both on disk and when uploaded
//! for cloud transcription. Samples reach this module already converted to
//! 16-bit integers.

use vstd::prelude::*;

verus! {

/// Sample rate of every recording captured, saved and uploaded.
pub const RECORDING_SAMPLE_RATE: u32 = 16_000;

/// The most 16-bit mono samples one WAV stream can carry: the RIFF size field
/// (36 header bytes plus the data) must fit in 32 bits.
pub const MAX_PCM16_SAMPLES: usize = 2_147_483_629;

/// Whether samples are integers or floats.
#[derive(Clone, Copy, Debug, PartialEq, Eq, Structural)]
pub enum SampleKind {
    Float,
    Int,
}

/// The properties of a WAV stream.
#[derive(Clone, Copy, Debug, PartialEq, Eq, Structural)]
pub struct WavFormat {
    pub channels: u16,
    pub sample_rate: u32,
    pub bits_per_sample: u16,
    pub sample_format: SampleKind,
}

/// The one encoding used for both recordings on disk and audio uploaded for
/// cloud transcription: 16 kHz mono 16-bit PCM, matching the recorder.
pub fn recording_wav_spec() -> (r: WavFormat)
    ensures
        r == (WavFormat {
            channels: 1,
            sample_rate: RECORDING_SAMPLE_RATE,
            bits_per_sample: 16,
            sample_format: SampleKind::Int,
        }),
{
    WavFormat {
        channels: 1,
        sample_rate: RECORDING_SAMPLE_RATE,
        bits_per_sample: 16,
        sample_format: SampleKind::Int,
    }
}

/// The low byte of a sample in little-endian order.
pub open spec fn low_byte(s: i16) -> u8 {
    ((s as int) % 256) as u8
}

/// The high byte of a sample in little-endian order.
pub open spec fn high_byte(s: i16) -> u8 {
    (((s as int) / 256) % 256) as u8
}

/// `v` as two little-endian bytes.
pub open spec fn le16(v: int) -> Seq<u8> {
    seq![(v % 256) as u8, ((v / 256) % 256) as u8]
}

/// `v` as four little-endian bytes.
pub open spec fn le32(v: int) -> Seq<u8> {
    seq![
        (v % 256) as u8,
        ((v / 256) % 256) as u8,
        ((v / 65536) % 256) as u8,
        ((v / 16777216) % 256) as u8,
    ]
}

/// The four ASCII bytes of a chunk id.
pub open spec fn tag(a: char, b: char, c: char, d: char) -> Seq<u8> {
    seq![a as u8, b as u8, c as u8, d as u8]
}

/// The 44-byte header of a mono 16-bit PCM WAV stream of `sample_count`
/// samples: the RIFF chunk, the 16-byte `fmt ` chunk (format 1, one channel,
/// the rate, two bytes per frame, 16 bits) and the `data` chunk header.
pub open spec fn pcm16_mono_header(sample_rate: int, sample_count: int) -> Seq<u8> {
    tag('R', 'I', 'F', 'F') + le32(36 + 2 * sample_count) + tag('W', 'A', 'V', 'E') + tag(
        'f',
        'm',
        't',
        ' ',
    ) + le32(16) + le16(1) + le16(1) + le32(sample_rate) + le32(2 * sample_rate) + le16(2) + le16(
        16,
    ) + tag('d', 'a', 't', 'a') + le32(2 * sample_count)
}

/// The samples in little-endian order, two bytes each.
pub open spec fn pcm16_data(samples: Seq<i16>) -> Seq<u8> {
    Seq::new(
        2 * samples.len(),
        |i: int|
            if i % 2 == 0 {
                low_byte(samples[i / 2])
            } else {
                high_byte(samples[i / 2])
            },
    )
}

/// A mono 16-bit PCM WAV stream: its header followed by its samples.
pub open spec fn pcm16_mono_wav(sample_rate: int, samples: Seq<i16>) -> Seq<u8> {
    pcm16_mono_header(sample_rate, samples.len() as int) + pcm16_data(samples)
}

/// The stream is 44 header bytes and then two bytes per sample, low first.
pub proof fn lemma_pcm16_layout(sample_rate: int, samples: Seq<i16>)
    ensures
        pcm16_mono_header(sample_rate, samples.len() as int).len() == 44,
        pcm16_mono_wav(sample_rate, samples).len() == 44 + 2 * samples.len(),
        forall|i: int|
            0 <= i < samples.len() ==> pcm16_mono_wav(sample_rate, samples)[44 + 2 * i]
                == low_byte(#[trigger] samples[i]) && pcm16_mono_wav(sample_rate, samples)[45 + 2
                * i] == high_byte(samples[i]),
{
    let h = pcm16_mono_header(sample_rate, samples.len() as int);
    let d = pcm16_data(samples);
    assert(h.len() == 44);
    assert forall|i: int| 0 <= i < samples.len() implies pcm16_mono_wav(sample_rate, samples)[44
        + 2 * i] == low_byte(#[trigger] samples[i]) && pcm16_mono_wav(sample_rate, samples)[45 + 2
        * i] == high_byte(samples[i]) by {
        assert((2 * i) % 2 == 0 && (2 * i) / 2 == i) by (nonlinear_arith);
        assert((2 * i + 1) % 2 == 1 && (2 * i + 1) / 2 == i) by (nonlinear_arith);
        assert(d[2 * i] == low_byte(samples[i]));
        assert(d[2 * i + 1] == high_byte(samples[i]));
    }
}

#[verifier::external_type_specification]
#[verifier::external_body]
pub struct ExHoundError(hound::Error);

/// Writes `samples` through `hound::WavWriter` (`new`, `write_sample` for each
/// sample, `finalize`) into an in-memory buffer. `hound::WavWriter` hands its
/// output back only through a buffer that it borrows for its whole life, so
/// the writer's lifetime is one trusted item. For one channel of 16-bit
/// integer samples hound writes the PCM header (`write_headers`,
/// `write_pcmwaveformat`), each sample as two little-endian bytes
/// (`write_sample`), and then fills in the two sizes (`update_header`); it
/// divides by the sample rate, which must not be 0. Writing to memory gives
/// no I/O error and one channel leaves no sample unfinished, so the result is
/// `Ok`.
#[verifier::external_body]
fn hound_write_pcm16(format: &WavFormat, samples: &[i16]) -> (r: Result<Vec<u8>, hound::Error>)
    requires
        format.channels == 1,
        format.bits_per_sample == 16,
        format.sample_format == SampleKind::Int,
        1 <= format.sample_rate <= 0x7FFF_FFFF,
        samples@.len() <= MAX_PCM16_SAMPLES,
    ensures
        r is Ok,
        r matches Ok(bytes) ==> bytes@ == pcm16_mono_wav(format.sample_rate as int, samples@),
{
    let sample_format = match format.sample_format {
        SampleKind::Int => hound::SampleFormat::Int,
        SampleKind::Float => hound::SampleFormat::Float,
    };
    let (channels, sample_rate, bits_per_sample) = (format.channels, format.sample_rate, format.bits_per_sample);
    let spec = hound::WavSpec { channels, sample_rate, bits_per_sample, sample_format };
    let mut buffer = std::io::Cursor::new(Vec::new());
    let mut writer = hound::WavWriter::new(&mut buffer, spec)?;
    for sample in samples {
        writer.write_sample(*sample)?;
    }
    writer.finalize()?;
    Ok(buffer.into_inner())
}

/// Calls `hound::Error`'s `Display`; nothing is claimed of the text.
#[verifier::external_body]
fn hound_error_text(error: &hound::Error) -> String {
    error.to_string()
}

/// Encodes 16-bit samples as an in-memory 16 kHz mono 16-bit PCM WAV stream:
/// the 44-byte PCM header followed by the samples in little-endian order.
pub fn encode_wav(samples: &[i16]) -> (r: Result<Vec<u8>, String>)
    requires
        samples@.len() <= MAX_PCM16_SAMPLES,
    ensures
        r matches Ok(bytes) && bytes@ == pcm16_mono_wav(RECORDING_SAMPLE_RATE as int, samples@),
        r matches Ok(bytes) && bytes@.len() == 44 + 2 * samples@.len(),
        r matches Ok(bytes) && forall|i: int|
            0 <= i < samples@.len() ==> bytes@[44 + 2 * i] == low_byte(#[trigger] samples@[i])
                && bytes@[45 + 2 * i] == high_byte(samples@[i]),
{
    let format = recording_wav_spec();
    match hound_write_pcm16(&format, samples) {
        Ok(bytes) => {
            proof {
                lemma_pcm16_layout(RECORDING_SAMPLE_RATE as int, samples@);
            }
            Ok(bytes)
        },
        Err(e) => Err(hound_error_text(&e)),
    }
}

/// A WAV file that does not hold what was written to it.
#[derive(Debug)]
pub enum WavCheckError {
    SampleCountMismatch { expected: usize, actual: usize },
}

/// Checks a WAV file read back after saving: it must hold exactly the samples
/// that were written.
pub fn check_sample_count(expected: usize, actual: usize) -> (r: Result<(), WavCheckError>)
    ensures
        r is Ok <==> expected == actual,
        r matches Err(WavCheckError::SampleCountMismatch { expected: e, actual: a }) ==> e
            == expected && a == actual,
{
    if actual != expected {
        Err(WavCheckError::SampleCountMismatch { expected, actual })
    } else {
        Ok(())
    }
}

} // verus!
