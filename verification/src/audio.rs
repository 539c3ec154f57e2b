//! The audio that goes to a remote provider: a WAV file in memory, mono,
//! 16 bits per sample, 16 000 samples per second.

use vstd::prelude::*;
use vstd::string::StringExecFns;
use crate::error::{Error, ErrorView};

verus! {

/// The number of channels of all audio that is sent out.
pub const CHANNELS: u16 = 1;

/// The number of samples per second of all audio that is sent out.
pub const SAMPLE_RATE: u32 = 16_000;

/// The number of bits per sample of all audio that is sent out.
pub const BITS_PER_SAMPLE: u16 = 16;

/// The most samples that a WAV file of one channel can hold at two bytes
/// each: its header counts the bytes of the file in 32 bits.
pub const MAX_WAV_SAMPLES: usize = 2_147_483_629;

/// The bytes of the WAV file that holds the given samples, interleaved by
/// channel, as signed integers of the given width at the given rate, as
/// `hound` writes it.
pub uninterp spec fn wav_pcm(
    channels: u16,
    sample_rate: u32,
    bits_per_sample: u16,
    samples: Seq<i16>,
) -> Seq<u8>;

/// The bytes that follow the first eight of a WAV file and come before its
/// samples: 36, and 60 where more than two channels or more than 16 bits
/// call for the longer description of the format.
pub open spec fn header_bytes(channels: u16, bits_per_sample: u16) -> int {
    if channels > 2 || bits_per_sample > 16 {
        60
    } else {
        36
    }
}

/// Whether `n` samples of 16-bit audio can be written as a WAV file of this
/// format: the width is one that holds them, the samples fill whole frames,
/// and the two numbers that the header counts in 32 bits fit, the bytes per
/// second and the bytes of the file.
pub open spec fn encodable(channels: u16, sample_rate: u32, bits_per_sample: u16, n: nat) -> bool {
    &&& channels >= 1
    &&& bits_per_sample == 16 || bits_per_sample == 24 || bits_per_sample == 32
    &&& sample_rate > 0
    &&& sample_rate * (bits_per_sample / 8) * channels <= u32::MAX
    &&& n % (channels as nat) == 0
    &&& n * (bits_per_sample / 8) + header_bytes(channels, bits_per_sample) <= u32::MAX
}

/// The WAV file that goes out for the given samples.
pub open spec fn wire_audio(samples: Seq<i16>) -> Seq<u8> {
    wav_pcm(CHANNELS, SAMPLE_RATE, BITS_PER_SAMPLE, samples)
}

/// Trusted: writes the samples with `hound::WavWriter` into a buffer in
/// memory (`new` with the given format and integer samples, `write_sample`
/// for each sample in order, then `finalize`) and hands the buffer back.
/// In memory no write fails, and under `encodable` the writer refuses
/// nothing: it takes these widths, a 16-bit sample fits each of them, and a
/// whole number of frames is finished. It divides by the rate and by the
/// number of channels, and counts bytes per second and bytes written in 32
/// bits, which `encodable` keeps in range.
#[verifier::external_body]
fn hound_encode(
    samples: &Vec<i16>,
    channels: u16,
    sample_rate: u32,
    bits_per_sample: u16,
) -> (encoded: Result<Vec<u8>, String>)
    requires
        encodable(channels, sample_rate, bits_per_sample, samples@.len()),
    ensures
        encoded is Ok,
        encoded matches Ok(bytes) ==> bytes@ == wav_pcm(channels, sample_rate, bits_per_sample, samples@),
{
    let sample_format = hound::SampleFormat::Int;
    let spec = hound::WavSpec { channels, sample_rate, bits_per_sample, sample_format };
    let mut cursor = std::io::Cursor::new(Vec::new());
    let mut writer = hound::WavWriter::new(&mut cursor, spec).map_err(|e| e.to_string())?;
    for sample in samples.iter() {
        writer.write_sample(*sample).map_err(|e| e.to_string())?;
    }
    writer.finalize().map_err(|e| e.to_string())?;
    Ok(cursor.into_inner())
}

/// What an encoding comes to: the bytes, or a failure on disk's side with
/// the writer's own words.
pub fn wav_outcome(encoded: Result<Vec<u8>, String>) -> (outcome: Result<Vec<u8>, Error>)
    ensures
        match (encoded, outcome) {
            (Ok(bytes), Ok(out)) => out@ == bytes@,
            (Err(text), Err(e)) => e@ == ErrorView::Io(text@),
            _ => false,
        },
{
    match encoded {
        Ok(bytes) => Ok(bytes),
        Err(text) => Err(Error::Io(text)),
    }
}

/// What encoding the samples for the wire gives: the WAV file, unless there
/// are more samples than a WAV file can hold.
pub open spec fn encoded_audio(samples: Seq<i16>) -> Result<Seq<u8>, ErrorView> {
    if samples.len() <= MAX_WAV_SAMPLES {
        Ok(wire_audio(samples))
    } else {
        Err(ErrorView::Io("audio too long"@))
    }
}

/// Encodes the samples as a WAV file in memory: one channel, 16 bits per
/// sample, 16 000 samples per second. Audio of more than `MAX_WAV_SAMPLES`
/// samples does not fit into a WAV file and is refused; any other audio is
/// encoded.
pub fn encode_wav(samples: &Vec<i16>) -> (wav: Result<Vec<u8>, Error>)
    ensures
        match wav {
            Ok(bytes) => encoded_audio(samples@) == Ok::<Seq<u8>, ErrorView>(bytes@),
            Err(e) => encoded_audio(samples@) == Err::<Seq<u8>, ErrorView>(e@),
        },
{
    if samples.len() > MAX_WAV_SAMPLES {
        return Err(Error::Io(String::from_str("audio too long")));
    }
    wav_outcome(hound_encode(samples, CHANNELS, SAMPLE_RATE, BITS_PER_SAMPLE))
}

} // verus!
