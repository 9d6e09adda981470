//! WAV framing of 16-bit mono PCM, through the `hound` crate.

use vstd::prelude::*;

verus! {

/// The two little-endian bytes of a 16-bit value `x` (`0 <= x < 2^16`).
pub open spec fn le16(x: int) -> Seq<u8> {
    seq![(x % 256) as u8, ((x / 256) % 256) as u8]
}

/// The four little-endian bytes of a 32-bit value `x` (`0 <= x < 2^32`).
pub open spec fn le32(x: int) -> Seq<u8> {
    seq![
        (x % 256) as u8,
        ((x / 256) % 256) as u8,
        ((x / 65536) % 256) as u8,
        ((x / 16777216) % 256) as u8,
    ]
}

/// A sample in two's complement, little endian.
pub open spec fn sample_le(s: i16) -> Seq<u8> {
    le16(if s < 0 {
        s + 65536
    } else {
        s as int
    })
}

/// The data chunk: every sample in order, two bytes each.
pub open spec fn pcm_bytes(samples: Seq<i16>) -> Seq<u8>
    decreases samples.len(),
{
    if samples.len() == 0 {
        seq![]
    } else {
        pcm_bytes(samples.drop_last()) + sample_le(samples.last())
    }
}

/// A RIFF/WAVE file holding `samples` as 16-bit integer PCM, one channel,
/// at `sr` Hz: the 44-byte header (`"RIFF"`, the size of the rest, `"WAVE"`,
/// a 16-byte `"fmt "` chunk, the `"data"` chunk header) and the samples.
pub open spec fn wav_mono16(samples: Seq<i16>, sr: u32) -> Seq<u8> {
    let n = samples.len() as int;
    seq![0x52u8, 0x49, 0x46, 0x46] + le32(36 + 2 * n) + seq![0x57u8, 0x41, 0x56, 0x45]
        + seq![0x66u8, 0x6d, 0x74, 0x20] + le32(16) + le16(1) + le16(1) + le32(sr as int)
        + le32(2 * sr) + le16(2) + le16(16) + seq![0x64u8, 0x61, 0x74, 0x61] + le32(2 * n)
        + pcm_bytes(samples)
}

/// What `hound::WavReader` reads from `bytes`: hound's error text when the
/// header is refused; otherwise the channel count, the sample rate and the
/// samples read as `i16` (or hound's error text when one cannot be read).
pub uninterp spec fn wav_decode(bytes: Seq<u8>) -> Result<(u16, u32, Result<Seq<i16>, Seq<char>>), Seq<char>>;

/// A file that hound reads in full: its channel count, rate and samples.
pub open spec fn read_ok(c: u16, sr: u32, samples: Seq<i16>) -> Result<(u16, u32, Result<Seq<i16>, Seq<char>>), Seq<char>> {
    Ok((c, sr, Ok(samples)))
}

proof fn lemma_pcm_bytes_len(samples: Seq<i16>)
    ensures
        pcm_bytes(samples).len() == 2 * samples.len(),
    decreases samples.len(),
{
    if samples.len() > 0 {
        lemma_pcm_bytes_len(samples.drop_last());
    }
}

/// A WAV file of `n` samples is 44 header bytes and two bytes a sample.
pub proof fn lemma_wav_len(samples: Seq<i16>, sr: u32)
    ensures
        wav_mono16(samples, sr).len() == 44 + 2 * samples.len(),
{
    lemma_pcm_bytes_len(samples);
}

/// Encodes `samples` as a 16-bit mono PCM WAV file at `sr` Hz with
/// `hound::WavWriter` over an in-memory cursor. Trusted: that the bytes
/// are the RIFF layout of `wav_mono16` (hound writes the 16-byte PCM `fmt `
/// chunk for one channel and 16 bits, then each sample little endian, and
/// patches both sizes on `finalize`); that writing to a `Vec` cannot fail
/// for a mono 16-bit spec at a rate `sr > 0` (hound divides by the rate);
/// and that `hound::WavReader` reads those bytes back as one channel at
/// `sr` Hz holding `samples`.
#[verifier::external_body]
pub(crate) fn encode_wav(samples: &[i16], sr: u32) -> (r: Vec<u8>)
    requires
        36 + 2 * samples@.len() <= u32::MAX,
        0 < sr,
        2 * sr <= u32::MAX,
    ensures
        r@ == wav_mono16(samples@, sr),
        wav_decode(r@) == read_ok(1, sr, samples@),
{
    let spec = hound::WavSpec {
        channels: 1,
        sample_rate: sr,
        bits_per_sample: 16,
        sample_format: hound::SampleFormat::Int,
    };
    let mut buf = std::io::Cursor::new(Vec::<u8>::new());
    let mut writer = hound::WavWriter::new(&mut buf, spec).unwrap();
    for &s in samples {
        writer.write_sample(s).unwrap();
    }
    writer.finalize().unwrap();
    buf.into_inner()
}

/// Reads `bytes` with `hound::WavReader`: the header's channel count and
/// sample rate, and the samples read as `i16`, or hound's error texts.
/// Trusted: that the outcome is the one `wav_decode` names for these bytes.
#[verifier::external_body]
pub(crate) fn decode_wav(bytes: &[u8]) -> (r: Result<(u16, u32, Result<Vec<i16>, String>), String>)
    ensures
        match r {
            Err(e) => wav_decode(bytes@) matches Err(m) && m == e@,
            Ok((c, sr, Err(e))) => wav_decode(bytes@) matches Ok((c2, sr2, Err(m))) && c2 == c && sr2 == sr && m == e@,
            Ok((c, sr, Ok(v))) => wav_decode(bytes@) == read_ok(c, sr, v@),
        },
{
    let mut reader = hound::WavReader::new(std::io::Cursor::new(bytes)).map_err(|e| e.to_string())?;
    let spec = reader.spec();
    let samples = reader.samples::<i16>().collect::<Result<Vec<i16>, _>>().map_err(|e| e.to_string());
    Ok((spec.channels, spec.sample_rate, samples))
}

} // verus!
