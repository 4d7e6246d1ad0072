//! WAVE files through the `hound` crate: encoding captured audio as a
//! 16-bit mono PCM file (with the layout of the bytes it writes), and
//! decoding uploaded files into their format and integer samples.

use vstd::prelude::*;
use vstd::arithmetic::power2::{pow2, lemma_pow2_strictly_increases, lemma_pow2_unfold};

verus! {

#[verifier::external_type_specification]
#[verifier::external_body]
pub struct ExHoundError(hound::Error);

/// The bytes of `x`, least significant first.
pub open spec fn le_u16(x: u16) -> Seq<u8> {
    seq![(x % 256) as u8, (x / 256) as u8]
}

/// The bytes of `x`, least significant first.
pub open spec fn le_u32(x: u32) -> Seq<u8> {
    seq![(x % 256) as u8, ((x / 256) % 256) as u8, ((x / 65536) % 256) as u8, (x / 16777216) as u8]
}

/// The data chunk's payload: each sample as two's-complement little endian.
pub open spec fn pcm16_data(samples: Seq<i16>) -> Seq<u8>
    decreases samples.len(),
{
    if samples.len() == 0 {
        Seq::empty()
    } else {
        pcm16_data(samples.drop_last()) + le_u16(samples.last() as u16)
    }
}

/// A 16-bit mono PCM WAVE file of `samples` at `sample_rate` Hz: the RIFF
/// header, a 16-byte `fmt ` chunk and the `data` chunk.
pub open spec fn pcm16_mono_wav(samples: Seq<i16>, sample_rate: u32) -> Seq<u8> {
    let data_len = (2 * samples.len()) as u32;
    seq![0x52u8, 0x49, 0x46, 0x46] + le_u32((36 + 2 * samples.len()) as u32)
        + seq![0x57u8, 0x41, 0x56, 0x45] + seq![0x66u8, 0x6d, 0x74, 0x20] + le_u32(16) + le_u16(1)
        + le_u16(1) + le_u32(sample_rate) + le_u32((2 * sample_rate) as u32) + le_u16(2) + le_u16(
        16,
    ) + seq![0x64u8, 0x61, 0x74, 0x61] + le_u32(data_len) + pcm16_data(samples)
}

/// Why audio could not be encoded or decoded.
#[derive(Debug)]
pub enum WavError {
    /// The WAVE writer reported an error.
    Encoding,
    /// The bytes are not a WAVE file that the reader can decode.
    Decoding(hound::Error),
}

/// `hound::WavWriter` writing `samples` as a 16-bit mono integer PCM file
/// into memory: `WavWriter::new` with that spec, `write_sample` for each
/// sample, `finalize`. Its source writes the 44-byte header of
/// `pcm16_mono_wav` and each sample as two little-endian bytes, and reports no
/// error when writing into a `Vec` at 16 bits; the contract claims that
/// result. It panics on a zero sample rate (division by zero) and when the
/// byte rate or the file size overflow `u32`, which `requires` leaves out.
#[verifier::external_body]
fn hound_write_pcm16_mono(samples: &[i16], sample_rate: u32) -> (r: Result<Vec<u8>, hound::Error>)
    requires
        sample_rate > 0,
        2 * sample_rate <= u32::MAX,
        2 * samples@.len() + 36 <= u32::MAX,
    ensures
        r is Ok,
        r matches Ok(bytes) ==> bytes@ == pcm16_mono_wav(samples@, sample_rate),
{
    let spec = hound::WavSpec {
        channels: 1,
        sample_rate,
        bits_per_sample: 16,
        sample_format: hound::SampleFormat::Int,
    };
    let mut cursor = std::io::Cursor::new(Vec::new());
    let mut writer = hound::WavWriter::new(&mut cursor, spec)?;
    for sample in samples {
        writer.write_sample(*sample)?;
    }
    writer.finalize()?;
    Ok(cursor.into_inner())
}

/// The WAVE file that the sentinel sends for a window of 16-bit samples
/// captured at `sample_rate` Hz.
pub fn encode_pcm16_wav(samples: &[i16], sample_rate: u32) -> (r: Result<Vec<u8>, WavError>)
    requires
        sample_rate > 0,
        2 * sample_rate <= u32::MAX,
        2 * samples@.len() + 36 <= u32::MAX,
    ensures
        r is Ok,
        r matches Ok(bytes) ==> bytes@ == pcm16_mono_wav(samples@, sample_rate),
{
    match hound_write_pcm16_mono(samples, sample_rate) {
        Ok(bytes) => Ok(bytes),
        Err(_) => Err(WavError::Encoding),
    }
}

proof fn lemma_pcm16_data_len(samples: Seq<i16>)
    ensures
        pcm16_data(samples).len() == 2 * samples.len(),
    decreases samples.len(),
{
    if samples.len() > 0 {
        lemma_pcm16_data_len(samples.drop_last());
    }
}

/// A file of `n` samples is 44 header bytes and two bytes per sample; its
/// header records the sample rate at bytes 24..28 and the number of data
/// bytes, `2 * n`, at bytes 40..44, which is what a reader recovers the rate
/// and the duration from.
pub proof fn law_wav_layout(samples: Seq<i16>, sample_rate: u32)
    requires
        2 * samples.len() + 36 <= u32::MAX,
    ensures
        pcm16_mono_wav(samples, sample_rate).len() == 44 + 2 * samples.len(),
        pcm16_mono_wav(samples, sample_rate).subrange(24, 28) == le_u32(sample_rate),
        pcm16_mono_wav(samples, sample_rate).subrange(40, 44) == le_u32((2 * samples.len()) as u32),
        pcm16_mono_wav(samples, sample_rate).subrange(44, 44 + 2 * samples.len() as int) == pcm16_data(samples),
{
    lemma_pcm16_data_len(samples);
    let w = pcm16_mono_wav(samples, sample_rate);
    assert(w.subrange(24, 28) =~= le_u32(sample_rate));
    assert(w.subrange(40, 44) =~= le_u32((2 * samples.len()) as u32));
    assert(w.subrange(44, 44 + 2 * samples.len() as int) =~= pcm16_data(samples));
}

/// Sample `i` of the file lies at bytes `2 * i` and `2 * i + 1` of the data
/// chunk, least significant byte first.
pub proof fn law_pcm16_sample_position(samples: Seq<i16>, i: int)
    requires
        0 <= i < samples.len(),
    ensures
        pcm16_data(samples).subrange(2 * i, 2 * i + 2) == le_u16(samples[i] as u16),
    decreases samples.len(),
{
    lemma_pcm16_data_len(samples);
    let prefix = samples.drop_last();
    lemma_pcm16_data_len(prefix);
    if i < samples.len() - 1 {
        law_pcm16_sample_position(prefix, i);
        assert(pcm16_data(samples).subrange(2 * i, 2 * i + 2) =~= pcm16_data(prefix).subrange(
            2 * i,
            2 * i + 2,
        ));
    } else {
        assert(pcm16_data(samples).subrange(2 * i, 2 * i + 2) =~= le_u16(samples[i] as u16));
    }
}

/// A decoded WAVE file: its sample rate, its bits per sample and, when its
/// samples are integers, those samples (channels interleaved); `None` for a
/// file of floating-point samples.
pub struct DecodedWav {
    pub sample_rate: u32,
    pub bits_per_sample: u16,
    pub int_samples: Option<Vec<i32>>,
}

/// A decoded file as plain values.
pub open spec fn decoded_view(d: DecodedWav) -> (u32, u16, Option<Seq<i32>>) {
    (
        d.sample_rate,
        d.bits_per_sample,
        match d.int_samples {
            Some(v) => Some(v@),
            None => None,
        },
    )
}

/// What `hound::WavReader` makes of `bytes`: `None` when it refuses them,
/// otherwise the sample rate, the bits per sample and, for an integer file,
/// all its samples as `i32`.
pub uninterp spec fn hound_decoding(bytes: Seq<u8>) -> Option<(u32, u16, Option<Seq<i32>>)>;

/// 16-bit samples as the `i32` values that reading them gives.
pub open spec fn widened(samples: Seq<i16>) -> Seq<i32> {
    samples.map_values(|x: i16| x as i32)
}

/// A decoding result as plain values: `None` for an error.
pub open spec fn decoding_of<E>(r: Result<DecodedWav, E>) -> Option<(u32, u16, Option<Seq<i32>>)> {
    match r {
        Ok(d) => Some(decoded_view(d)),
        Err(_) => None,
    }
}

/// Whether `decoded` is what a file laid out by `pcm16_mono_wav` holds, when
/// `bytes` are such a file: its rate, 16 bits and its samples.
pub open spec fn reads_back_what_was_written(
    bytes: Seq<u8>,
    decoded: Option<(u32, u16, Option<Seq<i32>>)>,
) -> bool {
    forall|samples: Seq<i16>, rate: u32|
        2 * rate <= u32::MAX && 2 * samples.len() + 36 <= u32::MAX && bytes
            == #[trigger] pcm16_mono_wav(samples, rate) ==> decoded == Some(
            (rate, 16u16, Some(widened(samples))),
        )
}

/// `hound::WavReader::new` on `bytes`, then `spec()` and, for an integer
/// file, `into_samples::<i32>()` collected. The result is a function of the
/// bytes, named `hound_decoding`. The reader's source also shows that it reads
/// a file laid out as `pcm16_mono_wav` back as that rate, 16 bits and the
/// samples widened to `i32` (it checks the byte rate `2 * rate` and the data
/// length, and ignores the RIFF size field); the contract claims that too.
/// Which error a refused file gives is left unsaid.
#[verifier::external_body]
fn hound_decode(bytes: &[u8]) -> (r: Result<DecodedWav, hound::Error>)
    ensures
        r is Ok <==> hound_decoding(bytes@) is Some,
        r matches Ok(d) ==> hound_decoding(bytes@) == Some(decoded_view(d)),
        reads_back_what_was_written(bytes@, decoding_of(r)),
{
    let reader = hound::WavReader::new(std::io::Cursor::new(bytes))?;
    let spec = reader.spec();
    let int_samples = match spec.sample_format {
        hound::SampleFormat::Int => Some(reader.into_samples::<i32>().collect::<Result<Vec<i32>, hound::Error>>()?),
        hound::SampleFormat::Float => None,
    };
    Ok(DecodedWav { sample_rate: spec.sample_rate, bits_per_sample: spec.bits_per_sample, int_samples })
}

/// Decodes an uploaded WAVE file into its format and, for an integer file,
/// its samples. A file that `encode_pcm16_wav` wrote is read back as its
/// sample rate, 16 bits and its samples.
pub fn read_wav(bytes: &[u8]) -> (r: Result<DecodedWav, WavError>)
    ensures
        r is Ok <==> hound_decoding(bytes@) is Some,
        r matches Ok(d) ==> hound_decoding(bytes@) == Some(decoded_view(d)),
        r matches Err(e) ==> e is Decoding,
        reads_back_what_was_written(bytes@, decoding_of(r)),
{
    match hound_decode(bytes) {
        Ok(d) => Ok(d),
        Err(e) => Err(WavError::Decoding(e)),
    }
}

/// The exponent of an integer file's full scale: one less than its bits per
/// sample, and 0 for 0 bits.
pub open spec fn full_scale_exponent(bits_per_sample: u16) -> nat {
    if bits_per_sample == 0 {
        0
    } else {
        (bits_per_sample - 1) as nat
    }
}

/// The full scale of integer samples of `bits_per_sample` bits,
/// `2^(bits_per_sample - 1)` (1 for 0 bits): dividing by it brings samples
/// into [-1, 1]. At 32 bits it does not fit an `i32`, which `requires` leaves
/// out.
pub fn int_full_scale(bits_per_sample: u16) -> (r: i32)
    requires
        bits_per_sample <= 31,
    ensures
        r == pow2(full_scale_exponent(bits_per_sample)),
{
    let exponent: u16 = if bits_per_sample == 0 { 0 } else { bits_per_sample - 1 };
    let mut scale: i32 = 1;
    let mut i: u16 = 0;
    proof {
        assert(pow2(0) == 1) by {
            vstd::arithmetic::power2::lemma2_to64();
        }
    }
    while i < exponent
        invariant
            i <= exponent <= 30,
            scale == pow2(i as nat),
        decreases exponent - i,
    {
        proof {
            lemma_pow2_unfold((i + 1) as nat);
            if i < 29 {
                lemma_pow2_strictly_increases(i as nat, 29);
            }
            vstd::arithmetic::power2::lemma2_to64();
        }
        scale = scale * 2;
        i = i + 1;
    }
    scale
}

} // verus!
