use std::io::Cursor;

use curupira::wav::{encode_pcm16_wav, int_full_scale, read_wav, WavError};

#[test]
fn encoded_wav_roundtrip_preserves_sample_rate_and_length() {
    let wav = encode_pcm16_wav(&[-32767, 0, 32767], 22_050).expect("wav should be generated");
    let reader = hound::WavReader::new(Cursor::new(wav)).expect("wav should be readable");

    assert_eq!(reader.spec().sample_rate, 22_050);
    assert_eq!(reader.spec().channels, 1);
    assert_eq!(reader.spec().bits_per_sample, 16);
    assert_eq!(reader.duration(), 3);
    let samples: Vec<i16> = reader.into_samples::<i16>().map(|s| s.unwrap()).collect();
    assert_eq!(samples, vec![-32767, 0, 32767]);
}

#[test]
fn encoded_wav_has_canonical_header() {
    let wav = encode_pcm16_wav(&[1, -2], 16_000).expect("wav should be generated");
    let expected: Vec<u8> = vec![
        b'R', b'I', b'F', b'F', 40, 0, 0, 0, b'W', b'A', b'V', b'E', b'f', b'm', b't', b' ', 16, 0,
        0, 0, 1, 0, 1, 0, 0x80, 0x3e, 0, 0, 0x00, 0x7d, 0, 0, 2, 0, 16, 0, b'd', b'a', b't', b'a',
        4, 0, 0, 0, 1, 0, 0xfe, 0xff,
    ];
    assert_eq!(wav, expected);
}

#[test]
fn empty_window_encodes_header_only() {
    let wav = encode_pcm16_wav(&[], 8_000).expect("wav should be generated");
    assert_eq!(wav.len(), 44);
}

fn build_wav_bytes(samples: &[i16], sample_rate: u32) -> Vec<u8> {
    let spec = hound::WavSpec {
        channels: 1,
        sample_rate,
        bits_per_sample: 16,
        sample_format: hound::SampleFormat::Int,
    };

    let mut cursor = Cursor::new(Vec::new());
    let mut writer = hound::WavWriter::new(&mut cursor, spec).expect("wav writer should be created");
    for sample in samples {
        writer.write_sample(*sample).expect("sample should be written");
    }
    writer.finalize().expect("wav should finalize");

    cursor.into_inner()
}

#[test]
fn read_wav_reads_integer_samples() {
    let wav_bytes = build_wav_bytes(&[0, i16::MAX, i16::MIN + 1], 16_000);

    let decoded = read_wav(&wav_bytes).expect("wav should decode");

    assert_eq!(decoded.sample_rate, 16_000);
    assert_eq!(decoded.bits_per_sample, 16);
    assert_eq!(decoded.int_samples, Some(vec![0, 32767, -32767]));
    assert_eq!(int_full_scale(decoded.bits_per_sample), 32768);
}

#[test]
fn read_wav_reports_float_files_without_samples() {
    let spec = hound::WavSpec {
        channels: 1,
        sample_rate: 8_000,
        bits_per_sample: 32,
        sample_format: hound::SampleFormat::Float,
    };
    let mut cursor = Cursor::new(Vec::new());
    let mut writer = hound::WavWriter::new(&mut cursor, spec).expect("wav writer should be created");
    writer.write_sample(0.5f32).expect("sample should be written");
    writer.finalize().expect("wav should finalize");

    let decoded = read_wav(&cursor.into_inner()).expect("wav should decode");
    assert_eq!(decoded.sample_rate, 8_000);
    assert_eq!(decoded.bits_per_sample, 32);
    assert_eq!(decoded.int_samples, None);
}

#[test]
fn read_wav_refuses_non_wav_bytes() {
    assert!(matches!(read_wav(b"not a wave file"), Err(WavError::Decoding(_))));
    assert!(matches!(read_wav(&[]), Err(WavError::Decoding(_))));
}

#[test]
fn encoded_wav_reads_back_as_written() {
    let samples = [-32768, -1, 0, 1, 32767];
    let wav = encode_pcm16_wav(&samples, 44_100).expect("wav should be generated");
    let decoded = read_wav(&wav).expect("wav should decode");
    assert_eq!(decoded.sample_rate, 44_100);
    assert_eq!(decoded.bits_per_sample, 16);
    assert_eq!(decoded.int_samples, Some(vec![-32768, -1, 0, 1, 32767]));
}

#[test]
fn full_scale_doubles_per_bit() {
    assert_eq!(int_full_scale(0), 1);
    assert_eq!(int_full_scale(1), 1);
    assert_eq!(int_full_scale(8), 128);
    assert_eq!(int_full_scale(24), 8_388_608);
    assert_eq!(int_full_scale(31), 1_073_741_824);
}
