use surf::{encode_header, get_info, AudioFormat, WavError, WavInfo};

#[test]
fn get_info_invalid_riff() {
    let result = get_info(b"RAFF");

    assert_eq!(Err(WavError::InvalidRIFFHeader), result);
}

#[test]
fn get_info_invalid_size() {
    let result = get_info(b"RIFF\0\0\0\0blablabla");

    assert_eq!(Err(WavError::InvalidFileSize), result);
}

#[test]
fn get_info_invalid_file_format_id() {
    let result = get_info(b"RIFF\x04\0\0\0WOVE");

    assert_eq!(Err(WavError::InvalidFileFormatId), result);
}

#[test]
fn get_info_invalid_file_format_bloc_id() {
    let result = get_info(b"RIFF\x08\0\0\0WAVE....");

    assert_eq!(Err(WavError::InvalidFormatBlocId), result);
}

#[test]
fn get_info_invalid_audio_format() {
    let result = get_info(b"RIFF\x0e\0\0\0WAVE\x66\x6D\x74\x20\0\0\0\0\x04\x04");

    assert_eq!(Err(WavError::InvalidAudioFormat), result);
}

#[test]
fn get_info_invalid_data_bloc() {
    let mut data = encode_header(AudioFormat::PCM, 2, 44100, 16);
    data[36] = b'o';

    assert_eq!(Err(WavError::InvalidDataBloc), get_info(&data));
}

#[test]
fn get_info_truncated_before_data_bloc() {
    // Declared size 14 matches the 22-byte length and the format code is
    // valid, but the buffer ends before the "data" marker could sit.
    let result = get_info(b"RIFF\x0e\0\0\0WAVEfmt \0\0\0\0\x01\0");

    assert_eq!(Err(WavError::InvalidDataBloc), result);
}

#[test]
fn get_info_empty_buffer() {
    let result = get_info(b"");

    assert_eq!(Err(WavError::InvalidRIFFHeader), result);
}

#[test]
fn get_info_first_failure_wins() {
    // Both the RIFF tag and the declared size are wrong; the RIFF check
    // comes first, so its error is the one reported.
    let result = get_info(b"XIFF\x63\0\0\0WAVE");

    assert_eq!(Err(WavError::InvalidRIFFHeader), result);
}

#[test]
fn get_info_decodes_little_endian_fields() {
    let data: Vec<u8> = vec![
        b'R', b'I', b'F', b'F', //
        36, 0, 0, 0, //
        b'W', b'A', b'V', b'E', //
        b'f', b'm', b't', b' ', //
        16, 0, 0, 0, //
        0x01, 0x00, // format code 1: PCM
        0x02, 0x01, // channels 0x0102 = 258
        0x44, 0xac, // frequency 0xac44 = 44100
        0, 0, //
        0, 0, 0, 0, //
        0, 0, //
        0x10, 0x00, // bits per sample 16
        b'd', b'a', b't', b'a', //
        0, 0, 0, 0, //
    ];

    let expected = WavInfo {
        format: AudioFormat::PCM,
        channels: 258,
        frequency: 44100,
        bits_per_sample: 16,
    };
    assert_eq!(Ok(expected), get_info(&data));
}

#[test]
fn round_trip_pcm() {
    let data = encode_header(AudioFormat::PCM, 2, 44100, 16);

    let expected = WavInfo {
        format: AudioFormat::PCM,
        channels: 2,
        frequency: 44100,
        bits_per_sample: 16,
    };
    assert_eq!(Ok(expected), get_info(&data));
}

#[test]
fn round_trip_pcm_float() {
    let data = encode_header(AudioFormat::PCMFloat, 1, 48000, 32);

    let expected = WavInfo {
        format: AudioFormat::PCMFloat,
        channels: 1,
        frequency: 48000,
        bits_per_sample: 32,
    };
    assert_eq!(Ok(expected), get_info(&data));
}

#[test]
fn round_trip_extensible_extreme_fields() {
    let data = encode_header(AudioFormat::WaveFormatExtensible, 65535, 65535, 65535);

    let expected = WavInfo {
        format: AudioFormat::WaveFormatExtensible,
        channels: 65535,
        frequency: 65535,
        bits_per_sample: 65535,
    };
    assert_eq!(Ok(expected), get_info(&data));
}

#[test]
fn encode_header_layout() {
    let data = encode_header(AudioFormat::WaveFormatExtensible, 258, 44100, 24);

    assert_eq!(44, data.len());
    assert_eq!(b"RIFF", &data[0..4]);
    assert_eq!(36, data[4]);
    assert_eq!(b"WAVE", &data[8..12]);
    assert_eq!(b"fmt ", &data[12..16]);
    assert_eq!([0xfe, 0xff], data[20..22]);
    assert_eq!([0x02, 0x01], data[22..24]);
    assert_eq!([0x44, 0xac], data[24..26]);
    assert_eq!([24, 0], data[34..36]);
    assert_eq!(b"data", &data[36..40]);
}

#[test]
fn audio_format_labels() {
    assert_eq!("PCM", AudioFormat::PCM.label());
    assert_eq!("PCM float", AudioFormat::PCMFloat.label());
    assert_eq!("WAVE_FORMAT_EXTENSIBLE", AudioFormat::WaveFormatExtensible.label());
}

#[test]
fn wav_error_messages() {
    assert_eq!("Invalid RIFF header", WavError::InvalidRIFFHeader.message());
    assert_eq!("Invalid file size", WavError::InvalidFileSize.message());
    assert_eq!("Invalid file format ID", WavError::InvalidFileFormatId.message());
    assert_eq!("Invalid file format bloc ID", WavError::InvalidFormatBlocId.message());
    assert_eq!("Invalid audio format", WavError::InvalidAudioFormat.message());
    assert_eq!("Invalid data bloc", WavError::InvalidDataBloc.message());
}
