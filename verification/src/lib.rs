//! Decoding and validation of RIFF/WAVE file headers.
//!
//! The entry point is [`get_info`]: given the raw bytes of a candidate WAV
//! file it either returns the structural metadata of the header as a
//! [`WavInfo`] or reports the first violated layout invariant as a
//! [`WavError`]. The checks run in a fixed order over fixed byte offsets,
//! and the first failure wins.

use vstd::prelude::*;

verus! {

/// The recognised audio encodings of the format chunk.
///
/// Any other numeric code in the header is rejected as
/// [`WavError::InvalidAudioFormat`].
#[derive(Debug, Clone, Copy, PartialEq, Eq, Structural)]
pub enum AudioFormat {
    /// Code 1: integer pulse-code modulation.
    PCM,
    /// Code 3: floating-point pulse-code modulation.
    PCMFloat,
    /// Code 65534: extensible format with a sub-format descriptor.
    WaveFormatExtensible,
}

/// The structural defects a header can be rejected for, one per check.
#[derive(Debug, Clone, Copy, PartialEq, Eq, Structural)]
pub enum WavError {
    /// The buffer does not begin with the four bytes `"RIFF"`.
    InvalidRIFFHeader,
    /// The four bytes at offset 8 are not `"WAVE"`.
    InvalidFileFormatId,
    /// The four bytes at offset 36 are not `"data"`.
    InvalidDataBloc,
    /// The four bytes at offset 12 are not `"fmt "`.
    InvalidFormatBlocId,
    /// The declared chunk size plus 8 is not the buffer's length.
    InvalidFileSize,
    /// The format code at offset 20 is none of the recognised encodings.
    InvalidAudioFormat,
}

/// The metadata of a successfully validated header.
#[derive(Debug, Clone, Copy, PartialEq, Eq, Structural)]
pub struct WavInfo {
    pub format: AudioFormat,
    pub channels: u16,
    pub frequency: u16,
    pub bits_per_sample: u16,
}

impl AudioFormat {
    /// The presentation name of the encoding.
    pub open spec fn label_spec(self) -> Seq<char> {
        match self {
            AudioFormat::PCM => "PCM"@,
            AudioFormat::PCMFloat => "PCM float"@,
            AudioFormat::WaveFormatExtensible => "WAVE_FORMAT_EXTENSIBLE"@,
        }
    }

    /// Returns the presentation name of the encoding.
    pub fn label(&self) -> (r: &'static str)
        ensures
            r@ == self.label_spec(),
    {
        match self {
            AudioFormat::PCM => "PCM",
            AudioFormat::PCMFloat => "PCM float",
            AudioFormat::WaveFormatExtensible => "WAVE_FORMAT_EXTENSIBLE",
        }
    }
}

impl WavError {
    /// The one-sentence description of the defect.
    pub open spec fn message_spec(self) -> Seq<char> {
        match self {
            WavError::InvalidRIFFHeader => "Invalid RIFF header"@,
            WavError::InvalidFileSize => "Invalid file size"@,
            WavError::InvalidFileFormatId => "Invalid file format ID"@,
            WavError::InvalidFormatBlocId => "Invalid file format bloc ID"@,
            WavError::InvalidAudioFormat => "Invalid audio format"@,
            WavError::InvalidDataBloc => "Invalid data bloc"@,
        }
    }

    /// Returns the one-sentence description of the defect.
    pub fn message(&self) -> (r: &'static str)
        ensures
            r@ == self.message_spec(),
    {
        match self {
            WavError::InvalidRIFFHeader => "Invalid RIFF header",
            WavError::InvalidFileSize => "Invalid file size",
            WavError::InvalidFileFormatId => "Invalid file format ID",
            WavError::InvalidFormatBlocId => "Invalid file format bloc ID",
            WavError::InvalidAudioFormat => "Invalid audio format",
            WavError::InvalidDataBloc => "Invalid data bloc",
        }
    }
}

/// The value of the little-endian 16-bit integer at offset `i` of `b`.
pub open spec fn le16(b: Seq<u8>, i: int) -> int {
    b[i] + 256 * b[i + 1]
}

/// The value of the little-endian 32-bit integer at offset `i` of `b`.
pub open spec fn le32(b: Seq<u8>, i: int) -> int {
    b[i] + 256 * b[i + 1] + 65536 * b[i + 2] + 16777216 * b[i + 3]
}

/// The buffer begins with the four ASCII bytes `"RIFF"`.
///
/// A buffer shorter than four bytes does not begin with them.
pub open spec fn has_riff_tag(b: Seq<u8>) -> bool {
    b.len() >= 4 && b[0] == 0x52 && b[1] == 0x49 && b[2] == 0x46 && b[3] == 0x46
}

/// The 32-bit size declared at offset 4 plus the 8 bytes of the RIFF
/// prelude equals the buffer's actual length.
///
/// A buffer too short to hold the size field cannot satisfy this: its
/// length is below 8, and the declared size plus 8 is at least 8.
pub open spec fn size_matches(b: Seq<u8>) -> bool {
    b.len() >= 8 && le32(b, 4) + 8 == b.len()
}

/// The four bytes at offset 8 are the ASCII bytes `"WAVE"`.
pub open spec fn has_wave_tag(b: Seq<u8>) -> bool {
    b.len() >= 12 && b[8] == 0x57 && b[9] == 0x41 && b[10] == 0x56 && b[11] == 0x45
}

/// The four bytes at offset 12 are the ASCII bytes `"fmt "`.
pub open spec fn has_fmt_tag(b: Seq<u8>) -> bool {
    b.len() >= 16 && b[12] == 0x66 && b[13] == 0x6d && b[14] == 0x74 && b[15] == 0x20
}

/// `code` is one of the three recognised audio format codes.
pub open spec fn known_format_code(code: int) -> bool {
    code == 1 || code == 3 || code == 65534
}

/// The buffer holds a recognised audio format code at offset 20.
pub open spec fn has_known_format(b: Seq<u8>) -> bool {
    b.len() >= 22 && known_format_code(le16(b, 20))
}

/// The four bytes at offset 36 are the ASCII bytes `"data"`.
///
/// A buffer shorter than 40 bytes has no `"data"` marker at that offset.
pub open spec fn has_data_tag(b: Seq<u8>) -> bool {
    b.len() >= 40 && b[36] == 0x64 && b[37] == 0x61 && b[38] == 0x74 && b[39] == 0x61
}

/// The variant that a recognised format code denotes.
pub open spec fn format_of_code(code: int) -> AudioFormat {
    if code == 1 {
        AudioFormat::PCM
    } else if code == 3 {
        AudioFormat::PCMFloat
    } else {
        AudioFormat::WaveFormatExtensible
    }
}

/// The metadata fields read out of a buffer that passed every check.
///
/// `frequency` is read as a 16-bit value at offset 24 even though the
/// canonical layout stores the sample rate there as 32 bits; this
/// library deliberately reads only the low half of that field, so
/// sample rates above 65535 Hz do not round-trip.
pub open spec fn header_info(b: Seq<u8>) -> WavInfo {
    WavInfo {
        format: format_of_code(le16(b, 20)),
        channels: le16(b, 22) as u16,
        frequency: le16(b, 24) as u16,
        bits_per_sample: le16(b, 34) as u16,
    }
}

/// What decoding a buffer yields: the six checks in their fixed order,
/// first failure wins, and the metadata fields when all of them pass.
pub open spec fn parse_header(b: Seq<u8>) -> Result<WavInfo, WavError> {
    if !has_riff_tag(b) {
        Err(WavError::InvalidRIFFHeader)
    } else if !size_matches(b) {
        Err(WavError::InvalidFileSize)
    } else if !has_wave_tag(b) {
        Err(WavError::InvalidFileFormatId)
    } else if !has_fmt_tag(b) {
        Err(WavError::InvalidFormatBlocId)
    } else if !has_known_format(b) {
        Err(WavError::InvalidAudioFormat)
    } else if !has_data_tag(b) {
        Err(WavError::InvalidDataBloc)
    } else {
        Ok(header_info(b))
    }
}

/// Reads the little-endian 16-bit integer at offset `i`.
fn read_u16_le(data: &[u8], i: usize) -> (r: u16)
    requires
        i + 2 <= data.len(),
    ensures
        r == le16(data@, i as int),
{
    (data[i] as u16) + (data[i + 1] as u16) * 256
}

/// Reads the little-endian 32-bit integer at offset `i`.
fn read_u32_le(data: &[u8], i: usize) -> (r: u32)
    requires
        i + 4 <= data.len(),
    ensures
        r == le32(data@, i as int),
{
    (data[i] as u32)
        + (data[i + 1] as u32) * 256
        + (data[i + 2] as u32) * 65536
        + (data[i + 3] as u32) * 16777216
}

/// Validates the header at the start of `data` and decodes its metadata.
///
/// The six structural checks run in a fixed order and the first failure
/// is returned; a buffer too short for a check to read its bytes fails
/// that check. On success every check held and the returned fields are
/// exactly the ones stored in the header.
pub fn get_info(data: &[u8]) -> (r: Result<WavInfo, WavError>)
    ensures
        r == parse_header(data@),
{
    if data.len() < 4 || data[0] != 0x52 || data[1] != 0x49 || data[2] != 0x46 || data[3] != 0x46 {
        return Err(WavError::InvalidRIFFHeader);
    }

    if data.len() < 8 {
        return Err(WavError::InvalidFileSize);
    }
    let declared_size = read_u32_le(data, 4);
    if declared_size as u64 + 8 != data.len() as u64 {
        return Err(WavError::InvalidFileSize);
    }

    if data.len() < 12 || data[8] != 0x57 || data[9] != 0x41 || data[10] != 0x56 || data[11] != 0x45 {
        return Err(WavError::InvalidFileFormatId);
    }

    if data.len() < 16 || data[12] != 0x66 || data[13] != 0x6d || data[14] != 0x74 || data[15] != 0x20 {
        return Err(WavError::InvalidFormatBlocId);
    }

    if data.len() < 22 {
        return Err(WavError::InvalidAudioFormat);
    }
    let format = match read_u16_le(data, 20) {
        1 => AudioFormat::PCM,
        3 => AudioFormat::PCMFloat,
        65534 => AudioFormat::WaveFormatExtensible,
        _ => {
            return Err(WavError::InvalidAudioFormat);
        },
    };

    if data.len() < 40 || data[36] != 0x64 || data[37] != 0x61 || data[38] != 0x74 || data[39] != 0x61 {
        return Err(WavError::InvalidDataBloc);
    }

    let channels = read_u16_le(data, 22);
    let frequency = read_u16_le(data, 24);
    let bits_per_sample = read_u16_le(data, 34);

    Ok(WavInfo { format, channels, frequency, bits_per_sample })
}

/// The numeric code that a recognised encoding is stored as.
pub open spec fn code_of_format(format: AudioFormat) -> int {
    match format {
        AudioFormat::PCM => 1,
        AudioFormat::PCMFloat => 3,
        AudioFormat::WaveFormatExtensible => 65534,
    }
}

/// Builds the minimal 44-byte header that carries the given metadata
/// and an empty data chunk.
///
/// Decoding the result recovers exactly the encoded fields: every
/// structural check passes on the built buffer, so [`get_info`] returns
/// `Ok` with the same `format`, `channels`, `frequency` and
/// `bits_per_sample`.
pub fn encode_header(
    format: AudioFormat,
    channels: u16,
    frequency: u16,
    bits_per_sample: u16,
) -> (r: Vec<u8>)
    ensures
        r@.len() == 44,
        le16(r@, 20) == code_of_format(format),
        parse_header(r@) == Ok::<WavInfo, WavError>(
            WavInfo { format, channels, frequency, bits_per_sample },
        ),
{
    let code: u16 = match format {
        AudioFormat::PCM => 1,
        AudioFormat::PCMFloat => 3,
        AudioFormat::WaveFormatExtensible => 65534,
    };
    let r: Vec<u8> = vec![
        0x52, 0x49, 0x46, 0x46,
        36, 0, 0, 0,
        0x57, 0x41, 0x56, 0x45,
        0x66, 0x6d, 0x74, 0x20,
        16, 0, 0, 0,
        (code % 256) as u8, (code / 256) as u8,
        (channels % 256) as u8, (channels / 256) as u8,
        (frequency % 256) as u8, (frequency / 256) as u8,
        0, 0,
        0, 0, 0, 0,
        0, 0,
        (bits_per_sample % 256) as u8, (bits_per_sample / 256) as u8,
        0x64, 0x61, 0x74, 0x61,
        0, 0, 0, 0,
    ];
    proof {
        assert(le16(r@, 20) == code);
        assert(le16(r@, 22) == channels);
        assert(le16(r@, 24) == frequency);
        assert(le16(r@, 34) == bits_per_sample);
        assert(size_matches(r@));
    }
    r
}

/// Every buffer that does not begin with the four bytes `"RIFF"` is
/// rejected as `InvalidRIFFHeader`.
pub proof fn lemma_invalid_riff_header(b: Seq<u8>)
    requires
        !has_riff_tag(b),
    ensures
        parse_header(b) == Err::<WavInfo, WavError>(WavError::InvalidRIFFHeader),
{
}

/// Every buffer with the `"RIFF"` tag whose declared size plus 8 is not
/// its length is rejected as `InvalidFileSize`.
pub proof fn lemma_invalid_file_size(b: Seq<u8>)
    requires
        has_riff_tag(b),
        b.len() >= 8,
        le32(b, 4) + 8 != b.len(),
    ensures
        parse_header(b) == Err::<WavInfo, WavError>(WavError::InvalidFileSize),
{
}

/// Every buffer with the `"RIFF"` tag and a matching size whose bytes at
/// offset 8 are not `"WAVE"` is rejected as `InvalidFileFormatId`.
pub proof fn lemma_invalid_file_format_id(b: Seq<u8>)
    requires
        has_riff_tag(b),
        size_matches(b),
        !has_wave_tag(b),
    ensures
        parse_header(b) == Err::<WavInfo, WavError>(WavError::InvalidFileFormatId),
{
}

/// Every buffer valid through the `"WAVE"` check whose bytes at offset
/// 12 are not `"fmt "` is rejected as `InvalidFormatBlocId`.
pub proof fn lemma_invalid_format_bloc_id(b: Seq<u8>)
    requires
        has_riff_tag(b),
        size_matches(b),
        has_wave_tag(b),
        !has_fmt_tag(b),
    ensures
        parse_header(b) == Err::<WavInfo, WavError>(WavError::InvalidFormatBlocId),
{
}

/// Every buffer valid through the `"fmt "` check whose format code at
/// offset 20 is not a recognised encoding is rejected as
/// `InvalidAudioFormat`.
pub proof fn lemma_invalid_audio_format(b: Seq<u8>)
    requires
        has_riff_tag(b),
        size_matches(b),
        has_wave_tag(b),
        has_fmt_tag(b),
        b.len() >= 22,
        !known_format_code(le16(b, 20)),
    ensures
        parse_header(b) == Err::<WavInfo, WavError>(WavError::InvalidAudioFormat),
{
}

/// Every buffer valid through the audio-format check whose bytes at
/// offset 36 are not `"data"` is rejected as `InvalidDataBloc`.
pub proof fn lemma_invalid_data_bloc(b: Seq<u8>)
    requires
        has_riff_tag(b),
        size_matches(b),
        has_wave_tag(b),
        has_fmt_tag(b),
        has_known_format(b),
        !has_data_tag(b),
    ensures
        parse_header(b) == Err::<WavInfo, WavError>(WavError::InvalidDataBloc),
{
}

/// Metadata is only ever produced from a buffer on which all six
/// structural checks hold, and then it is exactly the stored fields:
/// decoding succeeds if and only if every check passes.
pub proof fn lemma_ok_characterisation(b: Seq<u8>)
    ensures
        parse_header(b) is Ok <==> {
            &&& has_riff_tag(b)
            &&& size_matches(b)
            &&& has_wave_tag(b)
            &&& has_fmt_tag(b)
            &&& has_known_format(b)
            &&& has_data_tag(b)
        },
        parse_header(b) is Ok ==> parse_header(b) == Ok::<WavInfo, WavError>(header_info(b)),
{
}

} // verus!
