//! Descriptors shared with libsndfile: file information, open and seek modes,
//! string tags, format codes and error codes.
use vstd::prelude::*;

verus! {

/// libsndfile's "no error" code.
pub const SF_ERR_NO_ERROR: i32 = 0;

/// libsndfile's code for an unrecognised file format.
pub const SF_ERR_UNRECOGNISED_FORMAT: i32 = 1;

/// libsndfile's code for a system error.
pub const SF_ERR_SYSTEM: i32 = 2;

/// libsndfile's code for a malformed file.
pub const SF_ERR_MALFORMED_FILE: i32 = 3;

/// libsndfile's code for an unsupported encoding.
pub const SF_ERR_UNSUPPORTED_ENCODING: i32 = 4;

/// The information exchanged with the decoder when a file is opened.
#[derive(Clone, Copy, Debug, PartialEq, Eq, Structural, PartialOrd)]
pub struct SndInfo {
    /// The number of frames
    pub frames: i64,
    /// The sample rate
    pub samplerate: i32,
    /// The number of channels
    pub channels: i32,
    /// The format, a combination of `FormatType` codes
    pub format: i32,
    /// The sections
    pub sections: i32,
    /// Whether the file is seekable (non-zero)
    pub seekable: i32,
}

/// Modes in which a sound file can be opened.
#[derive(Clone, Copy, Debug, PartialEq, Eq, Structural, PartialOrd)]
pub enum OpenMode {
    /// Read only mode
    Read,
    /// Write only mode
    Write,
    /// Read and Write mode
    ReadWrite,
}

impl OpenMode {
    /// The libsndfile code of the mode.
    pub fn code(&self) -> (r: i32)
        ensures
            r == match *self {
                OpenMode::Read => 0x10i32,
                OpenMode::Write => 0x20,
                OpenMode::ReadWrite => 0x30,
            },
    {
        match *self {
            OpenMode::Read => 0x10,
            OpenMode::Write => 0x20,
            OpenMode::ReadWrite => 0x30,
        }
    }
}

/// String tags that a sound file may carry.
#[derive(Clone, Copy, Debug, PartialEq, Eq, Structural, PartialOrd)]
pub enum StringSoundType {
    /// The title of the audio content
    Title,
    /// The copyright of the audio content
    Copyright,
    /// The software used to create the audio content
    Software,
    /// The artist of the audio content
    Artist,
    /// A comment on the audio file
    Comment,
    /// The date of creation
    Date,
    /// The name of the album
    Album,
    /// The licence of the content
    License,
    /// The track number of the audio content in an album
    TrackNumber,
    /// The genre of the audio content
    Genre,
}

impl StringSoundType {
    /// The libsndfile code of the tag.
    pub fn code(&self) -> (r: i32)
        ensures
            r == match *self {
                StringSoundType::Title => 0x01i32,
                StringSoundType::Copyright => 0x02,
                StringSoundType::Software => 0x03,
                StringSoundType::Artist => 0x04,
                StringSoundType::Comment => 0x05,
                StringSoundType::Date => 0x06,
                StringSoundType::Album => 0x07,
                StringSoundType::License => 0x08,
                StringSoundType::TrackNumber => 0x09,
                StringSoundType::Genre => 0x10,
            },
    {
        match *self {
            StringSoundType::Title => 0x01,
            StringSoundType::Copyright => 0x02,
            StringSoundType::Software => 0x03,
            StringSoundType::Artist => 0x04,
            StringSoundType::Comment => 0x05,
            StringSoundType::Date => 0x06,
            StringSoundType::Album => 0x07,
            StringSoundType::License => 0x08,
            StringSoundType::TrackNumber => 0x09,
            StringSoundType::Genre => 0x10,
        }
    }
}

/// Errors reported by the decoder.
#[derive(Clone, Copy, Debug, PartialEq, Eq, Structural, PartialOrd)]
pub enum SndFileError {
    /// The file format is not recognized
    UnrecognisedFormat,
    /// There is an internal system error
    SystemError,
    /// The file is malformed
    MalformedFile,
    /// The encoding of the file is not supported
    UnsupportedEncoding,
    /// Any other error code
    InternalError(i32),
}

/// The error that a libsndfile code stands for, `None` for "no error".
pub open spec fn error_of_code(code: i32) -> Option<SndFileError> {
    if code == SF_ERR_NO_ERROR {
        None
    } else if code == SF_ERR_UNRECOGNISED_FORMAT {
        Some(SndFileError::UnrecognisedFormat)
    } else if code == SF_ERR_SYSTEM {
        Some(SndFileError::SystemError)
    } else if code == SF_ERR_MALFORMED_FILE {
        Some(SndFileError::MalformedFile)
    } else if code == SF_ERR_UNSUPPORTED_ENCODING {
        Some(SndFileError::UnsupportedEncoding)
    } else {
        Some(SndFileError::InternalError(code))
    }
}

/// A `Result` whose error is a `SndFileError`.
pub type SndFileResult<T> = Result<T, SndFileError>;

impl SndFileError {
    /// The libsndfile code of the error.
    pub fn code(&self) -> (r: i32)
        ensures
            r == match *self {
                SndFileError::UnrecognisedFormat => SF_ERR_UNRECOGNISED_FORMAT,
                SndFileError::SystemError => SF_ERR_SYSTEM,
                SndFileError::MalformedFile => SF_ERR_MALFORMED_FILE,
                SndFileError::UnsupportedEncoding => SF_ERR_UNSUPPORTED_ENCODING,
                SndFileError::InternalError(c) => c,
            },
    {
        match *self {
            SndFileError::UnrecognisedFormat => SF_ERR_UNRECOGNISED_FORMAT,
            SndFileError::SystemError => SF_ERR_SYSTEM,
            SndFileError::MalformedFile => SF_ERR_MALFORMED_FILE,
            SndFileError::UnsupportedEncoding => SF_ERR_UNSUPPORTED_ENCODING,
            SndFileError::InternalError(c) => c,
        }
    }

    /// Interprets a libsndfile code: `None` for "no error", else the error.
    pub fn from_code(code: i32) -> (r: Option<SndFileError>)
        ensures
            r == error_of_code(code),
    {
        if code == SF_ERR_NO_ERROR {
            None
        } else if code == SF_ERR_UNRECOGNISED_FORMAT {
            Some(SndFileError::UnrecognisedFormat)
        } else if code == SF_ERR_SYSTEM {
            Some(SndFileError::SystemError)
        } else if code == SF_ERR_MALFORMED_FILE {
            Some(SndFileError::MalformedFile)
        } else if code == SF_ERR_UNSUPPORTED_ENCODING {
            Some(SndFileError::UnsupportedEncoding)
        } else {
            Some(SndFileError::InternalError(code))
        }
    }

    /// `Ok(ok)` when `code` means "no error", else the error it stands for.
    pub fn code_to_result<T>(code: i32, ok: T) -> (r: SndFileResult<T>)
        ensures
            error_of_code(code) is None ==> r == Ok::<T, SndFileError>(ok),
            error_of_code(code) matches Some(e) ==> r == Err::<T, SndFileError>(e),
    {
        match SndFileError::from_code(code) {
            Some(err) => Err(err),
            None => Ok(ok),
        }
    }
}

/// Seek origins, in frames.
#[derive(Clone, Copy, Debug, PartialEq, Eq, Structural, PartialOrd)]
pub enum SeekMode {
    /// From the start of the audio data.
    SeekSet,
    /// From the current position.
    SeekCur,
    /// From the end of the audio data.
    SeekEnd,
}

impl SeekMode {
    /// The `whence` code of the mode.
    pub fn code(&self) -> (r: i32)
        ensures
            r == match *self {
                SeekMode::SeekSet => 0i32,
                SeekMode::SeekCur => 1,
                SeekMode::SeekEnd => 2,
            },
    {
        match *self {
            SeekMode::SeekSet => 0,
            SeekMode::SeekCur => 1,
            SeekMode::SeekEnd => 2,
        }
    }

    /// The frame a seek lands on, from the current frame and the length in
    /// frames, or `None` when it falls outside `0..=frames`.
    pub fn target(&self, offset: i64, current: usize, frames: usize) -> (r: Option<usize>)
        requires
            current <= frames,
        ensures
            ({
                let t = self.base(current as int, frames as int) + offset;
                &&& (0 <= t <= frames) ==> r == Some(t as usize)
                &&& !(0 <= t <= frames) ==> r is None
            }),
    {
        let base: i128 = match *self {
            SeekMode::SeekSet => 0,
            SeekMode::SeekCur => current as i128,
            SeekMode::SeekEnd => frames as i128,
        };
        let t: i128 = base + offset as i128;
        if t < 0 || t > frames as i128 {
            None
        } else {
            Some(t as usize)
        }
    }

    /// The frame the mode counts from.
    pub open spec fn base(self, current: int, frames: int) -> int {
        match self {
            SeekMode::SeekSet => 0,
            SeekMode::SeekCur => current,
            SeekMode::SeekEnd => frames,
        }
    }
}


/// Container formats, sample encodings and endianness flags of sound files.
#[derive(Clone, Copy, Debug, PartialEq, Eq, Structural, PartialOrd)]
pub enum FormatType {
    /// Microsoft WAV format (little endian)
    FormatWav,
    /// Apple/SGI AIFF format (big endian)
    FormatAiff,
    /// Sun/NeXT AU format (big endian)
    FormatAu,
    /// RAW PCM data
    FormatRaw,
    /// Ensoniq PARIS file format
    FormatPaf,
    /// Amiga IFF / SVX8 / SV16 format
    FormatSvx,
    /// Sphere NIST format
    FormatNist,
    /// VOC files
    FormatVoc,
    /// Berkeley/IRCAM/CARL
    FormatIrcam,
    /// Sonic Foundry's 64 bit RIFF/WAV
    FormatW64,
    /// Matlab (tm) V4.2 / GNU Octave 2.0
    FormatMat4,
    /// Matlab (tm) V5.0 / GNU Octave 2.1
    FormatMat5,
    /// Portable Voice Format
    FormatPvf,
    /// Fasttracker 2 Extended Instrument
    FormatXi,
    /// HMM Tool Kit format
    FormatHtk,
    /// Midi Sample Dump Standard
    FormatSds,
    /// Audio Visual Research
    FormatAvr,
    /// MS WAVE with WAVEFORMATEX
    FormatWavex,
    /// Sound Designer 2
    FormatSd2,
    /// FLAC lossless file format
    FormatFlac,
    /// Core Audio File format
    FormatCaf,
    /// Psion WVE format
    FormatWve,
    /// Xiph OGG container
    FormatOgg,
    /// Akai MPC 2000 sampler
    FormatMpc2k,
    /// RF64 WAV file
    FormatRf64,
    /// Signed 8 bit data
    FormatPcmS8,
    /// Signed 16 bit data
    FormatPcm16,
    /// Signed 24 bit data
    FormatPcm24,
    /// Signed 32 bit data
    FormatPcm32,
    /// Unsigned 8 bit data (WAV and RAW only)
    FormatPcmU8,
    /// 32 bit float data
    FormatFloat,
    /// 64 bit float data
    FormatDouble,
    /// U-Law encoded
    FormatUlaw,
    /// A-Law encoded
    FormatAlaw,
    /// IMA ADPCM
    FormatImaAdpcm,
    /// Microsoft ADPCM
    FormatApcm,
    /// GSM 6.10 encoding
    FormatGsm610,
    /// Oki Dialogic ADPCM encoding
    FormatVoxAdpcm,
    /// 32kbs G721 ADPCM encoding
    FormatG72132,
    /// 24kbs G723 ADPCM encoding
    FormatG72324,
    /// 40kbs G723 ADPCM encoding
    FormatG72340,
    /// 12 bit Delta Width Variable Word encoding
    FormatDww12,
    /// 16 bit Delta Width Variable Word encoding
    FormatDww16,
    /// 24 bit Delta Width Variable Word encoding
    FormatDww24,
    /// N bit Delta Width Variable Word encoding
    FormatDwwN,
    /// 8 bit differential PCM (XI only)
    FormatDpcm8,
    /// 16 bit differential PCM (XI only)
    FormatDpcm16,
    /// Xiph Vorbis encoding
    FormatVorbis,
    /// Default file endian-ness
    EndianFile,
    /// Force little endian-ness
    EndianLittle,
    /// Force big endian-ness
    EndianBig,
    /// Force CPU endian-ness
    EndianCpu,
    /// Sub mask
    FormatSubMask,
    /// Type mask
    FormatTypeMask,
}

impl FormatType {
    /// The libsndfile code of the format or flag.
    pub fn code(&self) -> (r: i32)
        ensures
            r == match *self {
                FormatType::FormatWav => 0x010000i32,
                FormatType::FormatAiff => 0x020000,
                FormatType::FormatAu => 0x030000,
                FormatType::FormatRaw => 0x040000,
                FormatType::FormatPaf => 0x050000,
                FormatType::FormatSvx => 0x060000,
                FormatType::FormatNist => 0x070000,
                FormatType::FormatVoc => 0x080000,
                FormatType::FormatIrcam => 0x0A0000,
                FormatType::FormatW64 => 0x0B0000,
                FormatType::FormatMat4 => 0x0C0000,
                FormatType::FormatMat5 => 0x0D0000,
                FormatType::FormatPvf => 0x0E0000,
                FormatType::FormatXi => 0x0F0000,
                FormatType::FormatHtk => 0x100000,
                FormatType::FormatSds => 0x110000,
                FormatType::FormatAvr => 0x120000,
                FormatType::FormatWavex => 0x130000,
                FormatType::FormatSd2 => 0x160000,
                FormatType::FormatFlac => 0x170000,
                FormatType::FormatCaf => 0x180000,
                FormatType::FormatWve => 0x190000,
                FormatType::FormatOgg => 0x200000,
                FormatType::FormatMpc2k => 0x210000,
                FormatType::FormatRf64 => 0x220000,
                FormatType::FormatPcmS8 => 0x0001,
                FormatType::FormatPcm16 => 0x0002,
                FormatType::FormatPcm24 => 0x0003,
                FormatType::FormatPcm32 => 0x0004,
                FormatType::FormatPcmU8 => 0x0005,
                FormatType::FormatFloat => 0x0006,
                FormatType::FormatDouble => 0x0007,
                FormatType::FormatUlaw => 0x0010,
                FormatType::FormatAlaw => 0x0011,
                FormatType::FormatImaAdpcm => 0x0012,
                FormatType::FormatApcm => 0x0013,
                FormatType::FormatGsm610 => 0x0020,
                FormatType::FormatVoxAdpcm => 0x0021,
                FormatType::FormatG72132 => 0x0030,
                FormatType::FormatG72324 => 0x0031,
                FormatType::FormatG72340 => 0x0032,
                FormatType::FormatDww12 => 0x0040,
                FormatType::FormatDww16 => 0x0041,
                FormatType::FormatDww24 => 0x0042,
                FormatType::FormatDwwN => 0x0043,
                FormatType::FormatDpcm8 => 0x0050,
                FormatType::FormatDpcm16 => 0x0051,
                FormatType::FormatVorbis => 0x0060,
                FormatType::EndianFile => 0x00000000,
                FormatType::EndianLittle => 0x10000000,
                FormatType::EndianBig => 0x20000000,
                FormatType::EndianCpu => 0x30000000,
                FormatType::FormatSubMask => 0x0000FFFF,
                FormatType::FormatTypeMask => 0x0FFF0000,
            },
    {
        match *self {
            FormatType::FormatWav => 0x010000,
            FormatType::FormatAiff => 0x020000,
            FormatType::FormatAu => 0x030000,
            FormatType::FormatRaw => 0x040000,
            FormatType::FormatPaf => 0x050000,
            FormatType::FormatSvx => 0x060000,
            FormatType::FormatNist => 0x070000,
            FormatType::FormatVoc => 0x080000,
            FormatType::FormatIrcam => 0x0A0000,
            FormatType::FormatW64 => 0x0B0000,
            FormatType::FormatMat4 => 0x0C0000,
            FormatType::FormatMat5 => 0x0D0000,
            FormatType::FormatPvf => 0x0E0000,
            FormatType::FormatXi => 0x0F0000,
            FormatType::FormatHtk => 0x100000,
            FormatType::FormatSds => 0x110000,
            FormatType::FormatAvr => 0x120000,
            FormatType::FormatWavex => 0x130000,
            FormatType::FormatSd2 => 0x160000,
            FormatType::FormatFlac => 0x170000,
            FormatType::FormatCaf => 0x180000,
            FormatType::FormatWve => 0x190000,
            FormatType::FormatOgg => 0x200000,
            FormatType::FormatMpc2k => 0x210000,
            FormatType::FormatRf64 => 0x220000,
            FormatType::FormatPcmS8 => 0x0001,
            FormatType::FormatPcm16 => 0x0002,
            FormatType::FormatPcm24 => 0x0003,
            FormatType::FormatPcm32 => 0x0004,
            FormatType::FormatPcmU8 => 0x0005,
            FormatType::FormatFloat => 0x0006,
            FormatType::FormatDouble => 0x0007,
            FormatType::FormatUlaw => 0x0010,
            FormatType::FormatAlaw => 0x0011,
            FormatType::FormatImaAdpcm => 0x0012,
            FormatType::FormatApcm => 0x0013,
            FormatType::FormatGsm610 => 0x0020,
            FormatType::FormatVoxAdpcm => 0x0021,
            FormatType::FormatG72132 => 0x0030,
            FormatType::FormatG72324 => 0x0031,
            FormatType::FormatG72340 => 0x0032,
            FormatType::FormatDww12 => 0x0040,
            FormatType::FormatDww16 => 0x0041,
            FormatType::FormatDww24 => 0x0042,
            FormatType::FormatDwwN => 0x0043,
            FormatType::FormatDpcm8 => 0x0050,
            FormatType::FormatDpcm16 => 0x0051,
            FormatType::FormatVorbis => 0x0060,
            FormatType::EndianFile => 0x00000000,
            FormatType::EndianLittle => 0x10000000,
            FormatType::EndianBig => 0x20000000,
            FormatType::EndianCpu => 0x30000000,
            FormatType::FormatSubMask => 0x0000FFFF,
            FormatType::FormatTypeMask => 0x0FFF0000,
        }
    }
}

} // verus!
