use baal::sndfile::{FormatType, OpenMode, SeekMode, SndFileError, SndInfo, StringSoundType};

#[test]
fn error_codes_map_both_ways() {
    assert_eq!(SndFileError::from_code(0), None);
    assert_eq!(SndFileError::from_code(1), Some(SndFileError::UnrecognisedFormat));
    assert_eq!(SndFileError::from_code(2), Some(SndFileError::SystemError));
    assert_eq!(SndFileError::from_code(3), Some(SndFileError::MalformedFile));
    assert_eq!(SndFileError::from_code(4), Some(SndFileError::UnsupportedEncoding));
    assert_eq!(SndFileError::from_code(17), Some(SndFileError::InternalError(17)));
    assert_eq!(SndFileError::MalformedFile.code(), 3);
    assert_eq!(SndFileError::code_to_result(0, 5u8), Ok(5));
    assert_eq!(SndFileError::code_to_result(2, 5u8), Err(SndFileError::SystemError));
}

#[test]
fn mode_and_format_codes() {
    assert_eq!(OpenMode::Read.code(), 0x10);
    assert_eq!(OpenMode::ReadWrite.code(), 0x30);
    assert_eq!(StringSoundType::Genre.code(), 0x10);
    assert_eq!(FormatType::FormatWav.code() | FormatType::FormatPcm16.code(), 0x010002);
    assert_eq!(FormatType::FormatOgg.code() | FormatType::FormatVorbis.code(), 0x200060);
    assert_eq!(SeekMode::SeekEnd.code(), 2);
    let info = SndInfo { frames: 10, samplerate: 44_100, channels: 2, format: 0x010002, sections: 1, seekable: 1 };
    assert_eq!(info, info.clone());
}

#[test]
fn seek_targets() {
    assert_eq!(SeekMode::SeekSet.target(3, 5, 10), Some(3));
    assert_eq!(SeekMode::SeekCur.target(-2, 5, 10), Some(3));
    assert_eq!(SeekMode::SeekEnd.target(-10, 5, 10), Some(0));
    assert_eq!(SeekMode::SeekEnd.target(1, 5, 10), None);
    assert_eq!(SeekMode::SeekCur.target(-6, 5, 10), None);
}
