use vorbis_rs::{VorbisDecoder, VorbisError, VorbisLibrary, VorbisLibraryErrorKind, read_callback_outcome};

#[test]
fn open_reports_engine_failures() {
    let r = VorbisDecoder::new(-128, 0, 0);
    assert!(matches!(
        r,
        Err(VorbisError::LibraryError(e)) if e.library() == VorbisLibrary::VorbisFile
            && e.function() == "ov_open_callbacks"
            && e.kind() == VorbisLibraryErrorKind::Io
    ));
    let r = VorbisDecoder::new(-132, 0, 0);
    assert!(matches!(
        r,
        Err(VorbisError::LibraryError(e)) if e.kind() == VorbisLibraryErrorKind::NotVorbis
    ));
}

#[test]
fn failing_source_reports_a_read_error_to_the_engine() {
    assert_eq!(read_callback_outcome(Err(None), 1), (0, Some(i32::MAX)));
    assert_eq!(read_callback_outcome(Err(Some(5)), 1), (0, Some(5)));
    assert_eq!(read_callback_outcome(Ok(10), 4), (2, None));
    assert_eq!(read_callback_outcome(Ok(0), 1), (0, None));
}

#[test]
fn open_keeps_the_parsed_parameters() {
    let d = VorbisDecoder::new(0, 2, 44100).unwrap();
    assert_eq!(d.channels(), 2);
    assert_eq!(d.sampling_frequency(), 44100);
    assert_eq!(d.read_request(), Some(2048));
    assert!(matches!(VorbisDecoder::new(0, 0, 44100), Err(VorbisError::RangeExceeded)));
    assert!(matches!(VorbisDecoder::new(0, 256, 44100), Err(VorbisError::RangeExceeded)));
    assert!(matches!(VorbisDecoder::new(0, 1, 0), Err(VorbisError::RangeExceeded)));
}

#[test]
fn first_stream_blocks_decode_until_the_end() {
    let mut d = VorbisDecoder::new(0, 1, 8000).unwrap();
    assert!(matches!(d.decode_audio_block(1024, 0), Ok(Some(1024))));
    let g = d.block_generation();
    assert!(d.is_current(g));
    assert!(matches!(d.decode_audio_block(512, 0), Ok(Some(512))));
    assert!(!d.is_current(g));
    assert!(matches!(d.decode_audio_block(0, 7), Ok(None)));
    assert_eq!(d.read_request(), None);
    assert!(matches!(d.decode_audio_block(0, 0), Ok(None)));
    assert!(matches!(d.decode_audio_block(100, 0), Ok(None)));
}

#[test]
fn chained_stream_is_rejected() {
    let mut d = VorbisDecoder::new(0, 2, 48000).unwrap();
    assert!(matches!(d.decode_audio_block(2048, 0), Ok(Some(2048))));
    assert!(matches!(d.decode_audio_block(300, 1), Err(VorbisError::UnsupportedStreamChaining)));
    assert_eq!(d.read_request(), Some(2048));
}

#[test]
fn decode_errors_are_mapped() {
    let mut d = VorbisDecoder::new(0, 2, 48000).unwrap();
    assert!(matches!(
        d.decode_audio_block(-3, 0),
        Err(VorbisError::LibraryError(e)) if e.function() == "ov_read_float" && e.kind() == VorbisLibraryErrorKind::Hole
    ));
    assert_eq!(d.read_request(), Some(2048));
}

#[test]
fn rejected_source_stays_with_the_caller() {
    assert!(vorbis_rs::caller_releases_source(-132));
    assert!(vorbis_rs::caller_releases_source(-128));
    assert!(!vorbis_rs::caller_releases_source(0));
}
