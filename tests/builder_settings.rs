use std::io;

use vorbis_rs::{EngineCall, VorbisBitrateManagementStrategy, VorbisEncoderBuilder, VorbisError};

#[test]
fn encoder_builder_renews_stream_serials() {
    let mut builder = VorbisEncoderBuilder::new(8000, 1, io::sink()).unwrap();

    let first_stream_serial = builder.current_stream_serial();

    // Disable serial randomization on renewal
    builder.stream_serial(first_stream_serial);

    builder.build().unwrap(); // Should not renew the serial
    builder.sink(io::sink());
    builder.build().unwrap(); // Should renew the serial

    let second_stream_serial = builder.current_stream_serial();

    assert_eq!(first_stream_serial.wrapping_add(1), second_stream_serial);
}

#[test]
fn serials_count_up_and_wrap() {
    let mut builder = VorbisEncoderBuilder::new_with_serial(8000, 1, Vec::<u8>::new(), i32::MAX);
    let enc = builder.build().unwrap();
    assert_eq!(enc.pending(), Some(EngineCall::StreamInit { serial: i32::MAX }));
    builder.sink(Vec::new());
    let enc = builder.build().unwrap();
    assert_eq!(enc.pending(), Some(EngineCall::StreamInit { serial: i32::MIN }));
    builder.sink(Vec::new());
    builder.build().unwrap();
    assert_eq!(builder.current_stream_serial(), i32::MIN + 1);
}

#[test]
fn random_serials_are_replaced_on_renewal() {
    let mut builder = VorbisEncoderBuilder::new(8000, 1, Vec::<u8>::new()).unwrap();
    let first = builder.current_stream_serial();
    builder.build().unwrap();
    assert_eq!(builder.current_stream_serial(), first);
    builder.renew_stream_serial_with(Some(first.wrapping_add(100)));
    assert_eq!(builder.current_stream_serial(), first.wrapping_add(100));
}

#[test]
fn second_build_without_sink_fails() {
    let mut builder = VorbisEncoderBuilder::new_with_serial(8000, 1, Vec::<u8>::new(), 4);
    builder.build().unwrap();
    assert!(matches!(builder.build(), Err(VorbisError::ConsumedEncoderBuilderSink)));
    assert_eq!(builder.current_stream_serial(), 4);
}

#[test]
fn out_of_range_bitrate_fails_the_build() {
    let mut builder = VorbisEncoderBuilder::new_with_serial(8000, 1, Vec::<u8>::new(), 4);
    builder.bitrate_management_strategy(VorbisBitrateManagementStrategy::Abr { average_bitrate: u32::MAX });
    assert!(matches!(builder.build(), Err(VorbisError::RangeExceeded)));
}

#[test]
fn nul_in_comment_is_refused() {
    let mut builder = VorbisEncoderBuilder::new_with_serial(8000, 1, Vec::<u8>::new(), 4);
    assert!(matches!(builder.comment_tag("TI\0TLE", "x"), Err(VorbisError::InvalidCommentString { nul_position: 2 })));
    assert!(matches!(builder.comment_tag("TITLE", "ab\0"), Err(VorbisError::InvalidCommentString { nul_position: 2 })));
    assert!(builder.comment_tag("TITLE", "song").is_ok());
    let tags = vec![
        ("A".to_string(), "1".to_string()),
        ("\0".to_string(), "2".to_string()),
        ("C".to_string(), "3".to_string()),
    ];
    assert!(matches!(builder.comment_tags(&tags), Err(VorbisError::InvalidCommentString { nul_position: 0 })));
    let mut enc = builder.build().unwrap();
    let mut calls = vec![];
    while let Some(call) = enc.pending() {
        calls.push(call);
        if call == EngineCall::AnalysisInit {
            break;
        }
        enc.resume(0).unwrap();
    }
    assert!(calls.contains(&EngineCall::CommentAddTag { index: 1 }));
    assert!(!calls.contains(&EngineCall::CommentAddTag { index: 2 }));
}
