use vorbis_rs::{
    EncoderPhase, EngineCall, UnitSource, VorbisBitrateManagementStrategy, VorbisEncoder, VorbisEncoderBuilder,
    VorbisError, VorbisLibrary, VorbisLibraryErrorKind,
};

/// An engine stand-in that answers each call with a scripted status.
struct ScriptedEngine {
    header_pages: u32,
    blocks_ready: u32,
    packets_ready: u32,
    pages_ready: u32,
    fail_on: Option<(EngineCall, i32)>,
    calls: Vec<EngineCall>,
}

impl ScriptedEngine {
    fn new() -> Self {
        ScriptedEngine { header_pages: 1, blocks_ready: 0, packets_ready: 0, pages_ready: 0, fail_on: None, calls: vec![] }
    }

    fn status(&mut self, call: EngineCall) -> i32 {
        if let Some((failing, code)) = self.fail_on {
            if failing == call {
                return code;
            }
        }
        match call {
            EngineCall::StreamFlush => take_one(&mut self.header_pages),
            EngineCall::AnalysisWrote { samples } => {
                self.blocks_ready = if samples == 0 { 1 } else { 2 };
                0
            }
            EngineCall::AnalysisBlockOut => {
                let r = take_one(&mut self.blocks_ready);
                if r == 1 {
                    self.packets_ready = 1;
                }
                r
            }
            EngineCall::BitrateFlushPacket => take_one(&mut self.packets_ready),
            EngineCall::StreamPacketIn { unit: UnitSource::Audio } => {
                self.pages_ready = 1;
                0
            }
            EngineCall::StreamPageOut | EngineCall::StreamPageOutFill { .. } => take_one(&mut self.pages_ready),
            _ => 0,
        }
    }
}

fn take_one(n: &mut u32) -> i32 {
    if *n > 0 {
        *n -= 1;
        1
    } else {
        0
    }
}

fn drive(enc: &mut VorbisEncoder<Vec<u8>>, engine: &mut ScriptedEngine) -> Result<(), VorbisError> {
    while let Some(call) = enc.pending() {
        engine.calls.push(call);
        let code = engine.status(call);
        if call == EngineCall::WritePage {
            enc.sink_mut().as_mut().unwrap().extend_from_slice(b"OggS");
        }
        enc.resume(code)?;
    }
    Ok(())
}

fn built_encoder(engine: &mut ScriptedEngine) -> VorbisEncoder<Vec<u8>> {
    let mut builder = VorbisEncoderBuilder::new_with_serial(8000, 1, Vec::new(), 7);
    let mut enc = builder.build().unwrap();
    drive(&mut enc, engine).unwrap();
    enc
}

fn count_end_signals(calls: &[EngineCall]) -> usize {
    calls.iter().filter(|c| **c == EngineCall::AnalysisWrote { samples: 0 }).count()
}

#[test]
fn build_runs_the_setup_sequence_in_order() {
    let mut engine = ScriptedEngine::new();
    let enc = built_encoder(&mut engine);
    assert_eq!(
        engine.calls,
        vec![
            EngineCall::StreamInit { serial: 7 },
            EngineCall::InfoInit,
            EngineCall::EncodeInitVbr { channels: 1, rate: 8000, quality_milli: 500 },
            EngineCall::CommentInit,
            EngineCall::AnalysisInit,
            EngineCall::BlockInit,
            EngineCall::HeaderOut,
            EngineCall::StreamPacketIn { unit: UnitSource::Header(0) },
            EngineCall::StreamPacketIn { unit: UnitSource::Header(1) },
            EngineCall::StreamPacketIn { unit: UnitSource::Header(2) },
            EngineCall::StreamFlush,
            EngineCall::WritePage,
            EngineCall::StreamFlush,
        ]
    );
    assert_eq!(enc.current_phase(), EncoderPhase::Ready);
}

#[test]
fn build_adds_each_comment_in_order() {
    let mut builder = VorbisEncoderBuilder::new_with_serial(44100, 2, Vec::new(), 1);
    builder.comment_tag("ARTIST", "someone").unwrap();
    builder.comment_tag("TITLE", "something").unwrap();
    let mut enc = builder.build().unwrap();
    let mut engine = ScriptedEngine::new();
    drive(&mut enc, &mut engine).unwrap();
    assert_eq!(engine.calls[3], EngineCall::CommentInit);
    assert_eq!(engine.calls[4], EngineCall::CommentAddTag { index: 0 });
    assert_eq!(engine.calls[5], EngineCall::CommentAddTag { index: 1 });
    assert_eq!(engine.calls[6], EngineCall::AnalysisInit);
}

#[test]
fn vbr_build_makes_three_setup_calls() {
    let mut builder = VorbisEncoderBuilder::new_with_serial(48000, 2, Vec::new(), 1);
    builder.bitrate_management_strategy(VorbisBitrateManagementStrategy::Vbr { target_bitrate: 128000 });
    let mut enc = builder.build().unwrap();
    let mut engine = ScriptedEngine::new();
    drive(&mut enc, &mut engine).unwrap();
    assert_eq!(
        &engine.calls[2..5],
        &[
            EngineCall::EncodeSetupManaged {
                channels: 2,
                rate: 48000,
                max_bitrate: -1,
                nominal_bitrate: 128000,
                min_bitrate: -1
            },
            EngineCall::EncodeCtlRateManagementOff,
            EngineCall::EncodeSetupInit,
        ]
    );
}

#[test]
fn encode_block_drains_units_into_pages() {
    let mut engine = ScriptedEngine::new();
    let mut enc = built_encoder(&mut engine);
    engine.calls.clear();
    enc.encode_audio_block(&vec![4]).unwrap();
    drive(&mut enc, &mut engine).unwrap();
    assert_eq!(
        engine.calls,
        vec![
            EngineCall::AnalysisBuffer { samples: 4 },
            EngineCall::CopySamples,
            EngineCall::AnalysisWrote { samples: 4 },
            EngineCall::AnalysisBlockOut,
            EngineCall::Analysis,
            EngineCall::BitrateAddBlock,
            EngineCall::BitrateFlushPacket,
            EngineCall::StreamPacketIn { unit: UnitSource::Audio },
            EngineCall::StreamPageOut,
            EngineCall::WritePage,
            EngineCall::StreamPageOut,
            EngineCall::BitrateFlushPacket,
            EngineCall::AnalysisBlockOut,
            EngineCall::Analysis,
            EngineCall::BitrateAddBlock,
            EngineCall::BitrateFlushPacket,
            EngineCall::StreamPacketIn { unit: UnitSource::Audio },
            EngineCall::StreamPageOut,
            EngineCall::WritePage,
            EngineCall::StreamPageOut,
            EngineCall::BitrateFlushPacket,
            EngineCall::AnalysisBlockOut,
        ]
    );
    assert_eq!(enc.current_phase(), EncoderPhase::Ready);
    assert_eq!(enc.sink_mut().as_ref().unwrap().len(), 12);
}

#[test]
fn minimum_page_size_selects_filled_page_requests() {
    let mut builder = VorbisEncoderBuilder::new_with_serial(8000, 1, Vec::new(), 3);
    builder.minimum_page_data_size(Some(4096));
    let mut enc = builder.build().unwrap();
    let mut engine = ScriptedEngine::new();
    drive(&mut enc, &mut engine).unwrap();
    enc.encode_audio_block(&vec![10]).unwrap();
    drive(&mut enc, &mut engine).unwrap();
    assert!(engine.calls.contains(&EngineCall::StreamPageOutFill { min_bytes: 4096 }));
    assert!(!engine.calls.contains(&EngineCall::StreamPageOut));
}

#[test]
fn channel_count_mismatch_is_refused_without_engine_calls() {
    let mut engine = ScriptedEngine::new();
    let mut enc = built_encoder(&mut engine);
    let r = enc.encode_audio_block(&vec![4, 4]);
    assert!(matches!(r, Err(VorbisError::InvalidAudioBlockChannelCount { expected: 1, actual: 2 })));
    assert_eq!(enc.pending(), None);
    assert_eq!(enc.current_phase(), EncoderPhase::Ready);
    let r = enc.encode_audio_block(&vec![]);
    assert!(matches!(r, Err(VorbisError::InvalidAudioBlockChannelCount { expected: 1, actual: 0 })));
    assert_eq!(enc.pending(), None);
}

#[test]
fn sample_count_mismatch_is_refused_before_any_copy() {
    let mut builder = VorbisEncoderBuilder::new_with_serial(8000, 3, Vec::new(), 1);
    let mut enc = builder.build().unwrap();
    let mut engine = ScriptedEngine::new();
    drive(&mut enc, &mut engine).unwrap();
    let r = enc.encode_audio_block(&vec![512, 512, 100]);
    assert!(matches!(r, Err(VorbisError::InvalidAudioBlockSampleCount { expected: 512, actual: 100 })));
    assert_eq!(enc.pending(), None);
    let r = enc.encode_audio_block(&vec![512, 7, 100]);
    assert!(matches!(r, Err(VorbisError::InvalidAudioBlockSampleCount { expected: 512, actual: 7 })));
    assert_eq!(enc.current_phase(), EncoderPhase::Ready);
}

#[test]
fn oversized_block_exceeds_range() {
    let mut engine = ScriptedEngine::new();
    let mut enc = built_encoder(&mut engine);
    let r = enc.encode_audio_block(&vec![2147483648]);
    assert!(matches!(r, Err(VorbisError::RangeExceeded)));
    assert_eq!(enc.pending(), None);
}

#[test]
fn empty_block_needs_no_engine_call() {
    let mut engine = ScriptedEngine::new();
    let mut enc = built_encoder(&mut engine);
    enc.encode_audio_block(&vec![0]).unwrap();
    assert_eq!(enc.pending(), None);
    assert_eq!(enc.current_phase(), EncoderPhase::Ready);
}

#[test]
fn finish_then_teardown_signals_the_end_once() {
    let mut engine = ScriptedEngine::new();
    let mut enc = built_encoder(&mut engine);
    enc.encode_audio_block(&vec![16]).unwrap();
    drive(&mut enc, &mut engine).unwrap();
    enc.finish();
    assert_eq!(enc.pending(), Some(EngineCall::AnalysisWrote { samples: 0 }));
    drive(&mut enc, &mut engine).unwrap();
    assert_eq!(enc.current_phase(), EncoderPhase::Finished);
    enc.begin_teardown();
    assert_eq!(enc.pending(), None);
    let releases = enc.release();
    assert_eq!(
        releases,
        vec![
            EngineCall::StreamClear,
            EngineCall::BlockClear,
            EngineCall::DspClear,
            EngineCall::CommentClear,
            EngineCall::InfoClear,
        ]
    );
    assert_eq!(count_end_signals(&engine.calls), 1);
    assert_eq!(enc.current_phase(), EncoderPhase::Released);
    assert!(enc.take_sink().is_some());
}

#[test]
fn teardown_without_finish_ends_the_stream() {
    let mut engine = ScriptedEngine::new();
    let mut enc = built_encoder(&mut engine);
    enc.begin_teardown();
    assert_eq!(enc.pending(), Some(EngineCall::AnalysisWrote { samples: 0 }));
    drive(&mut enc, &mut engine).unwrap();
    assert_eq!(enc.current_phase(), EncoderPhase::Finished);
    enc.begin_teardown();
    assert_eq!(enc.pending(), None);
    assert_eq!(count_end_signals(&engine.calls), 1);
}

#[test]
fn failed_finish_does_not_signal_the_end_again() {
    let mut engine = ScriptedEngine::new();
    let mut enc = built_encoder(&mut engine);
    engine.fail_on = Some((EngineCall::AnalysisBlockOut, -129));
    enc.finish();
    let r = drive(&mut enc, &mut engine);
    assert!(matches!(
        r,
        Err(VorbisError::LibraryError(e)) if e.library() == VorbisLibrary::Vorbis
            && e.function() == "vorbis_analysis_blockout"
            && e.kind() == VorbisLibraryErrorKind::InternalFault
    ));
    assert_eq!(enc.current_phase(), EncoderPhase::Finished);
    enc.begin_teardown();
    assert_eq!(enc.pending(), None);
    assert_eq!(count_end_signals(&engine.calls), 1);
}

#[test]
fn failed_block_leaves_the_session_ready() {
    let mut engine = ScriptedEngine::new();
    let mut enc = built_encoder(&mut engine);
    engine.fail_on = Some((EngineCall::AnalysisWrote { samples: 8 }, -131));
    enc.encode_audio_block(&vec![8]).unwrap();
    let r = drive(&mut enc, &mut engine);
    assert!(matches!(
        r,
        Err(VorbisError::LibraryError(e)) if e.function() == "vorbis_analysis_wrote"
            && e.kind() == VorbisLibraryErrorKind::InvalidValue
    ));
    assert_eq!(enc.current_phase(), EncoderPhase::Ready);
    assert_eq!(enc.pending(), None);
}

#[test]
fn failed_build_releases_only_what_was_created() {
    let mut builder = VorbisEncoderBuilder::new_with_serial(8000, 1, Vec::new(), 9);
    let mut enc = builder.build().unwrap();
    let mut engine = ScriptedEngine::new();
    engine.fail_on = Some((EngineCall::AnalysisInit, -131));
    let r = drive(&mut enc, &mut engine);
    assert!(matches!(
        r,
        Err(VorbisError::LibraryError(e)) if e.library() == VorbisLibrary::Vorbis
            && e.function() == "vorbis_analysis_init"
            && e.kind() == VorbisLibraryErrorKind::InvalidValue
    ));
    assert_eq!(enc.current_phase(), EncoderPhase::Failed);
    assert_eq!(
        enc.release(),
        vec![EngineCall::StreamClear, EngineCall::CommentClear, EngineCall::InfoClear]
    );
}

#[test]
fn container_failure_keeps_the_raw_code() {
    let mut builder = VorbisEncoderBuilder::new_with_serial(8000, 1, Vec::new(), 9);
    let mut enc = builder.build().unwrap();
    let mut engine = ScriptedEngine::new();
    engine.fail_on = Some((EngineCall::StreamInit { serial: 9 }, -1));
    let r = drive(&mut enc, &mut engine);
    assert!(matches!(
        r,
        Err(VorbisError::LibraryError(e)) if e.library() == VorbisLibrary::Ogg
            && e.function() == "ogg_stream_init"
            && e.kind() == VorbisLibraryErrorKind::Other { result_code: -1 }
    ));
    assert!(enc.release().is_empty());
}

#[test]
fn sink_write_failure_ends_the_block_with_an_io_error() {
    let mut engine = ScriptedEngine::new();
    let mut enc = built_encoder(&mut engine);
    enc.encode_audio_block(&vec![8]).unwrap();
    loop {
        let call = enc.pending().unwrap();
        if call == EngineCall::WritePage {
            break;
        }
        let code = engine.status(call);
        enc.resume(code).unwrap();
    }
    let e = enc.abort_io(std::io::Error::new(std::io::ErrorKind::Other, "disk full"));
    assert!(matches!(e, VorbisError::Io(_)));
    assert_eq!(enc.current_phase(), EncoderPhase::Ready);
    assert_eq!(enc.pending(), None);
}

#[test]
fn audio_units_follow_flushed_headers() {
    let mut engine = ScriptedEngine::new();
    let mut enc = built_encoder(&mut engine);
    enc.encode_audio_block(&vec![64]).unwrap();
    drive(&mut enc, &mut engine).unwrap();
    let units: Vec<UnitSource> = engine
        .calls
        .iter()
        .filter_map(|c| match c {
            EngineCall::StreamPacketIn { unit } => Some(*unit),
            _ => None,
        })
        .collect();
    assert_eq!(
        units,
        vec![UnitSource::Header(0), UnitSource::Header(1), UnitSource::Header(2), UnitSource::Audio, UnitSource::Audio]
    );
    let first_audio = engine
        .calls
        .iter()
        .position(|c| *c == EngineCall::StreamPacketIn { unit: UnitSource::Audio })
        .unwrap();
    let last_flush = engine.calls.iter().rposition(|c| *c == EngineCall::StreamFlush).unwrap();
    assert!(last_flush < first_audio);
}
