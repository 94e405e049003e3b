use vstd::prelude::*;
use crate::error::{VorbisLibrary, VorbisError, status_result, check_status};

verus! {

/// Which compressed unit a container submission carries.
#[derive(PartialEq, Eq, Structural, Copy, Clone, Debug)]
pub enum UnitSource {
    /// One of the three header units, by position: identification, comments, setup.
    Header(u8),
    /// The audio unit the codec engine has just handed out.
    Audio,
}

/// One call into the codec or container engine. Sessions name the call to
/// make next; the caller performs it and hands back the status it returned.
#[derive(PartialEq, Eq, Structural, Copy, Clone, Debug)]
pub enum EngineCall {
    /// Opens a logical stream with the given serial (`ogg_stream_init`).
    StreamInit { serial: i32 },
    /// Submits a compressed unit to the logical stream (`ogg_stream_packetin`).
    StreamPacketIn { unit: UnitSource },
    /// Asks for a finished page, if one is ready (`ogg_stream_pageout`); a
    /// non-zero status means a page was produced.
    StreamPageOut,
    /// Asks for a page once at least `min_bytes` of payload are buffered
    /// (`ogg_stream_pageout_fill`); a non-zero status means a page was produced.
    StreamPageOutFill { min_bytes: i32 },
    /// Forces out the current page (`ogg_stream_flush`); a non-zero status
    /// means a page was produced.
    StreamFlush,
    /// Writes the page just produced to the sink: header bytes, then body bytes.
    WritePage,
    /// Releases the logical stream (`ogg_stream_clear`).
    StreamClear,
    /// Initializes the stream parameters (`vorbis_info_init`).
    InfoInit,
    /// Managed-mode setup (`vorbis_encode_setup_managed`); `-1` leaves a bitrate unset.
    EncodeSetupManaged { channels: i32, rate: i32, max_bitrate: i32, nominal_bitrate: i32, min_bitrate: i32 },
    /// Turns the rate-management engine off (`vorbis_encode_ctl` with the
    /// rate-management set request and no argument).
    EncodeCtlRateManagementOff,
    /// Finalizes a managed setup (`vorbis_encode_setup_init`).
    EncodeSetupInit,
    /// Quality-mode setup, finalized (`vorbis_encode_init_vbr`); the quality
    /// factor is given in thousandths.
    EncodeInitVbr { channels: i32, rate: i32, quality_milli: i32 },
    /// Bitrate-mode setup, finalized (`vorbis_encode_init`); `-1` leaves a bitrate unset.
    EncodeInit { channels: i32, rate: i32, max_bitrate: i32, nominal_bitrate: i32, min_bitrate: i32 },
    /// Initializes the comment list (`vorbis_comment_init`).
    CommentInit,
    /// Adds the comment pair at this position of the session's list (`vorbis_comment_add_tag`).
    CommentAddTag { index: usize },
    /// Creates the analysis state from the parameters (`vorbis_analysis_init`).
    AnalysisInit,
    /// Creates the working block from the analysis state (`vorbis_block_init`).
    BlockInit,
    /// Produces the three header units (`vorbis_analysis_headerout`).
    HeaderOut,
    /// Asks for a sample buffer for this many samples per channel (`vorbis_analysis_buffer`).
    AnalysisBuffer { samples: i32 },
    /// Copies the audio block being encoded into the buffer just obtained.
    CopySamples,
    /// Tells the engine how many samples were written; zero marks the end of
    /// the stream (`vorbis_analysis_wrote`).
    AnalysisWrote { samples: i32 },
    /// Asks for a completed analysis block; status `1` means one was handed out
    /// (`vorbis_analysis_blockout`).
    AnalysisBlockOut,
    /// Runs the analysis of the working block (`vorbis_analysis`).
    Analysis,
    /// Adds the working block to the bitrate accounting (`vorbis_bitrate_addblock`).
    BitrateAddBlock,
    /// Asks for a finished audio unit; status `1` means one was handed out
    /// (`vorbis_bitrate_flushpacket`).
    BitrateFlushPacket,
    /// Releases the working block (`vorbis_block_clear`).
    BlockClear,
    /// Releases the analysis state (`vorbis_dsp_clear`).
    DspClear,
    /// Releases the comment list (`vorbis_comment_clear`).
    CommentClear,
    /// Releases the stream parameters (`vorbis_info_clear`).
    InfoClear,
}

/// Whether the status a call returns is checked for failure, and if so which
/// engine and function a failure is reported under.
pub open spec fn checked_call(c: EngineCall) -> Option<(VorbisLibrary, &'static str)> {
    match c {
        EngineCall::StreamInit { .. } => Some((VorbisLibrary::Ogg, "ogg_stream_init")),
        EngineCall::StreamPacketIn { .. } => Some((VorbisLibrary::Ogg, "ogg_stream_packetin")),
        EngineCall::EncodeSetupManaged { .. } => Some((VorbisLibrary::VorbisEnc, "vorbis_encode_setup_managed")),
        EngineCall::EncodeCtlRateManagementOff => Some((VorbisLibrary::VorbisEnc, "vorbis_encode_ctl")),
        EngineCall::EncodeSetupInit => Some((VorbisLibrary::VorbisEnc, "vorbis_encode_setup_init")),
        EngineCall::EncodeInitVbr { .. } => Some((VorbisLibrary::VorbisEnc, "vorbis_encode_init_vbr")),
        EngineCall::EncodeInit { .. } => Some((VorbisLibrary::VorbisEnc, "vorbis_encode_init")),
        EngineCall::AnalysisInit => Some((VorbisLibrary::Vorbis, "vorbis_analysis_init")),
        EngineCall::BlockInit => Some((VorbisLibrary::Vorbis, "vorbis_block_init")),
        EngineCall::HeaderOut => Some((VorbisLibrary::Vorbis, "vorbis_analysis_headerout")),
        EngineCall::AnalysisWrote { .. } => Some((VorbisLibrary::Vorbis, "vorbis_analysis_wrote")),
        EngineCall::AnalysisBlockOut => Some((VorbisLibrary::Vorbis, "vorbis_analysis_blockout")),
        EngineCall::Analysis => Some((VorbisLibrary::Vorbis, "vorbis_analysis")),
        EngineCall::BitrateAddBlock => Some((VorbisLibrary::Vorbis, "vorbis_bitrate_addblock")),
        EngineCall::BitrateFlushPacket => Some((VorbisLibrary::Vorbis, "vorbis_bitrate_flushpacket")),
        _ => None,
    }
}

/// The outcome of `call` having returned `code`: the mapped error for a
/// failing status of a checked call, else the status itself.
pub open spec fn call_result(call: EngineCall, code: i32) -> Result<i32, VorbisError> {
    match checked_call(call) {
        Some((library, function)) => status_result(library, function, code),
        None => Ok(code),
    }
}

/// Whether the call is the encoder's end-of-stream signal.
pub open spec fn is_end_of_stream(c: EngineCall) -> bool {
    c == (EngineCall::AnalysisWrote { samples: 0 })
}

/// Whether the call belongs to the encoder setup.
pub open spec fn is_setup_call(c: EngineCall) -> bool {
    c is EncodeSetupManaged || c is EncodeCtlRateManagementOff || c is EncodeSetupInit || c is EncodeInitVbr
        || c is EncodeInit
}

/// Whether the call finalizes the encoder setup.
pub open spec fn finalizes_setup(c: EngineCall) -> bool {
    c is EncodeSetupInit || c is EncodeInitVbr || c is EncodeInit
}

impl EngineCall {
    /// Maps the status returned by this call to a result.
    pub fn check(&self, code: i32) -> (r: Result<i32, VorbisError>)
        ensures
            r == call_result(*self, code),
    {
        match self {
            EngineCall::StreamInit { .. } => check_status(VorbisLibrary::Ogg, "ogg_stream_init", code),
            EngineCall::StreamPacketIn { .. } => check_status(VorbisLibrary::Ogg, "ogg_stream_packetin", code),
            EngineCall::EncodeSetupManaged { .. } => check_status(VorbisLibrary::VorbisEnc, "vorbis_encode_setup_managed", code),
            EngineCall::EncodeCtlRateManagementOff => check_status(VorbisLibrary::VorbisEnc, "vorbis_encode_ctl", code),
            EngineCall::EncodeSetupInit => check_status(VorbisLibrary::VorbisEnc, "vorbis_encode_setup_init", code),
            EngineCall::EncodeInitVbr { .. } => check_status(VorbisLibrary::VorbisEnc, "vorbis_encode_init_vbr", code),
            EngineCall::EncodeInit { .. } => check_status(VorbisLibrary::VorbisEnc, "vorbis_encode_init", code),
            EngineCall::AnalysisInit => check_status(VorbisLibrary::Vorbis, "vorbis_analysis_init", code),
            EngineCall::BlockInit => check_status(VorbisLibrary::Vorbis, "vorbis_block_init", code),
            EngineCall::HeaderOut => check_status(VorbisLibrary::Vorbis, "vorbis_analysis_headerout", code),
            EngineCall::AnalysisWrote { .. } => check_status(VorbisLibrary::Vorbis, "vorbis_analysis_wrote", code),
            EngineCall::AnalysisBlockOut => check_status(VorbisLibrary::Vorbis, "vorbis_analysis_blockout", code),
            EngineCall::Analysis => check_status(VorbisLibrary::Vorbis, "vorbis_analysis", code),
            EngineCall::BitrateAddBlock => check_status(VorbisLibrary::Vorbis, "vorbis_bitrate_addblock", code),
            EngineCall::BitrateFlushPacket => check_status(VorbisLibrary::Vorbis, "vorbis_bitrate_flushpacket", code),
            _ => Ok(code),
        }
    }
}

} // verus!
