use vstd::prelude::*;
use crate::engine::{EngineCall, UnitSource, call_result, is_setup_call};
use crate::error::VorbisError;
use crate::lifecycle::NativeResources;
use crate::ogg::{OggStream, PageMode, PagePump};

verus! {

/// The largest sample count per channel that one audio block may hold.
pub const MAX_BLOCK_SAMPLES: usize = 2147483647;

/// Where an encoder session stands. The phases up to `HeaderPages` build the
/// session, `Ready` accepts audio blocks, and the phases from `RequestBuffer`
/// on submit one block (or the end of the stream) and drain what it yields.
#[derive(PartialEq, Eq, Structural, Copy, Clone, Debug)]
pub enum EncoderPhase {
    /// Opening the logical stream.
    OpenStream,
    /// Initializing the stream parameters.
    InitInfo,
    /// Making the bitrate strategy's setup call at this position.
    Setup { step: usize },
    /// Initializing the comment list.
    InitComments,
    /// Adding the comment pair at this position.
    AddComment { index: usize },
    /// Creating the analysis state.
    InitAnalysis,
    /// Creating the working block.
    InitBlock,
    /// Producing the three header units.
    HeaderOut,
    /// Submitting the header unit at this position.
    SubmitHeader { header: u8 },
    /// Flushing the header units to the sink, so audio starts on a fresh page.
    HeaderPages,
    /// Built; accepting audio blocks.
    Ready,
    /// Asking for the engine's sample buffer.
    RequestBuffer,
    /// Copying the block into that buffer.
    CopySamples,
    /// Telling the engine how many samples were written (zero: end of stream).
    SignalWritten,
    /// Asking for a completed analysis block.
    PullBlock,
    /// Analysing it.
    Analyze,
    /// Adding it to the bitrate accounting.
    AddBlock,
    /// Asking for a finished audio unit.
    PullPacket,
    /// Submitting it to the logical stream.
    SubmitPacket,
    /// Writing the pages that are ready to the sink.
    AudioPages,
    /// The end of the stream was signalled and drained.
    Finished,
    /// Building failed; only teardown remains.
    Failed,
    /// Every native block was released.
    Released,
}

/// Whether the phase belongs to building the session.
pub open spec fn is_build_phase(p: EncoderPhase) -> bool {
    match p {
        EncoderPhase::OpenStream | EncoderPhase::InitInfo | EncoderPhase::Setup { .. }
        | EncoderPhase::InitComments | EncoderPhase::AddComment { .. } | EncoderPhase::InitAnalysis
        | EncoderPhase::InitBlock | EncoderPhase::HeaderOut | EncoderPhase::SubmitHeader { .. }
        | EncoderPhase::HeaderPages => true,
        _ => false,
    }
}

/// Whether the units stand in stream order: header units by position
/// first, then audio units.
pub open spec fn in_stream_order(units: Seq<UnitSource>) -> bool {
    forall|i: int|
        0 <= i < units.len() ==> #[trigger] units[i] == if i < 3 {
            UnitSource::Header(i as u8)
        } else {
            UnitSource::Audio
        }
}

/// The outcome of checking an audio block's shape, given the length of each
/// channel's sample vector: the per-channel sample count, or the error.
pub open spec fn block_check(channels: u8, lengths: Seq<usize>) -> Result<usize, VorbisError> {
    if lengths.len() != channels as int {
        Err(VorbisError::InvalidAudioBlockChannelCount { expected: channels as usize, actual: lengths.len() as usize })
    } else if first_unequal(lengths, 0) < lengths.len() {
        Err(VorbisError::InvalidAudioBlockSampleCount {
            expected: lengths[0],
            actual: lengths[first_unequal(lengths, 0)],
        })
    } else if lengths.len() > 0 && lengths[0] > MAX_BLOCK_SAMPLES {
        Err(VorbisError::RangeExceeded)
    } else if lengths.len() > 0 {
        Ok(lengths[0])
    } else {
        Ok(0)
    }
}

/// The first position from `from` on whose length differs from the first
/// length, or the sequence's length if there is none.
pub open spec fn first_unequal(lengths: Seq<usize>, from: int) -> int
    decreases lengths.len() - from,
{
    if from < 0 || from >= lengths.len() {
        lengths.len() as int
    } else if lengths[from] != lengths[0] {
        from
    } else {
        first_unequal(lengths, from + 1)
    }
}

/// An encoder session: it names the engine calls that turn audio blocks into
/// a framed compressed stream written to its sink, and decides what follows
/// from the status each call returns.
pub struct VorbisEncoder<W> {
    sink: Option<W>,
    stream: OggStream,
    channels: u8,
    setup: Vec<EngineCall>,
    comments: Vec<(String, String)>,
    minimum_page_data_size: Option<u16>,
    phase: EncoderPhase,
    resources: NativeResources,
    block_samples: i32,
    end_of_stream: bool,
    end_signals: Ghost<nat>,
    units: Ghost<Seq<UnitSource>>,
    headers_flushed: Ghost<bool>,
}

impl<W> VorbisEncoder<W> {
    /// Where the session stands.
    pub closed spec fn phase(&self) -> EncoderPhase {
        self.phase
    }

    /// The native blocks that are live.
    pub closed spec fn resources(&self) -> NativeResources {
        self.resources
    }

    /// The logical stream.
    pub closed spec fn stream(&self) -> OggStream {
        self.stream
    }

    /// The sink, while the session holds it.
    pub closed spec fn sink_spec(&self) -> Option<W> {
        self.sink
    }

    /// The configured channel count.
    pub closed spec fn channels_spec(&self) -> u8 {
        self.channels
    }

    /// The bitrate strategy's setup calls.
    pub closed spec fn setup(&self) -> Seq<EngineCall> {
        self.setup@
    }

    /// The comment pairs for the comments header.
    pub closed spec fn comments(&self) -> Seq<(String, String)> {
        self.comments@
    }

    /// The minimum page payload the drain waits for, if any.
    pub closed spec fn minimum_page_data_size_spec(&self) -> Option<u16> {
        self.minimum_page_data_size
    }

    /// The sample count per channel of the block being submitted; zero while
    /// the end of the stream is.
    pub closed spec fn block_samples(&self) -> i32 {
        self.block_samples
    }

    /// Whether the end of the stream has been signalled (or is being).
    pub closed spec fn end_of_stream(&self) -> bool {
        self.end_of_stream
    }

    /// How many times the session has handed out the end-of-stream call.
    pub closed spec fn end_signals(&self) -> nat {
        self.end_signals@
    }

    /// The compressed units submitted to the logical stream so far, in order.
    pub closed spec fn units(&self) -> Seq<UnitSource> {
        self.units@
    }

    /// Whether the header units were flushed to pages of their own.
    pub closed spec fn headers_flushed(&self) -> bool {
        self.headers_flushed@
    }

    /// The session's invariant.
    pub closed spec fn wf(&self) -> bool {
        &&& self.resources.wf()
        &&& (self.phase is Setup || self.phase is InitComments || self.phase is AddComment
            || self.phase is InitAnalysis || self.phase is InitBlock ==> self.resources.parameters)
        &&& (self.phase is InitBlock ==> self.resources.session_state)
        &&& self.setup@.len() > 0
        &&& forall|i: int| 0 <= i < self.setup@.len() ==> is_setup_call(#[trigger] self.setup@[i])
        &&& self.channels > 0
        &&& (self.phase matches EncoderPhase::Setup { step } ==> step < self.setup@.len())
        &&& (self.phase matches EncoderPhase::AddComment { index } ==> index < self.comments@.len())
        &&& (self.phase matches EncoderPhase::SubmitHeader { header } ==> header < 3)
        &&& ((self.phase == EncoderPhase::HeaderPages || self.phase == EncoderPhase::AudioPages)
            <==> self.stream.pump() != PagePump::Idle)
        &&& (self.phase == EncoderPhase::HeaderPages ==> self.stream.pump() matches PagePump::Pulling {
            mode: PageMode::Flush,
        } || self.stream.pump() matches PagePump::Writing { mode: PageMode::Flush })
        &&& (self.phase == EncoderPhase::AudioPages ==> self.stream.pump() matches PagePump::Pulling {
            mode: PageMode::Pending { .. },
        } || self.stream.pump() matches PagePump::Writing { mode: PageMode::Pending { .. } })
        &&& ((self.phase == EncoderPhase::RequestBuffer || self.phase == EncoderPhase::CopySamples)
            ==> self.block_samples > 0 && !self.end_of_stream)
        &&& (self.phase == EncoderPhase::SignalWritten ==> (self.block_samples == 0 <==> self.end_of_stream))
        &&& (self.phase == EncoderPhase::SignalWritten ==> self.block_samples >= 0)
        &&& (self.phase == EncoderPhase::Ready ==> !self.end_of_stream)
        &&& (self.phase == EncoderPhase::Finished ==> self.end_of_stream)
        &&& (is_build_phase(self.phase) || self.phase == EncoderPhase::Failed ==> !self.end_of_stream)
        &&& self.end_signals@ <= 1
        &&& (self.end_signals@ == 1 <==> self.end_of_stream)
        &&& in_stream_order(self.units@)
        &&& (self.units@.len() > 3 ==> self.headers_flushed@)
        &&& (self.headers_flushed@ ==> self.units@.len() >= 3)
        &&& (self.phase matches EncoderPhase::SubmitHeader { header } ==> self.units@.len() == header)
        &&& (self.phase is OpenStream || self.phase is InitInfo || self.phase is Setup || self.phase is InitComments
            || self.phase is AddComment || self.phase is InitAnalysis || self.phase is InitBlock
            || self.phase is HeaderOut ==> self.units@.len() == 0)
        &&& (self.phase is HeaderPages ==> self.units@.len() == 3)
        &&& (self.phase is Ready || self.phase is Finished || self.phase is RequestBuffer
            || self.phase is CopySamples || self.phase is SignalWritten || self.phase is PullBlock
            || self.phase is Analyze || self.phase is AddBlock || self.phase is PullPacket
            || self.phase is SubmitPacket || self.phase is AudioPages ==> self.headers_flushed@)
    }

    /// The engine call the session waits on, if an operation is in progress.
    pub open spec fn pending_spec(&self) -> Option<EngineCall> {
        match self.phase() {
            EncoderPhase::OpenStream => Some(EngineCall::StreamInit { serial: self.stream().serial_spec() }),
            EncoderPhase::InitInfo => Some(EngineCall::InfoInit),
            EncoderPhase::Setup { step } => Some(self.setup()[step as int]),
            EncoderPhase::InitComments => Some(EngineCall::CommentInit),
            EncoderPhase::AddComment { index } => Some(EngineCall::CommentAddTag { index }),
            EncoderPhase::InitAnalysis => Some(EngineCall::AnalysisInit),
            EncoderPhase::InitBlock => Some(EngineCall::BlockInit),
            EncoderPhase::HeaderOut => Some(EngineCall::HeaderOut),
            EncoderPhase::SubmitHeader { header } => Some(
                EngineCall::StreamPacketIn { unit: UnitSource::Header(header) },
            ),
            EncoderPhase::HeaderPages | EncoderPhase::AudioPages => self.stream().pending_spec(),
            EncoderPhase::RequestBuffer => Some(EngineCall::AnalysisBuffer { samples: self.block_samples() }),
            EncoderPhase::CopySamples => Some(EngineCall::CopySamples),
            EncoderPhase::SignalWritten => Some(EngineCall::AnalysisWrote { samples: self.block_samples() }),
            EncoderPhase::PullBlock => Some(EngineCall::AnalysisBlockOut),
            EncoderPhase::Analyze => Some(EngineCall::Analysis),
            EncoderPhase::AddBlock => Some(EngineCall::BitrateAddBlock),
            EncoderPhase::PullPacket => Some(EngineCall::BitrateFlushPacket),
            EncoderPhase::SubmitPacket => Some(EngineCall::StreamPacketIn { unit: UnitSource::Audio }),
            _ => None,
        }
    }

    /// Whether `after` waits on the end-of-stream call and `before` did not:
    /// the step from one to the other hands that call out anew.
    pub open spec fn hands_out_end(before: &Self, after: &Self) -> bool {
        after.pending_spec() == Some(EngineCall::AnalysisWrote { samples: 0 })
            && before.pending_spec() != Some(EngineCall::AnalysisWrote { samples: 0 })
    }

    /// The count of end-of-stream calls grows by one exactly when a step hands
    /// that call out anew.
    pub open spec fn counts_end(before: &Self, after: &Self) -> bool {
        after.end_signals() == before.end_signals() + if Self::hands_out_end(before, after) {
            1nat
        } else {
            0nat
        }
    }

    /// The phase that follows a successful status `v` of the pending call.
    pub open spec fn phase_after(&self, v: i32) -> EncoderPhase {
        match self.phase() {
            EncoderPhase::OpenStream => EncoderPhase::InitInfo,
            EncoderPhase::InitInfo => EncoderPhase::Setup { step: 0 },
            EncoderPhase::Setup { step } => if step + 1 < self.setup().len() {
                EncoderPhase::Setup { step: (step + 1) as usize }
            } else {
                EncoderPhase::InitComments
            },
            EncoderPhase::InitComments => if self.comments().len() > 0 {
                EncoderPhase::AddComment { index: 0 }
            } else {
                EncoderPhase::InitAnalysis
            },
            EncoderPhase::AddComment { index } => if index + 1 < self.comments().len() {
                EncoderPhase::AddComment { index: (index + 1) as usize }
            } else {
                EncoderPhase::InitAnalysis
            },
            EncoderPhase::InitAnalysis => EncoderPhase::InitBlock,
            EncoderPhase::InitBlock => EncoderPhase::HeaderOut,
            EncoderPhase::HeaderOut => EncoderPhase::SubmitHeader { header: 0 },
            EncoderPhase::SubmitHeader { header } => if header < 2 {
                EncoderPhase::SubmitHeader { header: (header + 1) as u8 }
            } else {
                EncoderPhase::HeaderPages
            },
            EncoderPhase::HeaderPages => if self.stream().pump() is Pulling && v == 0 {
                EncoderPhase::Ready
            } else {
                EncoderPhase::HeaderPages
            },
            EncoderPhase::RequestBuffer => EncoderPhase::CopySamples,
            EncoderPhase::CopySamples => EncoderPhase::SignalWritten,
            EncoderPhase::SignalWritten => EncoderPhase::PullBlock,
            EncoderPhase::PullBlock => if v == 1 {
                EncoderPhase::Analyze
            } else if self.end_of_stream() {
                EncoderPhase::Finished
            } else {
                EncoderPhase::Ready
            },
            EncoderPhase::Analyze => EncoderPhase::AddBlock,
            EncoderPhase::AddBlock => EncoderPhase::PullPacket,
            EncoderPhase::PullPacket => if v == 1 {
                EncoderPhase::SubmitPacket
            } else {
                EncoderPhase::PullBlock
            },
            EncoderPhase::SubmitPacket => EncoderPhase::AudioPages,
            EncoderPhase::AudioPages => if self.stream().pump() is Pulling && v == 0 {
                EncoderPhase::PullPacket
            } else {
                EncoderPhase::AudioPages
            },
            p => p,
        }
    }

    /// The phase an operation ends in when one of its calls fails: a failed
    /// build leaves only teardown, a failed block leaves the session ready for
    /// the next, and a failed end of stream still ends the stream.
    pub open spec fn phase_after_failure(&self) -> EncoderPhase {
        if is_build_phase(self.phase()) {
            EncoderPhase::Failed
        } else if self.end_of_stream() {
            EncoderPhase::Finished
        } else {
            EncoderPhase::Ready
        }
    }

    /// The units submitted after a successful status of the pending call.
    pub open spec fn units_after(&self) -> Seq<UnitSource> {
        match self.phase() {
            EncoderPhase::SubmitHeader { header } => self.units().push(UnitSource::Header(header)),
            EncoderPhase::SubmitPacket => self.units().push(UnitSource::Audio),
            _ => self.units(),
        }
    }

    /// The native blocks live after a successful status of the pending call.
    pub open spec fn resources_after(&self) -> NativeResources {
        let r = self.resources();
        match self.phase() {
            EncoderPhase::OpenStream => NativeResources { stream: true, ..r },
            EncoderPhase::InitInfo => NativeResources { parameters: true, ..r },
            EncoderPhase::InitComments => NativeResources { comments: true, ..r },
            EncoderPhase::InitAnalysis => NativeResources { session_state: true, ..r },
            EncoderPhase::InitBlock => NativeResources { working_block: true, ..r },
            _ => r,
        }
    }

    /// The page pump after a successful status `v` of the pending call.
    pub open spec fn pump_after(&self, v: i32) -> PagePump {
        match self.phase() {
            EncoderPhase::SubmitHeader { header } => if header < 2 {
                self.stream().pump()
            } else {
                PagePump::Pulling { mode: PageMode::Flush }
            },
            EncoderPhase::SubmitPacket => PagePump::Pulling {
                mode: PageMode::Pending { minimum_page_data_size: self.minimum_page_data_size_spec() },
            },
            EncoderPhase::HeaderPages | EncoderPhase::AudioPages => match self.stream().pump() {
                PagePump::Pulling { mode } => if v == 0 {
                    PagePump::Idle
                } else {
                    PagePump::Writing { mode }
                },
                PagePump::Writing { mode } => PagePump::Pulling { mode },
                PagePump::Idle => PagePump::Idle,
            },
            _ => self.stream().pump(),
        }
    }

    /// What stays the same across every step of an operation.
    pub open spec fn same_setting(&self, other: &Self) -> bool {
        &&& other.sink_spec() == self.sink_spec()
        &&& other.channels_spec() == self.channels_spec()
        &&& other.setup() == self.setup()
        &&& other.comments() == self.comments()
        &&& other.minimum_page_data_size_spec() == self.minimum_page_data_size_spec()
        &&& other.stream().serial_spec() == self.stream().serial_spec()
    }

    /// A session that will build itself: its first call opens the logical
    /// stream with `serial`.
    pub(crate) fn start(
        sink: W,
        serial: i32,
        channels: u8,
        setup: Vec<EngineCall>,
        comments: Vec<(String, String)>,
        minimum_page_data_size: Option<u16>,
    ) -> (r: Self)
        requires
            setup@.len() > 0,
            forall|i: int| 0 <= i < setup@.len() ==> is_setup_call(#[trigger] setup@[i]),
            channels > 0,
        ensures
            r.wf(),
            r.phase() == EncoderPhase::OpenStream,
            r.pending_spec() == Some(EngineCall::StreamInit { serial }),
            r.sink_spec() == Some(sink),
            r.channels_spec() == channels,
            r.setup() == setup@,
            r.comments() == comments@,
            r.minimum_page_data_size_spec() == minimum_page_data_size,
            r.resources().is_empty(),
            r.end_signals() == 0,
            r.units().len() == 0,
    {
        VorbisEncoder {
            sink: Some(sink),
            stream: OggStream::new(serial),
            channels,
            setup,
            comments,
            minimum_page_data_size,
            phase: EncoderPhase::OpenStream,
            resources: NativeResources::new(),
            block_samples: 0,
            end_of_stream: false,
            end_signals: Ghost(0),
            units: Ghost(Seq::empty()),
            headers_flushed: Ghost(false),
        }
    }

    /// The engine call the session waits on, if an operation is in progress.
    pub fn pending(&self) -> (r: Option<EngineCall>)
        requires
            self.wf(),
        ensures
            r == self.pending_spec(),
    {
        match self.phase {
            EncoderPhase::OpenStream => Some(self.stream.init_call()),
            EncoderPhase::InitInfo => Some(EngineCall::InfoInit),
            EncoderPhase::Setup { step } => Some(self.setup[step]),
            EncoderPhase::InitComments => Some(EngineCall::CommentInit),
            EncoderPhase::AddComment { index } => Some(EngineCall::CommentAddTag { index }),
            EncoderPhase::InitAnalysis => Some(EngineCall::AnalysisInit),
            EncoderPhase::InitBlock => Some(EngineCall::BlockInit),
            EncoderPhase::HeaderOut => Some(EngineCall::HeaderOut),
            EncoderPhase::SubmitHeader { header } => Some(
                EngineCall::StreamPacketIn { unit: UnitSource::Header(header) },
            ),
            EncoderPhase::HeaderPages | EncoderPhase::AudioPages => self.stream.pending(),
            EncoderPhase::RequestBuffer => Some(EngineCall::AnalysisBuffer { samples: self.block_samples }),
            EncoderPhase::CopySamples => Some(EngineCall::CopySamples),
            EncoderPhase::SignalWritten => Some(EngineCall::AnalysisWrote { samples: self.block_samples }),
            EncoderPhase::PullBlock => Some(EngineCall::AnalysisBlockOut),
            EncoderPhase::Analyze => Some(EngineCall::Analysis),
            EncoderPhase::AddBlock => Some(EngineCall::BitrateAddBlock),
            EncoderPhase::PullPacket => Some(EngineCall::BitrateFlushPacket),
            EncoderPhase::SubmitPacket => Some(EngineCall::StreamPacketIn { unit: UnitSource::Audio }),
            _ => None,
        }
    }

    /// Takes the status that the pending call returned. A failing status of a
    /// checked call ends the operation with the mapped error; anything else
    /// moves the session on.
    pub fn resume(&mut self, code: i32) -> (r: Result<(), VorbisError>)
        requires
            old(self).wf(),
            old(self).pending_spec() is Some,
        ensures
            final(self).wf(),
            old(self).same_setting(&*final(self)),
            Self::counts_end(&*old(self), &*final(self)),
            final(self).end_of_stream() == old(self).end_of_stream(),
            call_result(old(self).pending_spec()->Some_0, code) is Err ==> {
                &&& r == Err::<(), VorbisError>(call_result(old(self).pending_spec()->Some_0, code)->Err_0)
                &&& final(self).phase() == old(self).phase_after_failure()
                &&& final(self).resources() == old(self).resources()
                &&& final(self).stream().pump() == PagePump::Idle
                &&& final(self).units() == old(self).units()
            },
            call_result(old(self).pending_spec()->Some_0, code) is Ok ==> {
                &&& r is Ok
                &&& final(self).phase() == old(self).phase_after(code)
                &&& final(self).resources() == old(self).resources_after()
                &&& final(self).stream().pump() == old(self).pump_after(code)
                &&& final(self).units() == old(self).units_after()
            },
    {
        let call = match self.pending() {
            Some(c) => c,
            None => {
                return Ok(());
            },
        };
        match call.check(code) {
            Err(e) => {
                self.phase = if self.is_building() {
                    EncoderPhase::Failed
                } else if self.end_of_stream {
                    EncoderPhase::Finished
                } else {
                    EncoderPhase::Ready
                };
                self.stream.abort();
                Err(e)
            },
            Ok(_) => {
                self.advance(code);
                Ok(())
            },
        }
    }

    fn is_building(&self) -> (r: bool)
        ensures
            r == is_build_phase(self.phase()),
    {
        match self.phase {
            EncoderPhase::OpenStream | EncoderPhase::InitInfo | EncoderPhase::Setup { .. }
            | EncoderPhase::InitComments | EncoderPhase::AddComment { .. } | EncoderPhase::InitAnalysis
            | EncoderPhase::InitBlock | EncoderPhase::HeaderOut | EncoderPhase::SubmitHeader { .. }
            | EncoderPhase::HeaderPages => true,
            _ => false,
        }
    }

    fn advance(&mut self, v: i32)
        requires
            old(self).wf(),
            old(self).pending_spec() is Some,
            call_result(old(self).pending_spec()->Some_0, v) is Ok,
        ensures
            final(self).wf(),
            old(self).same_setting(&*final(self)),
            Self::counts_end(&*old(self), &*final(self)),
            final(self).end_of_stream() == old(self).end_of_stream(),
            final(self).phase() == old(self).phase_after(v),
            final(self).resources() == old(self).resources_after(),
            final(self).stream().pump() == old(self).pump_after(v),
            final(self).units() == old(self).units_after(),
    {
        match self.phase {
            EncoderPhase::OpenStream => {
                self.resources.stream = true;
                self.phase = EncoderPhase::InitInfo;
            },
            EncoderPhase::InitInfo => {
                self.resources.parameters = true;
                self.phase = EncoderPhase::Setup { step: 0 };
            },
            EncoderPhase::Setup { step } => {
                self.phase = if step < self.setup.len() - 1 {
                    EncoderPhase::Setup { step: step + 1 }
                } else {
                    EncoderPhase::InitComments
                };
            },
            EncoderPhase::InitComments => {
                self.resources.comments = true;
                self.phase = if self.comments.len() > 0 {
                    EncoderPhase::AddComment { index: 0 }
                } else {
                    EncoderPhase::InitAnalysis
                };
            },
            EncoderPhase::AddComment { index } => {
                self.phase = if index < self.comments.len() - 1 {
                    EncoderPhase::AddComment { index: index + 1 }
                } else {
                    EncoderPhase::InitAnalysis
                };
            },
            EncoderPhase::InitAnalysis => {
                self.resources.session_state = true;
                self.phase = EncoderPhase::InitBlock;
            },
            EncoderPhase::InitBlock => {
                self.resources.working_block = true;
                self.phase = EncoderPhase::HeaderOut;
            },
            EncoderPhase::HeaderOut => {
                self.phase = EncoderPhase::SubmitHeader { header: 0 };
            },
            EncoderPhase::SubmitHeader { header } => {
                self.units = Ghost(self.units@.push(UnitSource::Header(header)));
                if header < 2 {
                    self.phase = EncoderPhase::SubmitHeader { header: header + 1 };
                } else {
                    self.stream.flush();
                    self.phase = EncoderPhase::HeaderPages;
                }
            },
            EncoderPhase::HeaderPages => {
                let pulling = self.stream.is_pulling();
                self.stream.resume(v);
                if pulling && v == 0 {
                    self.headers_flushed = Ghost(true);
                    self.phase = EncoderPhase::Ready;
                }
            },
            EncoderPhase::RequestBuffer => {
                self.phase = EncoderPhase::CopySamples;
            },
            EncoderPhase::CopySamples => {
                self.phase = EncoderPhase::SignalWritten;
            },
            EncoderPhase::SignalWritten => {
                self.phase = EncoderPhase::PullBlock;
            },
            EncoderPhase::PullBlock => {
                self.phase = if v == 1 {
                    EncoderPhase::Analyze
                } else if self.end_of_stream {
                    EncoderPhase::Finished
                } else {
                    EncoderPhase::Ready
                };
            },
            EncoderPhase::Analyze => {
                self.phase = EncoderPhase::AddBlock;
            },
            EncoderPhase::AddBlock => {
                self.phase = EncoderPhase::PullPacket;
            },
            EncoderPhase::PullPacket => {
                self.phase = if v == 1 {
                    EncoderPhase::SubmitPacket
                } else {
                    EncoderPhase::PullBlock
                };
            },
            EncoderPhase::SubmitPacket => {
                self.units = Ghost(self.units@.push(UnitSource::Audio));
                self.stream.write_pending_pages(self.minimum_page_data_size);
                self.phase = EncoderPhase::AudioPages;
            },
            EncoderPhase::AudioPages => {
                let pulling = self.stream.is_pulling();
                self.stream.resume(v);
                if pulling && v == 0 {
                    self.phase = EncoderPhase::PullPacket;
                }
            },
            _ => {},
        }
    }

    /// Everything but the sink is the same in both.
    pub open spec fn same_but_sink(&self, other: &Self) -> bool {
        &&& other.phase() == self.phase()
        &&& other.resources() == self.resources()
        &&& other.stream() == self.stream()
        &&& other.channels_spec() == self.channels_spec()
        &&& other.setup() == self.setup()
        &&& other.comments() == self.comments()
        &&& other.minimum_page_data_size_spec() == self.minimum_page_data_size_spec()
        &&& other.block_samples() == self.block_samples()
        &&& other.end_of_stream() == self.end_of_stream()
        &&& other.end_signals() == self.end_signals()
        &&& other.units() == self.units()
        &&& other.headers_flushed() == self.headers_flushed()
    }

    /// Ends the operation in progress because writing a page to the sink
    /// failed, and returns the I/O error.
    pub fn abort_io(&mut self, error: std::io::Error) -> (r: VorbisError)
        requires
            old(self).wf(),
            old(self).pending_spec() == Some(EngineCall::WritePage),
        ensures
            final(self).wf(),
            old(self).same_setting(&*final(self)),
            Self::counts_end(&*old(self), &*final(self)),
            final(self).end_of_stream() == old(self).end_of_stream(),
            r == VorbisError::Io(error),
            final(self).units() == old(self).units(),
            final(self).phase() == old(self).phase_after_failure(),
            final(self).resources() == old(self).resources(),
            final(self).stream().pump() == PagePump::Idle,
    {
        self.phase = if self.is_building() {
            EncoderPhase::Failed
        } else if self.end_of_stream {
            EncoderPhase::Finished
        } else {
            EncoderPhase::Ready
        };
        self.stream.abort();
        VorbisError::Io(error)
    }

    /// Starts submitting an audio block, given the length of each channel's
    /// sample vector. The block must hold one vector per configured channel
    /// and all vectors must have the same length; otherwise the error comes
    /// before any engine call and the session is left as it was. An empty
    /// block needs no engine call either.
    pub fn encode_audio_block(&mut self, channel_lengths: &Vec<usize>) -> (r: Result<(), VorbisError>)
        requires
            old(self).wf(),
            old(self).phase() == EncoderPhase::Ready,
        ensures
            final(self).wf(),
            Self::counts_end(&*old(self), &*final(self)),
            block_check(old(self).channels_spec(), channel_lengths@) is Err ==> r == Err::<(), VorbisError>(
                block_check(old(self).channels_spec(), channel_lengths@)->Err_0,
            ) && *final(self) == *old(self),
            block_check(old(self).channels_spec(), channel_lengths@) == Ok::<usize, VorbisError>(0) ==> r is Ok
                && *final(self) == *old(self),
            block_check(old(self).channels_spec(), channel_lengths@) is Ok && block_check(
                old(self).channels_spec(),
                channel_lengths@,
            )->Ok_0 > 0 ==> {
                &&& r is Ok
                &&& old(self).same_setting(&*final(self))
                &&& final(self).phase() == EncoderPhase::RequestBuffer
                &&& final(self).block_samples() == block_check(
                    old(self).channels_spec(),
                    channel_lengths@,
                )->Ok_0 as i32
                &&& final(self).resources() == old(self).resources()
                &&& final(self).stream() == old(self).stream()
                &&& final(self).end_of_stream() == old(self).end_of_stream()
                &&& final(self).units() == old(self).units()
            },
    {
        let n = channel_lengths.len();
        if n != self.channels as usize {
            return Err(VorbisError::InvalidAudioBlockChannelCount { expected: self.channels as usize, actual: n });
        }
        let first = channel_lengths[0];
        let mut i: usize = 1;
        while i < n
            invariant
                1 <= i <= n,
                n == channel_lengths@.len(),
                n == old(self).channels_spec() as int,
                *self == *old(self),
                self.wf(),
                first == channel_lengths@[0],
                first_unequal(channel_lengths@, 0) == first_unequal(channel_lengths@, i as int),
            decreases n - i,
        {
            if channel_lengths[i] != first {
                return Err(
                    VorbisError::InvalidAudioBlockSampleCount { expected: first, actual: channel_lengths[i] },
                );
            }
            i = i + 1;
        }
        if first > MAX_BLOCK_SAMPLES {
            return Err(VorbisError::RangeExceeded);
        }
        if first == 0 {
            return Ok(());
        }
        self.block_samples = first as i32;
        self.phase = EncoderPhase::RequestBuffer;
        Ok(())
    }

    /// Starts signalling the end of the stream and draining what remains.
    pub fn finish(&mut self)
        requires
            old(self).wf(),
            old(self).phase() == EncoderPhase::Ready,
        ensures
            final(self).wf(),
            old(self).same_setting(&*final(self)),
            Self::counts_end(&*old(self), &*final(self)),
            final(self).pending_spec() == Some(EngineCall::AnalysisWrote { samples: 0 }),
            final(self).phase() == EncoderPhase::SignalWritten,
            final(self).end_of_stream(),
            final(self).resources() == old(self).resources(),
            final(self).stream() == old(self).stream(),
            final(self).units() == old(self).units(),
    {
        self.block_samples = 0;
        self.end_of_stream = true;
        self.end_signals = Ghost(self.end_signals@ + 1);
        self.phase = EncoderPhase::SignalWritten;
    }

    /// Starts tearing the session down. A session that is ready and has not
    /// ended its stream ends it now, best effort; any other is left as it is.
    pub fn begin_teardown(&mut self)
        requires
            old(self).wf(),
            old(self).pending_spec() is None,
        ensures
            final(self).wf(),
            Self::counts_end(&*old(self), &*final(self)),
            old(self).phase() == EncoderPhase::Ready ==> {
                &&& old(self).same_setting(&*final(self))
                &&& final(self).pending_spec() == Some(EngineCall::AnalysisWrote { samples: 0 })
                &&& final(self).phase() == EncoderPhase::SignalWritten
                &&& final(self).end_of_stream()
                &&& final(self).resources() == old(self).resources()
                &&& final(self).stream() == old(self).stream()
                &&& final(self).units() == old(self).units()
            },
            old(self).phase() != EncoderPhase::Ready ==> *final(self) == *old(self),
    {
        if self.phase == EncoderPhase::Ready {
            self.finish();
        }
    }

    /// Ends the session: returns the calls that release every live native
    /// block, in teardown order, and marks them released.
    pub fn release(&mut self) -> (r: Vec<EngineCall>)
        requires
            old(self).wf(),
            old(self).pending_spec() is None,
        ensures
            final(self).wf(),
            old(self).same_setting(&*final(self)),
            Self::counts_end(&*old(self), &*final(self)),
            r@ == old(self).resources().teardown_spec(),
            final(self).resources().is_empty(),
            final(self).phase() == EncoderPhase::Released,
            final(self).pending_spec() is None,
            final(self).end_of_stream() == old(self).end_of_stream(),
            final(self).units() == old(self).units(),
    {
        let r = self.resources.teardown_calls();
        self.resources = NativeResources::new();
        self.phase = EncoderPhase::Released;
        r
    }

    /// Takes the sink back from the session.
    pub fn take_sink(&mut self) -> (r: Option<W>)
        ensures
            r == old(self).sink_spec(),
            final(self).sink_spec() is None,
            old(self).same_but_sink(&*final(self)),
            old(self).wf() ==> final(self).wf(),
    {
        self.sink.take()
    }

    /// The sink, for writing pages to it.
    pub fn sink_mut(&mut self) -> (r: &mut Option<W>)
        ensures
            *r == old(self).sink_spec(),
            final(self).sink_spec() == *final(r),
            old(self).same_but_sink(&*final(self)),
            old(self).wf() ==> final(self).wf(),
    {
        &mut self.sink
    }

    /// The configured channel count.
    pub fn channels(&self) -> (r: u8)
        ensures
            r == self.channels_spec(),
    {
        self.channels
    }

    /// The comment pair at `index`, for adding it to the engine's comment list.
    pub fn comment_pair(&self, index: usize) -> (r: &(String, String))
        requires
            index < self.comments().len(),
        ensures
            *r == self.comments()[index as int],
    {
        &self.comments[index]
    }

    /// How many comment pairs the comments header holds.
    pub fn comment_count(&self) -> (r: usize)
        ensures
            r == self.comments().len(),
    {
        self.comments.len()
    }

    /// Where the session stands.
    pub fn current_phase(&self) -> (r: EncoderPhase)
        ensures
            r == self.phase(),
    {
        self.phase
    }
}

/// The stream holds the three header units first, in order (identification,
/// comments, setup), then audio units only; and no audio unit was submitted
/// before the header units were flushed to pages of their own, so the first
/// audio unit starts a fresh page.
pub proof fn lemma_units_in_stream_order<W>(s: &VorbisEncoder<W>)
    requires
        s.wf(),
    ensures
        in_stream_order(s.units()),
        forall|i: int| 3 <= i < s.units().len() ==> #[trigger] s.units()[i] == UnitSource::Audio,
        s.units().len() > 3 ==> s.headers_flushed() && s.units().subrange(0, 3) == seq![
            UnitSource::Header(0),
            UnitSource::Header(1),
            UnitSource::Header(2),
        ],
{
    if s.units().len() > 3 {
        assert(s.units().subrange(0, 3) =~= seq![
            UnitSource::Header(0),
            UnitSource::Header(1),
            UnitSource::Header(2),
        ]);
    }
}

/// Whatever steps a session goes through, it hands out the end-of-stream
/// call at most once: a session whose stream has ended (by `finish` or by
/// teardown) never signals the end again.
pub proof fn lemma_end_of_stream_at_most_once<W>(before: &VorbisEncoder<W>, after: &VorbisEncoder<W>)
    requires
        before.wf(),
        after.wf(),
        before.end_of_stream(),
        VorbisEncoder::<W>::counts_end(before, after),
    ensures
        !VorbisEncoder::<W>::hands_out_end(before, after),
        before.end_signals() == 1,
{
}

} // verus!
