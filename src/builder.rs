use vstd::prelude::*;
use crate::encoder::{EncoderPhase, VorbisEncoder};
use crate::engine::{EngineCall, is_setup_call};
use crate::error::VorbisError;
use crate::strategy::{VorbisBitrateManagementStrategy, select_setup_calls, setup_calls, strategy_in_range};

verus! {

/// Relies on getrandom::getrandom: it fills the buffer from the operating
/// system's random source, or returns that source's error.
#[verifier::external_body]
fn random_stream_serial() -> (r: Result<i32, getrandom::Error>) {
    let mut buf = [0u8; 4];
    getrandom::getrandom(&mut buf)?;
    Ok(i32::from_ne_bytes(buf))
}

/// The serial that follows `serial` when serials are counted up, wrapping
/// from the largest value to the smallest.
pub open spec fn next_serial(serial: i32) -> i32 {
    if serial == i32::MAX {
        i32::MIN
    } else {
        (serial + 1) as i32
    }
}

/// The serial after renewal: a fresh serial is kept; a used one is replaced
/// by the random draw when serials are randomized and a draw came, and by the
/// next serial otherwise.
pub open spec fn renewed_serial(serial: i32, fresh: bool, randomize: bool, draw: Option<i32>) -> i32 {
    if fresh {
        serial
    } else if randomize && draw is Some {
        draw->Some_0
    } else {
        next_serial(serial)
    }
}

/// The first position from `from` on that holds a NUL character, or the
/// length of `s` if there is none.
pub open spec fn first_nul(s: Seq<char>, from: int) -> int
    decreases s.len() - from,
{
    if from < 0 || from >= s.len() {
        s.len() as int
    } else if s[from] == '\0' {
        from
    } else {
        first_nul(s, from + 1)
    }
}

/// Whether a string may stand in a comment: it holds no NUL character.
pub open spec fn valid_comment_string(s: Seq<char>) -> bool {
    first_nul(s, 0) == s.len()
}

/// Whether both strings of a tag-value pair may stand in a comment.
pub open spec fn valid_comment_pair(p: (String, String)) -> bool {
    valid_comment_string(p.0@) && valid_comment_string(p.1@)
}

/// The position of the first NUL character of `s`, if any.
pub fn find_nul(s: &str) -> (r: Option<usize>)
    ensures
        valid_comment_string(s@) ==> r is None,
        !valid_comment_string(s@) ==> r == Some(first_nul(s@, 0) as usize),
{
    let n = s.unicode_len();
    let mut i: usize = 0;
    while i < n
        invariant
            0 <= i <= n,
            n == s@.len(),
            first_nul(s@, 0) == first_nul(s@, i as int),
        decreases n - i,
    {
        if s.get_char(i) == '\0' {
            return Some(i);
        }
        i = i + 1;
    }
    None
}

/// Builds encoder sessions with configurable encoding and stream options.
pub struct VorbisEncoderBuilder<W> {
    sampling_frequency: u32,
    channels: u8,
    sink: Option<W>,
    stream_serial: i32,
    stream_serial_is_fresh: bool,
    randomize_stream_serials: bool,
    bitrate_management_strategy: VorbisBitrateManagementStrategy,
    comments: Vec<(String, String)>,
    minimum_page_data_size: Option<u16>,
}

impl<W> VorbisEncoderBuilder<W> {
    /// The sampling frequency, in Hz.
    pub closed spec fn sampling_frequency_spec(&self) -> u32 {
        self.sampling_frequency
    }

    /// The channel count.
    pub closed spec fn channels_spec(&self) -> u8 {
        self.channels
    }

    /// The sink the next session will write to, if one is set.
    pub closed spec fn sink_spec(&self) -> Option<W> {
        self.sink
    }

    /// The serial the next session's logical stream gets, unless renewed.
    pub closed spec fn serial(&self) -> i32 {
        self.stream_serial
    }

    /// Whether the serial is fresh: not used by a session yet.
    pub closed spec fn serial_is_fresh(&self) -> bool {
        self.stream_serial_is_fresh
    }

    /// Whether a used serial is replaced by a random one.
    pub closed spec fn randomizes_serials(&self) -> bool {
        self.randomize_stream_serials
    }

    /// The bitrate strategy.
    pub closed spec fn strategy(&self) -> VorbisBitrateManagementStrategy {
        self.bitrate_management_strategy
    }

    /// The comment pairs.
    pub closed spec fn comments(&self) -> Seq<(String, String)> {
        self.comments@
    }

    /// The minimum page payload, if any.
    pub closed spec fn minimum_page_data_size_spec(&self) -> Option<u16> {
        self.minimum_page_data_size
    }

    /// The builder's invariant: a signal has at least one channel and a
    /// positive sampling frequency.
    pub closed spec fn wf(&self) -> bool {
        self.sampling_frequency > 0 && self.channels > 0
    }

    /// A builder in its initial configuration.
    pub open spec fn initial(&self, sampling_frequency: u32, channels: u8, sink: W, serial: i32, randomize: bool) -> bool {
        &&& self.wf()
        &&& self.sampling_frequency_spec() == sampling_frequency
        &&& self.channels_spec() == channels
        &&& self.sink_spec() == Some(sink)
        &&& self.serial() == serial
        &&& self.serial_is_fresh()
        &&& self.randomizes_serials() == randomize
        &&& self.strategy() == (VorbisBitrateManagementStrategy::QualityVbr { target_quality_milli: 500 })
        &&& self.comments().len() == 0
        &&& self.minimum_page_data_size_spec() is None
    }

    /// Everything but the listed setting is the same in both.
    pub open spec fn same_except_serial(&self, other: &Self) -> bool {
        &&& other.sampling_frequency_spec() == self.sampling_frequency_spec()
        &&& other.channels_spec() == self.channels_spec()
        &&& other.strategy() == self.strategy()
        &&& other.comments() == self.comments()
        &&& other.minimum_page_data_size_spec() == self.minimum_page_data_size_spec()
    }

    /// This builder with another sampling frequency.
    pub closed spec fn with_sampling_frequency(self, sampling_frequency: u32) -> Self {
        VorbisEncoderBuilder { sampling_frequency, ..self }
    }

    /// This builder with another channel count.
    pub closed spec fn with_channels(self, channels: u8) -> Self {
        VorbisEncoderBuilder { channels, ..self }
    }

    /// This builder with another sink.
    pub closed spec fn with_sink(self, sink: Option<W>) -> Self {
        VorbisEncoderBuilder { sink, ..self }
    }

    /// This builder with a serial set by hand: fresh, and counted up from later.
    pub closed spec fn with_fixed_serial(self, stream_serial: i32) -> Self {
        VorbisEncoderBuilder {
            stream_serial,
            stream_serial_is_fresh: true,
            randomize_stream_serials: false,
            ..self
        }
    }

    /// This builder with a renewed, fresh serial.
    pub closed spec fn with_fresh_serial(self, stream_serial: i32) -> Self {
        VorbisEncoderBuilder { stream_serial, stream_serial_is_fresh: true, ..self }
    }

    /// This builder with another bitrate strategy.
    pub closed spec fn with_strategy(self, bitrate_management_strategy: VorbisBitrateManagementStrategy) -> Self {
        VorbisEncoderBuilder { bitrate_management_strategy, ..self }
    }

    /// This builder with another minimum page payload.
    pub closed spec fn with_minimum_page_data_size(self, minimum_page_data_size: Option<u16>) -> Self {
        VorbisEncoderBuilder { minimum_page_data_size, ..self }
    }

    fn with_serial(sampling_frequency: u32, channels: u8, sink: W, stream_serial: i32, randomize: bool) -> (r: Self)
        requires
            sampling_frequency > 0,
            channels > 0,
        ensures
            r.initial(sampling_frequency, channels, sink, stream_serial, randomize),
    {
        VorbisEncoderBuilder {
            sampling_frequency,
            channels,
            sink: Some(sink),
            stream_serial,
            stream_serial_is_fresh: true,
            randomize_stream_serials: randomize,
            bitrate_management_strategy: VorbisBitrateManagementStrategy::QualityVbr { target_quality_milli: 500 },
            comments: Vec::new(),
            minimum_page_data_size: None,
        }
    }

    /// A builder for a signal with the given sampling frequency and channel
    /// count, writing to `sink`, whose stream serials are random. Fails when no
    /// random serial can be drawn.
    pub fn new(sampling_frequency: u32, channels: u8, sink: W) -> (r: Result<Self, VorbisError>)
        requires
            sampling_frequency > 0,
            channels > 0,
        ensures
            r is Ok ==> r->Ok_0.initial(sampling_frequency, channels, sink, r->Ok_0.serial(), true),
            r is Err ==> r->Err_0 is Rng,
    {
        match random_stream_serial() {
            Ok(serial) => Ok(Self::with_serial(sampling_frequency, channels, sink, serial, true)),
            Err(e) => Err(VorbisError::Rng(e)),
        }
    }

    /// A builder for a signal with the given sampling frequency and channel
    /// count, writing to `sink`, whose first stream serial is `stream_serial`;
    /// later serials count up from it.
    pub fn new_with_serial(sampling_frequency: u32, channels: u8, sink: W, stream_serial: i32) -> (r: Self)
        requires
            sampling_frequency > 0,
            channels > 0,
        ensures
            r.initial(sampling_frequency, channels, sink, stream_serial, false),
    {
        Self::with_serial(sampling_frequency, channels, sink, stream_serial, false)
    }

    /// Sets the sampling frequency of the signal to encode, in Hz.
    pub fn sampling_frequency(&mut self, sampling_frequency: u32)
        requires
            old(self).wf(),
            sampling_frequency > 0,
        ensures
            final(self).wf(),
            final(self).sampling_frequency_spec() == sampling_frequency,
            *final(self) == old(self).with_sampling_frequency(sampling_frequency),
    {
        self.sampling_frequency = sampling_frequency;
    }

    /// Sets the channel count of the signal to encode.
    pub fn channels(&mut self, channels: u8)
        requires
            old(self).wf(),
            channels > 0,
        ensures
            final(self).wf(),
            final(self).channels_spec() == channels,
            *final(self) == old(self).with_channels(channels),
    {
        self.channels = channels;
    }

    /// Sets the sink the next session writes to; needed again after each build.
    pub fn sink(&mut self, sink: W)
        ensures
            final(self).sink_spec() == Some(sink),
            *final(self) == old(self).with_sink(Some(sink)),
    {
        self.sink = Some(sink);
    }

    /// Sets the serial of the next session's logical stream. The serial counts
    /// as fresh, so the next build keeps it, and later serials count up from it
    /// instead of being random.
    pub fn stream_serial(&mut self, stream_serial: i32)
        ensures
            final(self).serial() == stream_serial,
            final(self).serial_is_fresh(),
            !final(self).randomizes_serials(),
            *final(self) == old(self).with_fixed_serial(stream_serial),
    {
        self.stream_serial = stream_serial;
        self.stream_serial_is_fresh = true;
        self.randomize_stream_serials = false;
    }

    /// The serial the next session's logical stream gets, unless renewed.
    pub fn current_stream_serial(&self) -> (r: i32)
        ensures
            r == self.serial(),
    {
        self.stream_serial
    }

    /// Sets the bitrate management strategy.
    pub fn bitrate_management_strategy(&mut self, bitrate_management_strategy: VorbisBitrateManagementStrategy)
        ensures
            final(self).strategy() == bitrate_management_strategy,
            *final(self) == old(self).with_strategy(bitrate_management_strategy),
    {
        self.bitrate_management_strategy = bitrate_management_strategy;
    }

    /// Sets the minimum payload of each page, except the header pages, which
    /// end early as the format requires. `None` lets the engine decide.
    pub fn minimum_page_data_size(&mut self, minimum_page_data_size: Option<u16>)
        ensures
            final(self).minimum_page_data_size_spec() == minimum_page_data_size,
            *final(self) == old(self).with_minimum_page_data_size(minimum_page_data_size),
    {
        self.minimum_page_data_size = minimum_page_data_size;
    }

    /// Adds one tag-value pair to the comments header. A tag or value that
    /// holds a NUL character is refused, and nothing is added.
    pub fn comment_tag(&mut self, tag: &str, value: &str) -> (r: Result<(), VorbisError>)
        ensures
            !valid_comment_string(tag@) ==> r == Err::<(), VorbisError>(
                VorbisError::InvalidCommentString { nul_position: first_nul(tag@, 0) as usize },
            ) && *final(self) == *old(self),
            valid_comment_string(tag@) && !valid_comment_string(value@) ==> r == Err::<(), VorbisError>(
                VorbisError::InvalidCommentString { nul_position: first_nul(value@, 0) as usize },
            ) && *final(self) == *old(self),
            valid_comment_string(tag@) && valid_comment_string(value@) ==> {
                &&& r is Ok
                &&& final(self).comments().len() == old(self).comments().len() + 1
                &&& final(self).comments().drop_last() == old(self).comments()
                &&& final(self).comments().last().0@ == tag@
                &&& final(self).comments().last().1@ == value@
                &&& final(self).sink_spec() == old(self).sink_spec()
                &&& final(self).serial() == old(self).serial()
                &&& final(self).serial_is_fresh() == old(self).serial_is_fresh()
                &&& final(self).randomizes_serials() == old(self).randomizes_serials()
                &&& (old(self).wf() ==> final(self).wf())
                &&& final(self).sampling_frequency_spec() == old(self).sampling_frequency_spec()
                &&& final(self).channels_spec() == old(self).channels_spec()
                &&& final(self).strategy() == old(self).strategy()
                &&& final(self).minimum_page_data_size_spec() == old(self).minimum_page_data_size_spec()
            },
    {
        if let Some(p) = find_nul(tag) {
            return Err(VorbisError::InvalidCommentString { nul_position: p });
        }
        if let Some(p) = find_nul(value) {
            return Err(VorbisError::InvalidCommentString { nul_position: p });
        }
        self.comments.push((tag.to_owned(), value.to_owned()));
        assert(self.comments@.drop_last() =~= old(self).comments@);
        Ok(())
    }

    /// Adds several tag-value pairs, in order, stopping at the first refused
    /// one; the pairs before it stay added.
    pub fn comment_tags(&mut self, tags: &Vec<(String, String)>) -> (r: Result<(), VorbisError>)
        ensures
            r is Ok ==> {
                &&& final(self).comments().len() == old(self).comments().len() + tags@.len()
                &&& final(self).comments().subrange(0, old(self).comments().len() as int) == old(self).comments()
                &&& forall|i: int|
                    0 <= i < tags@.len() ==> (#[trigger] final(self).comments()[old(self).comments().len() + i]).0@
                        == tags@[i].0@ && final(self).comments()[old(self).comments().len() + i].1@
                        == tags@[i].1@
            },
            r is Ok <==> forall|i: int| 0 <= i < tags@.len() ==> #[trigger] valid_comment_pair(tags@[i]),
            r is Err ==> r->Err_0 is InvalidCommentString,
            final(self).sink_spec() == old(self).sink_spec(),
            final(self).serial() == old(self).serial(),
            final(self).serial_is_fresh() == old(self).serial_is_fresh(),
            final(self).randomizes_serials() == old(self).randomizes_serials(),
            old(self).wf() ==> final(self).wf(),
            final(self).sampling_frequency_spec() == old(self).sampling_frequency_spec(),
            final(self).channels_spec() == old(self).channels_spec(),
            final(self).strategy() == old(self).strategy(),
            final(self).minimum_page_data_size_spec() == old(self).minimum_page_data_size_spec(),
    {
        let ghost start = self.comments@;
        let mut i: usize = 0;
        while i < tags.len()
            invariant
                0 <= i <= tags@.len(),
                self.comments@.len() == start.len() + i,
                self.comments@.subrange(0, start.len() as int) == start,
                start == old(self).comments@,
                forall|j: int|
                    0 <= j < i ==> (#[trigger] self.comments@[start.len() + j]).0@ == tags@[j].0@
                        && self.comments@[start.len() + j].1@ == tags@[j].1@,
                forall|j: int| 0 <= j < i ==> #[trigger] valid_comment_pair(tags@[j]),
                self.sink == old(self).sink,
                self.stream_serial == old(self).stream_serial,
                self.stream_serial_is_fresh == old(self).stream_serial_is_fresh,
                self.randomize_stream_serials == old(self).randomize_stream_serials,
                self.sampling_frequency == old(self).sampling_frequency,
                self.channels == old(self).channels,
                self.bitrate_management_strategy == old(self).bitrate_management_strategy,
                self.minimum_page_data_size == old(self).minimum_page_data_size,
            decreases tags@.len() - i,
        {
            let ghost prev = self.comments@;
            let tag = tags[i].0.as_str();
            let value = tags[i].1.as_str();
            assert(tag@ == tags@[i as int].0@ && value@ == tags@[i as int].1@);
            let r = self.comment_tag(tag, value);
            if r.is_err() {
                assert(!valid_comment_pair(tags@[i as int]));
                return r;
            }
            assert(valid_comment_string(tag@) && valid_comment_string(value@));
            assert(valid_comment_pair(tags@[i as int]));
            assert(self.comments@.drop_last() == prev);
            assert forall|j: int| 0 <= j < i implies #[trigger] self.comments@[start.len() + j] == prev[start.len()
                + j] by {
                assert(self.comments@.drop_last()[start.len() + j] == self.comments@[start.len() + j]);
            }
            assert(self.comments@[start.len() + i] == self.comments@.last());
            assert(self.comments@.subrange(0, start.len() as int) =~= start) by {
                assert(self.comments@.drop_last().subrange(0, start.len() as int) == start);
            }
            i = i + 1;
        }
        Ok(())
    }

    /// Replaces a used serial: by a random one when serials are randomized
    /// and a draw came, else by the next one. A fresh serial is kept. Either
    /// way the serial is fresh afterwards.
    pub fn renew_stream_serial_with(&mut self, draw: Option<i32>)
        ensures
            final(self).serial() == renewed_serial(
                old(self).serial(),
                old(self).serial_is_fresh(),
                old(self).randomizes_serials(),
                draw,
            ),
            final(self).serial_is_fresh(),
            *final(self) == old(self).with_fresh_serial(final(self).serial()),
    {
        if !self.stream_serial_is_fresh {
            self.stream_serial_is_fresh = true;
            if self.randomize_stream_serials {
                if let Some(serial) = draw {
                    self.stream_serial = serial;
                    return;
                }
            }
            self.stream_serial = self.stream_serial.wrapping_add(1);
        }
    }

    fn renew_stream_serial(&mut self) -> (draw: Ghost<Option<i32>>)
        ensures
            final(self).serial() == renewed_serial(
                old(self).serial(),
                old(self).serial_is_fresh(),
                old(self).randomizes_serials(),
                draw@,
            ),
            final(self).serial_is_fresh(),
            *final(self) == old(self).with_fresh_serial(final(self).serial()),
    {
        let draw = if !self.stream_serial_is_fresh && self.randomize_stream_serials {
            match random_stream_serial() {
                Ok(serial) => Some(serial),
                Err(_) => None,
            }
        } else {
            None
        };
        self.renew_stream_serial_with(draw);
        Ghost(draw)
    }

    fn copy_comments(&self) -> (r: Vec<(String, String)>)
        ensures
            r@ == self.comments(),
    {
        let mut r: Vec<(String, String)> = Vec::new();
        let mut i: usize = 0;
        while i < self.comments.len()
            invariant
                0 <= i <= self.comments@.len(),
                r@ == self.comments@.subrange(0, i as int),
            decreases self.comments@.len() - i,
        {
            let pair = (self.comments[i].0.clone(), self.comments[i].1.clone());
            r.push(pair);
            assert(r@ =~= self.comments@.subrange(0, i + 1));
            i = i + 1;
        }
        assert(r@ =~= self.comments@);
        r
    }

    /// Starts a session with the configured settings. The sink goes to the
    /// session, so a new one must be set before the next build; without one
    /// the build fails and the builder stays as it was. A used serial is
    /// renewed first, and the serial counts as used once a session has it.
    /// A sampling frequency or bitrate the engines cannot hold fails with
    /// `RangeExceeded` before any engine call. The session then builds itself:
    /// its first call opens the logical stream.
    pub fn build(&mut self) -> (r: Result<VorbisEncoder<W>, VorbisError>)
        requires
            old(self).wf(),
        ensures
            final(self).wf(),
            old(self).sink_spec() is None ==> (r matches Err(VorbisError::ConsumedEncoderBuilderSink))
                && *final(self) == *old(self),
            old(self).sink_spec() is Some ==> {
                &&& final(self).sink_spec() is None
                &&& exists|draw: Option<i32>|
                    final(self).serial() == renewed_serial(
                        old(self).serial(),
                        old(self).serial_is_fresh(),
                        old(self).randomizes_serials(),
                        draw,
                    )
                &&& old(self).same_except_serial(&*final(self))
                &&& final(self).randomizes_serials() == old(self).randomizes_serials()
            },
            old(self).sink_spec() is Some && !strategy_in_range(old(self).strategy(), old(self).sampling_frequency_spec())
                ==> (r matches Err(VorbisError::RangeExceeded)) && final(self).serial_is_fresh(),
            old(self).sink_spec() is Some && strategy_in_range(old(self).strategy(), old(self).sampling_frequency_spec())
                ==> {
                &&& r is Ok
                &&& !final(self).serial_is_fresh()
                &&& r->Ok_0.wf()
                &&& r->Ok_0.phase() == EncoderPhase::OpenStream
                &&& r->Ok_0.pending_spec() == Some(EngineCall::StreamInit { serial: final(self).serial() })
                &&& r->Ok_0.sink_spec() == old(self).sink_spec()
                &&& r->Ok_0.channels_spec() == old(self).channels_spec()
                &&& r->Ok_0.setup() == setup_calls(
                    old(self).strategy(),
                    old(self).sampling_frequency_spec(),
                    old(self).channels_spec(),
                )
                &&& r->Ok_0.comments() == old(self).comments()
                &&& r->Ok_0.minimum_page_data_size_spec() == old(self).minimum_page_data_size_spec()
                &&& r->Ok_0.resources().is_empty()
                &&& r->Ok_0.end_signals() == 0
                &&& r->Ok_0.units().len() == 0
            },
    {
        let sink = match self.sink.take() {
            Some(sink) => sink,
            None => {
                return Err(VorbisError::ConsumedEncoderBuilderSink);
            },
        };
        let draw = self.renew_stream_serial();
        assert(self.serial() == renewed_serial(
            old(self).serial(),
            old(self).serial_is_fresh(),
            old(self).randomizes_serials(),
            draw@,
        ));
        let setup = match select_setup_calls(self.bitrate_management_strategy, self.sampling_frequency, self.channels) {
            Ok(setup) => setup,
            Err(e) => {
                return Err(e);
            },
        };
        proof {
            assert forall|i: int| 0 <= i < setup@.len() implies is_setup_call(#[trigger] setup@[i]) by {
                assert(setup@ == setup_calls(self.strategy(), self.sampling_frequency_spec(), self.channels_spec()));
            }
        }
        let comments = self.copy_comments();
        let encoder = VorbisEncoder::start(
            sink,
            self.stream_serial,
            self.channels,
            setup,
            comments,
            self.minimum_page_data_size,
        );
        self.stream_serial_is_fresh = false;
        Ok(encoder)
    }
}

} // verus!
