use vstd::prelude::*;
use crate::error::{VorbisLibrary, VorbisError, VorbisLibraryError, library_error};

verus! {

/// The most samples per channel asked for by one decode call.
pub const DECODE_BLOCK_SAMPLES: i32 = 2048;

/// The errno value reported for a failed read that carries no OS error code.
pub const UNKNOWN_READ_ERRNO: i32 = 2147483647;

/// The outcome of the engine's open call: its status and, on success, the
/// channel count and sampling frequency it parsed from the headers.
pub open spec fn open_outcome(open_status: i32, channels: i32, sampling_frequency: i64) -> Result<(u8, u32), VorbisError> {
    if open_status < 0 {
        Err(library_error(VorbisLibrary::VorbisFile, "ov_open_callbacks", open_status))
    } else if 1 <= channels <= 255 && 1 <= sampling_frequency <= u32::MAX {
        Ok((channels as u8, sampling_frequency as u32))
    } else {
        Err(VorbisError::RangeExceeded)
    }
}

/// The outcome of one decode call, given the sample count per channel it
/// returned and the index of the logical stream the samples belong to: the
/// sample count of a new block, `None` at the end of the stream, or the error.
pub open spec fn read_outcome(samples_read: i32, current_bitstream: i32) -> Result<Option<usize>, VorbisError> {
    if samples_read < 0 {
        Err(library_error(VorbisLibrary::VorbisFile, "ov_read_float", samples_read))
    } else if samples_read == 0 {
        Ok(None)
    } else if current_bitstream != 0 {
        Err(VorbisError::UnsupportedStreamChaining)
    } else {
        Ok(Some(samples_read as usize))
    }
}

/// The generation that follows `g`, wrapping to zero.
pub open spec fn next_generation(g: u64) -> u64 {
    if g == u64::MAX {
        0
    } else {
        (g + 1) as u64
    }
}

/// A decoder session over a non-chained stream. It holds what the engine
/// parsed when the stream was opened and follows the decode calls: each one
/// that returns samples makes a new block current, which invalidates the one
/// before; the first that returns none ends the stream for good.
#[derive(Debug)]
pub struct VorbisDecoder {
    channels: u8,
    sampling_frequency: u32,
    ended: bool,
    generation: u64,
}

impl VorbisDecoder {
    /// The channel count of the decoded signal.
    pub closed spec fn channels_spec(&self) -> u8 {
        self.channels
    }

    /// The sampling frequency of the decoded signal, in Hz.
    pub closed spec fn sampling_frequency_spec(&self) -> u32 {
        self.sampling_frequency
    }

    /// Whether a decode call has returned no samples.
    pub closed spec fn ended(&self) -> bool {
        self.ended
    }

    /// Counts the blocks decoded so far, wrapping; identifies the current block.
    pub closed spec fn generation(&self) -> u64 {
        self.generation
    }

    /// The session's invariant.
    pub closed spec fn wf(&self) -> bool {
        self.channels > 0 && self.sampling_frequency > 0
    }

    /// Opens a session from what the engine's open call returned. A failing
    /// status fails with the mapped error; the caller then releases the source
    /// itself, as the engine did not take it. Header values outside the
    /// format's limits fail with `RangeExceeded`.
    pub fn new(open_status: i32, channels: i32, sampling_frequency: i64) -> (r: Result<Self, VorbisError>)
        ensures
            open_outcome(open_status, channels, sampling_frequency) is Err ==> r is Err && r->Err_0 == open_outcome(
                open_status,
                channels,
                sampling_frequency,
            )->Err_0,
            open_outcome(open_status, channels, sampling_frequency) is Ok ==> {
                &&& r is Ok
                &&& r->Ok_0.wf()
                &&& r->Ok_0.channels_spec() == open_outcome(open_status, channels, sampling_frequency)->Ok_0.0
                &&& r->Ok_0.sampling_frequency_spec() == open_outcome(
                    open_status,
                    channels,
                    sampling_frequency,
                )->Ok_0.1
                &&& !r->Ok_0.ended()
                &&& r->Ok_0.generation() == 0
            },
    {
        if open_status < 0 {
            return Err(
                VorbisError::LibraryError(
                    VorbisLibraryError::from_status(VorbisLibrary::VorbisFile, "ov_open_callbacks", open_status),
                ),
            );
        }
        if 1 <= channels && channels <= 255 && 1 <= sampling_frequency && sampling_frequency <= 4294967295 {
            Ok(VorbisDecoder {
                channels: channels as u8,
                sampling_frequency: sampling_frequency as u32,
                ended: false,
                generation: 0,
            })
        } else {
            Err(VorbisError::RangeExceeded)
        }
    }

    /// How many samples per channel the next decode call asks for; `None`
    /// once the stream has ended, when no call is needed.
    pub fn read_request(&self) -> (r: Option<i32>)
        ensures
            self.ended() ==> r is None,
            !self.ended() ==> r == Some(DECODE_BLOCK_SAMPLES),
    {
        if self.ended {
            None
        } else {
            Some(DECODE_BLOCK_SAMPLES)
        }
    }

    /// Takes what a decode call returned. Samples from any logical stream but
    /// the first are refused, as chained streams are not supported. Once the
    /// stream has ended, every later decode ends again without a call.
    pub fn decode_audio_block(&mut self, samples_read: i32, current_bitstream: i32) -> (r: Result<
        Option<usize>,
        VorbisError,
    >)
        ensures
            final(self).channels_spec() == old(self).channels_spec(),
            final(self).sampling_frequency_spec() == old(self).sampling_frequency_spec(),
            old(self).wf() ==> final(self).wf(),
            old(self).ended() ==> (r matches Ok(None)) && *final(self) == *old(self),
            !old(self).ended() ==> r == read_outcome(samples_read, current_bitstream),
            !old(self).ended() && (r matches Ok(Some(_))) ==> !final(self).ended() && final(self).generation()
                == next_generation(old(self).generation()),
            !old(self).ended() && (r matches Ok(None)) ==> final(self).ended() && final(self).generation()
                == old(self).generation(),
            r is Err ==> *final(self) == *old(self),
    {
        if self.ended {
            return Ok(None);
        }
        if samples_read < 0 {
            return Err(
                VorbisError::LibraryError(
                    VorbisLibraryError::from_status(VorbisLibrary::VorbisFile, "ov_read_float", samples_read),
                ),
            );
        }
        if samples_read == 0 {
            self.ended = true;
            return Ok(None);
        }
        if current_bitstream != 0 {
            return Err(VorbisError::UnsupportedStreamChaining);
        }
        self.generation = self.generation.wrapping_add(1);
        Ok(Some(samples_read as usize))
    }

    /// Whether a block handed out at `generation` is still the current one.
    pub fn is_current(&self, generation: u64) -> (r: bool)
        ensures
            r == (generation == self.generation() && !self.ended()),
    {
        generation == self.generation && !self.ended
    }

    /// The generation of the current block.
    pub fn block_generation(&self) -> (r: u64)
        ensures
            r == self.generation(),
    {
        self.generation
    }

    /// The channel count of the decoded signal.
    pub fn channels(&self) -> (r: u8)
        ensures
            r == self.channels_spec(),
    {
        self.channels
    }

    /// The sampling frequency of the decoded signal, in Hz.
    pub fn sampling_frequency(&self) -> (r: u32)
        ensures
            r == self.sampling_frequency_spec(),
    {
        self.sampling_frequency
    }
}

/// Whether the caller must release the byte source after the engine's open
/// call returned `open_status`. The engine takes the source only when it
/// accepts the stream, and then releases it itself when the decoder is
/// cleared; a source it rejected stays the caller's, to release exactly once.
pub fn caller_releases_source(open_status: i32) -> (r: bool)
    ensures
        r == (open_status < 0),
        r <==> open_outcome(open_status, 0, 0) matches Err(VorbisError::LibraryError(_)),
{
    open_status < 0
}

/// Chained streams are rejected: a decode call that returns samples of the
/// first logical stream always succeeds, and one that returns samples of any
/// other logical stream always fails with the stream-chaining error.
pub proof fn lemma_chained_streams_rejected(samples_read: i32, current_bitstream: i32)
    requires
        samples_read >= 0,
    ensures
        current_bitstream == 0 ==> read_outcome(samples_read, current_bitstream) is Ok,
        samples_read > 0 && current_bitstream != 0 ==> read_outcome(samples_read, current_bitstream)
            == Err::<Option<usize>, VorbisError>(VorbisError::UnsupportedStreamChaining),
{
}

/// What the engine's read callback returns, in the manner of `fread`: after a
/// read of `n` bytes, the count of whole items of `size` bytes, and no errno;
/// after a failed read, zero items and the errno to set, which is the OS error
/// code if the failure carries one and a non-zero stand-in otherwise, so the
/// engine can tell the failure from the end of the source.
pub fn read_callback_outcome(read: Result<usize, Option<i32>>, size: usize) -> (r: (usize, Option<i32>))
    requires
        size > 0,
    ensures
        read is Ok ==> r == (read->Ok_0 / size, None::<i32>),
        read matches Err(Some(code)) ==> r == (0usize, Some(code)),
        read matches Err(None) ==> r == (0usize, Some(UNKNOWN_READ_ERRNO)),
{
    match read {
        Ok(n) => (n / size, None),
        Err(Some(code)) => (0, Some(code)),
        Err(None) => (0, Some(UNKNOWN_READ_ERRNO)),
    }
}

} // verus!
