use vstd::prelude::*;

verus! {

/// Generic false condition.
pub const OV_FALSE: i32 = -1;
/// End of file reached.
pub const OV_EOF: i32 = -2;
/// Data interruption in the stream.
pub const OV_HOLE: i32 = -3;
/// Read error.
pub const OV_EREAD: i32 = -128;
/// Internal fault.
pub const OV_EFAULT: i32 = -129;
/// Not implemented.
pub const OV_EIMPL: i32 = -130;
/// Invalid argument.
pub const OV_EINVAL: i32 = -131;
/// Not Vorbis data.
pub const OV_ENOTVORBIS: i32 = -132;
/// Invalid stream header.
pub const OV_EBADHEADER: i32 = -133;
/// Vorbis version mismatch.
pub const OV_EVERSION: i32 = -134;
/// Not audio data.
pub const OV_ENOTAUDIO: i32 = -135;
/// Invalid packet.
pub const OV_EBADPACKET: i32 = -136;
/// Invalid link in the stream.
pub const OV_EBADLINK: i32 = -137;
/// Stream not seekable.
pub const OV_ENOSEEK: i32 = -138;

/// Declares std's `io::Error`, carried opaque by the I/O error variant.
#[verifier::external_type_specification]
#[verifier::external_body]
pub struct ExIoError(std::io::Error);

/// Declares getrandom's `Error`, carried opaque by the random-serial error variant.
#[verifier::external_type_specification]
#[verifier::external_body]
pub struct ExRandError(getrandom::Error);

/// The native engine that reported an error.
#[derive(PartialEq, Eq, Structural, Hash, Copy, Clone, Debug)]
pub enum VorbisLibrary {
    /// The Ogg container engine (`libogg`).
    Ogg,
    /// The Vorbis codec core (`libvorbis`).
    Vorbis,
    /// The Vorbis rate-control and encoder setup engine (`libvorbisenc`).
    VorbisEnc,
    /// The file-level decoding convenience engine (`vorbisfile`).
    VorbisFile,
}

/// The category of an engine-reported error.
#[derive(PartialEq, Eq, Structural, Hash, Copy, Clone, Debug)]
#[non_exhaustive]
pub enum VorbisLibraryErrorKind {
    /// Unexpected, generic false condition.
    False,
    /// Unexpected end of file reached in the input stream.
    Eof,
    /// Input stream data interruption, which the engine recovers from.
    Hole,
    /// Input stream I/O error.
    Io,
    /// Internal engine fault.
    InternalFault,
    /// Operation not implemented for the given parameters.
    NotImplemented,
    /// Invalid parameter.
    InvalidValue,
    /// The input is not Vorbis data.
    NotVorbis,
    /// Malformed stream headers.
    BadHeader,
    /// Unknown or incompatible Vorbis version.
    BadVorbisVersion,
    /// The stream cannot hold audio data.
    NotAudio,
    /// Invalid packet.
    BadPacket,
    /// Corrupted logical stream.
    BadLink,
    /// A seek was attempted on an unseekable stream.
    NotSeekable,
    /// Any other status; the raw code is kept.
    Other {
        /// The raw status code.
        result_code: i32,
    },
}

/// The kind that a codec-engine status code stands for.
pub open spec fn kind_of_code(code: i32) -> VorbisLibraryErrorKind {
    if code == OV_FALSE {
        VorbisLibraryErrorKind::False
    } else if code == OV_EOF {
        VorbisLibraryErrorKind::Eof
    } else if code == OV_HOLE {
        VorbisLibraryErrorKind::Hole
    } else if code == OV_EREAD {
        VorbisLibraryErrorKind::Io
    } else if code == OV_EFAULT {
        VorbisLibraryErrorKind::InternalFault
    } else if code == OV_EIMPL {
        VorbisLibraryErrorKind::NotImplemented
    } else if code == OV_EINVAL {
        VorbisLibraryErrorKind::InvalidValue
    } else if code == OV_ENOTVORBIS {
        VorbisLibraryErrorKind::NotVorbis
    } else if code == OV_EBADHEADER {
        VorbisLibraryErrorKind::BadHeader
    } else if code == OV_EVERSION {
        VorbisLibraryErrorKind::BadVorbisVersion
    } else if code == OV_ENOTAUDIO {
        VorbisLibraryErrorKind::NotAudio
    } else if code == OV_EBADPACKET {
        VorbisLibraryErrorKind::BadPacket
    } else if code == OV_EBADLINK {
        VorbisLibraryErrorKind::BadLink
    } else if code == OV_ENOSEEK {
        VorbisLibraryErrorKind::NotSeekable
    } else {
        VorbisLibraryErrorKind::Other { result_code: code }
    }
}

/// The kind recorded for a failing status of `library`: the container engine's
/// codes follow their own numbering and are always kept raw.
pub open spec fn kind_for(library: VorbisLibrary, code: i32) -> VorbisLibraryErrorKind {
    if library == VorbisLibrary::Ogg {
        VorbisLibraryErrorKind::Other { result_code: code }
    } else {
        kind_of_code(code)
    }
}

impl VorbisLibraryErrorKind {
    /// Maps a codec-engine status code to its error kind.
    pub fn from_code(result_code: i32) -> (r: Self)
        ensures
            r == kind_of_code(result_code),
    {
        match result_code {
            OV_FALSE => Self::False,
            OV_EOF => Self::Eof,
            OV_HOLE => Self::Hole,
            OV_EREAD => Self::Io,
            OV_EFAULT => Self::InternalFault,
            OV_EIMPL => Self::NotImplemented,
            OV_EINVAL => Self::InvalidValue,
            OV_ENOTVORBIS => Self::NotVorbis,
            OV_EBADHEADER => Self::BadHeader,
            OV_EVERSION => Self::BadVorbisVersion,
            OV_ENOTAUDIO => Self::NotAudio,
            OV_EBADPACKET => Self::BadPacket,
            OV_EBADLINK => Self::BadLink,
            OV_ENOSEEK => Self::NotSeekable,
            _ => Self::Other { result_code },
        }
    }
}

impl VorbisLibraryErrorKind {
    /// A short description of the kind; an `Other` kind is described by its
    /// raw code, which `Other` carries.
    pub fn description(&self) -> (r: &'static str)
        ensures
            *self == VorbisLibraryErrorKind::False ==> r == "OV_FALSE",
            *self == VorbisLibraryErrorKind::Eof ==> r == "OV_EOF: stream at end of file",
            *self == VorbisLibraryErrorKind::Hole ==> r == "OV_HOLE: stream data interruption. Try repairing the stream",
            *self == VorbisLibraryErrorKind::Io ==> r == "OV_EREAD: I/O error",
            *self == VorbisLibraryErrorKind::InternalFault ==> r == "OV_EFAULT: internal error",
            *self == VorbisLibraryErrorKind::NotImplemented ==> r == "OV_EIMPL: not implemented. Maybe try other parameters?",
            *self == VorbisLibraryErrorKind::InvalidValue ==> r == "OV_EINVAL: invalid parameter",
            *self == VorbisLibraryErrorKind::NotVorbis ==> r == "OV_ENOTVORBIS: not Vorbis data",
            *self == VorbisLibraryErrorKind::BadHeader ==> r == "OV_EBADHEADER: invalid Vorbis stream header",
            *self == VorbisLibraryErrorKind::BadVorbisVersion ==> r == "OV_EVERSION: Vorbis version mismatch",
            *self == VorbisLibraryErrorKind::NotAudio ==> r == "OV_ENOTAUDIO: not audio data",
            *self == VorbisLibraryErrorKind::BadPacket ==> r == "OV_EBADPACKET: invalid packet",
            *self == VorbisLibraryErrorKind::BadLink ==> r == "OV_EBADLINK: invalid stream",
            *self == VorbisLibraryErrorKind::NotSeekable ==> r == "OV_ENOSEEK: not seekable",
            *self is Other ==> r == "Other",
    {
        match self {
            VorbisLibraryErrorKind::False => "OV_FALSE",
            VorbisLibraryErrorKind::Eof => "OV_EOF: stream at end of file",
            VorbisLibraryErrorKind::Hole => "OV_HOLE: stream data interruption. Try repairing the stream",
            VorbisLibraryErrorKind::Io => "OV_EREAD: I/O error",
            VorbisLibraryErrorKind::InternalFault => "OV_EFAULT: internal error",
            VorbisLibraryErrorKind::NotImplemented => "OV_EIMPL: not implemented. Maybe try other parameters?",
            VorbisLibraryErrorKind::InvalidValue => "OV_EINVAL: invalid parameter",
            VorbisLibraryErrorKind::NotVorbis => "OV_ENOTVORBIS: not Vorbis data",
            VorbisLibraryErrorKind::BadHeader => "OV_EBADHEADER: invalid Vorbis stream header",
            VorbisLibraryErrorKind::BadVorbisVersion => "OV_EVERSION: Vorbis version mismatch",
            VorbisLibraryErrorKind::NotAudio => "OV_ENOTAUDIO: not audio data",
            VorbisLibraryErrorKind::BadPacket => "OV_EBADPACKET: invalid packet",
            VorbisLibraryErrorKind::BadLink => "OV_EBADLINK: invalid stream",
            VorbisLibraryErrorKind::NotSeekable => "OV_ENOSEEK: not seekable",
            VorbisLibraryErrorKind::Other { .. } => "Other",
        }
    }
}

impl From<i32> for VorbisLibraryErrorKind {
    fn from(result_code: i32) -> (r: Self) {
        Self::from_code(result_code)
    }
}

impl vstd::std_specs::convert::FromSpecImpl<i32> for VorbisLibraryErrorKind {
    open spec fn obeys_from_spec() -> bool {
        true
    }

    open spec fn from_spec(v: i32) -> Self {
        kind_of_code(v)
    }
}


/// An error reported by one of the native engines: which engine, which of its
/// functions, and the kind of failure.
#[derive(Debug)]
pub struct VorbisLibraryError {
    /// The engine that reported the error.
    pub library: VorbisLibrary,
    /// The engine function that reported the error.
    pub function: &'static str,
    /// The kind of failure.
    pub kind: VorbisLibraryErrorKind,
}

impl VorbisLibraryError {
    /// Builds the error for a failing status `code` returned by `function` of `library`.
    pub fn from_status(library: VorbisLibrary, function: &'static str, code: i32) -> (r: Self)
        ensures
            r.library == library,
            r.function == function,
            r.kind == kind_for(library, code),
    {
        let kind = match library {
            VorbisLibrary::Ogg => VorbisLibraryErrorKind::Other { result_code: code },
            _ => VorbisLibraryErrorKind::from_code(code),
        };
        VorbisLibraryError { library, function, kind }
    }

    /// Returns the engine that yielded this error.
    pub fn library(&self) -> (r: VorbisLibrary)
        ensures
            r == self.library,
    {
        self.library
    }

    /// Returns the name of the engine function that yielded this error.
    pub fn function(&self) -> (r: &'static str)
        ensures
            r == self.function,
    {
        self.function
    }

    /// Returns the kind of this error.
    pub fn kind(&self) -> (r: VorbisLibraryErrorKind)
        ensures
            r == self.kind,
    {
        self.kind
    }
}

/// An error condition that may happen during an encoding or decoding operation.
#[derive(Debug)]
pub enum VorbisError {
    /// A native engine reported a failure.
    LibraryError(VorbisLibraryError),
    /// The audio block did not have one sample vector per channel.
    InvalidAudioBlockChannelCount {
        /// The channel count the encoder was configured with.
        expected: usize,
        /// The number of sample vectors in the audio block.
        actual: usize,
    },
    /// The sample vectors of an audio block did not all have the same length.
    InvalidAudioBlockSampleCount {
        /// The length of the first sample vector.
        expected: usize,
        /// The length of the offending sample vector.
        actual: usize,
    },
    /// The input is a chained stream, which is not supported.
    UnsupportedStreamChaining,
    /// A comment string holds a NUL character, at the given byte position.
    InvalidCommentString {
        /// Byte position of the first NUL character.
        nul_position: usize,
    },
    /// A number did not fit the integer width the engines use.
    RangeExceeded,
    /// Reading from the source or writing to the sink failed.
    Io(std::io::Error),
    /// A random stream serial could not be generated.
    Rng(getrandom::Error),
    /// The builder's sink was taken by an earlier build and not replaced.
    ConsumedEncoderBuilderSink,
}

/// The error that a failing status `code` of `function` of `library` maps to.
pub open spec fn library_error(library: VorbisLibrary, function: &'static str, code: i32) -> VorbisError {
    VorbisError::LibraryError(
        VorbisLibraryError { library, function, kind: kind_for(library, code) },
    )
}

/// The outcome of an engine call that returned `code`: a negative code is a
/// failure, anything else is passed on.
pub open spec fn status_result(library: VorbisLibrary, function: &'static str, code: i32) -> Result<
    i32,
    VorbisError,
> {
    if code >= 0 {
        Ok(code)
    } else {
        Err(library_error(library, function, code))
    }
}

/// Checks the status returned by an engine call.
pub fn check_status(library: VorbisLibrary, function: &'static str, code: i32) -> (r: Result<
    i32,
    VorbisError,
>)
    ensures
        r == status_result(library, function, code),
{
    if code >= 0 {
        Ok(code)
    } else {
        Err(VorbisError::LibraryError(VorbisLibraryError::from_status(library, function, code)))
    }
}

impl VorbisLibrary {
    /// The name of the engine library.
    pub fn name(&self) -> (r: &'static str)
        ensures
            *self == VorbisLibrary::Ogg ==> r == "libogg",
            *self == VorbisLibrary::Vorbis ==> r == "libvorbis",
            *self == VorbisLibrary::VorbisEnc ==> r == "libvorbisenc",
            *self == VorbisLibrary::VorbisFile ==> r == "vorbisfile",
    {
        match self {
            VorbisLibrary::Ogg => "libogg",
            VorbisLibrary::Vorbis => "libvorbis",
            VorbisLibrary::VorbisEnc => "libvorbisenc",
            VorbisLibrary::VorbisFile => "vorbisfile",
        }
    }
}

/// A short description of a codec-engine status code; `"unknown"` for codes
/// outside the engine's error set.
pub fn vorbis_error_code_to_string(error_code: i32) -> (r: &'static str)
    ensures
        error_code == OV_FALSE ==> r == "OV_FALSE",
        error_code == OV_EOF ==> r == "OV_EOF (stream at end of file)",
        error_code == OV_HOLE ==> r == "OV_HOLE (data interruption. Try repairing the file)",
        error_code == OV_EREAD ==> r == "OV_EREAD (I/O error)",
        error_code == OV_EFAULT ==> r == "OV_EFAULT (internal error)",
        error_code == OV_EIMPL ==> r == "OV_EIMPL (not implemented. Maybe try other parameters?)",
        error_code == OV_EINVAL ==> r == "OV_EINVAL (invalid parameter)",
        error_code == OV_ENOTVORBIS ==> r == "OV_ENOTVORBIS (not Vorbis data)",
        error_code == OV_EBADHEADER ==> r == "OV_EBADHEADER (invalid Vorbis stream header)",
        error_code == OV_EVERSION ==> r == "OV_EVERSION (Vorbis version mismatch)",
        error_code == OV_ENOTAUDIO ==> r == "OV_ENOTAUDIO (not audio data)",
        error_code == OV_EBADPACKET ==> r == "OV_EBADPACKET (invalid packet)",
        error_code == OV_EBADLINK ==> r == "OV_EBADLINK (invalid stream)",
        error_code == OV_ENOSEEK ==> r == "OV_ENOSEEK (not seekable)",
        kind_of_code(error_code) is Other ==> r == "unknown",
{
    match error_code {
        OV_FALSE => "OV_FALSE",
        OV_EOF => "OV_EOF (stream at end of file)",
        OV_HOLE => "OV_HOLE (data interruption. Try repairing the file)",
        OV_EREAD => "OV_EREAD (I/O error)",
        OV_EFAULT => "OV_EFAULT (internal error)",
        OV_EIMPL => "OV_EIMPL (not implemented. Maybe try other parameters?)",
        OV_EINVAL => "OV_EINVAL (invalid parameter)",
        OV_ENOTVORBIS => "OV_ENOTVORBIS (not Vorbis data)",
        OV_EBADHEADER => "OV_EBADHEADER (invalid Vorbis stream header)",
        OV_EVERSION => "OV_EVERSION (Vorbis version mismatch)",
        OV_ENOTAUDIO => "OV_ENOTAUDIO (not audio data)",
        OV_EBADPACKET => "OV_EBADPACKET (invalid packet)",
        OV_EBADLINK => "OV_EBADLINK (invalid stream)",
        OV_ENOSEEK => "OV_ENOSEEK (not seekable)",
        _ => "unknown",
    }
}

} // verus!
