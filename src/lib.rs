//! Session layer over the Vorbis codec engine and the Ogg container engine.
//!
//! The native engines are driven step by step: each session here is a state
//! machine that names the next engine call to make, takes back the status that
//! call returned, and decides what comes next. The decisions (call order,
//! error mapping, teardown order, audio block validation, stream chaining
//! rejection) are verified; performing the calls is left to the caller.

pub mod builder;
pub mod decoder;
pub mod encoder;
pub mod engine;
pub mod error;
pub mod lifecycle;
pub mod ogg;
pub mod strategy;

pub use builder::VorbisEncoderBuilder;
pub use decoder::{VorbisDecoder, caller_releases_source, lemma_chained_streams_rejected, read_callback_outcome};
pub use encoder::{EncoderPhase, VorbisEncoder, lemma_end_of_stream_at_most_once, lemma_units_in_stream_order};
pub use engine::{EngineCall, UnitSource};
pub use error::{
    VorbisError, VorbisLibrary, VorbisLibraryError, VorbisLibraryErrorKind, vorbis_error_code_to_string,
};
pub use lifecycle::{NativeResources, lemma_teardown_order};
pub use ogg::{OggStream, PageMode, PagePump};
pub use strategy::{VorbisBitrateManagementStrategy, lemma_setup_finalizes_once, select_setup_calls};
