//! The engine-facing layer: the stream-category and result-kind
//! enumerations, the error taxonomy, the [`MediaInfoEngine`] interface that
//! an embedder implements over the native engine, and the handle wrapper
//! [`MediaInfo`] that marshals every call through it.

use vstd::prelude::*;

use crate::c_w_string::nul_free;
use crate::c_w_string::spec_decode;
use crate::c_w_string::CWcharString;

verus! {

/// The logical stream classes a media container may expose, plus the
/// sentinel bound `Max` that is used only for iteration, never as a real
/// category.
///
/// `General` always has exactly one logical instance per session; the other
/// categories have a queryable count.
#[derive(Debug, Clone, Copy, PartialEq, Eq, Structural)]
pub enum MediaInfoStream {
    General,
    Video,
    Audio,
    Text,
    Other,
    Image,
    Menu,
    Max,
}

/// The small integer code the engine's interface assigns to each stream
/// category.
pub open spec fn spec_stream_code(kind: MediaInfoStream) -> i32 {
    match kind {
        MediaInfoStream::General => 0,
        MediaInfoStream::Video => 1,
        MediaInfoStream::Audio => 2,
        MediaInfoStream::Text => 3,
        MediaInfoStream::Other => 4,
        MediaInfoStream::Image => 5,
        MediaInfoStream::Menu => 6,
        MediaInfoStream::Max => 7,
    }
}

impl MediaInfoStream {
    /// The category code handed to the engine's interface.
    pub fn c_compatible(self) -> (c: i32)
        ensures
            c == spec_stream_code(self),
    {
        match self {
            MediaInfoStream::General => 0,
            MediaInfoStream::Video => 1,
            MediaInfoStream::Audio => 2,
            MediaInfoStream::Text => 3,
            MediaInfoStream::Other => 4,
            MediaInfoStream::Image => 5,
            MediaInfoStream::Menu => 6,
            MediaInfoStream::Max => 7,
        }
    }

    /// Every category with a queryable per-session count, in the engine's
    /// own order. `General` is excluded: every session has exactly one
    /// general instance.
    pub fn variants() -> (v: Vec<MediaInfoStream>)
        ensures
            v@ == seq![
                MediaInfoStream::Video,
                MediaInfoStream::Audio,
                MediaInfoStream::Text,
                MediaInfoStream::Other,
                MediaInfoStream::Image,
                MediaInfoStream::Menu,
                MediaInfoStream::Max,
            ],
    {
        let mut v: Vec<MediaInfoStream> = Vec::new();
        v.push(MediaInfoStream::Video);
        v.push(MediaInfoStream::Audio);
        v.push(MediaInfoStream::Text);
        v.push(MediaInfoStream::Other);
        v.push(MediaInfoStream::Image);
        v.push(MediaInfoStream::Menu);
        v.push(MediaInfoStream::Max);
        proof {
            assert(v@ =~= seq![
                MediaInfoStream::Video,
                MediaInfoStream::Audio,
                MediaInfoStream::Text,
                MediaInfoStream::Other,
                MediaInfoStream::Image,
                MediaInfoStream::Menu,
                MediaInfoStream::Max,
            ]);
        }
        v
    }
}

/// The result-kind and search-kind codes of the engine's parameter query.
#[derive(Debug, Clone, Copy, PartialEq, Eq, Structural)]
pub enum MediaInfoInfo {
    Name,
    Text,
    Measure,
    Options,
    NameText,
    MeasureText,
    Info,
    HowTo,
    Max,
}

/// The small integer code the engine's interface assigns to each result
/// kind.
pub open spec fn spec_info_code(kind: MediaInfoInfo) -> i32 {
    match kind {
        MediaInfoInfo::Name => 0,
        MediaInfoInfo::Text => 1,
        MediaInfoInfo::Measure => 2,
        MediaInfoInfo::Options => 3,
        MediaInfoInfo::NameText => 4,
        MediaInfoInfo::MeasureText => 5,
        MediaInfoInfo::Info => 6,
        MediaInfoInfo::HowTo => 7,
        MediaInfoInfo::Max => 8,
    }
}

impl MediaInfoInfo {
    /// The result-kind code handed to the engine's interface.
    pub fn c_compatible(self) -> (c: i32)
        ensures
            c == spec_info_code(self),
    {
        match self {
            MediaInfoInfo::Name => 0,
            MediaInfoInfo::Text => 1,
            MediaInfoInfo::Measure => 2,
            MediaInfoInfo::Options => 3,
            MediaInfoInfo::NameText => 4,
            MediaInfoInfo::MeasureText => 5,
            MediaInfoInfo::Info => 6,
            MediaInfoInfo::HowTo => 7,
            MediaInfoInfo::Max => 8,
        }
    }
}

/// Every failure a query path can surface. All of them are recoverable
/// results; no query path terminates the process.
#[derive(Debug, Clone, Copy, PartialEq, Eq, Structural)]
pub enum MediaInfoError {
    /// Native text could not be produced from the input string.
    EncodingFailure,
    /// The engine's wide result could not be converted back to text.
    DecodingFailure,
    /// The engine signalled "no value" by returning empty text.
    ZeroLengthResult,
    /// A value was present but not parseable as the requested type.
    NonNumericResult,
    /// An accessor was used while no session is open.
    NoSessionOpen,
    /// A buffer open was attempted with zero bytes of input.
    EmptyInput,
    /// The three-phase buffer-open protocol's flags did not indicate
    /// success.
    StreamingProtocolFailure,
}

pub type MediaInfoResult<T> = Result<T, MediaInfoError>;

/// The fixed interface of the external metadata engine, one method per
/// native entry point. An embedder implements it over the real engine;
/// a test may implement it over scripted replies. Wide strings cross it
/// as zero-terminated wide units, categories and result kinds as their
/// small integer codes.
///
/// Nothing is assumed of what an implementation returns: every caller in
/// this crate is verified for every possible reply.
pub trait MediaInfoEngine {
    /// Opens the source at the marshalled path; returns the engine's raw
    /// status code.
    fn open(&mut self, path: &[u32]) -> usize;

    /// Releases the engine's session-scoped state.
    fn close(&mut self);

    /// Configures or queries an engine option; returns a zero-terminated
    /// wide result.
    fn option(&mut self, parameter: &[u32], value: &[u32]) -> Vec<u32>;

    /// Returns the engine's full textual report as wide units.
    fn inform(&mut self, reserved: usize) -> Vec<u32>;

    /// Returns the number of sub-streams of the category with the given
    /// code, up to `stream_number`.
    fn count_get(&mut self, stream_kind: i32, stream_number: usize) -> usize;

    /// Fetches one parameter of one sub-stream as wide units.
    fn get(
        &mut self,
        info_stream: i32,
        stream_number: usize,
        parameter: &[u32],
        info_kind: i32,
        search_kind: i32,
    ) -> Vec<u32>;

    /// Starts the three-phase buffer open; returns the raw status code.
    fn open_buffer_init(&mut self, buffer_size: u64, offset: u64) -> usize;

    /// Hands the engine the next chunk of the buffer; returns status
    /// bit-flags.
    fn open_buffer_continue(&mut self, data: &[u8]) -> usize;

    /// Ends the three-phase buffer open; returns the raw status code.
    fn open_buffer_finalize(&mut self) -> usize;
}

/// How one wide reply of the engine is turned into a typed result:
/// a reply that does not decode is `DecodingFailure`, an empty text is
/// the engine's own "no value" signal `ZeroLengthResult`, and anything
/// else is the decoded text.
pub open spec fn reply_outcome(units: Seq<u32>, r: MediaInfoResult<String>) -> bool {
    match spec_decode(units) {
        None => r == Err::<String, MediaInfoError>(MediaInfoError::DecodingFailure),
        Some(chars) => if chars.len() == 0 {
            r == Err::<String, MediaInfoError>(MediaInfoError::ZeroLengthResult)
        } else {
            r matches Ok(s) && s@ == chars
        },
    }
}

/// A typed result that some wide reply of the engine explains: what every
/// text query of this crate returns. In particular it is never `Ok` of an
/// empty text, and its only errors are `DecodingFailure` and
/// `ZeroLengthResult`.
pub open spec fn query_outcome(r: MediaInfoResult<String>) -> bool {
    exists|units: Seq<u32>| reply_outcome(units, r)
}

/// The shape every query outcome has, whatever the engine replied.
pub proof fn lemma_query_outcome_shape(r: MediaInfoResult<String>)
    requires
        query_outcome(r),
    ensures
        r matches Ok(s) ==> s@.len() > 0,
        r matches Err(e) ==> e == MediaInfoError::DecodingFailure
            || e == MediaInfoError::ZeroLengthResult,
{
    let units = choose|units: Seq<u32>| reply_outcome(units, r);
    assert(reply_outcome(units, r));
}

/// The engine's "no value" signal is always a possible outcome: an
/// empty reply explains the `ZeroLengthResult` error.
pub proof fn lemma_zero_length_outcome()
    ensures
        query_outcome(Err::<String, MediaInfoError>(MediaInfoError::ZeroLengthResult)),
{
    assert(reply_outcome(
        Seq::<u32>::empty(),
        Err::<String, MediaInfoError>(MediaInfoError::ZeroLengthResult),
    ));
}

/// Turns one wide reply into the typed result the reply stands for.
fn interpret_reply(units: Vec<u32>) -> (r: MediaInfoResult<String>)
    ensures
        reply_outcome(units@, r),
{
    match CWcharString::from_units_to_string(units.as_slice()) {
        Err(()) => Err(MediaInfoError::DecodingFailure),
        Ok(text) => {
            if text.as_str().is_empty() {
                Err(MediaInfoError::ZeroLengthResult)
            } else {
                Ok(text)
            }
        },
    }
}

/// The handle wrapper: owns the engine behind exactly one native handle
/// and exposes the raw operations as safe, loosely-typed calls. Every
/// string that crosses it goes through the wide-string marshaller.
pub struct MediaInfo<E> {
    engine: E,
}

impl<E: MediaInfoEngine> MediaInfo<E> {
    /// Wraps one engine, which stands for one freshly created native
    /// handle.
    pub fn new(engine: E) -> (m: MediaInfo<E>) {
        MediaInfo { engine }
    }

    /// Opens the source at `path`. The engine's raw status code is passed
    /// through untouched; only a path that cannot be marshalled is
    /// rejected here, before any native call.
    pub fn open(&mut self, path: &str) -> (r: MediaInfoResult<usize>)
        ensures
            r is Ok <==> nul_free(path@),
            !nul_free(path@) ==> r == Err::<usize, MediaInfoError>(MediaInfoError::EncodingFailure)
                && *final(self) == *old(self),
    {
        match CWcharString::from_str(path) {
            Err(()) => Err(MediaInfoError::EncodingFailure),
            Ok(wide) => {
                let status = self.engine.open(wide.as_units().as_slice());
                Ok(status)
            },
        }
    }

    /// Tells the engine to release its session-scoped state. The native
    /// handle itself stays alive for further opens.
    pub fn close(&mut self) {
        self.engine.close();
    }

    /// Configures or queries an engine option and decodes the wide reply.
    pub fn option(&mut self, parameter: &str, value: &str) -> (r: MediaInfoResult<String>)
        ensures
            !(nul_free(parameter@) && nul_free(value@)) ==> r == Err::<String, MediaInfoError>(
                MediaInfoError::EncodingFailure,
            ) && *final(self) == *old(self),
            nul_free(parameter@) && nul_free(value@) ==> query_outcome(r),
    {
        let param_wide = match CWcharString::from_str(parameter) {
            Err(()) => {
                return Err(MediaInfoError::EncodingFailure);
            },
            Ok(w) => w,
        };
        let value_wide = match CWcharString::from_str(value) {
            Err(()) => {
                return Err(MediaInfoError::EncodingFailure);
            },
            Ok(w) => w,
        };
        let reply = self.engine.option(
            param_wide.as_units().as_slice(),
            value_wide.as_units().as_slice(),
        );
        let r = interpret_reply(reply);
        r
    }

    /// Returns the engine's full human-readable report for the open
    /// session.
    pub fn inform(&mut self) -> (r: MediaInfoResult<String>)
        ensures
            query_outcome(r),
    {
        let reply = self.engine.inform(0);
        interpret_reply(reply)
    }

    /// Returns the number of sub-streams of `stream_kind` in the current
    /// session; 0 when none is open.
    pub fn count_get(&mut self, stream_kind: MediaInfoStream) -> usize {
        self.engine.count_get(stream_kind.c_compatible(), usize::MAX)
    }

    /// The single query primitive all typed getters funnel through:
    /// fetches one parameter of one sub-stream and decodes the reply.
    pub fn get(
        &mut self,
        info_stream: MediaInfoStream,
        stream_number: usize,
        parameter: &str,
        info_kind: MediaInfoInfo,
        search_kind: MediaInfoInfo,
    ) -> (r: MediaInfoResult<String>)
        ensures
            !nul_free(parameter@) ==> r == Err::<String, MediaInfoError>(
                MediaInfoError::EncodingFailure,
            ) && *final(self) == *old(self),
            nul_free(parameter@) ==> query_outcome(r),
    {
        match CWcharString::from_str(parameter) {
            Err(()) => Err(MediaInfoError::EncodingFailure),
            Ok(wide) => {
                let reply = self.engine.get(
                    info_stream.c_compatible(),
                    stream_number,
                    wide.as_units().as_slice(),
                    info_kind.c_compatible(),
                    search_kind.c_compatible(),
                );
                interpret_reply(reply)
            },
        }
    }

    /// Lists every parameter name the engine knows, as one text.
    pub fn available_parameters(&mut self) -> (r: MediaInfoResult<String>)
        ensures
            query_outcome(r),
    {
        proof {
            reveal_strlit("Info_Parameters");
            reveal_strlit("");
        }
        self.option("Info_Parameters", "")
    }

    /// Starts the three-phase buffer open for a source of `buffer_size`
    /// bytes beginning at `offset`.
    pub fn open_buffer_init(&mut self, buffer_size: u64, offset: u64) -> usize {
        self.engine.open_buffer_init(buffer_size, offset)
    }

    /// Hands the engine the next chunk of the source; returns the
    /// engine's status bit-flags.
    pub fn open_buffer_continue(&mut self, data: &[u8]) -> usize
        requires
            data@.len() > 0,
    {
        self.engine.open_buffer_continue(data)
    }

    /// Ends the three-phase buffer open.
    pub fn open_buffer_finalize(&mut self) -> usize {
        self.engine.open_buffer_finalize()
    }
}

} // verus!
