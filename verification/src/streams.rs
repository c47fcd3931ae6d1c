//! Typed per-category stream accessors: lightweight views identified by
//! a category and an index that turn the handle wrapper's loosely-typed
//! query primitive into named, typed getters.
//!
//! Getters come in five families: text getters pass the query result
//! through; integer getters parse it as a signed decimal; duration
//! getters parse it as a count of milliseconds; timestamp getters parse
//! it against the fixed `"UTC %Y-%m-%d %H:%M:%S"` pattern; and derived
//! boolean getters compare a getter's value against a known sentinel,
//! deliberately treating any underlying failure as `false`.

use vstd::prelude::*;
use vstd::string::*;

use crate::c_w_string::nul_free;
use crate::ffi::query_outcome;
use crate::ffi::MediaInfo;
use crate::ffi::MediaInfoEngine;
use crate::ffi::MediaInfoError;
use crate::ffi::MediaInfoInfo;
use crate::ffi::MediaInfoResult;
use crate::ffi::MediaInfoStream;
use crate::parse::dec_rep_i64;
use crate::parse::i64_to_string;
use crate::parse::parse_i64;
use crate::parse::parse_i64_spec;
use crate::parse::parse_u64;
use crate::parse::parse_u64_spec;
use crate::timestamp::utc_timestamp_of;
use crate::timestamp::parse_utc_timestamp;
use crate::timestamp::UtcTimestamp;

verus! {

/// A duration held as a whole count of milliseconds.
#[derive(Debug, Clone, Copy, PartialEq, Eq, Structural)]
pub struct MediaDuration {
    pub millis: u64,
}

/// The typed result an integer getter derives from a text query result:
/// the parsed value, the query's own error unchanged, or
/// `NonNumericResult` when the text is no signed decimal.
pub open spec fn spec_result_to_i64(result: MediaInfoResult<String>) -> MediaInfoResult<i64> {
    match result {
        Err(e) => Err(e),
        Ok(s) => match parse_i64_spec(s@) {
            Some(v) => Ok(v),
            None => Err(MediaInfoError::NonNumericResult),
        },
    }
}

/// The typed result a duration getter derives from a text query result:
/// the milliseconds parsed as an unsigned decimal.
pub open spec fn spec_result_to_duration(result: MediaInfoResult<String>) -> MediaInfoResult<
    MediaDuration,
> {
    match result {
        Err(e) => Err(e),
        Ok(s) => match parse_u64_spec(s@) {
            Some(v) => Ok(MediaDuration { millis: v }),
            None => Err(MediaInfoError::NonNumericResult),
        },
    }
}

/// The typed result a timestamp getter derives from a text query result:
/// the fixed-pattern timestamp parse of the text.
pub open spec fn spec_result_to_date(result: MediaInfoResult<String>) -> MediaInfoResult<
    UtcTimestamp,
> {
    match result {
        Err(e) => Err(e),
        Ok(s) => match utc_timestamp_of(s@) {
            Some(t) => Ok(t),
            None => Err(MediaInfoError::NonNumericResult),
        },
    }
}

/// A typed integer result that some reply of the engine explains.
pub open spec fn i64_outcome(r: MediaInfoResult<i64>) -> bool {
    exists|q: MediaInfoResult<String>| query_outcome(q) && r == spec_result_to_i64(q)
}

/// A typed duration result that some reply of the engine explains.
pub open spec fn duration_outcome(r: MediaInfoResult<MediaDuration>) -> bool {
    exists|q: MediaInfoResult<String>| query_outcome(q) && r == spec_result_to_duration(q)
}

/// A typed timestamp result that some reply of the engine explains.
pub open spec fn date_outcome(r: MediaInfoResult<UtcTimestamp>) -> bool {
    exists|q: MediaInfoResult<String>| query_outcome(q) && r == spec_result_to_date(q)
}

/// Parses a text query result as a signed 64-bit integer.
pub fn convert_to_i64(result: MediaInfoResult<String>) -> (r: MediaInfoResult<i64>)
    ensures
        r == spec_result_to_i64(result),
{
    match result {
        Err(e) => Err(e),
        Ok(s) => match parse_i64(s.as_str()) {
            Some(v) => Ok(v),
            None => Err(MediaInfoError::NonNumericResult),
        },
    }
}

/// Parses a text query result as a duration of milliseconds.
pub fn convert_to_duration(result: MediaInfoResult<String>) -> (r: MediaInfoResult<MediaDuration>)
    ensures
        r == spec_result_to_duration(result),
{
    match result {
        Err(e) => Err(e),
        Ok(s) => match parse_u64(s.as_str()) {
            Some(v) => Ok(MediaDuration { millis: v }),
            None => Err(MediaInfoError::NonNumericResult),
        },
    }
}

/// Maps a timestamp parse to the typed result a timestamp getter
/// returns: the timestamp, or `NonNumericResult` when the text did not
/// match the pattern.
pub fn timestamp_from_parse(parsed: Option<UtcTimestamp>) -> (r: MediaInfoResult<UtcTimestamp>)
    ensures
        parsed matches Some(t) ==> r == Ok::<UtcTimestamp, MediaInfoError>(t),
        parsed is None ==> r == Err::<UtcTimestamp, MediaInfoError>(
            MediaInfoError::NonNumericResult,
        ),
{
    match parsed {
        Some(t) => Ok(t),
        None => Err(MediaInfoError::NonNumericResult),
    }
}

/// Parses a text query result as a timestamp in the fixed pattern.
pub fn convert_to_date(result: MediaInfoResult<String>) -> (r: MediaInfoResult<UtcTimestamp>)
    ensures
        r == spec_result_to_date(result),
{
    match result {
        Err(e) => Err(e),
        Ok(s) => {
            let parsed = parse_utc_timestamp(s.as_str());
            timestamp_from_parse(parsed)
        },
    }
}

/// What every stream accessor knows: its category, its index within the
/// category, and how raw text results become typed values.
pub trait BaseStream {
    /// The category this accessor reads.
    fn stream_type(&self) -> MediaInfoStream;

    /// The accessor's index within its category.
    fn index(&self) -> usize;

    /// Parses a text query result as a duration of milliseconds.
    fn result_to_duration(&self, result: MediaInfoResult<String>) -> (r: MediaInfoResult<
        MediaDuration,
    >)
        ensures
            r == spec_result_to_duration(result),
    {
        convert_to_duration(result)
    }

    /// Parses a text query result as a signed 64-bit integer.
    fn result_to_i64(&self, result: MediaInfoResult<String>) -> (r: MediaInfoResult<i64>)
        ensures
            r == spec_result_to_i64(result),
    {
        convert_to_i64(result)
    }

    /// Parses a text query result as a timestamp in the fixed pattern.
    fn result_to_date(&self, result: MediaInfoResult<String>) -> (r: MediaInfoResult<UtcTimestamp>)
        ensures
            r == spec_result_to_date(result),
    {
        convert_to_date(result)
    }
}

/// The accessor for the one general, whole-file stream of a session.
/// It is attached while a session is open and detached on close; a
/// detached accessor answers every getter with `NoSessionOpen`.
#[derive(Clone, Copy)]
pub struct GeneralStream {
    pub stream_type: MediaInfoStream,
    pub attached: bool,
}

/// An accessor for one video sub-stream.
#[derive(Clone, Copy)]
pub struct VideoStream {
    pub stream_type: MediaInfoStream,
    pub index: usize,
}

/// An accessor for one audio sub-stream.
#[derive(Clone, Copy)]
pub struct AudioStream {
    pub stream_type: MediaInfoStream,
    pub index: usize,
}

/// An accessor for one text (subtitle) sub-stream.
#[derive(Clone, Copy)]
pub struct TextStream {
    pub stream_type: MediaInfoStream,
    pub index: usize,
}

/// An accessor for one sub-stream of no other category.
#[derive(Clone, Copy)]
pub struct OtherStream {
    pub stream_type: MediaInfoStream,
    pub index: usize,
}

/// An accessor for one image sub-stream.
#[derive(Clone, Copy)]
pub struct ImageStream {
    pub stream_type: MediaInfoStream,
    pub index: usize,
}

/// An accessor for one menu sub-stream.
#[derive(Clone, Copy)]
pub struct MenuStream {
    pub stream_type: MediaInfoStream,
    pub index: usize,
}

impl BaseStream for GeneralStream {
    fn stream_type(&self) -> (r: MediaInfoStream)
        ensures
            r == self.stream_type,
    {
        self.stream_type
    }

    /// The general category has exactly one logical instance, always at
    /// index zero.
    fn index(&self) -> (r: usize)
        ensures
            r == 0,
    {
        0
    }
}

impl BaseStream for VideoStream {
    fn stream_type(&self) -> (r: MediaInfoStream)
        ensures
            r == self.stream_type,
    {
        self.stream_type
    }

    fn index(&self) -> (r: usize)
        ensures
            r == self.index,
    {
        self.index
    }
}

impl BaseStream for AudioStream {
    fn stream_type(&self) -> (r: MediaInfoStream)
        ensures
            r == self.stream_type,
    {
        self.stream_type
    }

    fn index(&self) -> (r: usize)
        ensures
            r == self.index,
    {
        self.index
    }
}

impl BaseStream for TextStream {
    fn stream_type(&self) -> (r: MediaInfoStream)
        ensures
            r == self.stream_type,
    {
        self.stream_type
    }

    fn index(&self) -> (r: usize)
        ensures
            r == self.index,
    {
        self.index
    }
}

impl BaseStream for OtherStream {
    fn stream_type(&self) -> (r: MediaInfoStream)
        ensures
            r == self.stream_type,
    {
        self.stream_type
    }

    fn index(&self) -> (r: usize)
        ensures
            r == self.index,
    {
        self.index
    }
}

impl BaseStream for ImageStream {
    fn stream_type(&self) -> (r: MediaInfoStream)
        ensures
            r == self.stream_type,
    {
        self.stream_type
    }

    fn index(&self) -> (r: usize)
        ensures
            r == self.index,
    {
        self.index
    }
}

impl BaseStream for MenuStream {
    fn stream_type(&self) -> (r: MediaInfoStream)
        ensures
            r == self.stream_type,
    {
        self.stream_type
    }

    fn index(&self) -> (r: usize)
        ensures
            r == self.index,
    {
        self.index
    }
}

/// A well-formed video accessor list: the accessor at position `i` reads
/// video sub-stream `i`.
pub open spec fn wf_video_streams(s: Seq<VideoStream>) -> bool {
    forall|i: int|
        0 <= i < s.len() ==> (#[trigger] s[i]).stream_type == MediaInfoStream::Video && s[
            i
        ].index == i
}

/// A well-formed audio accessor list.
pub open spec fn wf_audio_streams(s: Seq<AudioStream>) -> bool {
    forall|i: int|
        0 <= i < s.len() ==> (#[trigger] s[i]).stream_type == MediaInfoStream::Audio && s[
            i
        ].index == i
}

/// A well-formed text accessor list.
pub open spec fn wf_text_streams(s: Seq<TextStream>) -> bool {
    forall|i: int|
        0 <= i < s.len() ==> (#[trigger] s[i]).stream_type == MediaInfoStream::Text && s[
            i
        ].index == i
}

/// A well-formed other-category accessor list.
pub open spec fn wf_other_streams(s: Seq<OtherStream>) -> bool {
    forall|i: int|
        0 <= i < s.len() ==> (#[trigger] s[i]).stream_type == MediaInfoStream::Other && s[
            i
        ].index == i
}

/// A well-formed image accessor list.
pub open spec fn wf_image_streams(s: Seq<ImageStream>) -> bool {
    forall|i: int|
        0 <= i < s.len() ==> (#[trigger] s[i]).stream_type == MediaInfoStream::Image && s[
            i
        ].index == i
}

/// A well-formed menu accessor list.
pub open spec fn wf_menu_streams(s: Seq<MenuStream>) -> bool {
    forall|i: int|
        0 <= i < s.len() ==> (#[trigger] s[i]).stream_type == MediaInfoStream::Menu && s[
            i
        ].index == i
}

/// The text query every typed getter funnels through: one parameter of
/// one sub-stream, fetched as text by name.
pub fn query_text<E: MediaInfoEngine>(
    m: &mut MediaInfo<E>,
    kind: MediaInfoStream,
    index: usize,
    parameter: &str,
) -> (r: MediaInfoResult<String>)
    ensures
        nul_free(parameter@) ==> query_outcome(r),
{
    m.get(kind, index, parameter, MediaInfoInfo::Text, MediaInfoInfo::Name)
}

/// Queries one parameter and parses it as a signed 64-bit integer.
pub fn query_i64<E: MediaInfoEngine>(
    m: &mut MediaInfo<E>,
    kind: MediaInfoStream,
    index: usize,
    parameter: &str,
) -> (r: MediaInfoResult<i64>)
    ensures
        nul_free(parameter@) ==> i64_outcome(r),
{
    let q = query_text(m, kind, index, parameter);
    let ghost qv = q;
    let r = convert_to_i64(q);
    proof {
        if nul_free(parameter@) {
            assert(query_outcome(qv) && r == spec_result_to_i64(qv));
        }
    }
    r
}

/// Queries one parameter and parses it as a duration of milliseconds.
pub fn query_duration<E: MediaInfoEngine>(
    m: &mut MediaInfo<E>,
    kind: MediaInfoStream,
    index: usize,
    parameter: &str,
) -> (r: MediaInfoResult<MediaDuration>)
    ensures
        nul_free(parameter@) ==> duration_outcome(r),
{
    let q = query_text(m, kind, index, parameter);
    let ghost qv = q;
    let r = convert_to_duration(q);
    proof {
        if nul_free(parameter@) {
            assert(query_outcome(qv) && r == spec_result_to_duration(qv));
        }
    }
    r
}

/// Queries one parameter and parses it as a fixed-pattern timestamp.
pub fn query_date<E: MediaInfoEngine>(
    m: &mut MediaInfo<E>,
    kind: MediaInfoStream,
    index: usize,
    parameter: &str,
) -> (r: MediaInfoResult<UtcTimestamp>)
    ensures
        nul_free(parameter@) ==> date_outcome(r),
{
    let q = query_text(m, kind, index, parameter);
    let ghost qv = q;
    let r = convert_to_date(q);
    proof {
        if nul_free(parameter@) {
            assert(query_outcome(qv) && r == spec_result_to_date(qv));
        }
    }
    r
}

/// True exactly when a bit-rate-mode query result is the text
/// `"Constant"`.
pub open spec fn spec_cbr(mode: MediaInfoResult<String>) -> bool {
    mode matches Ok(s) && s@ == "Constant"@
}

/// The complement of `spec_cbr` on the same reply: a failed query counts
/// as variable, not as an error.
pub open spec fn spec_vbr(mode: MediaInfoResult<String>) -> bool {
    !spec_cbr(mode)
}

/// Law: the derived bit-rate-mode booleans are complementary. For every
/// reply of the engine, constant and variable disagree, whether or not
/// the underlying query succeeded.
pub proof fn lemma_cbr_vbr_complementary(mode: MediaInfoResult<String>)
    ensures
        spec_vbr(mode) == !spec_cbr(mode),
{
}

/// True exactly when a scan-type query result is the text
/// `"Interlaced"`.
pub open spec fn spec_interlaced(scan: MediaInfoResult<String>) -> bool {
    scan matches Ok(s) && s@ == "Interlaced"@
}

/// The complement of `spec_interlaced` on the same reply.
pub open spec fn spec_progressive(scan: MediaInfoResult<String>) -> bool {
    !spec_interlaced(scan)
}

/// Law: the derived scan-type booleans are complementary on every reply.
pub proof fn lemma_interlaced_progressive_complementary(scan: MediaInfoResult<String>)
    ensures
        spec_progressive(scan) == !spec_interlaced(scan),
{
}

/// True exactly when a channel-count query result is the value two.
pub open spec fn spec_stereo(channels: MediaInfoResult<i64>) -> bool {
    channels matches Ok(c) && c == 2
}

/// True exactly when a channel-count query result is the value one.
pub open spec fn spec_mono(channels: MediaInfoResult<i64>) -> bool {
    channels matches Ok(c) && c == 1
}

/// Decides the constant-bit-rate boolean from one queried mode result:
/// true exactly on the text `"Constant"`, false on any other text and on
/// any error.
pub fn mode_is_constant(mode: &MediaInfoResult<String>) -> (b: bool)
    ensures
        b == spec_cbr(*mode),
{
    match mode {
        Ok(x) => {
            let sentinel = "Constant".to_owned();
            *x == sentinel
        },
        Err(_) => false,
    }
}

/// Decides the interlaced boolean from one queried scan-type result:
/// true exactly on the text `"Interlaced"`, false on any other text and
/// on any error.
pub fn scan_is_interlaced(scan: &MediaInfoResult<String>) -> (b: bool)
    ensures
        b == spec_interlaced(*scan),
{
    match scan {
        Ok(x) => {
            let sentinel = "Interlaced".to_owned();
            *x == sentinel
        },
        Err(_) => false,
    }
}

/// Decides a channel-layout boolean from one queried channel-count
/// result: true exactly when the count is the expected value, false on
/// any other count and on any error.
pub fn channel_count_is(channels: &MediaInfoResult<i64>, expected: i64) -> (b: bool)
    ensures
        b == (*channels matches Ok(c) && c == expected),
{
    match channels {
        Ok(c) => *c == expected,
        Err(_) => false,
    }
}

/// Law: one queried channel count never makes a stream both stereo and
/// mono.
pub proof fn lemma_stereo_mono_exclusive(channels: MediaInfoResult<i64>)
    ensures
        !(spec_stereo(channels) && spec_mono(channels)),
{
}

/// The fallback a composite getter applies: the primary result when it
/// succeeded, otherwise the secondary unchanged. Any primary error
/// triggers the fallback, not only absence.
pub open spec fn spec_fallback(
    primary: MediaInfoResult<String>,
    secondary: MediaInfoResult<String>,
) -> MediaInfoResult<String> {
    match primary {
        Ok(s) => Ok(s),
        Err(_) => secondary,
    }
}

/// Applies the fallback to two query results: the primary when it
/// succeeded, otherwise the secondary unchanged.
pub fn apply_fallback(
    primary: MediaInfoResult<String>,
    secondary: MediaInfoResult<String>,
) -> (r: MediaInfoResult<String>)
    ensures
        r == spec_fallback(primary, secondary),
{
    match primary {
        Ok(s) => Ok(s),
        Err(_) => secondary,
    }
}

/// The combined frame-size text derived from two dimension query
/// results: the height's failure wins, then the width's, else the text
/// `"WxH"`.
pub open spec fn spec_frame_size(
    height: MediaInfoResult<i64>,
    width: MediaInfoResult<i64>,
) -> Result<Seq<char>, MediaInfoError> {
    match height {
        Err(e) => Err(e),
        Ok(h) => match width {
            Err(e) => Err(e),
            Ok(w) => Ok(dec_rep_i64(w as int) + seq!['x'] + dec_rep_i64(h as int)),
        },
    }
}

/// True when the text result `r` renders the combined frame size of the
/// two dimension results.
pub open spec fn frame_size_matches(
    r: MediaInfoResult<String>,
    height: MediaInfoResult<i64>,
    width: MediaInfoResult<i64>,
) -> bool {
    match spec_frame_size(height, width) {
        Ok(text) => r matches Ok(s) && s@ == text,
        Err(e) => r == Err::<String, MediaInfoError>(e),
    }
}

/// Renders the combined `"WxH"` frame-size text of two parsed
/// dimensions.
fn render_frame_size(width: i64, height: i64) -> (s: String)
    ensures
        s@ == dec_rep_i64(width as int) + seq!['x'] + dec_rep_i64(height as int),
{
    let mut out = i64_to_string(width);
    crate::c_w_string::push_char(&mut out, 'x');
    let rendered_height = i64_to_string(height);
    out.append(rendered_height.as_str());
    proof {
        assert(out@ =~= dec_rep_i64(width as int) + seq!['x'] + dec_rep_i64(height as int));
    }
    out
}

/// Combines two dimension query results into the frame-size text: the
/// height's failure wins, then the width's, else the rendered `"WxH"`.
pub fn combine_frame_size(
    height: MediaInfoResult<i64>,
    width: MediaInfoResult<i64>,
) -> (r: MediaInfoResult<String>)
    ensures
        frame_size_matches(r, height, width),
{
    match height {
        Err(e) => Err(e),
        Ok(h) => match width {
            Err(e) => Err(e),
            Ok(w) => Ok(render_frame_size(w, h)),
        },
    }
}

impl GeneralStream {

    /// The engine's `CodecID` parameter of the general stream, as text.
    pub fn codec_id<E: MediaInfoEngine>(&self, m: &mut MediaInfo<E>) -> (r: MediaInfoResult<String>)
        ensures
            !self.attached ==> r == Err::<String, MediaInfoError>(MediaInfoError::NoSessionOpen)
                && *final(m) == *old(m),
            self.attached ==> query_outcome(r),
    {
        if !self.attached {
            return Err(MediaInfoError::NoSessionOpen);
        }
        proof {
            reveal_strlit("CodecID");
        }
        query_text(m, self.stream_type, 0, "CodecID")
    }

    /// The engine's `Format` parameter of the general stream, as text.
    pub fn format<E: MediaInfoEngine>(&self, m: &mut MediaInfo<E>) -> (r: MediaInfoResult<String>)
        ensures
            !self.attached ==> r == Err::<String, MediaInfoError>(MediaInfoError::NoSessionOpen)
                && *final(m) == *old(m),
            self.attached ==> query_outcome(r),
    {
        if !self.attached {
            return Err(MediaInfoError::NoSessionOpen);
        }
        proof {
            reveal_strlit("Format");
        }
        query_text(m, self.stream_type, 0, "Format")
    }

    /// The engine's `Format_Profile` parameter of the general stream, as text.
    pub fn format_profile<E: MediaInfoEngine>(&self, m: &mut MediaInfo<E>) -> (r: MediaInfoResult<String>)
        ensures
            !self.attached ==> r == Err::<String, MediaInfoError>(MediaInfoError::NoSessionOpen)
                && *final(m) == *old(m),
            self.attached ==> query_outcome(r),
    {
        if !self.attached {
            return Err(MediaInfoError::NoSessionOpen);
        }
        proof {
            reveal_strlit("Format_Profile");
        }
        query_text(m, self.stream_type, 0, "Format_Profile")
    }

    /// The engine's `Format_Info` parameter of the general stream, as text.
    pub fn format_info<E: MediaInfoEngine>(&self, m: &mut MediaInfo<E>) -> (r: MediaInfoResult<String>)
        ensures
            !self.attached ==> r == Err::<String, MediaInfoError>(MediaInfoError::NoSessionOpen)
                && *final(m) == *old(m),
            self.attached ==> query_outcome(r),
    {
        if !self.attached {
            return Err(MediaInfoError::NoSessionOpen);
        }
        proof {
            reveal_strlit("Format_Info");
        }
        query_text(m, self.stream_type, 0, "Format_Info")
    }

    /// The engine's `Codec` parameter of the general stream, as text.
    pub fn codec<E: MediaInfoEngine>(&self, m: &mut MediaInfo<E>) -> (r: MediaInfoResult<String>)
        ensures
            !self.attached ==> r == Err::<String, MediaInfoError>(MediaInfoError::NoSessionOpen)
                && *final(m) == *old(m),
            self.attached ==> query_outcome(r),
    {
        if !self.attached {
            return Err(MediaInfoError::NoSessionOpen);
        }
        proof {
            reveal_strlit("Codec");
        }
        query_text(m, self.stream_type, 0, "Codec")
    }

    /// The engine's `Encoded_Application/String` parameter of the general stream, as text.
    pub fn encoded_application_string<E: MediaInfoEngine>(&self, m: &mut MediaInfo<E>) -> (r: MediaInfoResult<String>)
        ensures
            !self.attached ==> r == Err::<String, MediaInfoError>(MediaInfoError::NoSessionOpen)
                && *final(m) == *old(m),
            self.attached ==> query_outcome(r),
    {
        if !self.attached {
            return Err(MediaInfoError::NoSessionOpen);
        }
        proof {
            reveal_strlit("Encoded_Application/String");
        }
        query_text(m, self.stream_type, 0, "Encoded_Application/String")
    }

    /// The engine's `Encoded_Application` parameter of the general stream, as text.
    pub fn encoded_application<E: MediaInfoEngine>(&self, m: &mut MediaInfo<E>) -> (r: MediaInfoResult<String>)
        ensures
            !self.attached ==> r == Err::<String, MediaInfoError>(MediaInfoError::NoSessionOpen)
                && *final(m) == *old(m),
            self.attached ==> query_outcome(r),
    {
        if !self.attached {
            return Err(MediaInfoError::NoSessionOpen);
        }
        proof {
            reveal_strlit("Encoded_Application");
        }
        query_text(m, self.stream_type, 0, "Encoded_Application")
    }

    /// The engine's `Encoded_Library` parameter of the general stream, as text.
    pub fn encoded_library<E: MediaInfoEngine>(&self, m: &mut MediaInfo<E>) -> (r: MediaInfoResult<String>)
        ensures
            !self.attached ==> r == Err::<String, MediaInfoError>(MediaInfoError::NoSessionOpen)
                && *final(m) == *old(m),
            self.attached ==> query_outcome(r),
    {
        if !self.attached {
            return Err(MediaInfoError::NoSessionOpen);
        }
        proof {
            reveal_strlit("Encoded_Library");
        }
        query_text(m, self.stream_type, 0, "Encoded_Library")
    }

    /// The engine's `Artist` parameter of the general stream, as text.
    pub fn artist<E: MediaInfoEngine>(&self, m: &mut MediaInfo<E>) -> (r: MediaInfoResult<String>)
        ensures
            !self.attached ==> r == Err::<String, MediaInfoError>(MediaInfoError::NoSessionOpen)
                && *final(m) == *old(m),
            self.attached ==> query_outcome(r),
    {
        if !self.attached {
            return Err(MediaInfoError::NoSessionOpen);
        }
        proof {
            reveal_strlit("Artist");
        }
        query_text(m, self.stream_type, 0, "Artist")
    }

    /// The engine's `Performer` parameter of the general stream, as text.
    pub fn performer<E: MediaInfoEngine>(&self, m: &mut MediaInfo<E>) -> (r: MediaInfoResult<String>)
        ensures
            !self.attached ==> r == Err::<String, MediaInfoError>(MediaInfoError::NoSessionOpen)
                && *final(m) == *old(m),
            self.attached ==> query_outcome(r),
    {
        if !self.attached {
            return Err(MediaInfoError::NoSessionOpen);
        }
        proof {
            reveal_strlit("Performer");
        }
        query_text(m, self.stream_type, 0, "Performer")
    }

    /// The engine's `Title` parameter of the general stream, as text.
    pub fn title<E: MediaInfoEngine>(&self, m: &mut MediaInfo<E>) -> (r: MediaInfoResult<String>)
        ensures
            !self.attached ==> r == Err::<String, MediaInfoError>(MediaInfoError::NoSessionOpen)
                && *final(m) == *old(m),
            self.attached ==> query_outcome(r),
    {
        if !self.attached {
            return Err(MediaInfoError::NoSessionOpen);
        }
        proof {
            reveal_strlit("Title");
        }
        query_text(m, self.stream_type, 0, "Title")
    }

    /// The engine's `Copyright` parameter of the general stream, as text.
    pub fn copyright<E: MediaInfoEngine>(&self, m: &mut MediaInfo<E>) -> (r: MediaInfoResult<String>)
        ensures
            !self.attached ==> r == Err::<String, MediaInfoError>(MediaInfoError::NoSessionOpen)
                && *final(m) == *old(m),
            self.attached ==> query_outcome(r),
    {
        if !self.attached {
            return Err(MediaInfoError::NoSessionOpen);
        }
        proof {
            reveal_strlit("Copyright");
        }
        query_text(m, self.stream_type, 0, "Copyright")
    }

    /// The engine's `Genre` parameter of the general stream, as text.
    pub fn genre<E: MediaInfoEngine>(&self, m: &mut MediaInfo<E>) -> (r: MediaInfoResult<String>)
        ensures
            !self.attached ==> r == Err::<String, MediaInfoError>(MediaInfoError::NoSessionOpen)
                && *final(m) == *old(m),
            self.attached ==> query_outcome(r),
    {
        if !self.attached {
            return Err(MediaInfoError::NoSessionOpen);
        }
        proof {
            reveal_strlit("Genre");
        }
        query_text(m, self.stream_type, 0, "Genre")
    }

    /// The engine's `Album` parameter of the general stream, as text.
    pub fn album<E: MediaInfoEngine>(&self, m: &mut MediaInfo<E>) -> (r: MediaInfoResult<String>)
        ensures
            !self.attached ==> r == Err::<String, MediaInfoError>(MediaInfoError::NoSessionOpen)
                && *final(m) == *old(m),
            self.attached ==> query_outcome(r),
    {
        if !self.attached {
            return Err(MediaInfoError::NoSessionOpen);
        }
        proof {
            reveal_strlit("Album");
        }
        query_text(m, self.stream_type, 0, "Album")
    }

    /// The engine's `Year` parameter of the general stream, as text.
    pub fn year<E: MediaInfoEngine>(&self, m: &mut MediaInfo<E>) -> (r: MediaInfoResult<String>)
        ensures
            !self.attached ==> r == Err::<String, MediaInfoError>(MediaInfoError::NoSessionOpen)
                && *final(m) == *old(m),
            self.attached ==> query_outcome(r),
    {
        if !self.attached {
            return Err(MediaInfoError::NoSessionOpen);
        }
        proof {
            reveal_strlit("Year");
        }
        query_text(m, self.stream_type, 0, "Year")
    }

    /// The engine's `Duration` parameter of the general stream, parsed as a
    /// duration of milliseconds.
    pub fn duration<E: MediaInfoEngine>(&self, m: &mut MediaInfo<E>) -> (r: MediaInfoResult<MediaDuration>)
        ensures
            !self.attached ==> r == Err::<MediaDuration, MediaInfoError>(MediaInfoError::NoSessionOpen)
                && *final(m) == *old(m),
            self.attached ==> duration_outcome(r),
    {
        if !self.attached {
            return Err(MediaInfoError::NoSessionOpen);
        }
        proof {
            reveal_strlit("Duration");
        }
        query_duration(m, self.stream_type, 0, "Duration")
    }

    /// The engine's `OverallBitRate` parameter of the general stream, parsed as an
    /// integer.
    pub fn overall_bit_rate<E: MediaInfoEngine>(&self, m: &mut MediaInfo<E>) -> (r: MediaInfoResult<i64>)
        ensures
            !self.attached ==> r == Err::<i64, MediaInfoError>(MediaInfoError::NoSessionOpen)
                && *final(m) == *old(m),
            self.attached ==> i64_outcome(r),
    {
        if !self.attached {
            return Err(MediaInfoError::NoSessionOpen);
        }
        proof {
            reveal_strlit("OverallBitRate");
        }
        query_i64(m, self.stream_type, 0, "OverallBitRate")
    }

    /// The engine's `HeaderSize` parameter of the general stream, parsed as an
    /// integer.
    pub fn headersize<E: MediaInfoEngine>(&self, m: &mut MediaInfo<E>) -> (r: MediaInfoResult<i64>)
        ensures
            !self.attached ==> r == Err::<i64, MediaInfoError>(MediaInfoError::NoSessionOpen)
                && *final(m) == *old(m),
            self.attached ==> i64_outcome(r),
    {
        if !self.attached {
            return Err(MediaInfoError::NoSessionOpen);
        }
        proof {
            reveal_strlit("HeaderSize");
        }
        query_i64(m, self.stream_type, 0, "HeaderSize")
    }

    /// The engine's `DataSize` parameter of the general stream, parsed as an
    /// integer.
    pub fn datasize<E: MediaInfoEngine>(&self, m: &mut MediaInfo<E>) -> (r: MediaInfoResult<i64>)
        ensures
            !self.attached ==> r == Err::<i64, MediaInfoError>(MediaInfoError::NoSessionOpen)
                && *final(m) == *old(m),
            self.attached ==> i64_outcome(r),
    {
        if !self.attached {
            return Err(MediaInfoError::NoSessionOpen);
        }
        proof {
            reveal_strlit("DataSize");
        }
        query_i64(m, self.stream_type, 0, "DataSize")
    }

    /// The engine's `FooterSize` parameter of the general stream, parsed as an
    /// integer.
    pub fn footersize<E: MediaInfoEngine>(&self, m: &mut MediaInfo<E>) -> (r: MediaInfoResult<i64>)
        ensures
            !self.attached ==> r == Err::<i64, MediaInfoError>(MediaInfoError::NoSessionOpen)
                && *final(m) == *old(m),
            self.attached ==> i64_outcome(r),
    {
        if !self.attached {
            return Err(MediaInfoError::NoSessionOpen);
        }
        proof {
            reveal_strlit("FooterSize");
        }
        query_i64(m, self.stream_type, 0, "FooterSize")
    }

    /// The engine's `Mastered_Date` parameter of the general stream, parsed as a
    /// fixed-pattern timestamp.
    pub fn mastered_date<E: MediaInfoEngine>(&self, m: &mut MediaInfo<E>) -> (r: MediaInfoResult<UtcTimestamp>)
        ensures
            !self.attached ==> r == Err::<UtcTimestamp, MediaInfoError>(MediaInfoError::NoSessionOpen)
                && *final(m) == *old(m),
            self.attached ==> date_outcome(r),
    {
        if !self.attached {
            return Err(MediaInfoError::NoSessionOpen);
        }
        proof {
            reveal_strlit("Mastered_Date");
        }
        query_date(m, self.stream_type, 0, "Mastered_Date")
    }

    /// The engine's `File_Modified_Date` parameter of the general stream, parsed as a
    /// fixed-pattern timestamp.
    pub fn last_modification_date<E: MediaInfoEngine>(&self, m: &mut MediaInfo<E>) -> (r: MediaInfoResult<UtcTimestamp>)
        ensures
            !self.attached ==> r == Err::<UtcTimestamp, MediaInfoError>(MediaInfoError::NoSessionOpen)
                && *final(m) == *old(m),
            self.attached ==> date_outcome(r),
    {
        if !self.attached {
            return Err(MediaInfoError::NoSessionOpen);
        }
        proof {
            reveal_strlit("File_Modified_Date");
        }
        query_date(m, self.stream_type, 0, "File_Modified_Date")
    }

    /// The engine's `Encoded_Date` parameter of the general stream, parsed as a
    /// fixed-pattern timestamp.
    pub fn encoded_date<E: MediaInfoEngine>(&self, m: &mut MediaInfo<E>) -> (r: MediaInfoResult<UtcTimestamp>)
        ensures
            !self.attached ==> r == Err::<UtcTimestamp, MediaInfoError>(MediaInfoError::NoSessionOpen)
                && *final(m) == *old(m),
            self.attached ==> date_outcome(r),
    {
        if !self.attached {
            return Err(MediaInfoError::NoSessionOpen);
        }
        proof {
            reveal_strlit("Encoded_Date");
        }
        query_date(m, self.stream_type, 0, "Encoded_Date")
    }

    /// The engine's `Tagged_Date` parameter of the general stream, parsed as a
    /// fixed-pattern timestamp.
    pub fn tagged_date<E: MediaInfoEngine>(&self, m: &mut MediaInfo<E>) -> (r: MediaInfoResult<UtcTimestamp>)
        ensures
            !self.attached ==> r == Err::<UtcTimestamp, MediaInfoError>(MediaInfoError::NoSessionOpen)
                && *final(m) == *old(m),
            self.attached ==> date_outcome(r),
    {
        if !self.attached {
            return Err(MediaInfoError::NoSessionOpen);
        }
        proof {
            reveal_strlit("Tagged_Date");
        }
        query_date(m, self.stream_type, 0, "Tagged_Date")
    }

    /// The application that wrote the file: the primary field, falling
    /// back to the secondary descriptive field on any primary failure and
    /// returning the secondary's value unchanged.
    pub fn writing_application<E: MediaInfoEngine>(&self, m: &mut MediaInfo<E>) -> (r:
        MediaInfoResult<String>)
        ensures
            !self.attached ==> r == Err::<String, MediaInfoError>(MediaInfoError::NoSessionOpen)
                && *final(m) == *old(m),
            self.attached ==> exists|p: MediaInfoResult<String>, s: MediaInfoResult<String>|
                query_outcome(p) && query_outcome(s) && r == spec_fallback(p, s),
    {
        if !self.attached {
            return Err(MediaInfoError::NoSessionOpen);
        }
        let primary = self.encoded_application(m);
        let ghost pg = primary;
        if primary.is_err() {
            let secondary = self.encoded_application_string(m);
            let ghost sg = secondary;
            let r = apply_fallback(primary, secondary);
            proof {
                assert(query_outcome(pg) && query_outcome(sg) && r == spec_fallback(pg, sg));
            }
            r
        } else {
            // The secondary field is not queried when the primary
            // succeeded; the fallback ignores its second argument then,
            // so the engine's own absence signal stands in for it.
            let r = apply_fallback(primary, Err(MediaInfoError::ZeroLengthResult));
            proof {
                crate::ffi::lemma_zero_length_outcome();
                assert(query_outcome(pg) && r == spec_fallback(
                    pg,
                    Err::<String, MediaInfoError>(MediaInfoError::ZeroLengthResult),
                ));
            }
            r
        }
    }
}

impl VideoStream {

    /// The engine's `ID` parameter of this stream, as text.
    pub fn stream_id<E: MediaInfoEngine>(&self, m: &mut MediaInfo<E>) -> (r: MediaInfoResult<String>)
        ensures
            query_outcome(r),
    {
        proof {
            reveal_strlit("ID");
        }
        query_text(m, self.stream_type, self.index, "ID")
    }

    /// The engine's `StreamSize` parameter of this stream, as text.
    pub fn stream_size<E: MediaInfoEngine>(&self, m: &mut MediaInfo<E>) -> (r: MediaInfoResult<String>)
        ensures
            query_outcome(r),
    {
        proof {
            reveal_strlit("StreamSize");
        }
        query_text(m, self.stream_type, self.index, "StreamSize")
    }

    /// The engine's `BitRate` parameter of this stream, as text.
    pub fn bit_rate<E: MediaInfoEngine>(&self, m: &mut MediaInfo<E>) -> (r: MediaInfoResult<String>)
        ensures
            query_outcome(r),
    {
        proof {
            reveal_strlit("BitRate");
        }
        query_text(m, self.stream_type, self.index, "BitRate")
    }

    /// The engine's `BitRate_Nominal` parameter of this stream, as text.
    pub fn nominal_bit_rate<E: MediaInfoEngine>(&self, m: &mut MediaInfo<E>) -> (r: MediaInfoResult<String>)
        ensures
            query_outcome(r),
    {
        proof {
            reveal_strlit("BitRate_Nominal");
        }
        query_text(m, self.stream_type, self.index, "BitRate_Nominal")
    }

    /// The engine's `BitRate_Mode` parameter of this stream, as text.
    pub fn bit_rate_mode<E: MediaInfoEngine>(&self, m: &mut MediaInfo<E>) -> (r: MediaInfoResult<String>)
        ensures
            query_outcome(r),
    {
        proof {
            reveal_strlit("BitRate_Mode");
        }
        query_text(m, self.stream_type, self.index, "BitRate_Mode")
    }

    /// The engine's `ScanOrder` parameter of this stream, as text.
    pub fn scan_order<E: MediaInfoEngine>(&self, m: &mut MediaInfo<E>) -> (r: MediaInfoResult<String>)
        ensures
            query_outcome(r),
    {
        proof {
            reveal_strlit("ScanOrder");
        }
        query_text(m, self.stream_type, self.index, "ScanOrder")
    }

    /// The engine's `ScanType` parameter of this stream, as text.
    pub fn scan_type<E: MediaInfoEngine>(&self, m: &mut MediaInfo<E>) -> (r: MediaInfoResult<String>)
        ensures
            query_outcome(r),
    {
        proof {
            reveal_strlit("ScanType");
        }
        query_text(m, self.stream_type, self.index, "ScanType")
    }

    /// The engine's `Format` parameter of this stream, as text.
    pub fn format<E: MediaInfoEngine>(&self, m: &mut MediaInfo<E>) -> (r: MediaInfoResult<String>)
        ensures
            query_outcome(r),
    {
        proof {
            reveal_strlit("Format");
        }
        query_text(m, self.stream_type, self.index, "Format")
    }

    /// The engine's `Format_Info` parameter of this stream, as text.
    pub fn format_info<E: MediaInfoEngine>(&self, m: &mut MediaInfo<E>) -> (r: MediaInfoResult<String>)
        ensures
            query_outcome(r),
    {
        proof {
            reveal_strlit("Format_Info");
        }
        query_text(m, self.stream_type, self.index, "Format_Info")
    }

    /// The engine's `Format_Profile` parameter of this stream, as text.
    pub fn format_profile<E: MediaInfoEngine>(&self, m: &mut MediaInfo<E>) -> (r: MediaInfoResult<String>)
        ensures
            query_outcome(r),
    {
        proof {
            reveal_strlit("Format_Profile");
        }
        query_text(m, self.stream_type, self.index, "Format_Profile")
    }

    /// The engine's `Format_Version` parameter of this stream, as text.
    pub fn format_version<E: MediaInfoEngine>(&self, m: &mut MediaInfo<E>) -> (r: MediaInfoResult<String>)
        ensures
            query_outcome(r),
    {
        proof {
            reveal_strlit("Format_Version");
        }
        query_text(m, self.stream_type, self.index, "Format_Version")
    }

    /// The engine's `Format_Settings_CABAC` parameter of this stream, as text.
    pub fn format_settings_cabac<E: MediaInfoEngine>(&self, m: &mut MediaInfo<E>) -> (r: MediaInfoResult<String>)
        ensures
            query_outcome(r),
    {
        proof {
            reveal_strlit("Format_Settings_CABAC");
        }
        query_text(m, self.stream_type, self.index, "Format_Settings_CABAC")
    }

    /// The engine's `Format_Settings_ReFrames` parameter of this stream, as text.
    pub fn format_settings_reframes<E: MediaInfoEngine>(&self, m: &mut MediaInfo<E>) -> (r: MediaInfoResult<String>)
        ensures
            query_outcome(r),
    {
        proof {
            reveal_strlit("Format_Settings_ReFrames");
        }
        query_text(m, self.stream_type, self.index, "Format_Settings_ReFrames")
    }

    /// The engine's `Format_Settings_Matrix` parameter of this stream, as text.
    pub fn format_settings_matrix<E: MediaInfoEngine>(&self, m: &mut MediaInfo<E>) -> (r: MediaInfoResult<String>)
        ensures
            query_outcome(r),
    {
        proof {
            reveal_strlit("Format_Settings_Matrix");
        }
        query_text(m, self.stream_type, self.index, "Format_Settings_Matrix")
    }

    /// The engine's `Format_Settings_GOP` parameter of this stream, as text.
    pub fn format_settings_gop<E: MediaInfoEngine>(&self, m: &mut MediaInfo<E>) -> (r: MediaInfoResult<String>)
        ensures
            query_outcome(r),
    {
        proof {
            reveal_strlit("Format_Settings_GOP");
        }
        query_text(m, self.stream_type, self.index, "Format_Settings_GOP")
    }

    /// The engine's `Format_Commercial` parameter of this stream, as text.
    pub fn format_commercial<E: MediaInfoEngine>(&self, m: &mut MediaInfo<E>) -> (r: MediaInfoResult<String>)
        ensures
            query_outcome(r),
    {
        proof {
            reveal_strlit("Format_Commercial");
        }
        query_text(m, self.stream_type, self.index, "Format_Commercial")
    }

    /// The engine's `Colorimetry` parameter of this stream, as text.
    pub fn colorimetry<E: MediaInfoEngine>(&self, m: &mut MediaInfo<E>) -> (r: MediaInfoResult<String>)
        ensures
            query_outcome(r),
    {
        proof {
            reveal_strlit("Colorimetry");
        }
        query_text(m, self.stream_type, self.index, "Colorimetry")
    }

    /// The engine's `ColorSpace` parameter of this stream, as text.
    pub fn colorspace<E: MediaInfoEngine>(&self, m: &mut MediaInfo<E>) -> (r: MediaInfoResult<String>)
        ensures
            query_outcome(r),
    {
        proof {
            reveal_strlit("ColorSpace");
        }
        query_text(m, self.stream_type, self.index, "ColorSpace")
    }

    /// The engine's `colour_primaries` parameter of this stream, as text.
    pub fn colour_primaries<E: MediaInfoEngine>(&self, m: &mut MediaInfo<E>) -> (r: MediaInfoResult<String>)
        ensures
            query_outcome(r),
    {
        proof {
            reveal_strlit("colour_primaries");
        }
        query_text(m, self.stream_type, self.index, "colour_primaries")
    }

    /// The engine's `transfer_characteristics` parameter of this stream, as text.
    pub fn transfer_characteristics<E: MediaInfoEngine>(&self, m: &mut MediaInfo<E>) -> (r: MediaInfoResult<String>)
        ensures
            query_outcome(r),
    {
        proof {
            reveal_strlit("transfer_characteristics");
        }
        query_text(m, self.stream_type, self.index, "transfer_characteristics")
    }

    /// The engine's `matrix_coefficients` parameter of this stream, as text.
    pub fn matrix_coefficients<E: MediaInfoEngine>(&self, m: &mut MediaInfo<E>) -> (r: MediaInfoResult<String>)
        ensures
            query_outcome(r),
    {
        proof {
            reveal_strlit("matrix_coefficients");
        }
        query_text(m, self.stream_type, self.index, "matrix_coefficients")
    }

    /// The engine's `CodecID` parameter of this stream, as text.
    pub fn codec_id<E: MediaInfoEngine>(&self, m: &mut MediaInfo<E>) -> (r: MediaInfoResult<String>)
        ensures
            query_outcome(r),
    {
        proof {
            reveal_strlit("CodecID");
        }
        query_text(m, self.stream_type, self.index, "CodecID")
    }

    /// The engine's `CodecID/Info` parameter of this stream, as text.
    pub fn codec_info<E: MediaInfoEngine>(&self, m: &mut MediaInfo<E>) -> (r: MediaInfoResult<String>)
        ensures
            query_outcome(r),
    {
        proof {
            reveal_strlit("CodecID/Info");
        }
        query_text(m, self.stream_type, self.index, "CodecID/Info")
    }

    /// The engine's `Codec` parameter of this stream, as text.
    pub fn codec<E: MediaInfoEngine>(&self, m: &mut MediaInfo<E>) -> (r: MediaInfoResult<String>)
        ensures
            query_outcome(r),
    {
        proof {
            reveal_strlit("Codec");
        }
        query_text(m, self.stream_type, self.index, "Codec")
    }

    /// The engine's `FrameRate` parameter of this stream, as text.
    pub fn frame_rate<E: MediaInfoEngine>(&self, m: &mut MediaInfo<E>) -> (r: MediaInfoResult<String>)
        ensures
            query_outcome(r),
    {
        proof {
            reveal_strlit("FrameRate");
        }
        query_text(m, self.stream_type, self.index, "FrameRate")
    }

    /// The engine's `FrameRate_Nominal` parameter of this stream, as text.
    pub fn nominal_frame_rate<E: MediaInfoEngine>(&self, m: &mut MediaInfo<E>) -> (r: MediaInfoResult<String>)
        ensures
            query_outcome(r),
    {
        proof {
            reveal_strlit("FrameRate_Nominal");
        }
        query_text(m, self.stream_type, self.index, "FrameRate_Nominal")
    }

    /// The engine's `FrameRate_Minimum` parameter of this stream, as text.
    pub fn minimum_frame_rate<E: MediaInfoEngine>(&self, m: &mut MediaInfo<E>) -> (r: MediaInfoResult<String>)
        ensures
            query_outcome(r),
    {
        proof {
            reveal_strlit("FrameRate_Minimum");
        }
        query_text(m, self.stream_type, self.index, "FrameRate_Minimum")
    }

    /// The engine's `FrameRate_Maximum` parameter of this stream, as text.
    pub fn maximum_frame_rate<E: MediaInfoEngine>(&self, m: &mut MediaInfo<E>) -> (r: MediaInfoResult<String>)
        ensures
            query_outcome(r),
    {
        proof {
            reveal_strlit("FrameRate_Maximum");
        }
        query_text(m, self.stream_type, self.index, "FrameRate_Maximum")
    }

    /// The engine's `FrameRate_Mode` parameter of this stream, as text.
    pub fn frame_rate_mode<E: MediaInfoEngine>(&self, m: &mut MediaInfo<E>) -> (r: MediaInfoResult<String>)
        ensures
            query_outcome(r),
    {
        proof {
            reveal_strlit("FrameRate_Mode");
        }
        query_text(m, self.stream_type, self.index, "FrameRate_Mode")
    }

    /// The engine's `DisplayAspectRatio` parameter of this stream, as text.
    pub fn display_aspect_ratio<E: MediaInfoEngine>(&self, m: &mut MediaInfo<E>) -> (r: MediaInfoResult<String>)
        ensures
            query_outcome(r),
    {
        proof {
            reveal_strlit("DisplayAspectRatio");
        }
        query_text(m, self.stream_type, self.index, "DisplayAspectRatio")
    }

    /// The engine's `Bits-(Pixel*Frame)` parameter of this stream, as text.
    pub fn bits_pixel_frame<E: MediaInfoEngine>(&self, m: &mut MediaInfo<E>) -> (r: MediaInfoResult<String>)
        ensures
            query_outcome(r),
    {
        proof {
            reveal_strlit("Bits-(Pixel*Frame)");
        }
        query_text(m, self.stream_type, self.index, "Bits-(Pixel*Frame)")
    }

    /// The engine's `Duration` parameter of this stream, parsed as a
    /// duration of milliseconds.
    pub fn duration<E: MediaInfoEngine>(&self, m: &mut MediaInfo<E>) -> (r: MediaInfoResult<MediaDuration>)
        ensures
            duration_outcome(r),
    {
        proof {
            reveal_strlit("Duration");
        }
        query_duration(m, self.stream_type, self.index, "Duration")
    }

    /// The engine's `BitDepth` parameter of this stream, parsed as an
    /// integer.
    pub fn bitdepth<E: MediaInfoEngine>(&self, m: &mut MediaInfo<E>) -> (r: MediaInfoResult<i64>)
        ensures
            i64_outcome(r),
    {
        proof {
            reveal_strlit("BitDepth");
        }
        query_i64(m, self.stream_type, self.index, "BitDepth")
    }

    /// The engine's `Resolution` parameter of this stream, parsed as an
    /// integer.
    pub fn resolution<E: MediaInfoEngine>(&self, m: &mut MediaInfo<E>) -> (r: MediaInfoResult<i64>)
        ensures
            i64_outcome(r),
    {
        proof {
            reveal_strlit("Resolution");
        }
        query_i64(m, self.stream_type, self.index, "Resolution")
    }

    /// The engine's `Width` parameter of this stream, parsed as an
    /// integer.
    pub fn width<E: MediaInfoEngine>(&self, m: &mut MediaInfo<E>) -> (r: MediaInfoResult<i64>)
        ensures
            i64_outcome(r),
    {
        proof {
            reveal_strlit("Width");
        }
        query_i64(m, self.stream_type, self.index, "Width")
    }

    /// The engine's `Height` parameter of this stream, parsed as an
    /// integer.
    pub fn height<E: MediaInfoEngine>(&self, m: &mut MediaInfo<E>) -> (r: MediaInfoResult<i64>)
        ensures
            i64_outcome(r),
    {
        proof {
            reveal_strlit("Height");
        }
        query_i64(m, self.stream_type, self.index, "Height")
    }

    /// The engine's `Encoded_Date` parameter of this stream, parsed as a
    /// fixed-pattern timestamp.
    pub fn encoded_date<E: MediaInfoEngine>(&self, m: &mut MediaInfo<E>) -> (r: MediaInfoResult<UtcTimestamp>)
        ensures
            date_outcome(r),
    {
        proof {
            reveal_strlit("Encoded_Date");
        }
        query_date(m, self.stream_type, self.index, "Encoded_Date")
    }

    /// The engine's `Tagged_Date` parameter of this stream, parsed as a
    /// fixed-pattern timestamp.
    pub fn tagged_date<E: MediaInfoEngine>(&self, m: &mut MediaInfo<E>) -> (r: MediaInfoResult<UtcTimestamp>)
        ensures
            date_outcome(r),
    {
        proof {
            reveal_strlit("Tagged_Date");
        }
        query_date(m, self.stream_type, self.index, "Tagged_Date")
    }

    /// The engine's `Standard` parameter of this stream, parsed as a
    /// fixed-pattern timestamp.
    pub fn standard<E: MediaInfoEngine>(&self, m: &mut MediaInfo<E>) -> (r: MediaInfoResult<UtcTimestamp>)
        ensures
            date_outcome(r),
    {
        proof {
            reveal_strlit("Standard");
        }
        query_date(m, self.stream_type, self.index, "Standard")
    }

    /// True when this stream's bit-rate mode is constant; any failure of
    /// the underlying query counts as `false`.
    pub fn cbr<E: MediaInfoEngine>(&self, m: &mut MediaInfo<E>) -> (b: bool)
        ensures
            exists|mode: MediaInfoResult<String>| query_outcome(mode) && b == spec_cbr(mode),
    {
        let mode = self.bit_rate_mode(m);
        let ghost mg = mode;
        let b = mode_is_constant(&mode);
        proof {
            assert(query_outcome(mg) && b == spec_cbr(mg));
        }
        b
    }

    /// True when this stream's bit-rate mode is not constant: the exact
    /// complement of `cbr` on the queried reply.
    pub fn vbr<E: MediaInfoEngine>(&self, m: &mut MediaInfo<E>) -> (b: bool)
        ensures
            exists|mode: MediaInfoResult<String>| query_outcome(mode) && b == spec_vbr(mode),
    {
        let mode = self.bit_rate_mode(m);
        let ghost mg = mode;
        let b = !mode_is_constant(&mode);
        proof {
            assert(query_outcome(mg) && b == spec_vbr(mg));
        }
        b
    }

    /// True when this stream's scan type is interlaced; any failure of
    /// the underlying query counts as `false`.
    pub fn interlaced<E: MediaInfoEngine>(&self, m: &mut MediaInfo<E>) -> (b: bool)
        ensures
            exists|scan: MediaInfoResult<String>| query_outcome(scan) && b == spec_interlaced(scan),
    {
        let scan = self.scan_type(m);
        let ghost sg = scan;
        let b = scan_is_interlaced(&scan);
        proof {
            assert(query_outcome(sg) && b == spec_interlaced(sg));
        }
        b
    }

    /// True when this stream's scan type is not interlaced: the exact
    /// complement of `interlaced` on the queried reply.
    pub fn progressive<E: MediaInfoEngine>(&self, m: &mut MediaInfo<E>) -> (b: bool)
        ensures
            exists|scan: MediaInfoResult<String>| query_outcome(scan) && b == spec_progressive(
                scan,
            ),
    {
        let scan = self.scan_type(m);
        let ghost sg = scan;
        let b = !scan_is_interlaced(&scan);
        proof {
            assert(query_outcome(sg) && b == spec_progressive(sg));
        }
        b
    }

    /// The combined `"WxH"` frame-size text of this stream. The height is
    /// queried first and its failure wins; then the width; the combined
    /// getter fails with the same error as the failing part.
    pub fn frame_size<E: MediaInfoEngine>(&self, m: &mut MediaInfo<E>) -> (r: MediaInfoResult<
        String,
    >)
        ensures
            exists|h: MediaInfoResult<i64>, w: MediaInfoResult<i64>|
                i64_outcome(h) && i64_outcome(w) && frame_size_matches(r, h, w),
    {
        let height = self.height(m);
        let ghost hg = height;
        match height {
            Err(e) => {
                // The width is not queried once the height has failed;
                // its own error stands in for the unqueried dimension,
                // which the combiner ignores then.
                let r = combine_frame_size(Err(e), Err(e));
                proof {
                    assert(i64_outcome(hg) && frame_size_matches(r, hg, hg));
                }
                r
            },
            Ok(hv) => {
                let width = self.width(m);
                let ghost wg = width;
                let r = combine_frame_size(Ok(hv), width);
                proof {
                    assert(i64_outcome(hg) && i64_outcome(wg) && frame_size_matches(r, hg, wg));
                }
                r
            },
        }
    }
}

impl AudioStream {

    /// The engine's `ID` parameter of this stream, as text.
    pub fn stream_id<E: MediaInfoEngine>(&self, m: &mut MediaInfo<E>) -> (r: MediaInfoResult<String>)
        ensures
            query_outcome(r),
    {
        proof {
            reveal_strlit("ID");
        }
        query_text(m, self.stream_type, self.index, "ID")
    }

    /// The engine's `Duration` parameter of this stream, parsed as a
    /// duration of milliseconds.
    pub fn duration<E: MediaInfoEngine>(&self, m: &mut MediaInfo<E>) -> (r: MediaInfoResult<MediaDuration>)
        ensures
            duration_outcome(r),
    {
        proof {
            reveal_strlit("Duration");
        }
        query_duration(m, self.stream_type, self.index, "Duration")
    }

    /// The engine's `SamplingCount` parameter of this stream, as text.
    pub fn sampling_count<E: MediaInfoEngine>(&self, m: &mut MediaInfo<E>) -> (r: MediaInfoResult<String>)
        ensures
            query_outcome(r),
    {
        proof {
            reveal_strlit("SamplingCount");
        }
        query_text(m, self.stream_type, self.index, "SamplingCount")
    }

    /// The engine's `SamplingRate` parameter of this stream, parsed as an
    /// integer.
    pub fn sampling_rate<E: MediaInfoEngine>(&self, m: &mut MediaInfo<E>) -> (r: MediaInfoResult<i64>)
        ensures
            i64_outcome(r),
    {
        proof {
            reveal_strlit("SamplingRate");
        }
        query_i64(m, self.stream_type, self.index, "SamplingRate")
    }

    /// The engine's `StreamSize` parameter of this stream, as text.
    pub fn stream_size<E: MediaInfoEngine>(&self, m: &mut MediaInfo<E>) -> (r: MediaInfoResult<String>)
        ensures
            query_outcome(r),
    {
        proof {
            reveal_strlit("StreamSize");
        }
        query_text(m, self.stream_type, self.index, "StreamSize")
    }

    /// The engine's `BitRate` parameter of this stream, as text.
    pub fn bit_rate<E: MediaInfoEngine>(&self, m: &mut MediaInfo<E>) -> (r: MediaInfoResult<String>)
        ensures
            query_outcome(r),
    {
        proof {
            reveal_strlit("BitRate");
        }
        query_text(m, self.stream_type, self.index, "BitRate")
    }

    /// The engine's `BitRate_Mode` parameter of this stream, as text.
    pub fn bit_rate_mode<E: MediaInfoEngine>(&self, m: &mut MediaInfo<E>) -> (r: MediaInfoResult<String>)
        ensures
            query_outcome(r),
    {
        proof {
            reveal_strlit("BitRate_Mode");
        }
        query_text(m, self.stream_type, self.index, "BitRate_Mode")
    }

    /// The engine's `Interleave_Duration` parameter of this stream, as text.
    pub fn interleave_duration<E: MediaInfoEngine>(&self, m: &mut MediaInfo<E>) -> (r: MediaInfoResult<String>)
        ensures
            query_outcome(r),
    {
        proof {
            reveal_strlit("Interleave_Duration");
        }
        query_text(m, self.stream_type, self.index, "Interleave_Duration")
    }

    /// The engine's `Resolution` parameter of this stream, parsed as an
    /// integer.
    pub fn resolution<E: MediaInfoEngine>(&self, m: &mut MediaInfo<E>) -> (r: MediaInfoResult<i64>)
        ensures
            i64_outcome(r),
    {
        proof {
            reveal_strlit("Resolution");
        }
        query_i64(m, self.stream_type, self.index, "Resolution")
    }

    /// The engine's `Format` parameter of this stream, as text.
    pub fn format<E: MediaInfoEngine>(&self, m: &mut MediaInfo<E>) -> (r: MediaInfoResult<String>)
        ensures
            query_outcome(r),
    {
        proof {
            reveal_strlit("Format");
        }
        query_text(m, self.stream_type, self.index, "Format")
    }

    /// The engine's `Format_Profile` parameter of this stream, as text.
    pub fn format_profile<E: MediaInfoEngine>(&self, m: &mut MediaInfo<E>) -> (r: MediaInfoResult<String>)
        ensures
            query_outcome(r),
    {
        proof {
            reveal_strlit("Format_Profile");
        }
        query_text(m, self.stream_type, self.index, "Format_Profile")
    }

    /// The engine's `Format_Version` parameter of this stream, as text.
    pub fn format_version<E: MediaInfoEngine>(&self, m: &mut MediaInfo<E>) -> (r: MediaInfoResult<String>)
        ensures
            query_outcome(r),
    {
        proof {
            reveal_strlit("Format_Version");
        }
        query_text(m, self.stream_type, self.index, "Format_Version")
    }

    /// The engine's `Format/Info` parameter of this stream, as text.
    pub fn format_info<E: MediaInfoEngine>(&self, m: &mut MediaInfo<E>) -> (r: MediaInfoResult<String>)
        ensures
            query_outcome(r),
    {
        proof {
            reveal_strlit("Format/Info");
        }
        query_text(m, self.stream_type, self.index, "Format/Info")
    }

    /// The engine's `Format_Settings_SBR` parameter of this stream, as text.
    pub fn format_settings_sbr<E: MediaInfoEngine>(&self, m: &mut MediaInfo<E>) -> (r: MediaInfoResult<String>)
        ensures
            query_outcome(r),
    {
        proof {
            reveal_strlit("Format_Settings_SBR");
        }
        query_text(m, self.stream_type, self.index, "Format_Settings_SBR")
    }

    /// The engine's `Format_Settings_Endianness` parameter of this stream, as text.
    pub fn format_settings_endianness<E: MediaInfoEngine>(&self, m: &mut MediaInfo<E>) -> (r: MediaInfoResult<String>)
        ensures
            query_outcome(r),
    {
        proof {
            reveal_strlit("Format_Settings_Endianness");
        }
        query_text(m, self.stream_type, self.index, "Format_Settings_Endianness")
    }

    /// The engine's `Format_Settings_Sign` parameter of this stream, as text.
    pub fn format_settings_sign<E: MediaInfoEngine>(&self, m: &mut MediaInfo<E>) -> (r: MediaInfoResult<String>)
        ensures
            query_outcome(r),
    {
        proof {
            reveal_strlit("Format_Settings_Sign");
        }
        query_text(m, self.stream_type, self.index, "Format_Settings_Sign")
    }

    /// The engine's `CodecID` parameter of this stream, as text.
    pub fn codec_id<E: MediaInfoEngine>(&self, m: &mut MediaInfo<E>) -> (r: MediaInfoResult<String>)
        ensures
            query_outcome(r),
    {
        proof {
            reveal_strlit("CodecID");
        }
        query_text(m, self.stream_type, self.index, "CodecID")
    }

    /// The engine's `CodecID/Info` parameter of this stream, as text.
    pub fn codec_info<E: MediaInfoEngine>(&self, m: &mut MediaInfo<E>) -> (r: MediaInfoResult<String>)
        ensures
            query_outcome(r),
    {
        proof {
            reveal_strlit("CodecID/Info");
        }
        query_text(m, self.stream_type, self.index, "CodecID/Info")
    }

    /// The engine's `Codec` parameter of this stream, as text.
    pub fn codec<E: MediaInfoEngine>(&self, m: &mut MediaInfo<E>) -> (r: MediaInfoResult<String>)
        ensures
            query_outcome(r),
    {
        proof {
            reveal_strlit("Codec");
        }
        query_text(m, self.stream_type, self.index, "Codec")
    }

    /// The engine's `CodecID/Hint` parameter of this stream, as text.
    pub fn codec_id_hint<E: MediaInfoEngine>(&self, m: &mut MediaInfo<E>) -> (r: MediaInfoResult<String>)
        ensures
            query_outcome(r),
    {
        proof {
            reveal_strlit("CodecID/Hint");
        }
        query_text(m, self.stream_type, self.index, "CodecID/Hint")
    }

    /// The engine's `ChannelPositions` parameter of this stream, as text.
    pub fn channel_positions<E: MediaInfoEngine>(&self, m: &mut MediaInfo<E>) -> (r: MediaInfoResult<String>)
        ensures
            query_outcome(r),
    {
        proof {
            reveal_strlit("ChannelPositions");
        }
        query_text(m, self.stream_type, self.index, "ChannelPositions")
    }

    /// The engine's `Channel(s)` parameter of this stream, parsed as an
    /// integer.
    pub fn channels<E: MediaInfoEngine>(&self, m: &mut MediaInfo<E>) -> (r: MediaInfoResult<i64>)
        ensures
            i64_outcome(r),
    {
        proof {
            reveal_strlit("Channel(s)");
        }
        query_i64(m, self.stream_type, self.index, "Channel(s)")
    }

    /// The engine's `Encoded_Date` parameter of this stream, parsed as a
    /// fixed-pattern timestamp.
    pub fn encoded_date<E: MediaInfoEngine>(&self, m: &mut MediaInfo<E>) -> (r: MediaInfoResult<UtcTimestamp>)
        ensures
            date_outcome(r),
    {
        proof {
            reveal_strlit("Encoded_Date");
        }
        query_date(m, self.stream_type, self.index, "Encoded_Date")
    }

    /// The engine's `Tagged_Date` parameter of this stream, parsed as a
    /// fixed-pattern timestamp.
    pub fn tagged_date<E: MediaInfoEngine>(&self, m: &mut MediaInfo<E>) -> (r: MediaInfoResult<UtcTimestamp>)
        ensures
            date_outcome(r),
    {
        proof {
            reveal_strlit("Tagged_Date");
        }
        query_date(m, self.stream_type, self.index, "Tagged_Date")
    }

    /// True when this stream has exactly two channels; any failure of the
    /// underlying query counts as `false`.
    pub fn stereo<E: MediaInfoEngine>(&self, m: &mut MediaInfo<E>) -> (b: bool)
        ensures
            exists|ch: MediaInfoResult<i64>| i64_outcome(ch) && b == spec_stereo(ch),
    {
        let channels = self.channels(m);
        let ghost cg = channels;
        let b = channel_count_is(&channels, 2);
        proof {
            assert(i64_outcome(cg) && b == spec_stereo(cg));
        }
        b
    }

    /// True when this stream has exactly one channel; any failure of the
    /// underlying query counts as `false`.
    pub fn mono<E: MediaInfoEngine>(&self, m: &mut MediaInfo<E>) -> (b: bool)
        ensures
            exists|ch: MediaInfoResult<i64>| i64_outcome(ch) && b == spec_mono(ch),
    {
        let channels = self.channels(m);
        let ghost cg = channels;
        let b = channel_count_is(&channels, 1);
        proof {
            assert(i64_outcome(cg) && b == spec_mono(cg));
        }
        b
    }
}

impl ImageStream {

    /// The engine's `Resolution` parameter of this stream, as text.
    pub fn resolution<E: MediaInfoEngine>(&self, m: &mut MediaInfo<E>) -> (r: MediaInfoResult<String>)
        ensures
            query_outcome(r),
    {
        proof {
            reveal_strlit("Resolution");
        }
        query_text(m, self.stream_type, self.index, "Resolution")
    }

    /// The engine's `Format` parameter of this stream, as text.
    pub fn format<E: MediaInfoEngine>(&self, m: &mut MediaInfo<E>) -> (r: MediaInfoResult<String>)
        ensures
            query_outcome(r),
    {
        proof {
            reveal_strlit("Format");
        }
        query_text(m, self.stream_type, self.index, "Format")
    }

    /// The engine's `Width` parameter of this stream, parsed as an
    /// integer.
    pub fn width<E: MediaInfoEngine>(&self, m: &mut MediaInfo<E>) -> (r: MediaInfoResult<i64>)
        ensures
            i64_outcome(r),
    {
        proof {
            reveal_strlit("Width");
        }
        query_i64(m, self.stream_type, self.index, "Width")
    }

    /// The engine's `Height` parameter of this stream, parsed as an
    /// integer.
    pub fn height<E: MediaInfoEngine>(&self, m: &mut MediaInfo<E>) -> (r: MediaInfoResult<i64>)
        ensures
            i64_outcome(r),
    {
        proof {
            reveal_strlit("Height");
        }
        query_i64(m, self.stream_type, self.index, "Height")
    }

    /// The combined `"WxH"` frame-size text of this image. The height is
    /// queried first and its failure wins; then the width.
    pub fn frame_size<E: MediaInfoEngine>(&self, m: &mut MediaInfo<E>) -> (r: MediaInfoResult<
        String,
    >)
        ensures
            exists|h: MediaInfoResult<i64>, w: MediaInfoResult<i64>|
                i64_outcome(h) && i64_outcome(w) && frame_size_matches(r, h, w),
    {
        let height = self.height(m);
        let ghost hg = height;
        match height {
            Err(e) => {
                // The width is not queried once the height has failed;
                // its own error stands in for the unqueried dimension,
                // which the combiner ignores then.
                let r = combine_frame_size(Err(e), Err(e));
                proof {
                    assert(i64_outcome(hg) && frame_size_matches(r, hg, hg));
                }
                r
            },
            Ok(hv) => {
                let width = self.width(m);
                let ghost wg = width;
                let r = combine_frame_size(Ok(hv), width);
                proof {
                    assert(i64_outcome(hg) && i64_outcome(wg) && frame_size_matches(r, hg, wg));
                }
                r
            },
        }
    }
}

impl TextStream {

    /// The engine's `ID` parameter of this stream, as text.
    pub fn stream_id<E: MediaInfoEngine>(&self, m: &mut MediaInfo<E>) -> (r: MediaInfoResult<String>)
        ensures
            query_outcome(r),
    {
        proof {
            reveal_strlit("ID");
        }
        query_text(m, self.stream_type, self.index, "ID")
    }

    /// The engine's `Format` parameter of this stream, as text.
    pub fn format<E: MediaInfoEngine>(&self, m: &mut MediaInfo<E>) -> (r: MediaInfoResult<String>)
        ensures
            query_outcome(r),
    {
        proof {
            reveal_strlit("Format");
        }
        query_text(m, self.stream_type, self.index, "Format")
    }

    /// The engine's `CodecID` parameter of this stream, as text.
    pub fn codec_id<E: MediaInfoEngine>(&self, m: &mut MediaInfo<E>) -> (r: MediaInfoResult<String>)
        ensures
            query_outcome(r),
    {
        proof {
            reveal_strlit("CodecID");
        }
        query_text(m, self.stream_type, self.index, "CodecID")
    }

    /// The engine's `CodecID/Info` parameter of this stream, as text.
    pub fn codec_info<E: MediaInfoEngine>(&self, m: &mut MediaInfo<E>) -> (r: MediaInfoResult<String>)
        ensures
            query_outcome(r),
    {
        proof {
            reveal_strlit("CodecID/Info");
        }
        query_text(m, self.stream_type, self.index, "CodecID/Info")
    }
}

impl OtherStream {

    /// The engine's `ID` parameter of this stream, as text.
    pub fn stream_id<E: MediaInfoEngine>(&self, m: &mut MediaInfo<E>) -> (r: MediaInfoResult<String>)
        ensures
            query_outcome(r),
    {
        proof {
            reveal_strlit("ID");
        }
        query_text(m, self.stream_type, self.index, "ID")
    }

    /// The engine's `Type` parameter of this stream, as text.
    pub fn other_type<E: MediaInfoEngine>(&self, m: &mut MediaInfo<E>) -> (r: MediaInfoResult<String>)
        ensures
            query_outcome(r),
    {
        proof {
            reveal_strlit("Type");
        }
        query_text(m, self.stream_type, self.index, "Type")
    }

    /// The engine's `TimeCode_FirstFrame` parameter of this stream, as text.
    pub fn timecode<E: MediaInfoEngine>(&self, m: &mut MediaInfo<E>) -> (r: MediaInfoResult<String>)
        ensures
            query_outcome(r),
    {
        proof {
            reveal_strlit("TimeCode_FirstFrame");
        }
        query_text(m, self.stream_type, self.index, "TimeCode_FirstFrame")
    }
}

impl MenuStream {

    /// The engine's `ID` parameter of this stream, as text.
    pub fn stream_id<E: MediaInfoEngine>(&self, m: &mut MediaInfo<E>) -> (r: MediaInfoResult<String>)
        ensures
            query_outcome(r),
    {
        proof {
            reveal_strlit("ID");
        }
        query_text(m, self.stream_type, self.index, "ID")
    }

    /// The engine's `Encoded_Date` parameter of this stream, parsed as a
    /// fixed-pattern timestamp.
    pub fn encoded_date<E: MediaInfoEngine>(&self, m: &mut MediaInfo<E>) -> (r: MediaInfoResult<UtcTimestamp>)
        ensures
            date_outcome(r),
    {
        proof {
            reveal_strlit("Encoded_Date");
        }
        query_date(m, self.stream_type, self.index, "Encoded_Date")
    }

    /// The engine's `Tagged_Date` parameter of this stream, parsed as a
    /// fixed-pattern timestamp.
    pub fn tagged_date<E: MediaInfoEngine>(&self, m: &mut MediaInfo<E>) -> (r: MediaInfoResult<UtcTimestamp>)
        ensures
            date_outcome(r),
    {
        proof {
            reveal_strlit("Tagged_Date");
        }
        query_date(m, self.stream_type, self.index, "Tagged_Date")
    }

    /// The engine's `Delay` parameter of this stream, parsed as an
    /// integer.
    pub fn delay<E: MediaInfoEngine>(&self, m: &mut MediaInfo<E>) -> (r: MediaInfoResult<i64>)
        ensures
            i64_outcome(r),
    {
        proof {
            reveal_strlit("Delay");
        }
        query_i64(m, self.stream_type, self.index, "Delay")
    }
}


} // verus!
