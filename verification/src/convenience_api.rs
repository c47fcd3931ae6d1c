//! The convenience facade: opens a source, enumerates the sub-stream
//! counts per category, materialises the matching typed accessor lists,
//! and tears everything down on close.
//!
//! The facade is a two-state machine, Closed and Open. A successful open
//! attaches the general accessor and builds one accessor list per
//! non-general category, sized to that category's count at open time;
//! `close` drops every list and releases the engine's session state,
//! keeping the native handle alive for further opens.

use vstd::prelude::*;

use crate::c_w_string::nul_free;
use crate::ffi::query_outcome;
use crate::ffi::MediaInfo;
use crate::ffi::MediaInfoEngine;
use crate::ffi::MediaInfoError;
use crate::ffi::MediaInfoResult;
use crate::ffi::MediaInfoStream;
use crate::streams::date_outcome;
use crate::streams::duration_outcome;
use crate::streams::i64_outcome;
use crate::streams::spec_fallback;
use crate::streams::wf_audio_streams;
use crate::streams::wf_image_streams;
use crate::streams::wf_menu_streams;
use crate::streams::wf_other_streams;
use crate::streams::wf_text_streams;
use crate::streams::wf_video_streams;
use crate::streams::AudioStream;
use crate::streams::GeneralStream;
use crate::streams::ImageStream;
use crate::streams::MediaDuration;
use crate::timestamp::UtcTimestamp;
use crate::streams::MenuStream;
use crate::streams::OtherStream;
use crate::streams::TextStream;
use crate::streams::VideoStream;

verus! {

/// Builds the video accessor list for a category count: accessor `i`
/// reads video sub-stream `i`.
fn build_video_streams(count: usize) -> (v: Vec<VideoStream>)
    ensures
        v@.len() == count,
        wf_video_streams(v@),
{
    let mut v: Vec<VideoStream> = Vec::new();
    let mut i: usize = 0;
    while i < count
        invariant
            i <= count,
            v@.len() == i,
            wf_video_streams(v@),
        decreases count - i,
    {
        v.push(VideoStream { stream_type: MediaInfoStream::Video, index: i });
        i += 1;
    }
    v
}

/// Builds the audio accessor list for a category count.
fn build_audio_streams(count: usize) -> (v: Vec<AudioStream>)
    ensures
        v@.len() == count,
        wf_audio_streams(v@),
{
    let mut v: Vec<AudioStream> = Vec::new();
    let mut i: usize = 0;
    while i < count
        invariant
            i <= count,
            v@.len() == i,
            wf_audio_streams(v@),
        decreases count - i,
    {
        v.push(AudioStream { stream_type: MediaInfoStream::Audio, index: i });
        i += 1;
    }
    v
}

/// Builds the text accessor list for a category count.
fn build_text_streams(count: usize) -> (v: Vec<TextStream>)
    ensures
        v@.len() == count,
        wf_text_streams(v@),
{
    let mut v: Vec<TextStream> = Vec::new();
    let mut i: usize = 0;
    while i < count
        invariant
            i <= count,
            v@.len() == i,
            wf_text_streams(v@),
        decreases count - i,
    {
        v.push(TextStream { stream_type: MediaInfoStream::Text, index: i });
        i += 1;
    }
    v
}

/// Builds the other-category accessor list for a category count.
fn build_other_streams(count: usize) -> (v: Vec<OtherStream>)
    ensures
        v@.len() == count,
        wf_other_streams(v@),
{
    let mut v: Vec<OtherStream> = Vec::new();
    let mut i: usize = 0;
    while i < count
        invariant
            i <= count,
            v@.len() == i,
            wf_other_streams(v@),
        decreases count - i,
    {
        v.push(OtherStream { stream_type: MediaInfoStream::Other, index: i });
        i += 1;
    }
    v
}

/// Builds the image accessor list for a category count.
fn build_image_streams(count: usize) -> (v: Vec<ImageStream>)
    ensures
        v@.len() == count,
        wf_image_streams(v@),
{
    let mut v: Vec<ImageStream> = Vec::new();
    let mut i: usize = 0;
    while i < count
        invariant
            i <= count,
            v@.len() == i,
            wf_image_streams(v@),
        decreases count - i,
    {
        v.push(ImageStream { stream_type: MediaInfoStream::Image, index: i });
        i += 1;
    }
    v
}

/// Builds the menu accessor list for a category count.
fn build_menu_streams(count: usize) -> (v: Vec<MenuStream>)
    ensures
        v@.len() == count,
        wf_menu_streams(v@),
{
    let mut v: Vec<MenuStream> = Vec::new();
    let mut i: usize = 0;
    while i < count
        invariant
            i <= count,
            v@.len() == i,
            wf_menu_streams(v@),
        decreases count - i,
    {
        v.push(MenuStream { stream_type: MediaInfoStream::Menu, index: i });
        i += 1;
    }
    v
}

/// The buffer-open protocol's success rule: the continue stage must
/// report its lowest status bit set and the finalize stage a nonzero
/// status. The init stage's status is not consulted.
pub open spec fn spec_buffer_flags_ok(continue_flags: usize, finalize_status: usize) -> bool {
    continue_flags & 0x01 != 0 && finalize_status != 0
}

/// Decides the buffer-open protocol's success from the two statuses the
/// engine reported.
pub fn buffer_flags_ok(continue_flags: usize, finalize_status: usize) -> (b: bool)
    ensures
        b == spec_buffer_flags_ok(continue_flags, finalize_status),
{
    continue_flags & 0x01 != 0 && finalize_status != 0
}

/// The per-file metadata snapshot: one handle wrapper, the general
/// accessor, and one typed accessor list per non-general category while
/// a session is open.
pub struct MediaInfoWrapper<E> {
    pub general_stream: GeneralStream,
    pub handle: MediaInfo<E>,
    pub video_streams: Option<Vec<VideoStream>>,
    pub audio_streams: Option<Vec<AudioStream>>,
    pub image_streams: Option<Vec<ImageStream>>,
    pub menu_streams: Option<Vec<MenuStream>>,
    pub text_streams: Option<Vec<TextStream>>,
    pub other_streams: Option<Vec<OtherStream>>,
}

impl<E: MediaInfoEngine> MediaInfoWrapper<E> {
    /// The Closed state: no accessor list exists and the general
    /// accessor is detached, so every general getter answers
    /// `NoSessionOpen`.
    pub open spec fn is_closed(&self) -> bool {
        &&& !self.general_stream.attached
        &&& self.video_streams is None
        &&& self.audio_streams is None
        &&& self.image_streams is None
        &&& self.menu_streams is None
        &&& self.text_streams is None
        &&& self.other_streams is None
    }

    /// The Open state: the general accessor is attached at the fixed
    /// index zero of the general category, and every non-general
    /// category has a well-formed accessor list.
    pub open spec fn is_open(&self) -> bool {
        &&& self.general_stream.attached
        &&& self.general_stream.stream_type == MediaInfoStream::General
        &&& self.video_streams matches Some(v) && wf_video_streams(v@)
        &&& self.audio_streams matches Some(v) && wf_audio_streams(v@)
        &&& self.image_streams matches Some(v) && wf_image_streams(v@)
        &&& self.menu_streams matches Some(v) && wf_menu_streams(v@)
        &&& self.text_streams matches Some(v) && wf_text_streams(v@)
        &&& self.other_streams matches Some(v) && wf_other_streams(v@)
    }

    /// True when two facade states hold the very same accessors: what a
    /// getter leaves untouched.
    pub open spec fn same_accessors(&self, other: &Self) -> bool {
        &&& self.general_stream == other.general_stream
        &&& self.video_streams == other.video_streams
        &&& self.audio_streams == other.audio_streams
        &&& self.image_streams == other.image_streams
        &&& self.menu_streams == other.menu_streams
        &&& self.text_streams == other.text_streams
        &&& self.other_streams == other.other_streams
    }

    /// Wraps one engine into a facade in the Closed state.
    pub fn new(engine: E) -> (w: MediaInfoWrapper<E>)
        ensures
            w.is_closed(),
    {
        MediaInfoWrapper {
            general_stream: GeneralStream {
                stream_type: MediaInfoStream::General,
                attached: false,
            },
            handle: MediaInfo::new(engine),
            video_streams: None,
            audio_streams: None,
            image_streams: None,
            menu_streams: None,
            text_streams: None,
            other_streams: None,
        }
    }

    /// Opens the source at `path` and, on success, materialises the
    /// accessor lists from the counts the engine reports. A path that
    /// cannot be marshalled is rejected before any native call and
    /// leaves the facade untouched.
    pub fn open(&mut self, path: &str) -> (r: MediaInfoResult<usize>)
        ensures
            r is Ok <==> nul_free(path@),
            r is Ok ==> final(self).is_open(),
            !nul_free(path@) ==> r == Err::<usize, MediaInfoError>(MediaInfoError::EncodingFailure)
                && *final(self) == *old(self),
    {
        let result = self.handle.open(path);
        match result {
            Ok(status) => {
                self.wrap_streams();
                Ok(status)
            },
            Err(e) => Err(e),
        }
    }

    /// Opens a source held in memory through the engine's three-phase
    /// buffer protocol. A zero-length buffer is rejected with
    /// `EmptyInput` before any native call and leaves the facade
    /// untouched; protocol flags that do not indicate success yield
    /// `StreamingProtocolFailure` with no accessor state exposed.
    pub fn open_data(&mut self, data: &[u8]) -> (r: MediaInfoResult<()>)
        ensures
            data@.len() == 0 ==> r == Err::<(), MediaInfoError>(MediaInfoError::EmptyInput)
                && *final(self) == *old(self),
            data@.len() > 0 ==> r != Err::<(), MediaInfoError>(MediaInfoError::EmptyInput),
            r is Ok ==> final(self).is_open(),
            r is Err ==> old(self).same_accessors(final(self)),
            r matches Err(e) ==> e == MediaInfoError::EmptyInput
                || e == MediaInfoError::StreamingProtocolFailure,
    {
        let data_len = data.len();
        if data_len == 0 {
            return Err(MediaInfoError::EmptyInput);
        }
        self.handle.open_buffer_init(data_len as u64, 0);
        let continue_result = self.handle.open_buffer_continue(data);
        let finalize_result = self.handle.open_buffer_finalize();
        if !buffer_flags_ok(continue_result, finalize_result) {
            return Err(MediaInfoError::StreamingProtocolFailure);
        }
        self.wrap_streams();
        Ok(())
    }

    /// Closes the session: drops every accessor list, detaches the
    /// general accessor, and asks the engine to release its session
    /// state. Unconditional, so a second close finds the same Closed
    /// state and produces no error.
    pub fn close(&mut self)
        ensures
            final(self).is_closed(),
    {
        self.general_stream = GeneralStream { stream_type: MediaInfoStream::General, attached: false };
        self.video_streams = None;
        self.audio_streams = None;
        self.image_streams = None;
        self.menu_streams = None;
        self.text_streams = None;
        self.other_streams = None;
        self.handle.close();
    }

    /// Attaches the general accessor and builds the accessor list of
    /// every non-general category from the count the engine reports for
    /// it.
    fn wrap_streams(&mut self)
        ensures
            final(self).is_open(),
    {
        self.general_stream = GeneralStream { stream_type: MediaInfoStream::General, attached: true };
        let video_count = self.handle.count_get(MediaInfoStream::Video);
        self.video_streams = Some(build_video_streams(video_count));
        let audio_count = self.handle.count_get(MediaInfoStream::Audio);
        self.audio_streams = Some(build_audio_streams(audio_count));
        let text_count = self.handle.count_get(MediaInfoStream::Text);
        self.text_streams = Some(build_text_streams(text_count));
        let other_count = self.handle.count_get(MediaInfoStream::Other);
        self.other_streams = Some(build_other_streams(other_count));
        let image_count = self.handle.count_get(MediaInfoStream::Image);
        self.image_streams = Some(build_image_streams(image_count));
        let menu_count = self.handle.count_get(MediaInfoStream::Menu);
        self.menu_streams = Some(build_menu_streams(menu_count));
    }

    /// The video accessor list of the open session, if any.
    pub fn video_streams(&self) -> (r: Option<&Vec<VideoStream>>)
        ensures
            match r {
                Some(v) => self.video_streams == Some(*v),
                None => self.video_streams is None,
            },
    {
        self.video_streams.as_ref()
    }

    /// The audio accessor list of the open session, if any.
    pub fn audio_streams(&self) -> (r: Option<&Vec<AudioStream>>)
        ensures
            match r {
                Some(v) => self.audio_streams == Some(*v),
                None => self.audio_streams is None,
            },
    {
        self.audio_streams.as_ref()
    }

    /// The text accessor list of the open session, if any.
    pub fn text_streams(&self) -> (r: Option<&Vec<TextStream>>)
        ensures
            match r {
                Some(v) => self.text_streams == Some(*v),
                None => self.text_streams is None,
            },
    {
        self.text_streams.as_ref()
    }

    /// The image accessor list of the open session, if any.
    pub fn image_streams(&self) -> (r: Option<&Vec<ImageStream>>)
        ensures
            match r {
                Some(v) => self.image_streams == Some(*v),
                None => self.image_streams is None,
            },
    {
        self.image_streams.as_ref()
    }

    /// The other-category accessor list of the open session, if any.
    pub fn other_streams(&self) -> (r: Option<&Vec<OtherStream>>)
        ensures
            match r {
                Some(v) => self.other_streams == Some(*v),
                None => self.other_streams is None,
            },
    {
        self.other_streams.as_ref()
    }

    /// The menu accessor list of the open session, if any.
    pub fn menu_streams(&self) -> (r: Option<&Vec<MenuStream>>)
        ensures
            match r {
                Some(v) => self.menu_streams == Some(*v),
                None => self.menu_streams is None,
            },
    {
        self.menu_streams.as_ref()
    }


    /// The general accessor's `codec_id` getter, delegated through the
    /// facade: `NoSessionOpen` while the facade is Closed.
    pub fn codec_id(&mut self) -> (r: MediaInfoResult<String>)
        ensures
            !old(self).general_stream.attached ==> r == Err::<String, MediaInfoError>(
                MediaInfoError::NoSessionOpen,
            ) && *final(self) == *old(self),
            old(self).general_stream.attached ==> query_outcome(r),
            old(self).same_accessors(final(self)),
    {
        let gs = self.general_stream;
        gs.codec_id(&mut self.handle)
    }

    /// The general accessor's `duration` getter, delegated through the
    /// facade: `NoSessionOpen` while the facade is Closed.
    pub fn duration(&mut self) -> (r: MediaInfoResult<MediaDuration>)
        ensures
            !old(self).general_stream.attached ==> r == Err::<MediaDuration, MediaInfoError>(
                MediaInfoError::NoSessionOpen,
            ) && *final(self) == *old(self),
            old(self).general_stream.attached ==> duration_outcome(r),
            old(self).same_accessors(final(self)),
    {
        let gs = self.general_stream;
        gs.duration(&mut self.handle)
    }

    /// The general accessor's `format` getter, delegated through the
    /// facade: `NoSessionOpen` while the facade is Closed.
    pub fn format(&mut self) -> (r: MediaInfoResult<String>)
        ensures
            !old(self).general_stream.attached ==> r == Err::<String, MediaInfoError>(
                MediaInfoError::NoSessionOpen,
            ) && *final(self) == *old(self),
            old(self).general_stream.attached ==> query_outcome(r),
            old(self).same_accessors(final(self)),
    {
        let gs = self.general_stream;
        gs.format(&mut self.handle)
    }

    /// The general accessor's `format_profile` getter, delegated through the
    /// facade: `NoSessionOpen` while the facade is Closed.
    pub fn format_profile(&mut self) -> (r: MediaInfoResult<String>)
        ensures
            !old(self).general_stream.attached ==> r == Err::<String, MediaInfoError>(
                MediaInfoError::NoSessionOpen,
            ) && *final(self) == *old(self),
            old(self).general_stream.attached ==> query_outcome(r),
            old(self).same_accessors(final(self)),
    {
        let gs = self.general_stream;
        gs.format_profile(&mut self.handle)
    }

    /// The general accessor's `format_info` getter, delegated through the
    /// facade: `NoSessionOpen` while the facade is Closed.
    pub fn format_info(&mut self) -> (r: MediaInfoResult<String>)
        ensures
            !old(self).general_stream.attached ==> r == Err::<String, MediaInfoError>(
                MediaInfoError::NoSessionOpen,
            ) && *final(self) == *old(self),
            old(self).general_stream.attached ==> query_outcome(r),
            old(self).same_accessors(final(self)),
    {
        let gs = self.general_stream;
        gs.format_info(&mut self.handle)
    }

    /// The general accessor's `codec` getter, delegated through the
    /// facade: `NoSessionOpen` while the facade is Closed.
    pub fn codec(&mut self) -> (r: MediaInfoResult<String>)
        ensures
            !old(self).general_stream.attached ==> r == Err::<String, MediaInfoError>(
                MediaInfoError::NoSessionOpen,
            ) && *final(self) == *old(self),
            old(self).general_stream.attached ==> query_outcome(r),
            old(self).same_accessors(final(self)),
    {
        let gs = self.general_stream;
        gs.codec(&mut self.handle)
    }

    /// The general accessor's `overall_bit_rate` getter, delegated through the
    /// facade: `NoSessionOpen` while the facade is Closed.
    pub fn overall_bit_rate(&mut self) -> (r: MediaInfoResult<i64>)
        ensures
            !old(self).general_stream.attached ==> r == Err::<i64, MediaInfoError>(
                MediaInfoError::NoSessionOpen,
            ) && *final(self) == *old(self),
            old(self).general_stream.attached ==> i64_outcome(r),
            old(self).same_accessors(final(self)),
    {
        let gs = self.general_stream;
        gs.overall_bit_rate(&mut self.handle)
    }

    /// The general accessor's `headersize` getter, delegated through the
    /// facade: `NoSessionOpen` while the facade is Closed.
    pub fn headersize(&mut self) -> (r: MediaInfoResult<i64>)
        ensures
            !old(self).general_stream.attached ==> r == Err::<i64, MediaInfoError>(
                MediaInfoError::NoSessionOpen,
            ) && *final(self) == *old(self),
            old(self).general_stream.attached ==> i64_outcome(r),
            old(self).same_accessors(final(self)),
    {
        let gs = self.general_stream;
        gs.headersize(&mut self.handle)
    }

    /// The general accessor's `datasize` getter, delegated through the
    /// facade: `NoSessionOpen` while the facade is Closed.
    pub fn datasize(&mut self) -> (r: MediaInfoResult<i64>)
        ensures
            !old(self).general_stream.attached ==> r == Err::<i64, MediaInfoError>(
                MediaInfoError::NoSessionOpen,
            ) && *final(self) == *old(self),
            old(self).general_stream.attached ==> i64_outcome(r),
            old(self).same_accessors(final(self)),
    {
        let gs = self.general_stream;
        gs.datasize(&mut self.handle)
    }

    /// The general accessor's `footersize` getter, delegated through the
    /// facade: `NoSessionOpen` while the facade is Closed.
    pub fn footersize(&mut self) -> (r: MediaInfoResult<i64>)
        ensures
            !old(self).general_stream.attached ==> r == Err::<i64, MediaInfoError>(
                MediaInfoError::NoSessionOpen,
            ) && *final(self) == *old(self),
            old(self).general_stream.attached ==> i64_outcome(r),
            old(self).same_accessors(final(self)),
    {
        let gs = self.general_stream;
        gs.footersize(&mut self.handle)
    }

    /// The general accessor's `encoded_library` getter, delegated through the
    /// facade: `NoSessionOpen` while the facade is Closed.
    pub fn encoded_library(&mut self) -> (r: MediaInfoResult<String>)
        ensures
            !old(self).general_stream.attached ==> r == Err::<String, MediaInfoError>(
                MediaInfoError::NoSessionOpen,
            ) && *final(self) == *old(self),
            old(self).general_stream.attached ==> query_outcome(r),
            old(self).same_accessors(final(self)),
    {
        let gs = self.general_stream;
        gs.encoded_library(&mut self.handle)
    }

    /// The general accessor's `mastered_date` getter, delegated through the
    /// facade: `NoSessionOpen` while the facade is Closed.
    pub fn mastered_date(&mut self) -> (r: MediaInfoResult<UtcTimestamp>)
        ensures
            !old(self).general_stream.attached ==> r == Err::<UtcTimestamp, MediaInfoError>(
                MediaInfoError::NoSessionOpen,
            ) && *final(self) == *old(self),
            old(self).general_stream.attached ==> date_outcome(r),
            old(self).same_accessors(final(self)),
    {
        let gs = self.general_stream;
        gs.mastered_date(&mut self.handle)
    }

    /// The general accessor's `tagged_date` getter, delegated through the
    /// facade: `NoSessionOpen` while the facade is Closed.
    pub fn tagged_date(&mut self) -> (r: MediaInfoResult<UtcTimestamp>)
        ensures
            !old(self).general_stream.attached ==> r == Err::<UtcTimestamp, MediaInfoError>(
                MediaInfoError::NoSessionOpen,
            ) && *final(self) == *old(self),
            old(self).general_stream.attached ==> date_outcome(r),
            old(self).same_accessors(final(self)),
    {
        let gs = self.general_stream;
        gs.tagged_date(&mut self.handle)
    }

    /// The general accessor's `encoded_date` getter, delegated through the
    /// facade: `NoSessionOpen` while the facade is Closed.
    pub fn encoded_date(&mut self) -> (r: MediaInfoResult<UtcTimestamp>)
        ensures
            !old(self).general_stream.attached ==> r == Err::<UtcTimestamp, MediaInfoError>(
                MediaInfoError::NoSessionOpen,
            ) && *final(self) == *old(self),
            old(self).general_stream.attached ==> date_outcome(r),
            old(self).same_accessors(final(self)),
    {
        let gs = self.general_stream;
        gs.encoded_date(&mut self.handle)
    }

    /// The general accessor's `last_modification_date` getter, delegated through the
    /// facade: `NoSessionOpen` while the facade is Closed.
    pub fn last_modification_date(&mut self) -> (r: MediaInfoResult<UtcTimestamp>)
        ensures
            !old(self).general_stream.attached ==> r == Err::<UtcTimestamp, MediaInfoError>(
                MediaInfoError::NoSessionOpen,
            ) && *final(self) == *old(self),
            old(self).general_stream.attached ==> date_outcome(r),
            old(self).same_accessors(final(self)),
    {
        let gs = self.general_stream;
        gs.last_modification_date(&mut self.handle)
    }

    /// The general accessor's `artist` getter, delegated through the
    /// facade: `NoSessionOpen` while the facade is Closed.
    pub fn artist(&mut self) -> (r: MediaInfoResult<String>)
        ensures
            !old(self).general_stream.attached ==> r == Err::<String, MediaInfoError>(
                MediaInfoError::NoSessionOpen,
            ) && *final(self) == *old(self),
            old(self).general_stream.attached ==> query_outcome(r),
            old(self).same_accessors(final(self)),
    {
        let gs = self.general_stream;
        gs.artist(&mut self.handle)
    }

    /// The general accessor's `performer` getter, delegated through the
    /// facade: `NoSessionOpen` while the facade is Closed.
    pub fn performer(&mut self) -> (r: MediaInfoResult<String>)
        ensures
            !old(self).general_stream.attached ==> r == Err::<String, MediaInfoError>(
                MediaInfoError::NoSessionOpen,
            ) && *final(self) == *old(self),
            old(self).general_stream.attached ==> query_outcome(r),
            old(self).same_accessors(final(self)),
    {
        let gs = self.general_stream;
        gs.performer(&mut self.handle)
    }

    /// The general accessor's `title` getter, delegated through the
    /// facade: `NoSessionOpen` while the facade is Closed.
    pub fn title(&mut self) -> (r: MediaInfoResult<String>)
        ensures
            !old(self).general_stream.attached ==> r == Err::<String, MediaInfoError>(
                MediaInfoError::NoSessionOpen,
            ) && *final(self) == *old(self),
            old(self).general_stream.attached ==> query_outcome(r),
            old(self).same_accessors(final(self)),
    {
        let gs = self.general_stream;
        gs.title(&mut self.handle)
    }

    /// The general accessor's `genre` getter, delegated through the
    /// facade: `NoSessionOpen` while the facade is Closed.
    pub fn genre(&mut self) -> (r: MediaInfoResult<String>)
        ensures
            !old(self).general_stream.attached ==> r == Err::<String, MediaInfoError>(
                MediaInfoError::NoSessionOpen,
            ) && *final(self) == *old(self),
            old(self).general_stream.attached ==> query_outcome(r),
            old(self).same_accessors(final(self)),
    {
        let gs = self.general_stream;
        gs.genre(&mut self.handle)
    }

    /// The general accessor's `album` getter, delegated through the
    /// facade: `NoSessionOpen` while the facade is Closed.
    pub fn album(&mut self) -> (r: MediaInfoResult<String>)
        ensures
            !old(self).general_stream.attached ==> r == Err::<String, MediaInfoError>(
                MediaInfoError::NoSessionOpen,
            ) && *final(self) == *old(self),
            old(self).general_stream.attached ==> query_outcome(r),
            old(self).same_accessors(final(self)),
    {
        let gs = self.general_stream;
        gs.album(&mut self.handle)
    }

    /// The general accessor's `copyright` getter, delegated through the
    /// facade: `NoSessionOpen` while the facade is Closed.
    pub fn copyright(&mut self) -> (r: MediaInfoResult<String>)
        ensures
            !old(self).general_stream.attached ==> r == Err::<String, MediaInfoError>(
                MediaInfoError::NoSessionOpen,
            ) && *final(self) == *old(self),
            old(self).general_stream.attached ==> query_outcome(r),
            old(self).same_accessors(final(self)),
    {
        let gs = self.general_stream;
        gs.copyright(&mut self.handle)
    }

    /// The general accessor's `year` getter, delegated through the
    /// facade: `NoSessionOpen` while the facade is Closed.
    pub fn year(&mut self) -> (r: MediaInfoResult<String>)
        ensures
            !old(self).general_stream.attached ==> r == Err::<String, MediaInfoError>(
                MediaInfoError::NoSessionOpen,
            ) && *final(self) == *old(self),
            old(self).general_stream.attached ==> query_outcome(r),
            old(self).same_accessors(final(self)),
    {
        let gs = self.general_stream;
        gs.year(&mut self.handle)
    }

    /// The general accessor's composite `writing_application` getter,
    /// delegated through the facade: the primary field, falling back to
    /// the secondary on any primary failure.
    pub fn writing_application(&mut self) -> (r: MediaInfoResult<String>)
        ensures
            !old(self).general_stream.attached ==> r == Err::<String, MediaInfoError>(
                MediaInfoError::NoSessionOpen,
            ) && *final(self) == *old(self),
            old(self).general_stream.attached ==> exists|
                p: MediaInfoResult<String>,
                s: MediaInfoResult<String>,
            | query_outcome(p) && query_outcome(s) && r == spec_fallback(p, s),
            old(self).same_accessors(final(self)),
    {
        let gs = self.general_stream;
        gs.writing_application(&mut self.handle)
    }

    /// The handle wrapper, for querying a materialised accessor.
    pub fn handle_mut(&mut self) -> (r: &mut MediaInfo<E>)
        ensures
            *r == old(self).handle,
            final(self).handle == *final(r),
            old(self).same_accessors(final(self)),
    {
        &mut self.handle
    }
}

} // verus!
