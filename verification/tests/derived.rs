//! Derived boolean getters: they never propagate an underlying error,
//! and each complementary pair disagrees on every reply of the engine.

use mediainfo::MediaInfo;
use mediainfo::MediaInfoEngine;
use mediainfo::MediaInfoStream;
use mediainfo::BaseStream;
use mediainfo::ImageStream;
use mediainfo::MediaDuration;
use mediainfo::MediaInfoError;
use mediainfo::VideoStream;

fn wide(s: &str) -> Vec<u32> {
    s.chars().map(|c| c as u32).collect()
}

/// Answers every video parameter query with one fixed reply.
struct OneReplyEngine {
    reply: &'static str,
}

impl MediaInfoEngine for OneReplyEngine {
    fn open(&mut self, _path: &[u32]) -> usize {
        1
    }

    fn close(&mut self) {
    }

    fn option(&mut self, _parameter: &[u32], _value: &[u32]) -> Vec<u32> {
        wide("")
    }

    fn inform(&mut self, _reserved: usize) -> Vec<u32> {
        wide("")
    }

    fn count_get(&mut self, _stream_kind: i32, _stream_number: usize) -> usize {
        1
    }

    fn get(
        &mut self,
        _info_stream: i32,
        _stream_number: usize,
        _parameter: &[u32],
        _info_kind: i32,
        _search_kind: i32,
    ) -> Vec<u32> {
        wide(self.reply)
    }

    fn open_buffer_init(&mut self, _buffer_size: u64, _offset: u64) -> usize {
        1
    }

    fn open_buffer_continue(&mut self, _data: &[u8]) -> usize {
        1
    }

    fn open_buffer_finalize(&mut self) -> usize {
        1
    }
}

fn video_over(reply: &'static str) -> (VideoStream, MediaInfo<OneReplyEngine>) {
    let vs = VideoStream { stream_type: MediaInfoStream::Video, index: 0 };
    (vs, MediaInfo::new(OneReplyEngine { reply }))
}

#[test]
fn cbr_and_vbr_are_complementary_on_every_reply() {
    // A constant mode, a variable mode, and a failing query: the pair
    // must disagree in all three cases, never surfacing an error.
    let replies: Vec<&'static str> = vec!["Constant", "Variable", ""];
    for reply in replies {
        let (vs, mut m) = video_over(reply);
        let cbr = vs.cbr(&mut m);
        let vbr = vs.vbr(&mut m);
        assert_eq!(cbr, reply == "Constant");
        assert_eq!(vbr, !cbr);
    }
}

#[test]
fn interlaced_and_progressive_are_complementary_on_every_reply() {
    let replies: Vec<&'static str> = vec!["Interlaced", "Progressive", "MBAFF", ""];
    for reply in replies {
        let (vs, mut m) = video_over(reply);
        let interlaced = vs.interlaced(&mut m);
        let progressive = vs.progressive(&mut m);
        assert_eq!(interlaced, reply == "Interlaced");
        assert_eq!(progressive, !interlaced);
    }
}

#[test]
fn derived_booleans_treat_failure_as_false() {
    let (vs, mut m) = video_over("");
    assert!(!vs.cbr(&mut m));
    assert!(!vs.interlaced(&mut m));
}

#[test]
fn frame_size_combines_width_and_height() {
    let (vs, mut m) = video_over("320");
    assert_eq!("320x320", vs.frame_size(&mut m).unwrap());
    let (vs2, mut m2) = video_over("");
    assert!(vs2.frame_size(&mut m2).is_err());
}

#[test]
fn image_frame_size_combines_width_and_height() {
    let is = ImageStream { stream_type: MediaInfoStream::Image, index: 0 };
    let mut m = MediaInfo::new(OneReplyEngine { reply: "16" });
    assert_eq!("16x16", is.frame_size(&mut m).unwrap());
    let mut bad = MediaInfo::new(OneReplyEngine { reply: "wide" });
    assert!(is.frame_size(&mut bad).is_err());
}

#[test]
fn base_stream_conversions_are_shared_by_every_accessor() {
    let vs = VideoStream { stream_type: MediaInfoStream::Video, index: 3 };
    assert_eq!(vs.stream_type(), MediaInfoStream::Video);
    assert_eq!(vs.index(), 3);
    assert_eq!(vs.result_to_i64(Ok("-42".to_string())), Ok(-42));
    assert_eq!(
        vs.result_to_duration(Ok("5568".to_string())),
        Ok(MediaDuration { millis: 5568 })
    );
    assert_eq!(
        vs.result_to_date(Ok("never".to_string())),
        Err(MediaInfoError::NonNumericResult)
    );
}
