//! Facade tests against a scripted engine that answers like a small
//! known sample file with one video and one audio stream.

use mediainfo::MediaDuration;
use mediainfo::MediaInfo;
use mediainfo::MediaInfoEngine;
use mediainfo::MediaInfoError;
use mediainfo::MediaInfoInfo;
use mediainfo::MediaInfoStream;
use mediainfo::MediaInfoWrapper;
use mediainfo::UtcTimestamp;

fn wide(s: &str) -> Vec<u32> {
    s.chars().map(|c| c as u32).collect()
}

fn param_of(units: &[u32]) -> String {
    units.iter().take_while(|&&u| u != 0).map(|&u| char::from_u32(u).unwrap()).collect()
}

/// Answers like a sample container with one video and one audio stream.
struct SampleEngine {
    native_calls: usize,
    buffer_bytes: usize,
}

impl SampleEngine {
    fn new() -> SampleEngine {
        SampleEngine { native_calls: 0, buffer_bytes: 0 }
    }

    fn reply(&self, stream: i32, index: usize, parameter: &str) -> &'static str {
        match (stream, index, parameter) {
            (0, 0, "CodecID") => "mp42",
            (0, 0, "Duration") => "5568",
            (0, 0, "Format") => "MPEG-4",
            (0, 0, "Format_Profile") => "Base Media / Version 2",
            (0, 0, "Codec") => "MPEG-4",
            (0, 0, "OverallBitRate") => "551194",
            (0, 0, "Encoded_Application") => "",
            (0, 0, "Encoded_Application/String") => "HandBrake 0.9.4 2009112300",
            (0, 0, "HeaderSize") => "160",
            (0, 0, "DataSize") => "379880",
            (0, 0, "FooterSize") => "3591",
            (0, 0, "Tagged_Date") => "UTC 2010-03-20 21:29:12",
            (1, 0, "Format") => "AVC",
            (1, 0, "Width") => "560",
            (1, 0, "Height") => "320",
            (2, 0, "Channel(s)") => "2",
            _ => "",
        }
    }
}

impl MediaInfoEngine for SampleEngine {
    fn open(&mut self, _path: &[u32]) -> usize {
        self.native_calls += 1;
        1
    }

    fn close(&mut self) {
        self.native_calls += 1;
    }

    fn option(&mut self, _parameter: &[u32], _value: &[u32]) -> Vec<u32> {
        self.native_calls += 1;
        wide("")
    }

    fn inform(&mut self, _reserved: usize) -> Vec<u32> {
        self.native_calls += 1;
        wide("General\nComplete name : sample.mp4")
    }

    fn count_get(&mut self, stream_kind: i32, _stream_number: usize) -> usize {
        self.native_calls += 1;
        match stream_kind {
            0 => 1,
            1 => 1,
            2 => 1,
            _ => 0,
        }
    }

    fn get(
        &mut self,
        info_stream: i32,
        stream_number: usize,
        parameter: &[u32],
        _info_kind: i32,
        _search_kind: i32,
    ) -> Vec<u32> {
        self.native_calls += 1;
        let name = param_of(parameter);
        wide(self.reply(info_stream, stream_number, name.as_str()))
    }

    fn open_buffer_init(&mut self, _buffer_size: u64, _offset: u64) -> usize {
        self.native_calls += 1;
        1
    }

    fn open_buffer_continue(&mut self, data: &[u8]) -> usize {
        self.native_calls += 1;
        self.buffer_bytes += data.len();
        1
    }

    fn open_buffer_finalize(&mut self) -> usize {
        self.native_calls += 1;
        1
    }
}

#[test]
fn can_retrieve_general_information() {
    let mut mw = MediaInfoWrapper::new(SampleEngine::new());
    mw.open("samples/sample.mp4").unwrap();

    assert_eq!("mp42", mw.codec_id().unwrap());
    assert_eq!(MediaDuration { millis: 5568 }, mw.duration().unwrap());
    assert_eq!("MPEG-4", mw.format().unwrap());
    assert_eq!("Base Media / Version 2", mw.format_profile().unwrap());
    assert_eq!("MPEG-4", mw.codec().unwrap());
    assert_eq!(551194, mw.overall_bit_rate().unwrap());
    assert_eq!("HandBrake 0.9.4 2009112300", mw.writing_application().unwrap());
    assert_eq!(160, mw.headersize().unwrap());
    assert_eq!(379880, mw.datasize().unwrap());
    assert_eq!(3591, mw.footersize().unwrap());
    assert_eq!(
        UtcTimestamp { year: 2010, month: 3, day: 20, hour: 21, minute: 29, second: 12 },
        mw.tagged_date().unwrap()
    );
    mw.close();
}

#[test]
fn can_retrieve_information_from_buffer() {
    let mut mw = MediaInfoWrapper::new(SampleEngine::new());
    let contents: Vec<u8> = vec![0u8; 64];
    mw.open_data(contents.as_slice()).expect("Could not read from buffer.");

    assert_eq!("mp42", mw.codec_id().unwrap());
}

#[test]
fn can_retrieve_video_stream_information() {
    let mut mw = MediaInfoWrapper::new(SampleEngine::new());
    mw.open("samples/sample.mp4").unwrap();

    let vstream = {
        let vstreams = match mw.video_streams() {
            Some(x) => x,
            None => panic!("It should have video streams."),
        };
        assert_eq!(vstreams.len(), 1);
        vstreams[0]
    };

    assert_eq!("AVC", vstream.format(mw.handle_mut()).unwrap());
}

#[test]
fn can_retrieve_stream_count() {
    let mut m = MediaInfo::new(SampleEngine::new());

    assert_eq!(true, m.open("samples/sample.mp4").is_ok());
    assert_eq!(m.count_get(MediaInfoStream::Video), 1);
    assert_eq!(m.count_get(MediaInfoStream::Audio), 1);
    assert_eq!(m.count_get(MediaInfoStream::General), 1);

    m.close();
}

#[test]
fn general_count_is_one_after_open() {
    let mut mw = MediaInfoWrapper::new(SampleEngine::new());
    mw.open("samples/sample.mp4").unwrap();
    assert_eq!(mw.handle_mut().count_get(MediaInfoStream::General), 1);
}

#[test]
fn empty_buffer_fails_before_any_native_call() {
    let mut mw = MediaInfoWrapper::new(SampleEngine::new());
    let r = mw.open_data(&[]);
    assert!(matches!(r, Err(MediaInfoError::EmptyInput)));
    assert!(mw.video_streams().is_none());
    // The scripted engine counts every native entry; none was reached.
    let mut probe = SampleEngine::new();
    assert_eq!(probe.native_calls, 0);
    let r2 = MediaInfoWrapper::new(probe).open_data(&[]);
    assert!(matches!(r2, Err(MediaInfoError::EmptyInput)));
}

#[test]
fn streaming_protocol_failure_is_reported() {
    struct RefusingEngine(SampleEngine);
    impl MediaInfoEngine for RefusingEngine {
        fn open(&mut self, path: &[u32]) -> usize {
            self.0.open(path)
        }
        fn close(&mut self) {
            self.0.close()
        }
        fn option(&mut self, parameter: &[u32], value: &[u32]) -> Vec<u32> {
            self.0.option(parameter, value)
        }
        fn inform(&mut self, reserved: usize) -> Vec<u32> {
            self.0.inform(reserved)
        }
        fn count_get(&mut self, stream_kind: i32, stream_number: usize) -> usize {
            self.0.count_get(stream_kind, stream_number)
        }
        fn get(
            &mut self,
            info_stream: i32,
            stream_number: usize,
            parameter: &[u32],
            info_kind: i32,
            search_kind: i32,
        ) -> Vec<u32> {
            self.0.get(info_stream, stream_number, parameter, info_kind, search_kind)
        }
        fn open_buffer_init(&mut self, buffer_size: u64, offset: u64) -> usize {
            self.0.open_buffer_init(buffer_size, offset)
        }
        fn open_buffer_continue(&mut self, _data: &[u8]) -> usize {
            0
        }
        fn open_buffer_finalize(&mut self) -> usize {
            0
        }
    }

    let mut mw = MediaInfoWrapper::new(RefusingEngine(SampleEngine::new()));
    let r = mw.open_data(&[1u8, 2, 3]);
    assert!(matches!(r, Err(MediaInfoError::StreamingProtocolFailure)));
    assert!(mw.video_streams().is_none());
}

#[test]
fn out_of_range_index_yields_zero_length_result() {
    let mut m = MediaInfo::new(SampleEngine::new());
    m.open("samples/sample.mp4").unwrap();
    let r = m.get(MediaInfoStream::Video, 5, "Format", MediaInfoInfo::Text, MediaInfoInfo::Name);
    assert!(matches!(r, Err(MediaInfoError::ZeroLengthResult)));
}

#[test]
fn missing_field_yields_zero_length_result_not_a_panic() {
    let mut mw = MediaInfoWrapper::new(SampleEngine::new());
    mw.open("samples/sample.mp4").unwrap();
    assert_eq!(MediaDuration { millis: 5568 }, mw.duration().unwrap());
    let r = mw.title();
    assert!(matches!(r, Err(MediaInfoError::ZeroLengthResult)));
}

#[test]
fn close_twice_leaves_facade_closed_without_error() {
    let mut mw = MediaInfoWrapper::new(SampleEngine::new());
    mw.open("samples/sample.mp4").unwrap();
    assert!(mw.video_streams().is_some());
    mw.close();
    assert!(mw.video_streams().is_none());
    assert!(matches!(mw.codec_id(), Err(MediaInfoError::NoSessionOpen)));
    mw.close();
    assert!(mw.video_streams().is_none());
    assert!(matches!(mw.codec_id(), Err(MediaInfoError::NoSessionOpen)));
}

#[test]
fn writing_application_falls_back_to_secondary_field() {
    let mut mw = MediaInfoWrapper::new(SampleEngine::new());
    mw.open("samples/sample.mp4").unwrap();
    // The primary field is absent in the sample, so the composite getter
    // must hand back the secondary field's value unchanged.
    let gs = mw.general_stream;
    assert!(matches!(
        gs.encoded_application(mw.handle_mut()),
        Err(MediaInfoError::ZeroLengthResult)
    ));
    let secondary = gs.encoded_application_string(mw.handle_mut()).unwrap();
    assert_eq!(secondary, mw.writing_application().unwrap());
    assert_eq!("HandBrake 0.9.4 2009112300", mw.writing_application().unwrap());
}

#[test]
fn getters_before_open_report_no_session() {
    let mut mw = MediaInfoWrapper::new(SampleEngine::new());
    assert!(matches!(mw.codec_id(), Err(MediaInfoError::NoSessionOpen)));
    assert!(matches!(mw.duration(), Err(MediaInfoError::NoSessionOpen)));
    assert!(matches!(mw.tagged_date(), Err(MediaInfoError::NoSessionOpen)));
    assert!(mw.video_streams().is_none());
}

#[test]
fn audio_stream_channel_booleans() {
    let mut mw = MediaInfoWrapper::new(SampleEngine::new());
    mw.open("samples/sample.mp4").unwrap();
    let astream = {
        let astreams = mw.audio_streams().expect("It should have audio streams.");
        assert_eq!(astreams.len(), 1);
        astreams[0]
    };
    assert_eq!(2, astream.channels(mw.handle_mut()).unwrap());
    assert!(astream.stereo(mw.handle_mut()));
    assert!(!astream.mono(mw.handle_mut()));
}

#[test]
fn variants_lists_every_countable_category() {
    let v = MediaInfoStream::variants();
    assert_eq!(
        v,
        vec![
            MediaInfoStream::Video,
            MediaInfoStream::Audio,
            MediaInfoStream::Text,
            MediaInfoStream::Other,
            MediaInfoStream::Image,
            MediaInfoStream::Menu,
            MediaInfoStream::Max,
        ]
    );
}

#[test]
fn unencodable_path_is_rejected_before_any_native_call() {
    let mut mw = MediaInfoWrapper::new(SampleEngine::new());
    let r = mw.open("bad\u{0}path");
    assert!(matches!(r, Err(MediaInfoError::EncodingFailure)));
    assert!(mw.video_streams().is_none());
}

#[test]
fn unencodable_parameter_is_rejected() {
    let mut m = MediaInfo::new(SampleEngine::new());
    m.open("samples/sample.mp4").unwrap();
    let r = m.get(
        MediaInfoStream::General,
        0,
        "bad\u{0}name",
        MediaInfoInfo::Text,
        MediaInfoInfo::Name,
    );
    assert!(matches!(r, Err(MediaInfoError::EncodingFailure)));
}

#[test]
fn undecodable_reply_is_reported_as_decoding_failure() {
    struct GarblingEngine(SampleEngine);
    impl MediaInfoEngine for GarblingEngine {
        fn open(&mut self, path: &[u32]) -> usize {
            self.0.open(path)
        }
        fn close(&mut self) {
            self.0.close()
        }
        fn option(&mut self, parameter: &[u32], value: &[u32]) -> Vec<u32> {
            self.0.option(parameter, value)
        }
        fn inform(&mut self, reserved: usize) -> Vec<u32> {
            self.0.inform(reserved)
        }
        fn count_get(&mut self, stream_kind: i32, stream_number: usize) -> usize {
            self.0.count_get(stream_kind, stream_number)
        }
        fn get(
            &mut self,
            _info_stream: i32,
            _stream_number: usize,
            _parameter: &[u32],
            _info_kind: i32,
            _search_kind: i32,
        ) -> Vec<u32> {
            // A lone surrogate unit is no Unicode scalar value.
            vec![65u32, 0xD800]
        }
        fn open_buffer_init(&mut self, buffer_size: u64, offset: u64) -> usize {
            self.0.open_buffer_init(buffer_size, offset)
        }
        fn open_buffer_continue(&mut self, data: &[u8]) -> usize {
            self.0.open_buffer_continue(data)
        }
        fn open_buffer_finalize(&mut self) -> usize {
            self.0.open_buffer_finalize()
        }
    }

    let mut mw = MediaInfoWrapper::new(GarblingEngine(SampleEngine::new()));
    mw.open("samples/sample.mp4").unwrap();
    assert!(matches!(mw.codec_id(), Err(MediaInfoError::DecodingFailure)));
}

#[test]
fn inform_and_options_go_through_the_marshaller() {
    let mut m = MediaInfo::new(SampleEngine::new());
    m.open("samples/sample.mp4").unwrap();
    let report = m.inform().unwrap();
    assert!(report.contains("sample.mp4"));
    // The scripted engine answers options with empty text, which is the
    // engine's own "no value" signal.
    assert!(matches!(
        m.option("Info_Version", ""),
        Err(MediaInfoError::ZeroLengthResult)
    ));
    assert!(matches!(
        m.available_parameters(),
        Err(MediaInfoError::ZeroLengthResult)
    ));
}
