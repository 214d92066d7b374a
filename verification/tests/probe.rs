use ffprobe_rs::get_info;
use ffprobe_rs::{ProbeOutcome, RawFormat, RawStream, RawTag};

fn sample_stream() -> RawStream {
    RawStream {
        id: 1,
        start_time: 0,
        duration: 9000,
        codec_type: 0,
        codec_tag: 0x3466_7661,
        format_name: Some(b"yuv420p".to_vec()),
        bit_rate: 1_200_000,
        profile_name: Some(b"Main".to_vec()),
        level: 31,
        width: 1280,
        height: 720,
        channels: 0,
        sample_rate: 0,
        frame_size: 0,
        tags: vec![
            RawTag { key: b"language".to_vec(), value: b"eng".to_vec() },
            RawTag { key: b"title".to_vec(), value: b"main video".to_vec() },
        ],
    }
}

fn sample_format(streams: Vec<Option<RawStream>>) -> RawFormat {
    RawFormat {
        name: b"mov,mp4,m4a,3gp,3g2,mj2".to_vec(),
        bit_rate: 1_500_000,
        duration: 10_000_000,
        url: b"input.mp4".to_vec(),
        nb_streams: streams.len() as u32,
        flags: 2097152,
        nb_chapters: 0,
        streams,
    }
}

#[test]
fn open_failure_carries_native_code() {
    let res = get_info(ProbeOutcome::OpenFailed(-2));
    assert_eq!(res.unwrap_err(), "Error: error code -2");
}

#[test]
fn open_failure_large_negative_code() {
    let res = get_info(ProbeOutcome::OpenFailed(-1094995529));
    assert_eq!(res.unwrap_err(), "Error: error code -1094995529");
}

#[test]
fn open_failure_minimum_code() {
    let res = get_info(ProbeOutcome::OpenFailed(i32::MIN));
    assert_eq!(res.unwrap_err(), "Error: error code -2147483648");
}

#[test]
fn probe_failure_is_generic() {
    let res = get_info(ProbeOutcome::ProbeFailed);
    assert_eq!(res.unwrap_err(), "Could not find stream information");
}

#[test]
fn marshals_full_snapshot() {
    let raw = sample_format(vec![Some(sample_stream()), None]);
    let info = get_info(ProbeOutcome::Probed(raw)).unwrap();
    assert_eq!(info.name, "mov,mp4,m4a,3gp,3g2,mj2");
    assert_eq!(info.url, "input.mp4");
    assert_eq!(info.bit_rate, 1_500_000);
    assert_eq!(info.duration, 10_000_000);
    assert_eq!(info.nb_streams, 2);
    assert_eq!(info.flag_s, 2097152);
    assert_eq!(info.nb_chapters, 0);
    assert_eq!(info.streams.len(), 1);
    let s = &info.streams[0];
    assert_eq!(s.id, 1);
    assert_eq!(s.codec_name, "avf4");
    assert_eq!(s.format, "yuv420p");
    assert_eq!(s.profile, "Main");
    assert_eq!(s.level, 31);
    assert_eq!(s.width, 1280);
    assert_eq!(s.height, 720);
    assert_eq!(s.tags.len(), 2);
    assert_eq!(s.tags[0].key, "language");
    assert_eq!(s.tags[0].value, "eng");
    assert_eq!(s.tags[1].key, "title");
    assert_eq!(s.tags[1].value, "main video");
}

#[test]
fn stream_count_never_exceeds_native_count() {
    let raw = sample_format(vec![None, Some(sample_stream()), None]);
    let info = get_info(ProbeOutcome::Probed(raw)).unwrap();
    assert_eq!(info.nb_streams, 3);
    assert!(info.streams.len() <= info.nb_streams as usize);
    for s in &info.streams {
        assert_eq!(s.codec_name.chars().count(), 4);
        assert!(!s.codec_name.is_empty());
    }
}

#[test]
fn absent_names_become_empty_strings() {
    let mut stream = sample_stream();
    stream.format_name = None;
    stream.profile_name = None;
    let raw = sample_format(vec![Some(stream)]);
    let info = get_info(ProbeOutcome::Probed(raw)).unwrap();
    assert_eq!(info.streams[0].format, "");
    assert_eq!(info.streams[0].profile, "");
}

#[test]
fn zero_tags_collect_to_empty_sequence() {
    let mut stream = sample_stream();
    stream.tags = vec![];
    let raw = sample_format(vec![Some(stream)]);
    let info = get_info(ProbeOutcome::Probed(raw)).unwrap();
    assert_eq!(info.streams[0].tags.len(), 0);
}

#[test]
fn multibyte_tag_text_is_decoded() {
    let mut stream = sample_stream();
    stream.tags = vec![RawTag { key: b"title".to_vec(), value: vec![0xc3, 0xa9, 0x74, 0xc3, 0xa9] }];
    let raw = sample_format(vec![Some(stream)]);
    let info = get_info(ProbeOutcome::Probed(raw)).unwrap();
    assert_eq!(info.streams[0].tags[0].value, "\u{e9}t\u{e9}");
    assert_eq!(info.streams[0].tags[0].value.chars().count(), 3);
}

#[test]
fn invalid_tag_text_fails_whole_call() {
    let mut stream = sample_stream();
    stream.tags = vec![RawTag { key: vec![0xff, 0x00], value: b"x".to_vec() }];
    let raw = sample_format(vec![Some(stream)]);
    let res = get_info(ProbeOutcome::Probed(raw));
    assert_eq!(res.unwrap_err(), "invalid UTF-8 in text field");
}

#[test]
fn invalid_container_name_fails_whole_call() {
    let mut raw = sample_format(vec![Some(sample_stream())]);
    raw.name = vec![0xc3];
    let res = get_info(ProbeOutcome::Probed(raw));
    assert_eq!(res.unwrap_err(), "invalid UTF-8 in text field");
}

#[test]
fn invalid_format_name_fails_whole_call() {
    let mut stream = sample_stream();
    stream.format_name = Some(vec![0x80]);
    let raw = sample_format(vec![Some(stream)]);
    let res = get_info(ProbeOutcome::Probed(raw));
    assert_eq!(res.unwrap_err(), "invalid UTF-8 in text field");
}

#[test]
fn equal_snapshots_yield_equal_results() {
    let a = get_info(ProbeOutcome::Probed(sample_format(vec![Some(sample_stream()), None])));
    let b = get_info(ProbeOutcome::Probed(sample_format(vec![Some(sample_stream()), None])));
    assert_eq!(a.unwrap(), b.unwrap());
}
