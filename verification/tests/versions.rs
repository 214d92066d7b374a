use ffprobe_rs::version::{libavcodec_version, libavformat_version, libavutil_version};

fn is_dotted_triple(s: &str) -> bool {
    let parts: Vec<&str> = s.split('.').collect();
    parts.len() == 3 && parts.iter().all(|p| !p.is_empty() && p.chars().all(|c| c.is_ascii_digit()))
}

#[test]
fn version_strings_are_dotted_triples() {
    assert!(is_dotted_triple(&libavformat_version()));
    assert!(is_dotted_triple(&libavcodec_version()));
    assert!(is_dotted_triple(&libavutil_version()));
}

#[test]
fn version_values_match_linked_components() {
    assert_eq!(libavformat_version(), "60.3.100");
    assert_eq!(libavcodec_version(), "60.3.100");
    assert_eq!(libavutil_version(), "58.2.100");
}

#[test]
fn versions_are_stable_across_calls() {
    assert_eq!(libavformat_version(), libavformat_version());
    assert_eq!(libavcodec_version(), libavcodec_version());
    assert_eq!(libavutil_version(), libavutil_version());
}
