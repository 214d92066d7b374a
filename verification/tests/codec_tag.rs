use ffprobe_rs::text::decode_codec_tag;

#[test]
fn packed_tag_decodes_little_endian() {
    assert_eq!(decode_codec_tag(0x3466_7661), "avf4");
}

#[test]
fn common_tags_decode() {
    assert_eq!(decode_codec_tag(0x3163_7661), "avc1");
    assert_eq!(decode_codec_tag(0x6134_706d), "mp4a");
}

#[test]
fn nonprintable_bytes_become_their_code_points() {
    let s = decode_codec_tag(0x0000_00ff);
    assert_eq!(s, "\u{ff}\u{0}\u{0}\u{0}");
    assert_eq!(s.chars().count(), 4);
}

#[test]
fn zero_tag_is_four_nul_characters() {
    let s = decode_codec_tag(0);
    assert_eq!(s.chars().count(), 4);
    assert!(s.chars().all(|c| c == '\u{0}'));
}
