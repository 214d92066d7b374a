//! The owned metadata records a successful probe returns, and the predicates
//! that tie each record to the raw snapshot it was marshalled from.

use crate::raw::{present_streams, RawFormat, RawStream, RawTag};
use crate::text::fourcc_chars;
use vstd::prelude::*;
use vstd::utf8::decode_utf8;

verus! {

/// One key/value pair of a stream's metadata dictionary, both owned text.
#[derive(Debug, Clone, PartialEq, Eq)]
pub struct Tag {
    pub key: String,
    pub value: String,
}

/// Per-stream metadata: native numeric fields unchanged, the codec tag
/// decoded to four characters, optional native names defaulted to the empty
/// string, and the metadata dictionary copied in iteration order.
#[derive(Debug, Clone, PartialEq, Eq)]
pub struct StreamInfo {
    pub id: i32,
    pub start_time: i64,
    pub duration: i64,
    pub codec_type: i32,
    pub codec_name: String,
    pub format: String,
    pub bit_rate: i64,
    pub profile: String,
    pub level: i32,
    pub width: i32,
    pub height: i32,
    pub channels: i32,
    pub sample_rate: i32,
    pub frame_size: i32,
    pub tags: Vec<Tag>,
}

/// Container-level metadata, with one entry in `streams` per native stream
/// that had codec parameters.
#[derive(Debug, Clone, PartialEq, Eq)]
pub struct FileInfo {
    pub name: String,
    pub bit_rate: i64,
    pub duration: i64,
    pub url: String,
    pub nb_streams: i32,
    pub flag_s: i32,
    pub nb_chapters: i32,
    pub streams: Vec<StreamInfo>,
}

/// The tag is the decoding of the raw dictionary entry.
pub open spec fn tag_matches(t: Tag, r: RawTag) -> bool {
    &&& t.key@ == decode_utf8(r.key@)
    &&& t.value@ == decode_utf8(r.value@)
}

/// An absent native name becomes the empty string; a present one is decoded.
pub open spec fn opt_name_chars(o: Option<Vec<u8>>) -> Seq<char> {
    match o {
        None => Seq::empty(),
        Some(b) => decode_utf8(b@),
    }
}

/// The stream record is the raw stream marshalled field by field: numeric
/// fields copied, the codec tag decoded to its four-character name, optional
/// names defaulted, and every dictionary entry decoded in order.
pub open spec fn stream_matches(s: StreamInfo, r: RawStream) -> bool {
    &&& s.id == r.id
    &&& s.start_time == r.start_time
    &&& s.duration == r.duration
    &&& s.codec_type == r.codec_type
    &&& s.codec_name@ == fourcc_chars(r.codec_tag)
    &&& s.format@ == opt_name_chars(r.format_name)
    &&& s.bit_rate == r.bit_rate
    &&& s.profile@ == opt_name_chars(r.profile_name)
    &&& s.level == r.level
    &&& s.width == r.width
    &&& s.height == r.height
    &&& s.channels == r.channels
    &&& s.sample_rate == r.sample_rate
    &&& s.frame_size == r.frame_size
    &&& s.tags@.len() == r.tags@.len()
    &&& forall|i: int| 0 <= i < r.tags@.len() ==> tag_matches(#[trigger] s.tags@[i], r.tags@[i])
}

/// The container record is the snapshot marshalled: top-level fields copied
/// or decoded, and the stream sequence exactly the present slots, in order,
/// each marshalled as `stream_matches` says.
pub open spec fn file_info_matches(info: FileInfo, raw: RawFormat) -> bool {
    &&& info.name@ == decode_utf8(raw.name@)
    &&& info.bit_rate == raw.bit_rate
    &&& info.duration == raw.duration
    &&& info.url@ == decode_utf8(raw.url@)
    &&& info.nb_streams == raw.nb_streams as i32
    &&& info.flag_s == raw.flags
    &&& info.nb_chapters == raw.nb_chapters as i32
    &&& info.streams@.len() == present_streams(raw.streams@).len()
    &&& forall|i: int|
        0 <= i < info.streams@.len() ==> stream_matches(
            #[trigger] info.streams@[i],
            present_streams(raw.streams@)[i],
        )
}

/// Structural equality of tags: both texts equal.
pub open spec fn tag_eq(a: Tag, b: Tag) -> bool {
    a.key@ == b.key@ && a.value@ == b.value@
}

/// Structural equality of stream records: every field equal, text by content.
pub open spec fn stream_eq(a: StreamInfo, b: StreamInfo) -> bool {
    &&& a.id == b.id
    &&& a.start_time == b.start_time
    &&& a.duration == b.duration
    &&& a.codec_type == b.codec_type
    &&& a.codec_name@ == b.codec_name@
    &&& a.format@ == b.format@
    &&& a.bit_rate == b.bit_rate
    &&& a.profile@ == b.profile@
    &&& a.level == b.level
    &&& a.width == b.width
    &&& a.height == b.height
    &&& a.channels == b.channels
    &&& a.sample_rate == b.sample_rate
    &&& a.frame_size == b.frame_size
    &&& a.tags@.len() == b.tags@.len()
    &&& forall|i: int| 0 <= i < a.tags@.len() ==> tag_eq(#[trigger] a.tags@[i], b.tags@[i])
}

/// Structural equality of container records.
pub open spec fn file_info_eq(a: FileInfo, b: FileInfo) -> bool {
    &&& a.name@ == b.name@
    &&& a.bit_rate == b.bit_rate
    &&& a.duration == b.duration
    &&& a.url@ == b.url@
    &&& a.nb_streams == b.nb_streams
    &&& a.flag_s == b.flag_s
    &&& a.nb_chapters == b.nb_chapters
    &&& a.streams@.len() == b.streams@.len()
    &&& forall|i: int| 0 <= i < a.streams@.len() ==> stream_eq(#[trigger] a.streams@[i], b.streams@[i])
}

/// Marshalling is deterministic: two records marshalled from the same
/// snapshot are structurally equal. Probing the same unmodified file twice
/// therefore yields structurally equal results as soon as the native library
/// reports the same snapshot.
pub proof fn lemma_file_info_unique(a: FileInfo, b: FileInfo, raw: RawFormat)
    requires
        file_info_matches(a, raw),
        file_info_matches(b, raw),
    ensures
        file_info_eq(a, b),
{
    assert forall|i: int| 0 <= i < a.streams@.len() implies stream_eq(
        #[trigger] a.streams@[i],
        b.streams@[i],
    ) by {
        let r = present_streams(raw.streams@)[i];
        assert(stream_matches(a.streams@[i], r));
        assert(stream_matches(b.streams@[i], r));
        assert forall|j: int| 0 <= j < a.streams@[i].tags@.len() implies tag_eq(
            #[trigger] a.streams@[i].tags@[j],
            b.streams@[i].tags@[j],
        ) by {
            assert(tag_matches(a.streams@[i].tags@[j], r.tags@[j]));
            assert(tag_matches(b.streams@[i].tags@[j], r.tags@[j]));
        }
    }
}

} // verus!
