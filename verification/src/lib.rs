//! Marshalling layer for a native media-container probe: turns the raw values
//! read out of the native demuxer's structures into owned, host-safe metadata
//! records, with the conversion rules (codec-tag decoding, optional-name
//! defaulting, text validation, null-slot skipping) stated and verified.

pub mod info;
pub mod raw;
pub mod text;
pub mod version;

pub use info::FileInfo;
pub use info::StreamInfo;
pub use info::Tag;
pub use raw::ProbeOutcome;
pub use raw::RawFormat;
pub use raw::RawStream;
pub use raw::RawTag;

use crate::info::{
    file_info_matches, opt_name_chars, stream_matches, tag_matches,
};
use crate::raw::{
    lemma_present_streams_len, lemma_present_streams_take_step, present_streams, raw_text_ok,
    stream_text_ok,
};
use crate::text::{decode_codec_tag, fourcc_chars, int_chars, int_string, utf8_to_string};
use vstd::prelude::*;
use vstd::string::StringExecFns;
use vstd::utf8::{decode_utf8, valid_utf8};

verus! {

/// The message for a failed open: the native return code after a fixed prefix.
pub open spec fn open_error_chars(code: int) -> Seq<char> {
    "Error: error code "@ + int_chars(code)
}

/// The fixed message for a failed stream-info probe; the native code is not
/// included.
pub open spec fn probe_error_chars() -> Seq<char> {
    "Could not find stream information"@
}

/// The fixed message for a text field that is not valid UTF-8.
pub open spec fn text_error_chars() -> Seq<char> {
    "invalid UTF-8 in text field"@
}

fn open_error_message(code: i32) -> (s: String)
    ensures
        s@ == open_error_chars(code as int),
{
    let digits = int_string(code);
    let prefix = String::from_str("Error: error code ");
    prefix.concat(digits.as_str())
}

fn probe_error_message() -> (s: String)
    ensures
        s@ == probe_error_chars(),
{
    String::from_str("Could not find stream information")
}

fn text_error_message() -> (s: String)
    ensures
        s@ == text_error_chars(),
{
    String::from_str("invalid UTF-8 in text field")
}

/// Marshals one raw stream: copies the numeric fields, decodes the codec tag,
/// defaults absent native names to the empty string, and copies the metadata
/// dictionary in order, decoding every entry. Fails, with nothing partial,
/// exactly when some text field is not valid UTF-8.
fn build_stream(rs: &RawStream) -> (res: Result<StreamInfo, String>)
    ensures
        res is Ok <==> stream_text_ok(*rs),
        (res matches Ok(s) ==> stream_matches(s, *rs)),
        (res matches Err(e) ==> e@ == text_error_chars()),
{
    let codec_name = decode_codec_tag(rs.codec_tag);
    let format = match &rs.format_name {
        None => String::new(),
        Some(b) => match utf8_to_string(b) {
            Some(s) => s,
            None => {
                return Err(text_error_message());
            },
        },
    };
    let profile = match &rs.profile_name {
        None => String::new(),
        Some(b) => match utf8_to_string(b) {
            Some(s) => s,
            None => {
                return Err(text_error_message());
            },
        },
    };
    let mut tags: Vec<Tag> = Vec::new();
    let mut i: usize = 0;
    while i < rs.tags.len()
        invariant
            i <= rs.tags@.len(),
            tags@.len() == i as int,
            codec_name@ == fourcc_chars(rs.codec_tag),
            format@ == opt_name_chars(rs.format_name),
            profile@ == opt_name_chars(rs.profile_name),
            (rs.format_name matches Some(b) ==> valid_utf8(b@)),
            (rs.profile_name matches Some(b) ==> valid_utf8(b@)),
            forall|j: int|
                0 <= j < i ==> valid_utf8((#[trigger] rs.tags@[j]).key@) && valid_utf8(
                    rs.tags@[j].value@,
                ),
            forall|j: int| 0 <= j < i ==> tag_matches(#[trigger] tags@[j], rs.tags@[j]),
        decreases rs.tags@.len() - i,
    {
        let t = &rs.tags[i];
        let key = match utf8_to_string(&t.key) {
            Some(s) => s,
            None => {
                proof {
                    assert(!valid_utf8(rs.tags@[i as int].key@));
                }
                return Err(text_error_message());
            },
        };
        let value = match utf8_to_string(&t.value) {
            Some(s) => s,
            None => {
                proof {
                    assert(!valid_utf8(rs.tags@[i as int].value@));
                }
                return Err(text_error_message());
            },
        };
        tags.push(Tag { key, value });
        i += 1;
    }
    Ok(
        StreamInfo {
            id: rs.id,
            start_time: rs.start_time,
            duration: rs.duration,
            codec_type: rs.codec_type,
            codec_name,
            format,
            bit_rate: rs.bit_rate,
            profile,
            level: rs.level,
            width: rs.width,
            height: rs.height,
            channels: rs.channels,
            sample_rate: rs.sample_rate,
            frame_size: rs.frame_size,
            tags,
        },
    )
}

/// Marshals a whole snapshot: decodes the container name and locator, copies
/// the top-level numeric fields, and walks the stream slots in index order,
/// skipping absent slots silently and marshalling the present ones. Fails,
/// with nothing partial, exactly when some text field is not valid UTF-8.
fn build_file_info(raw: RawFormat) -> (res: Result<FileInfo, String>)
    requires
        raw.wf(),
    ensures
        res is Ok <==> raw_text_ok(raw),
        (res matches Ok(info) ==> file_info_matches(info, raw)),
        (res matches Err(e) ==> e@ == text_error_chars()),
{
    let name = match utf8_to_string(&raw.name) {
        Some(s) => s,
        None => {
            return Err(text_error_message());
        },
    };
    let url = match utf8_to_string(&raw.url) {
        Some(s) => s,
        None => {
            return Err(text_error_message());
        },
    };
    let mut streams: Vec<StreamInfo> = Vec::new();
    let mut i: usize = 0;
    while i < raw.streams.len()
        invariant
            i <= raw.streams@.len(),
            valid_utf8(raw.name@),
            valid_utf8(raw.url@),
            name@ == decode_utf8(raw.name@),
            url@ == decode_utf8(raw.url@),
            forall|j: int|
                0 <= j < i ==> ((#[trigger] raw.streams@[j]) matches Some(r) ==> stream_text_ok(
                    r,
                )),
            streams@.len() == present_streams(raw.streams@.take(i as int)).len(),
            forall|j: int|
                0 <= j < streams@.len() ==> stream_matches(
                    #[trigger] streams@[j],
                    present_streams(raw.streams@.take(i as int))[j],
                ),
        decreases raw.streams@.len() - i,
    {
        let slot = &raw.streams[i];
        match slot {
            None => {},
            Some(rs) => {
                match build_stream(rs) {
                    Ok(si) => {
                        streams.push(si);
                    },
                    Err(e) => {
                        proof {
                            assert(!stream_text_ok(*rs));
                            assert(!raw_text_ok(raw));
                        }
                        return Err(e);
                    },
                }
            },
        }
        proof {
            lemma_present_streams_take_step(raw.streams@, i as int);
        }
        i += 1;
    }
    proof {
        assert(raw.streams@.take(raw.streams@.len() as int) =~= raw.streams@);
    }
    Ok(
        FileInfo {
            name,
            bit_rate: raw.bit_rate,
            duration: raw.duration,
            url,
            nb_streams: raw.nb_streams as i32,
            flag_s: raw.flags,
            nb_chapters: raw.nb_chapters as i32,
            streams,
        },
    )
}

/// Turns the outcome of the native probing sequence into the caller's result.
///
/// A failed open yields the error message carrying the native code; a failed
/// stream-info probe yields the fixed probe message. A snapshot yields the
/// fully marshalled record exactly when all of its text decodes as UTF-8, and
/// the text error otherwise, with nothing partial. On success the stream
/// sequence holds exactly the present slots in index order, so it is never
/// longer than the native stream count, and every entry carries a
/// four-character codec name.
pub fn get_info(outcome: ProbeOutcome) -> (res: Result<FileInfo, String>)
    requires
        (outcome matches ProbeOutcome::Probed(raw) ==> raw.wf()),
    ensures
        (outcome matches ProbeOutcome::OpenFailed(code) ==> (res matches Err(e) && e@
            == open_error_chars(code as int))),
        (outcome is ProbeFailed ==> (res matches Err(e) && e@ == probe_error_chars())),
        (outcome matches ProbeOutcome::Probed(raw) ==> {
            &&& (res is Ok <==> raw_text_ok(raw))
            &&& (res matches Ok(info) ==> file_info_matches(info, raw))
            &&& (res matches Ok(info) ==> info.streams@.len() <= info.nb_streams as int)
            &&& (res matches Ok(info) ==> forall|i: int|
                0 <= i < info.streams@.len() ==> (#[trigger] info.streams@[i]).codec_name@.len()
                    == 4)
            &&& (res matches Err(e) ==> e@ == text_error_chars())
        }),
{
    match outcome {
        ProbeOutcome::OpenFailed(code) => Err(open_error_message(code)),
        ProbeOutcome::ProbeFailed => Err(probe_error_message()),
        ProbeOutcome::Probed(raw) => {
            let res = build_file_info(raw);
            proof {
                lemma_present_streams_len(raw.streams@);
            }
            res
        },
    }
}

} // verus!
