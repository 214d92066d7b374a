//! The raw snapshot of the native demuxer's structures: the values the probing
//! sequence reads out of the native format context before it is released.
//! Text arrives as the raw bytes of the native C strings (without the
//! terminator); a name the native library had no string for arrives as `None`.

use vstd::prelude::*;
use vstd::utf8::valid_utf8;

verus! {

/// One entry of a stream's native metadata dictionary, key and value as the
/// raw bytes of the native C strings.
#[derive(Clone)]
pub struct RawTag {
    pub key: Vec<u8>,
    pub value: Vec<u8>,
}

/// The fields read from one native stream and its codec parameters.
#[derive(Clone)]
pub struct RawStream {
    pub id: i32,
    pub start_time: i64,
    pub duration: i64,
    pub codec_type: i32,
    pub codec_tag: u32,
    pub format_name: Option<Vec<u8>>,
    pub bit_rate: i64,
    pub profile_name: Option<Vec<u8>>,
    pub level: i32,
    pub width: i32,
    pub height: i32,
    pub channels: i32,
    pub sample_rate: i32,
    pub frame_size: i32,
    pub tags: Vec<RawTag>,
}

/// The fields read from the native format context after a successful probe.
/// `streams` has one slot per native stream index; a slot whose stream or
/// codec-parameters pointer was null is `None`.
#[derive(Clone)]
pub struct RawFormat {
    pub name: Vec<u8>,
    pub bit_rate: i64,
    pub duration: i64,
    pub url: Vec<u8>,
    pub nb_streams: u32,
    pub flags: i32,
    pub nb_chapters: u32,
    pub streams: Vec<Option<RawStream>>,
}

/// How far the native probing sequence got: the open call failed with a
/// negative native code, the stream-info probe failed, or both succeeded and
/// the context's fields were read into a snapshot.
#[derive(Clone)]
pub enum ProbeOutcome {
    OpenFailed(i32),
    ProbeFailed,
    Probed(RawFormat),
}

impl RawFormat {
    /// The snapshot covers one slot per native stream, and the native counts
    /// fit the result's signed fields.
    pub open spec fn wf(self) -> bool {
        &&& self.streams@.len() == self.nb_streams as int
        &&& self.nb_streams <= i32::MAX as u32
        &&& self.nb_chapters <= i32::MAX as u32
    }
}

/// True when every text field of the stream, including all dictionary
/// entries, holds valid UTF-8.
pub open spec fn stream_text_ok(r: RawStream) -> bool {
    &&& (r.format_name matches Some(b) ==> valid_utf8(b@))
    &&& (r.profile_name matches Some(b) ==> valid_utf8(b@))
    &&& forall|i: int|
        0 <= i < r.tags@.len() ==> valid_utf8((#[trigger] r.tags@[i]).key@) && valid_utf8(
            r.tags@[i].value@,
        )
}

/// True when every text field of the snapshot holds valid UTF-8: the
/// container name, the resolved locator, and every present stream's text.
pub open spec fn raw_text_ok(raw: RawFormat) -> bool {
    &&& valid_utf8(raw.name@)
    &&& valid_utf8(raw.url@)
    &&& forall|i: int|
        0 <= i < raw.streams@.len() ==> ((#[trigger] raw.streams@[i]) matches Some(r)
            ==> stream_text_ok(r))
}

/// The streams that survive marshalling: the present slots, in index order.
pub open spec fn present_streams(s: Seq<Option<RawStream>>) -> Seq<RawStream>
    decreases s.len(),
{
    if s.len() == 0 {
        Seq::empty()
    } else {
        match s.last() {
            Some(r) => present_streams(s.drop_last()).push(r),
            None => present_streams(s.drop_last()),
        }
    }
}

/// Skipping slots never yields more streams than there are slots.
pub proof fn lemma_present_streams_len(s: Seq<Option<RawStream>>)
    ensures
        present_streams(s).len() <= s.len(),
    decreases s.len(),
{
    if s.len() > 0 {
        lemma_present_streams_len(s.drop_last());
    }
}

/// Extending the processed prefix by one slot keeps or appends, as the slot
/// is absent or present.
pub proof fn lemma_present_streams_take_step(s: Seq<Option<RawStream>>, i: int)
    requires
        0 <= i < s.len(),
    ensures
        s[i] matches Some(r) ==> present_streams(s.take(i + 1)) == present_streams(
            s.take(i),
        ).push(r),
        s[i] is None ==> present_streams(s.take(i + 1)) == present_streams(s.take(i)),
{
    let t = s.take(i + 1);
    assert(t.len() == i + 1);
    assert(t.last() == s[i]);
    assert(t.drop_last() =~= s.take(i));
}

} // verus!
