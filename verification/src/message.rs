//! Messages of the host's bus.
//!
//! A transcript is broadcast as a binary frame: the letters `WDIS`, two times in
//! milliseconds as eight little-endian bytes each, and UTF-8 text. It is told by
//! its first letters alone. Any other message goes by its topic.

use vstd::bytes::{spec_u64_to_le_bytes, u64_to_le_bytes};
use vstd::prelude::*;
use vstd::utf8::{decode_utf8, encode_utf8, valid_utf8};

use crate::text::{after_prefix, lossy_text, opt_text, trimmed};
use crate::text::{from_utf8_lossy, same_text, strip_prefix, trim};

verus! {

/// Bytes before the text of a frame.
pub const FRAME_HEAD: usize = 20;

/// The letters that a frame begins with.
pub open spec fn frame_mark() -> Seq<u8> {
    seq![0x57u8, 0x44u8, 0x49u8, 0x53u8]
}

/// Whether a message is a transcript frame.
pub open spec fn is_frame(bytes: Seq<u8>) -> bool {
    bytes.len() >= FRAME_HEAD && bytes.take(4) == frame_mark()
}

/// The frame of a transcript.
pub open spec fn frame_bytes(start_ms: u64, end_ms: u64, text: Seq<char>) -> Seq<u8> {
    frame_mark() + spec_u64_to_le_bytes(start_ms) + spec_u64_to_le_bytes(end_ms) + encode_utf8(text)
}

/// What there is to show of a text: nothing when it is blank.
pub open spec fn worth_showing(text: Seq<char>) -> Option<Seq<char>> {
    if trimmed(text).len() > 0 {
        Some(trimmed(text))
    } else {
        None
    }
}

/// Where a message goes.
#[derive(Debug, PartialEq, Eq)]
pub enum Route<Text = String> {
    /// A transcript frame, with the text to show if there is any.
    Transcript(Option<Text>),
    /// A tick of an interval timer.
    Tick,
    /// A request of the panel.
    Panel(Text),
    /// Nothing that matters here.
    Ignored,
}

impl View for Route {
    type V = Route<Seq<char>>;

    open spec fn view(&self) -> Route<Seq<char>> {
        match *self {
            Route::Transcript(text) => Route::Transcript(opt_text(text)),
            Route::Tick => Route::Tick,
            Route::Panel(name) => Route::Panel(name@),
            Route::Ignored => Route::Ignored,
        }
    }
}

pub open spec fn route_of_topic(topic: Seq<char>) -> Route<Seq<char>> {
    if topic == "interval:tick"@ {
        Route::Tick
    } else {
        match after_prefix(topic, "ui:"@) {
            Some(name) => Route::Panel(name),
            None => Route::Ignored,
        }
    }
}

/// Where a message goes, by its bytes first and then by its topic.
pub fn route(topic: &str, bytes: &Vec<u8>) -> (to: Route)
    ensures
        is_frame(bytes@) ==> to@ == Route::Transcript(
            worth_showing(lossy_text(bytes@.skip(FRAME_HEAD as int))),
        ),
        is_frame(bytes@) && valid_utf8(bytes@.skip(FRAME_HEAD as int)) ==> to@
            == Route::Transcript(worth_showing(decode_utf8(bytes@.skip(FRAME_HEAD as int)))),
        !is_frame(bytes@) ==> to@ == route_of_topic(topic@),
{
    if marks_frame(bytes) {
        let tail = bytes_from(bytes, FRAME_HEAD);
        let text = from_utf8_lossy(&tail);
        return Route::Transcript(shown_text(text.as_str()));
    }
    route_topic(topic)
}

/// Where a message goes by its topic alone.
pub fn route_topic(topic: &str) -> (to: Route)
    ensures
        to@ == route_of_topic(topic@),
{
    if same_text(topic, "interval:tick") {
        Route::Tick
    } else {
        match strip_prefix(topic, "ui:") {
            Some(name) => Route::Panel(name),
            None => Route::Ignored,
        }
    }
}

/// What there is to show of a text.
pub fn shown_text(text: &str) -> (shown: Option<String>)
    ensures
        opt_text(shown) == worth_showing(text@),
{
    let t = trim(text);
    if t.as_str().is_empty() {
        None
    } else {
        Some(t)
    }
}

/// Whether a message is a transcript frame.
pub fn marks_frame(bytes: &Vec<u8>) -> (yes: bool)
    ensures
        yes == is_frame(bytes@),
{
    let yes = bytes.len() >= FRAME_HEAD && bytes[0] == 0x57 && bytes[1] == 0x44 && bytes[2] == 0x49
        && bytes[3] == 0x53;
    proof {
        if bytes@.len() >= FRAME_HEAD {
            let head = bytes@.take(4);
            if yes {
                assert(head =~= frame_mark());
            } else {
                assert(head[0] != 0x57 || head[1] != 0x44 || head[2] != 0x49 || head[3] != 0x53);
            }
        }
    }
    yes
}

/// The bytes from position `from` on.
pub fn bytes_from(bytes: &Vec<u8>, from: usize) -> (tail: Vec<u8>)
    requires
        from <= bytes@.len(),
    ensures
        tail@ == bytes@.skip(from as int),
{
    let mut tail: Vec<u8> = Vec::new();
    let mut i: usize = from;
    while i < bytes.len()
        invariant
            from <= i <= bytes@.len(),
            tail@ == bytes@.subrange(from as int, i as int),
        decreases bytes@.len() - i,
    {
        tail.push(bytes[i]);
        i = i + 1;
        assert(tail@ =~= bytes@.subrange(from as int, i as int));
    }
    assert(tail@ =~= bytes@.skip(from as int));
    tail
}

/// The frame that broadcasts a transcript of the given time.
pub fn wdis_frame(start_ms: u64, end_ms: u64, text: &str) -> (bytes: Vec<u8>)
    ensures
        bytes@ == frame_bytes(start_ms, end_ms, text@),
{
    let mut bytes: Vec<u8> = Vec::new();
    bytes.push(0x57);
    bytes.push(0x44);
    bytes.push(0x49);
    bytes.push(0x53);
    assert(bytes@ =~= frame_mark());
    let mut start = u64_to_le_bytes(start_ms);
    bytes.append(&mut start);
    let mut end = u64_to_le_bytes(end_ms);
    bytes.append(&mut end);
    bytes.extend_from_slice(text.as_bytes());
    assert(bytes@ =~= frame_bytes(start_ms, end_ms, text@));
    bytes
}

/// A transcript that is broadcast is a frame whose text can be read back, so that
/// what is shown is the text without the white space around it. Its topic does
/// not matter.
pub proof fn law_transcripts_arrive(start_ms: u64, end_ms: u64, text: Seq<char>)
    ensures
        ({
            let bytes = frame_bytes(start_ms, end_ms, text);
            &&& is_frame(bytes)
            &&& valid_utf8(bytes.skip(FRAME_HEAD as int))
            &&& decode_utf8(bytes.skip(FRAME_HEAD as int)) == text
        }),
{
    broadcast use {vstd::utf8::encode_utf8_valid_utf8, vstd::utf8::encode_utf8_decode_utf8};

    vstd::bytes::lemma_auto_spec_u64_to_from_le_bytes();
    let bytes = frame_bytes(start_ms, end_ms, text);
    assert(spec_u64_to_le_bytes(start_ms).len() == 8);
    assert(spec_u64_to_le_bytes(end_ms).len() == 8);
    assert(bytes.take(4) =~= frame_mark());
    assert(bytes.skip(FRAME_HEAD as int) =~= encode_utf8(text));
}

} // verus!
