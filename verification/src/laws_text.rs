//! What holds of texts: numbers, names, times and messages.

use vstd::bytes::{spec_u64_from_le_bytes, spec_u64_to_le_bytes};
use vstd::prelude::*;
use vstd::utf8::encode_utf8;

use crate::arc::{arc_to, bar, circle, compacted, from_top, without_tail, Ring};
use crate::json::{bare, drop_space, is_space, json_list, json_quote, skip_space};
use crate::message::{frame_bytes, is_frame, route_of_topic, worth_showing, Route};
use crate::protocol::{filled_line, line_of};
use crate::session::{duration_text, nanos_of, SessionView};
use crate::text::{after_prefix, bool_text, contains_run, decimal, digit, is_white, join_text};
use crate::text::{signed_decimal, stands_at, trim_end, trim_start, trimmed, two_digits};
use crate::themes::{bundled_mark, first_present, marked, resolved, text_less, valid_name};

use std::time::Instant;

verus! {

/// The last digit of a number is what is left of it by ten, and the others are those of
/// its tenth; a number below ten has one digit. Two digits stand for a number below a
/// hundred, and a minus before the digits for a negative one.
pub proof fn law_digits(n: nat, m: int)
    ensures
        decimal(n).len() > 0,
        decimal(n).last() as int == '0' as int + n % 10,
        n < 10 ==> decimal(n).len() == 1,
        n >= 10 ==> decimal(n).drop_last() == decimal(n / 10),
        n < 100 ==> two_digits(n).len() == 2 && (two_digits(n)[0] as int - '0' as int) * 10 + (
        two_digits(n)[1] as int - '0' as int) == n && '0' <= two_digits(n)[0] <= '9' && '0'
            <= two_digits(n)[1] <= '9',
        m >= 0 ==> signed_decimal(m) == decimal(m as nat),
        m < 0 ==> signed_decimal(m).len() > 0 && signed_decimal(m)[0] == '-' && signed_decimal(
            m,
        ).skip(1) == decimal((-m) as nat),
        bool_text(true) == "true"@,
        bool_text(false) == "false"@,
{
    assert(forall|d: nat| d < 10 ==> #[trigger] digit(d) as int == '0' as int + d);
    if n >= 10 {
        assert(decimal(n).drop_last() =~= decimal(n / 10));
    }
    if m < 0 {
        assert(signed_decimal(m).skip(1) =~= decimal((-m) as nat));
    }
}

proof fn lemma_trim_start(s: Seq<char>) -> (i: int)
    ensures
        0 <= i <= s.len(),
        trim_start(s) == s.skip(i),
        forall|k: int| 0 <= k < i ==> is_white(#[trigger] s[k]),
        i < s.len() ==> !is_white(s[i]),
    decreases s.len(),
{
    if s.len() > 0 && is_white(s[0]) {
        let i = lemma_trim_start(s.skip(1));
        assert(s.skip(1).skip(i) =~= s.skip(i + 1));
        assert forall|k: int| 0 <= k < i + 1 implies is_white(#[trigger] s[k]) by {
            if k > 0 {
                assert(s.skip(1)[k - 1] == s[k]);
            }
        }
        i + 1
    } else {
        assert(s.skip(0) =~= s);
        0
    }
}

proof fn lemma_trim_end(s: Seq<char>) -> (i: int)
    ensures
        0 <= i <= s.len(),
        trim_end(s) == s.take(i),
        forall|k: int| i <= k < s.len() ==> is_white(#[trigger] s[k]),
        i > 0 ==> !is_white(s[i - 1]),
    decreases s.len(),
{
    if s.len() > 0 && is_white(s.last()) {
        let i = lemma_trim_end(s.drop_last());
        assert(s.drop_last().take(i) =~= s.take(i));
        assert forall|k: int| i <= k < s.len() implies is_white(#[trigger] s[k]) by {
            if k < s.len() - 1 {
                assert(s.drop_last()[k] == s[k]);
            }
        }
        i
    } else {
        assert(s.take(s.len() as int) =~= s);
        s.len() as int
    }
}

/// Trimming takes white space away at both ends, all of it and nothing else. It gives
/// the place of what is left.
pub proof fn law_trimming(s: Seq<char>) -> (place: (int, int))
    ensures
        0 <= place.0 <= place.1 <= s.len(),
        trimmed(s) == s.subrange(place.0, place.1),
        forall|k: int| 0 <= k < place.0 || place.1 <= k < s.len() ==> is_white(#[trigger] s[k]),
        place.0 < place.1 ==> !is_white(s[place.0]) && !is_white(s[place.1 - 1]),
{
    let i = lemma_trim_start(s);
    let t = s.skip(i);
    let j = lemma_trim_end(t);
    assert(t.take(j) =~= s.subrange(i, i + j));
    assert forall|k: int| 0 <= k < i || i + j <= k < s.len() implies is_white(
        #[trigger] s[k],
    ) by {
        if k >= i {
            assert(t[k - i] == s[k]);
        }
    }
    if j > 0 {
        assert(t[0] == s[i]);
        assert(t[j - 1] == s[i + j - 1]);
    }
    (i, i + j)
}

/// A transcript is worth showing when it has anything but white space, and then it is
/// shown without the white space around it. A line holds a message by the same rule, and
/// the line of a message ends with one line break.
pub proof fn law_blank_texts(s: Seq<char>)
    ensures
        worth_showing(s) is Some <==> exists|i: int|
            0 <= i < s.len() && !is_white(#[trigger] s[i]),
        worth_showing(s) is Some ==> worth_showing(s)->Some_0 == trimmed(s) && !is_white(
            worth_showing(s)->Some_0[0],
        ) && !is_white(worth_showing(s)->Some_0.last()),
        filled_line(s) <==> exists|i: int| 0 <= i < s.len() && !is_white(#[trigger] s[i]),
        line_of(s).len() == s.len() + 1,
        line_of(s).drop_last() == s,
        line_of(s).last() == '\n',
{
    let place = law_trimming(s);
    if place.0 < place.1 {
        assert(!is_white(s[place.0]));
    }
    reveal_strlit("\n");
    assert(line_of(s).drop_last() =~= s);
}

/// Joining keeps to the order of the pieces: the first part of a list comes first, with
/// one separator before the rest; one piece stays as it is, and none is nothing.
pub proof fn law_joining(a: Seq<Seq<char>>, b: Seq<Seq<char>>, p: Seq<char>, sep: Seq<char>)
    ensures
        join_text(seq![], sep).len() == 0,
        join_text(seq![p], sep) == p,
        a.len() > 0 && b.len() > 0 ==> join_text(a + b, sep) == join_text(a, sep) + sep
            + join_text(b, sep),
    decreases b.len(),
{
    if a.len() > 0 && b.len() == 1 {
        assert((a + b).drop_last() =~= a);
        assert((a + b).last() == b[0]);
    } else if a.len() > 0 && b.len() > 1 {
        law_joining(a, b.drop_last(), p, sep);
        assert((a + b).drop_last() =~= a + b.drop_last());
        assert(join_text(a + b, sep) =~= join_text(a, sep) + sep + join_text(b, sep));
    }
}

/// A list of texts is a JSON list: brackets around the quoted texts, in order, with
/// commas between them.
pub proof fn law_lists_are_json(a: Seq<Seq<char>>, p: Seq<char>)
    ensures
        json_list(seq![]) == seq!['[', ']'],
        json_list(seq![p]) == seq!['['] + json_quote(p) + seq![']'],
        a.len() > 0 ==> json_list(a.push(p)) == json_list(a).drop_last() + seq![',']
            + json_quote(p) + seq![']'],
{
    let quote = |s: Seq<char>| json_quote(s);
    assert(Seq::<Seq<char>>::empty().map_values(quote) =~= Seq::<Seq<char>>::empty());
    assert(json_list(seq![]) =~= seq!['[', ']']);
    assert(seq![p].map_values(quote) =~= seq![json_quote(p)]);
    if a.len() > 0 {
        let q = a.map_values(quote);
        assert(a.push(p).map_values(quote) =~= q + seq![json_quote(p)]);
        law_joining(q, seq![json_quote(p)], json_quote(p), seq![',']);
        assert(json_list(a).drop_last() =~= seq!['['] + join_text(q, seq![',']));
        assert(json_list(a.push(p)) =~= json_list(a).drop_last() + seq![','] + json_quote(p)
            + seq![']']);
    }
}

/// What follows a prefix is what stands behind it, and a text that does not begin with
/// it has nothing that follows.
pub proof fn law_prefixes(s: Seq<char>, prefix: Seq<char>, rest: Seq<char>)
    ensures
        after_prefix(prefix + rest, prefix) == Some(rest),
        after_prefix(s, prefix) is Some ==> s == prefix + after_prefix(s, prefix)->Some_0,
        after_prefix(s, prefix) is Some <==> prefix.is_prefix_of(s),
{
    let t = prefix + rest;
    assert(t.subrange(0, prefix.len() as int) =~= prefix);
    assert(t.skip(prefix.len() as int) =~= rest);
    if after_prefix(s, prefix) is Some {
        assert(s =~= s.subrange(0, prefix.len() as int) + s.skip(prefix.len() as int));
    }
}

/// A run stands in a text when the text is something, the run, and something more.
pub proof fn law_runs<T>(s: Seq<T>, before: Seq<T>, run: Seq<T>, after: Seq<T>)
    ensures
        contains_run(before + run + after, run),
        contains_run(s, run) ==> exists|a: Seq<T>, b: Seq<T>| s == #[trigger] (a + run + b),
{
    let t = before + run + after;
    let at = before.len() as int;
    assert(t.subrange(at, at + run.len()) =~= run);
    assert(stands_at(t, run, at));
    if contains_run(s, run) {
        let at = choose|at: int| stands_at(s, run, at);
        let a = s.take(at);
        let b = s.skip(at + run.len());
        assert(s =~= a + run + b);
    }
}

proof fn lemma_skip_space(s: Seq<char>) -> (i: int)
    ensures
        0 <= i <= s.len(),
        skip_space(s) == s.skip(i),
        forall|k: int| 0 <= k < i ==> is_space(#[trigger] s[k]),
        i < s.len() ==> !is_space(s[i]),
    decreases s.len(),
{
    if s.len() > 0 && is_space(s[0]) {
        let i = lemma_skip_space(s.skip(1));
        assert(s.skip(1).skip(i) =~= s.skip(i + 1));
        assert forall|k: int| 0 <= k < i + 1 implies is_space(#[trigger] s[k]) by {
            if k > 0 {
                assert(s.skip(1)[k - 1] == s[k]);
            }
        }
        i + 1
    } else {
        assert(s.skip(0) =~= s);
        0
    }
}

proof fn lemma_drop_space(s: Seq<char>) -> (i: int)
    ensures
        0 <= i <= s.len(),
        drop_space(s) == s.take(i),
        forall|k: int| i <= k < s.len() ==> is_space(#[trigger] s[k]),
        i > 0 ==> !is_space(s[i - 1]),
    decreases s.len(),
{
    if s.len() > 0 && is_space(s.last()) {
        let i = lemma_drop_space(s.drop_last());
        assert(s.drop_last().take(i) =~= s.take(i));
        assert forall|k: int| i <= k < s.len() implies is_space(#[trigger] s[k]) by {
            if k < s.len() - 1 {
                assert(s.drop_last()[k] == s[k]);
            }
        }
        i
    } else {
        assert(s.take(s.len() as int) =~= s);
        s.len() as int
    }
}

/// A JSON value is read without the white space around it: spaces, tabs and the two line
/// breaks. It gives the place of the value.
pub proof fn law_json_space(s: Seq<char>) -> (place: (int, int))
    ensures
        0 <= place.0 <= place.1 <= s.len(),
        bare(s) == s.subrange(place.0, place.1),
        forall|k: int|
            0 <= k < place.0 || place.1 <= k < s.len() ==> (#[trigger] s[k]) == ' ' || s[k]
                == '\n' || s[k] == '\t' || s[k] == '\r',
        place.0 < place.1 ==> !is_space(s[place.0]) && !is_space(s[place.1 - 1]),
        is_space(' ') && is_space('\n') && is_space('\t') && is_space('\r'),
{
    let i = lemma_skip_space(s);
    let t = s.skip(i);
    let j = lemma_drop_space(t);
    assert(t.take(j) =~= s.subrange(i, i + j));
    assert forall|k: int| 0 <= k < i || i + j <= k < s.len() implies is_space(
        #[trigger] s[k],
    ) by {
        if k >= i {
            assert(t[k - i] == s[k]);
        }
    }
    if j > 0 {
        assert(t[0] == s[i]);
        assert(t[j - 1] == s[i + j - 1]);
    }
    (i, i + j)
}

proof fn lemma_without_tail(s: Seq<char>, c: char) -> (i: int)
    ensures
        0 <= i <= s.len(),
        without_tail(s, c) == s.take(i),
        forall|k: int| i <= k < s.len() ==> #[trigger] s[k] == c,
        i > 0 ==> s[i - 1] != c,
    decreases s.len(),
{
    if s.len() > 0 && s.last() == c {
        let i = lemma_without_tail(s.drop_last(), c);
        assert(s.drop_last().take(i) =~= s.take(i));
        assert forall|k: int| i <= k < s.len() implies #[trigger] s[k] == c by {
            if k < s.len() - 1 {
                assert(s.drop_last()[k] == s[k]);
            }
        }
        i
    } else {
        assert(s.take(s.len() as int) =~= s);
        s.len() as int
    }
}

/// A number with decimals loses the zeros at its end, then the point, and nothing else:
/// what is left is the head of the number, then there may be points, then zeros. It gives
/// the two places.
pub proof fn law_numbers_are_compact(s: Seq<char>) -> (place: (int, int))
    ensures
        0 <= place.0 <= place.1 <= s.len(),
        compacted(s) == s.take(place.0),
        forall|k: int| place.1 <= k < s.len() ==> #[trigger] s[k] == '0',
        forall|k: int| place.0 <= k < place.1 ==> #[trigger] s[k] == '.',
        place.0 > 0 ==> s[place.0 - 1] != '.',
        place.1 > 0 ==> s[place.1 - 1] != '0',
{
    let j = lemma_without_tail(s, '0');
    let t = s.take(j);
    let i = lemma_without_tail(t, '.');
    assert(t.take(i) =~= s.take(i));
    assert forall|k: int| i <= k < j implies #[trigger] s[k] == '.' by {
        assert(t[k] == s[k]);
    }
    if i > 0 {
        assert(t[i - 1] == s[i - 1]);
    }
    (i, j)
}

/// The commands of a path: it starts at the top of the ring, arcs go clockwise with the
/// radius of the ring to their end, a whole ring goes through the bottom back to the top,
/// and a bar is a line between its ends.
pub proof fn law_paths(
    r: Ring<Seq<char>>,
    large: bool,
    x: Seq<char>,
    y: Seq<char>,
    x1: Seq<char>,
    y1: Seq<char>,
)
    ensures
        from_top(r) == seq!['M', ' '] + r.center + seq![' '] + r.top,
        arc_to(r, large, x, y) == seq![' ', 'A', ' '] + r.radius + seq![' '] + r.radius + seq![
            ' ',
            '0',
            ' ',
            if large {
                '1'
            } else {
                '0'
            },
            ' ',
            '1',
            ' ',
        ] + x + seq![' '] + y,
        circle(r) == from_top(r) + arc_to(r, true, r.center, r.bottom) + arc_to(
            r,
            true,
            r.center,
            r.top,
        ),
        bar(x, y, x1, y1) == seq!['M', ' '] + x + seq![' '] + y + seq![' ', 'L', ' '] + x1 + seq![
            ' ',
        ] + y1 + seq![' '],
{
    reveal_strlit("M ");
    reveal_strlit(" ");
    reveal_strlit(" A ");
    reveal_strlit(" L ");
    reveal_strlit(" 0 1 1 ");
    reveal_strlit(" 0 0 1 ");
    assert("M "@ =~= seq!['M', ' ']);
    assert(" "@ =~= seq![' ']);
    assert(" A "@ =~= seq![' ', 'A', ' ']);
    assert(" L "@ =~= seq![' ', 'L', ' ']);
    assert(" 0 1 1 "@ =~= seq![' ', '0', ' ', '1', ' ', '1', ' ']);
    assert(" 0 0 1 "@ =~= seq![' ', '0', ' ', '0', ' ', '1', ' ']);
}

/// A message is a transcript frame by its first four bytes, the letters `WDIS`, and a
/// head of twenty bytes, and by nothing else.
pub proof fn law_frames_are_marked(bytes: Seq<u8>)
    ensures
        is_frame(bytes) <==> bytes.len() >= 20 && bytes[0] == 0x57 && bytes[1] == 0x44 && bytes[2]
            == 0x49 && bytes[3] == 0x53,
{
    if bytes.len() >= 20 && bytes[0] == 0x57 && bytes[1] == 0x44 && bytes[2] == 0x49 && bytes[3]
        == 0x53 {
        assert(bytes.take(4) =~= crate::message::frame_mark());
    }
    if is_frame(bytes) {
        let head = bytes.take(4);
        assert(head[0] == bytes[0] && head[1] == bytes[1] && head[2] == bytes[2] && head[3]
            == bytes[3]);
    }
}

/// The frame of a transcript holds its start, then its end, then its text: both times can
/// be read back from their eight bytes, and the text begins at the twentieth byte.
pub proof fn law_frames_hold_their_times(start_ms: u64, end_ms: u64, text: Seq<char>)
    ensures
        ({
            let bytes = frame_bytes(start_ms, end_ms, text);
            &&& is_frame(bytes)
            &&& spec_u64_from_le_bytes(bytes.subrange(4, 12)) == start_ms
            &&& spec_u64_from_le_bytes(bytes.subrange(12, 20)) == end_ms
            &&& bytes.skip(20) == encode_utf8(text)
        }),
{
    vstd::bytes::lemma_auto_spec_u64_to_from_le_bytes();
    let bytes = frame_bytes(start_ms, end_ms, text);
    assert(bytes.take(4) =~= crate::message::frame_mark());
    assert(bytes.subrange(4, 12) =~= spec_u64_to_le_bytes(start_ms));
    assert(bytes.subrange(12, 20) =~= spec_u64_to_le_bytes(end_ms));
    assert(bytes.skip(20) =~= encode_utf8(text));
}

/// Messages without a frame go by their topic: ticks of the timer, requests of the panel
/// under the name behind `ui:`, and all others nowhere.
pub proof fn law_topics(topic: Seq<char>, name: Seq<char>)
    ensures
        route_of_topic("interval:tick"@) == Route::<Seq<char>>::Tick,
        route_of_topic("ui:"@ + name) == Route::Panel(name),
        topic != "interval:tick"@ ==> route_of_topic(topic) != Route::<Seq<char>>::Tick,
        topic != "interval:tick"@ && !"ui:"@.is_prefix_of(topic) ==> route_of_topic(topic)
            == Route::<Seq<char>>::Ignored,
{
    reveal_strlit("interval:tick");
    reveal_strlit("ui:");
    law_prefixes(topic, "ui:"@, name);
    assert(("ui:"@ + name)[0] == 'u');
    assert("interval:tick"@[0] == 'i');
}

/// A duration below an hour is read back from its four digits, minutes before seconds,
/// with a colon between them; from an hour on its hours come first, and what follows
/// their colon is the rest.
pub proof fn law_durations_are_read_back(secs: nat)
    ensures
        secs < 3600 ==> {
            let t = duration_text(secs);
            &&& t.len() == 5
            &&& t[2] == ':'
            &&& (t[0] as int - '0' as int) * 600 + (t[1] as int - '0' as int) * 60 + (t[3] as int
                - '0' as int) * 10 + (t[4] as int - '0' as int) == secs
            &&& '0' <= t[0] <= '5' && '0' <= t[1] <= '9' && '0' <= t[3] <= '5' && '0' <= t[4]
                <= '9'
        },
        secs >= 3600 ==> duration_text(secs) == decimal(secs / 3600) + seq![':'] + duration_text(
            secs % 3600,
        ),
{
    law_digits(secs % 3600 / 60, 0);
    law_digits(secs % 60, 0);
    assert(forall|d: nat| d < 10 ==> #[trigger] digit(d) as int == '0' as int + d);
    if secs >= 3600 {
        assert(secs % 3600 % 60 == secs % 60);
        assert(duration_text(secs) =~= decimal(secs / 3600) + seq![':'] + duration_text(
            secs % 3600,
        ));
    }
}

/// A connection that a device opens is that device's from this moment on; one that ends
/// leaves nothing of itself; and what is seen of a connection is its device and its time.
pub proof fn law_connections<Moment>(
    s: SessionView<Moment>,
    mode: Seq<char>,
    label: Seq<char>,
    now: Moment,
    seconds: int,
)
    ensures
        ({
            let open = s.opened(mode, label, now);
            let over = s.closed();
            &&& open.connected_at == Some(now) && open.label == label && open.mode == mode
            &&& !open.inferred && open.offline_ticks == 0
            &&& open.last_streaming == s.last_streaming
            &&& open.lasting(seconds).connected && open.lasting(seconds).seconds == seconds
            &&& open.lasting(seconds).label == label && open.lasting(seconds).mode == mode
            &&& over.connected_at is None && over.label.len() == 0 && over.mode.len() == 0
            &&& !over.inferred && over.offline_ticks == 0
            &&& over.last_streaming == s.last_streaming
            &&& !over.lasting(seconds).connected && over.lasting(seconds).seconds == 0
            &&& s.lasting(seconds).connected == (s.connected_at is Some)
            &&& s.lasting(seconds).label == s.label && s.lasting(seconds).mode == s.mode
        }),
        ({
            let new = SessionView::<Moment>::fresh();
            new.connected_at is None && new.label.len() == 0 && new.mode.len() == 0
                && !new.inferred && new.offline_ticks == 0 && !new.last_streaming
        }),
{
}

/// A connection counts whole seconds of a thousand million nanoseconds.
pub proof fn law_seconds(s: SessionView<u64>, now: u64)
    ensures
        s.connected_at is Some && now >= s.connected_at->Some_0 ==> s.seconds_at(now)
            * 1_000_000_000 <= now - s.connected_at->Some_0 < (s.seconds_at(now) + 1)
            * 1_000_000_000,
        s.connected_at is Some && now < s.connected_at->Some_0 ==> s.seconds_at(now) == 0,
        s.connected_at is None ==> s.seconds_at(now) == 0,
        s.seen_at(now).seconds == s.seconds_at(now),
        s.seen_at(now).connected == (s.connected_at is Some),
        s.seen_at(now).label == s.label && s.seen_at(now).mode == s.mode,
{
}

/// The same of a connection that is timed by the clock of the system.
pub proof fn law_clock_seconds(s: SessionView<Instant>, now: Instant)
    ensures
        s.connected_at is Some && nanos_of(now) >= nanos_of(s.connected_at->Some_0)
            ==> s.seconds_on(now) * 1_000_000_000 <= nanos_of(now) - nanos_of(
            s.connected_at->Some_0,
        ) < (s.seconds_on(now) + 1) * 1_000_000_000,
        s.connected_at is Some && nanos_of(now) < nanos_of(s.connected_at->Some_0)
            ==> s.seconds_on(now) == 0,
        s.connected_at is None ==> s.seconds_on(now) == 0,
        s.seen_on(now).seconds == s.seconds_on(now),
        s.seen_on(now).connected == (s.connected_at is Some),
        s.seen_on(now).label == s.label && s.seen_on(now).mode == s.mode,
{
}

/// What one look at the stream changes: it is remembered; a rise opens a connection that
/// counts as inferred; a stream that goes on forgets the silence before it; silence ends
/// an inferred connection at the thirtieth look in a row and touches no other.
pub proof fn law_observations<Moment>(s: SessionView<Moment>, streaming: bool, now: Moment)
    ensures
        ({
            let after = s.observed(streaming, now);
            &&& after.last_streaming == streaming
            &&& streaming && !s.last_streaming && s.connected_at is None ==> after == (
            SessionView {
                connected_at: Some(now),
                inferred: true,
                offline_ticks: 0,
                last_streaming: true,
                ..s
            })
            &&& streaming && (s.last_streaming || s.connected_at is Some) ==> after == (
            SessionView { offline_ticks: 0, last_streaming: true, ..s })
            &&& !streaming && !s.inferred ==> after == (SessionView { last_streaming: false, ..s })
            &&& !streaming && s.inferred && s.offline_ticks < 29 ==> after == (SessionView {
                offline_ticks: s.offline_ticks + 1,
                last_streaming: false,
                ..s
            })
            &&& !streaming && s.inferred && s.offline_ticks >= 29 ==> after == SessionView::<
                Moment,
            >::fresh()
        }),
{
}

/// A file is factory content where the bytes of `// cfw-bundled:` stand in it, whatever
/// else it holds.
pub proof fn law_factory_mark(before: Seq<u8>, after: Seq<u8>)
    ensures
        bundled_mark() == "// cfw-bundled:"@,
        marked(before + encode_utf8("// cfw-bundled:"@) + after),
{
    law_runs(before, before, encode_utf8("// cfw-bundled:"@), after);
}

/// A theme name has seven to sixty-four characters, all of them letters, digits, dots,
/// underscores or hyphens; it ends in `.slint` and does not begin with a dot. Every such
/// name is one.
pub proof fn law_theme_names(s: Seq<char>)
    ensures
        valid_name(s) <==> {
            let n = s.len() as int;
            &&& 7 <= n <= 64
            &&& s[0] != '.'
            &&& s[n - 6] == '.' && s[n - 5] == 's' && s[n - 4] == 'l' && s[n - 3] == 'i' && s[n - 2]
                == 'n' && s[n - 1] == 't'
            &&& forall|i: int|
                0 <= i < n ==> 'a' <= (#[trigger] s[i]) <= 'z' || 'A' <= s[i] <= 'Z' || '0' <= s[i]
                    <= '9' || s[i] == '.' || s[i] == '_' || s[i] == '-'
        },
{
    reveal_strlit(".slint");
    let end = ".slint"@;
    assert(end.len() == 6);
    let n = s.len() as int;
    if n >= 6 {
        let tail = s.subrange(n - 6, n);
        assert(tail[0] == s[n - 6] && tail[1] == s[n - 5] && tail[2] == s[n - 4] && tail[3] == s[n
            - 3] && tail[4] == s[n - 2] && tail[5] == s[n - 1]);
        if s[n - 6] == '.' && s[n - 5] == 's' && s[n - 4] == 'l' && s[n - 3] == 'i' && s[n - 2]
            == 'n' && s[n - 1] == 't' {
            assert(tail =~= end);
        }
    }
}

/// Texts are ordered by the first character in which they differ, and a text comes before
/// all longer ones that it begins.
pub proof fn law_text_order(head: Seq<char>, a: Seq<char>, b: Seq<char>)
    ensures
        a.len() > 0 && b.len() > 0 && a[0] < b[0] ==> text_less(head + a, head + b)
            && !text_less(head + b, head + a),
        a.len() > 0 ==> text_less(head, head + a) && !text_less(head + a, head),
        !text_less(head, head),
    decreases head.len(),
{
    if head.len() > 0 {
        law_text_order(head.skip(1), a, b);
        assert((head + a).skip(1) =~= head.skip(1) + a);
        assert((head + b).skip(1) =~= head.skip(1) + b);
    } else {
        assert(head + a =~= a);
        assert(head + b =~= b);
    }
}

proof fn lemma_first_present(names: Seq<Seq<char>>, present: Seq<bool>, i: int)
    requires
        names.len() == present.len(),
        0 <= i <= names.len(),
        forall|k: int| 0 <= k < i ==> !#[trigger] present[k],
        i < names.len() ==> present[i],
    ensures
        i < names.len() ==> first_present(names, present) == Some(names[i]),
        i == names.len() ==> first_present(names, present) is None,
    decreases names.len(),
{
    if names.len() > 0 {
        if i < names.len() {
            lemma_first_present(names.drop_last(), present.drop_last(), i);
        } else {
            lemma_first_present(names.drop_last(), present.drop_last(), i - 1);
        }
    }
}

/// The theme to load is the selected one where its file is there; else the first bundled
/// theme whose file is there, `i` being its place; and the selected one where none is.
pub proof fn law_theme_choice(
    selected: Seq<char>,
    bundled: Seq<Seq<char>>,
    present: Seq<bool>,
    i: int,
)
    requires
        bundled.len() == present.len(),
        0 <= i <= bundled.len(),
        forall|k: int| 0 <= k < i ==> !#[trigger] present[k],
        i < bundled.len() ==> present[i],
    ensures
        resolved(selected, true, bundled, present) == selected,
        i < bundled.len() ==> resolved(selected, false, bundled, present) == bundled[i],
        i == bundled.len() ==> resolved(selected, false, bundled, present) == selected,
{
    lemma_first_present(bundled, present, i);
}

} // verus!
