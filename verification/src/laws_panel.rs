//! What the requests of the panel bring about, and what frames and the status tell.

use vstd::prelude::*;
use vstd::utf8::encode_utf8;

use crate::action::{log_line, Action};
use crate::config::Cfg;
use crate::json::{json_quote, json_string, json_u64, lemma_decimal_plain, lemma_json_round_trip};
use crate::laws_core::start_at;
use crate::panel::{level_named, request_named, save_acts, Input, Request};
use crate::plugin::{CoreView, HelperState};
use crate::protocol::{Cmd, StatePayload};
use crate::session::{duration_text, SessionView};
use crate::status::{frame, status_json, AudioState, Rounded};
use crate::text::{bool_text, decimal, is_digit, lemma_decimal_value, trimmed};
use crate::themes::valid_name;

verus! {

proof fn lemma_request_words()
    ensures
        "apply-theme"@.len() == 11 && "apply-theme"@[0] == 'a',
        "stage-theme"@.len() == 11 && "stage-theme"@[0] == 's',
        "reload"@.len() == 6,
        "restart-helper"@.len() == 14 && "restart-helper"@[4] == 'a',
        "restore-themes"@.len() == 14 && "restore-themes"@[4] == 'o',
        "show"@.len() == 4 && "show"@[0] == 's',
        "hide"@.len() == 4 && "hide"@[0] == 'h',
        "reset-pos"@.len() == 9,
        "snapshot"@.len() == 8,
        "save-theme"@.len() == 10,
        "log"@.len() == 3,
{
    reveal_strlit("apply-theme");
    reveal_strlit("stage-theme");
    reveal_strlit("reload");
    reveal_strlit("restart-helper");
    reveal_strlit("restore-themes");
    reveal_strlit("show");
    reveal_strlit("hide");
    reveal_strlit("reset-pos");
    reveal_strlit("snapshot");
    reveal_strlit("save-theme");
    reveal_strlit("log");
}

/// The requests are told by their names, and every other name is none of them.
pub proof fn law_requests_have_names(name: Seq<char>)
    ensures
        request_named("apply-theme"@) == Request::ApplyTheme,
        request_named("reload"@) == Request::ApplyTheme,
        request_named("restart-helper"@) == Request::RestartHelper,
        request_named("show"@) == Request::Show,
        request_named("hide"@) == Request::Hide,
        request_named("reset-pos"@) == Request::ResetPos,
        request_named("snapshot"@) == Request::Snapshot,
        request_named("save-theme"@) == Request::SaveTheme,
        request_named("stage-theme"@) == Request::StageTheme,
        request_named("restore-themes"@) == Request::RestoreThemes,
        request_named("log"@) == Request::Log,
        !(seq![
            "apply-theme"@,
            "reload"@,
            "restart-helper"@,
            "show"@,
            "hide"@,
            "reset-pos"@,
            "snapshot"@,
            "save-theme"@,
            "stage-theme"@,
            "restore-themes"@,
            "log"@,
        ].contains(name)) ==> request_named(name) == Request::Other,
{
    lemma_request_words();
    let all = seq![
        "apply-theme"@,
        "reload"@,
        "restart-helper"@,
        "show"@,
        "hide"@,
        "reset-pos"@,
        "snapshot"@,
        "save-theme"@,
        "stage-theme"@,
        "restore-themes"@,
        "log"@,
    ];
    if !all.contains(name) {
        assert(all[0] != name && all[1] != name && all[2] != name && all[3] != name && all[4]
            != name && all[5] != name && all[6] != name && all[7] != name && all[8] != name
            && all[9] != name && all[10] != name);
    }
}

/// What a request changes: settings are read anew, a restart forgets failures and the
/// window, showing and hiding set the visibility, a reset clears the position, and all
/// other requests change nothing.
pub proof fn law_requests_change(
    c: CoreView,
    kind: Request,
    input: Input<Seq<char>>,
    now: u64,
)
    ensures
        ({
            let after = c.after_request(kind, input, now);
            &&& kind == Request::ApplyTheme ==> after == c.loaded(input.cfg.parsed())
            &&& kind == Request::RestartHelper ==> after == (CoreView {
                helper: None,
                restarts: 0,
                gave_up: false,
                crash_notified: false,
                next_retry: now,
                cfg: c.loaded(input.cfg.parsed()).cfg,
                win_pos: c.loaded(input.cfg.parsed()).win_pos,
                ..c
            })
            &&& kind == Request::Show ==> after == (CoreView {
                cfg: Cfg { visible: true, ..c.cfg },
                gave_up: false,
                next_retry: now,
                ..c
            })
            &&& kind == Request::Hide ==> after == (CoreView {
                cfg: Cfg { visible: false, ..c.cfg },
                helper_state: HelperState::Hidden,
                ..c
            })
            &&& kind == Request::ResetPos ==> after == (CoreView {
                win_pos: None,
                pending_pos: None,
                ..c
            })
            &&& kind == Request::Snapshot || kind == Request::SaveTheme || kind
                == Request::StageTheme || kind == Request::RestoreThemes || kind == Request::Log
                || kind == Request::Other ==> after == c
        }),
{
}

/// What a request brings about: the window is shown, hidden or told, a missing one is
/// started at the saved position, and what is stored is what was asked for.
pub proof fn law_requests_act(c: CoreView, other: Seq<char>, input: Input<Seq<char>>, now: u64)
    ensures
        request_named(other) == Request::Other ==> c.request_acts(other, input, now) == seq![
            log_line(3, "ignoring ui action "@ + other),
        ],
        c.request_acts("show"@, input, now) == seq![
            Action::<Seq<char>>::SetConfig { key: "visible"@, json: "true"@ },
            if c.helper is Some {
                Action::Send(Cmd::Visible { show: true })
            } else {
                start_at(c.cfg.theme, c.win_pos)
            },
        ],
        c.helper is Some ==> c.request_acts("hide"@, input, now) == seq![
            Action::<Seq<char>>::SetConfig { key: "visible"@, json: "false"@ },
            Action::Send(Cmd::Visible { show: false }),
        ],
        c.helper is None ==> c.request_acts("hide"@, input, now) == seq![
            Action::<Seq<char>>::SetConfig { key: "visible"@, json: "false"@ },
        ],
        ({
            let read = c.loaded(input.cfg.parsed());
            &&& c.request_acts("apply-theme"@, input, now) == seq![
                Action::<Seq<char>>::ListThemes { force: true },
            ] + read.reload_acts()
            &&& c.request_acts("reload"@, input, now) == c.request_acts(
                "apply-theme"@,
                input,
                now,
            )
            &&& c.helper is Some && read.cfg.visible ==> c.request_acts(
                "restart-helper"@,
                input,
                now,
            ) == seq![
                Action::<Seq<char>>::StopHelper,
                start_at(read.cfg.theme, read.win_pos),
            ]
            &&& c.helper is None && read.cfg.visible ==> c.request_acts(
                "restart-helper"@,
                input,
                now,
            ) == seq![start_at(read.cfg.theme, read.win_pos)]
            &&& c.helper is Some && !read.cfg.visible ==> c.request_acts(
                "restart-helper"@,
                input,
                now,
            ) == seq![Action::<Seq<char>>::StopHelper]
            &&& c.helper is None && !read.cfg.visible ==> c.request_acts(
                "restart-helper"@,
                input,
                now,
            ).len() == 0
        }),
        c.helper is Some ==> c.request_acts("reset-pos"@, input, now) == seq![
            Action::<Seq<char>>::SetConfig { key: "windowX"@, json: "null"@ },
            Action::SetConfig { key: "windowY"@, json: "null"@ },
            Action::Send(Cmd::PosDefault),
        ],
        c.helper is None ==> c.request_acts("reset-pos"@, input, now) == seq![
            Action::<Seq<char>>::SetConfig { key: "windowX"@, json: "null"@ },
            Action::SetConfig { key: "windowY"@, json: "null"@ },
        ],
        c.helper is Some && input.path is Some && input.path->Some_0.len() > 0 ==> c.request_acts(
            "snapshot"@,
            input,
            now,
        ) == seq![Action::<Seq<char>>::Send(Cmd::Snapshot { path: input.path->Some_0 })],
        c.helper is None || input.path is None || input.path->Some_0.len() == 0
            ==> c.request_acts("snapshot"@, input, now).len() == 0,
        c.request_acts("restore-themes"@, input, now) == seq![
            Action::<Seq<char>>::RestoreThemes,
            Action::ListThemes { force: true },
            log_line(2, "bundled themes restored"@),
        ],
        input.message is Some ==> c.request_acts("log"@, input, now) == seq![
            log_line(level_named(input.level), "[panel] "@ + input.message->Some_0),
        ],
        input.message is None ==> c.request_acts("log"@, input, now).len() == 0,
{
    lemma_request_words();
}

/// A draft is saved, and a theme staged, by what the panel has stored: name and source
/// are the texts of the draft, and a name that is no theme name stages the chosen theme.
pub proof fn law_drafts_are_taken(c: CoreView, input: Input<Seq<char>>, now: u64)
    ensures
        ({
            let name = input.draft_name;
            let source = input.draft;
            &&& name is Some && source is Some && json_string(name->Some_0) is Some && json_string(
                source->Some_0,
            ) is Some ==> c.request_acts("save-theme"@, input, now) == save_acts(
                json_string(name->Some_0)->Some_0,
                json_string(source->Some_0)->Some_0,
            )
            &&& name is None || json_string(name->Some_0) is None ==> c.request_acts(
                "save-theme"@,
                input,
                now,
            ).len() == 1 && c.request_acts("save-theme"@, input, now)[0] is SetConfig
            &&& name is Some && json_string(name->Some_0) is Some && valid_name(
                json_string(name->Some_0)->Some_0,
            ) ==> c.request_acts("stage-theme"@, input, now) == seq![
                Action::<Seq<char>>::ReadTheme { name: json_string(name->Some_0)->Some_0 },
            ]
            &&& name is None || json_string(name->Some_0) is None || !valid_name(
                json_string(name->Some_0)->Some_0,
            ) ==> c.request_acts("stage-theme"@, input, now) == seq![
                Action::<Seq<char>>::ReadTheme { name: c.cfg.theme },
            ]
        }),
{
    lemma_request_words();
}

/// A theme is written under its name, with its source, when the name is valid, the
/// source is not blank and has at most 524288 bytes; else nothing is written and the
/// panel is told why.
pub proof fn law_themes_are_saved(name: Seq<char>, source: Seq<char>)
    ensures
        ({
            let good = valid_name(name) && trimmed(source).len() > 0 && encode_utf8(source).len()
                <= 524288;
            let todo = save_acts(name, source);
            &&& todo.len() == 1
            &&& good ==> todo[0] == (Action::<Seq<char>>::WriteTheme { name, source })
            &&& !good ==> todo[0] is SetConfig && todo[0]->SetConfig_key == "themeError"@
            &&& !valid_name(name) ==> todo[0]->SetConfig_json
                == "\"文件名无效：仅允许字母数字 . _ - 且以 .slint 结尾\""@
            &&& valid_name(name) && trimmed(source).len() == 0 ==> todo[0]->SetConfig_json
                == "\"主题为空\""@
            &&& valid_name(name) && trimmed(source).len() > 0 && encode_utf8(source).len()
                > 524288 ==> todo[0]->SetConfig_json == "\"主题过大（>512KB）\""@
        }),
{
}

/// The levels of the panel's log lines: an error is 0, a warning 1, debugging 3, and
/// anything else is information, 2.
pub proof fn law_log_levels(name: Seq<char>)
    ensures
        level_named("error"@) == 0,
        level_named("warn"@) == 1,
        level_named("debug"@) == 3,
        name != "error"@ && name != "warn"@ && name != "debug"@ ==> level_named(name) == 2,
{
    reveal_strlit("error");
    reveal_strlit("warn");
    reveal_strlit("debug");
    assert("error"@[0] == 'e' && "warn"@[0] == 'w' && "debug"@[0] == 'd');
}

/// A frame carries what the host says of the audio, each value in its field, together
/// with the monitoring switch, the device and the time that the connection has lasted.
pub proof fn law_frames_carry_the_state(
    st: AudioState,
    monitoring: bool,
    session: SessionView<u64>,
    seconds: u64,
)
    ensures
        ({
            let p = frame(st, monitoring, session, seconds);
            &&& p.level == st.input_level
            &&& p.processed == st.processed_level
            &&& p.muted == st.muted
            &&& p.streaming == st.streaming
            &&& p.monitoring == monitoring
            &&& p.sample_rate == st.sample_rate
            &&& p.channels == st.channels
            &&& p.queued_ms == st.queued_ms
            &&& p.session_seconds == seconds
            &&& p.session_text == duration_text(seconds as nat)
            &&& p.device_label == session.label
            &&& p.device_mode == session.mode
        }),
{
}

/// Showing a frame: the window gets it where there is one, with the state of the audio
/// and the plugin's own switch, the mute state is taken over, and the rest of the state
/// stays but for what was written and the session.
pub proof fn law_frames_are_shown(c: CoreView, st: AudioState, r: Rounded<Seq<char>>, now: u64)
    ensures
        ({
            let after = c.pushed(st, r, now);
            let todo = c.push_acts(st, r, now);
            &&& after == (CoreView {
                muted: st.muted,
                session: after.session,
                last_status_json: after.last_status_json,
                last_status_write: after.last_status_write,
                last_helper_state_written: after.last_helper_state_written,
                last_helper_state_write: after.last_helper_state_write,
                ..c
            })
            &&& after.session == c.session.observed(st.streaming, now)
            &&& c.helper is Some ==> todo[0] is Send && todo[0]->Send_0 is State && ({
                let p = todo[0]->Send_0->State_0;
                &&& p.level == st.input_level && p.processed == st.processed_level
                &&& p.muted == st.muted && p.streaming == st.streaming
                &&& p.monitoring == c.monitoring
                &&& p.sample_rate == st.sample_rate && p.channels == st.channels
                &&& p.queued_ms == st.queued_ms
                &&& p.session_seconds == after.session.seconds_at(now)
                &&& p.session_text == duration_text(p.session_seconds as nat)
                &&& p.device_label == after.session.label && p.device_mode == after.session.mode
                &&& todo.skip(1) == c.mirror_acts(status_json(p, r), now)
            })
            &&& c.helper is None ==> forall|i: int|
                0 <= i < todo.len() ==> !(#[trigger] todo[i] is Send)
            &&& c.helper is None ==> todo == c.mirror_acts(
                status_json(
                    frame(st, c.monitoring, after.session, after.session.seconds_at(now)),
                    r,
                ),
                now,
            )
        }),
{
    let todo = c.push_acts(st, r, now);
    if c.helper is Some {
        let p = todo[0]->Send_0->State_0;
        assert(todo.skip(1) =~= c.mirror_acts(status_json(p, r), now));
    } else {
        let after = c.pushed(st, r, now);
        assert(todo =~= c.mirror_acts(
            status_json(frame(st, c.monitoring, after.session, after.session.seconds_at(now)), r),
            now,
        ));
    }
}

/// The status is written under its key when it has changed and a second has passed since
/// the last write, and the window's state likewise, in its own word.
pub proof fn law_status_is_mirrored(c: CoreView, text: Seq<char>, now: u64)
    ensures
        ({
            let after = c.mirrored(text, now);
            let todo = c.mirror_acts(text, now);
            let due = text != c.last_status_json && now - c.last_status_write >= 1_000_000_000;
            let state_due = c.last_helper_state_written != Some(c.helper_state) && now
                - c.last_helper_state_write >= 1_000_000_000;
            &&& due ==> todo[0] == (Action::<Seq<char>>::SetConfig { key: "status"@, json: text })
            &&& state_due ==> todo.last() == (Action::<Seq<char>>::SetConfig {
                key: "helperState"@,
                json: json_quote(c.helper_state.label()),
            })
            &&& todo.len() == (if due {
                1int
            } else {
                0
            }) + (if state_due {
                1int
            } else {
                0
            })
            &&& after == (CoreView {
                last_status_json: if due {
                    text
                } else {
                    c.last_status_json
                },
                last_status_write: if due {
                    now
                } else {
                    c.last_status_write
                },
                last_helper_state_written: if state_due {
                    Some(c.helper_state)
                } else {
                    c.last_helper_state_written
                },
                last_helper_state_write: if state_due {
                    now
                } else {
                    c.last_helper_state_write
                },
                ..c
            })
        }),
{
}

/// The words for the window's state.
pub proof fn law_state_words()
    ensures
        HelperState::Idle.label() == "idle"@,
        HelperState::Starting.label() == "starting"@,
        HelperState::Running.label() == "running"@,
        HelperState::Hidden.label() == "hidden"@,
        HelperState::Crashed.label() == "crashed"@,
        HelperState::Missing.label() == "missing"@,
        HelperState::Stopped.label() == "stopped"@,
{
}

/// Length of the rest of a JSON string, with its closing quote.
pub open spec fn string_len(s: Seq<char>) -> nat
    decreases s.len(),
{
    if s.len() == 0 {
        0
    } else if s[0] == '"' {
        1
    } else if s[0] == '\\' && s.len() > 1 {
        2 + string_len(s.skip(2))
    } else {
        1 + string_len(s.skip(1))
    }
}

/// Length of the JSON value without structure that a text begins with.
pub open spec fn value_len(s: Seq<char>) -> nat
    decreases s.len(),
{
    if s.len() > 0 && s[0] == '"' {
        1 + string_len(s.skip(1))
    } else {
        plain_len(s)
    }
}

pub open spec fn plain_len(s: Seq<char>) -> nat
    decreases s.len(),
{
    if s.len() == 0 || s[0] == ',' || s[0] == '}' {
        0
    } else {
        1 + plain_len(s.skip(1))
    }
}

/// Whether a text is the rest of one JSON string.
pub open spec fn closes(s: Seq<char>) -> bool
    decreases s.len(),
{
    if s.len() == 0 {
        false
    } else if s[0] == '"' {
        s.len() == 1
    } else if s[0] == '\\' {
        s.len() > 1 && closes(s.skip(2))
    } else {
        closes(s.skip(1))
    }
}

/// Whether a text is one JSON value without structure.
pub open spec fn is_scalar(v: Seq<char>) -> bool {
    if v.len() > 0 && v[0] == '"' {
        closes(v.skip(1))
    } else {
        v.len() > 0 && !v.contains(',') && !v.contains('}')
    }
}

/// The value of the member of that name, read from the first member on.
pub open spec fn member_from(s: Seq<char>, key: Seq<char>) -> Option<Seq<char>>
    decreases s.len(),
{
    if s.len() == 0 || s[0] != '"' {
        None
    } else {
        let n = string_len(s.skip(1));
        let name = s.subrange(1, n as int);
        let after = s.skip(1 + n as int);
        if n == 0 || 1 + n > s.len() || after.len() == 0 || after[0] != ':' {
            None
        } else {
            let body = after.skip(1);
            let k = value_len(body);
            if name == key {
                Some(body.take(k as int))
            } else if k < body.len() && body[k as int] == ',' {
                member_from(body.skip(k as int + 1), key)
            } else {
                None
            }
        }
    }
}

/// The value that a JSON object without inner structure has under a key.
pub open spec fn member_of(text: Seq<char>, key: Seq<char>) -> Option<Seq<char>> {
    if text.len() > 0 && text[0] == '{' {
        member_from(text.skip(1), key)
    } else {
        None
    }
}

/// Whether a text can stand between quotes as it is.
pub open spec fn is_word(s: Seq<char>) -> bool {
    !s.contains('"') && !s.contains('\\')
}

proof fn lemma_word_len(w: Seq<char>, rest: Seq<char>)
    requires
        is_word(w),
        rest.len() > 0,
        rest[0] == '"',
    ensures
        string_len(w + rest) == w.len() + 1,
    decreases w.len(),
{
    let s = w + rest;
    if w.len() == 0 {
        assert(s =~= rest);
    } else {
        assert(w.contains(w[0]));
        assert(s[0] == w[0]);
        let tail = w.skip(1);
        assert(s.skip(1) =~= tail + rest);
        assert(is_word(tail)) by {
            if tail.contains('"') {
                let i = choose|i: int| 0 <= i < tail.len() && tail[i] == '"';
                assert(w[i + 1] == '"');
            }
            if tail.contains('\\') {
                let i = choose|i: int| 0 <= i < tail.len() && tail[i] == '\\';
                assert(w[i + 1] == '\\');
            }
        }
        lemma_word_len(tail, rest);
    }
}

proof fn lemma_closed_len(v: Seq<char>, rest: Seq<char>)
    requires
        closes(v),
    ensures
        string_len(v + rest) == v.len(),
    decreases v.len(),
{
    let s = v + rest;
    assert(s[0] == v[0]);
    if v[0] == '"' {
    } else if v[0] == '\\' {
        assert(s.skip(2) =~= v.skip(2) + rest);
        lemma_closed_len(v.skip(2), rest);
    } else {
        assert(s.skip(1) =~= v.skip(1) + rest);
        lemma_closed_len(v.skip(1), rest);
    }
}

proof fn lemma_plain_len(v: Seq<char>, rest: Seq<char>)
    requires
        !v.contains(','),
        !v.contains('}'),
        rest.len() > 0,
        rest[0] == ',' || rest[0] == '}',
    ensures
        plain_len(v + rest) == v.len(),
    decreases v.len(),
{
    let s = v + rest;
    if v.len() == 0 {
        assert(s =~= rest);
    } else {
        assert(v.contains(v[0]));
        assert(s[0] == v[0]);
        let tail = v.skip(1);
        assert(s.skip(1) =~= tail + rest);
        if tail.contains(',') {
            let i = choose|i: int| 0 <= i < tail.len() && tail[i] == ',';
            assert(v[i + 1] == ',');
        }
        if tail.contains('}') {
            let i = choose|i: int| 0 <= i < tail.len() && tail[i] == '}';
            assert(v[i + 1] == '}');
        }
        lemma_plain_len(tail, rest);
    }
}

proof fn lemma_value_len(v: Seq<char>, rest: Seq<char>)
    requires
        is_scalar(v),
        rest.len() > 0,
        rest[0] == ',' || rest[0] == '}',
    ensures
        value_len(v + rest) == v.len(),
{
    let s = v + rest;
    if v[0] == '"' {
        assert(s.skip(1) =~= v.skip(1) + rest);
        lemma_closed_len(v.skip(1), rest);
    } else {
        lemma_plain_len(v, rest);
    }
}

/// One member of an object, with what follows it.
pub open spec fn member_text(key: Seq<char>, value: Seq<char>, rest: Seq<char>) -> Seq<char> {
    seq!['"'] + key + seq!['"', ':'] + value + rest
}

proof fn lemma_member(name: Seq<char>, value: Seq<char>, rest: Seq<char>, key: Seq<char>)
    requires
        is_word(name),
        is_scalar(value),
        rest.len() > 0,
        rest[0] == ',' || rest[0] == '}',
    ensures
        member_from(member_text(name, value, rest), key) == if name == key {
            Some(value)
        } else if rest[0] == ',' {
            member_from(rest.skip(1), key)
        } else {
            None
        },
{
    let s = member_text(name, value, rest);
    let tail = seq!['"', ':'] + value + rest;
    assert(s.skip(1) =~= name + tail);
    lemma_word_len(name, tail);
    let n = string_len(s.skip(1));
    assert(s.subrange(1, n as int) =~= name);
    let after = s.skip(1 + n as int);
    assert(after =~= seq![':'] + value + rest);
    let body = after.skip(1);
    assert(body =~= value + rest);
    lemma_value_len(value, rest);
    assert(body.take(value.len() as int) =~= value);
    assert(body.skip(value.len() as int + 1) =~= rest.skip(1));
    assert(body[value.len() as int] == rest[0]);
}

/// The members of an object, from the one at `i` on, with the closing brace.
pub open spec fn members_text(m: Seq<(Seq<char>, Seq<char>)>, i: int) -> Seq<char>
    decreases m.len() - i,
{
    if 0 <= i < m.len() - 1 {
        member_text(m[i].0, m[i].1, seq![','] + members_text(m, i + 1))
    } else {
        member_text(m[i].0, m[i].1, seq!['}'])
    }
}

proof fn lemma_members(m: Seq<(Seq<char>, Seq<char>)>, i: int, j: int)
    requires
        0 <= i <= j < m.len(),
        forall|k: int|
            0 <= k < m.len() ==> is_word(#[trigger] m[k].0) && is_scalar(m[k].1),
        forall|k: int| 0 <= k < m.len() && k != j ==> (#[trigger] m[k]).0 != m[j].0,
    ensures
        member_from(members_text(m, i), m[j].0) == Some(m[j].1),
    decreases m.len() - i,
{
    assert(is_word(m[i].0) && is_scalar(m[i].1));
    if i < m.len() - 1 {
        let rest = seq![','] + members_text(m, i + 1);
        assert(rest.skip(1) =~= members_text(m, i + 1));
        lemma_member(m[i].0, m[i].1, rest, m[j].0);
        if i < j {
            lemma_members(m, i + 1, j);
        }
    } else {
        lemma_member(m[i].0, m[i].1, seq!['}'], m[j].0);
    }
}

proof fn lemma_digits_are_scalar(n: nat)
    ensures
        is_scalar(decimal(n)),
{
    lemma_decimal_value(n);
    lemma_decimal_plain(n);
    let d = decimal(n);
    assert(is_digit(d[0]));
    if d.contains(',') {
        let i = choose|i: int| 0 <= i < d.len() && d[i] == ',';
        assert(is_digit(d[i]));
    }
    if d.contains('}') {
        let i = choose|i: int| 0 <= i < d.len() && d[i] == '}';
        assert(is_digit(d[i]));
    }
}

proof fn lemma_truth_is_scalar(b: bool)
    ensures
        is_scalar(bool_text(b)),
{
    reveal_strlit("true");
    reveal_strlit("false");
}

proof fn lemma_status_words()
    ensures
        is_word("channels"@) && "channels"@.len() == 8,
        is_word("deviceLabel"@) && "deviceLabel"@.len() == 11 && "deviceLabel"@[0] == 'd',
        is_word("level"@) && "level"@.len() == 5 && "level"@[0] == 'l',
        is_word("monitoring"@) && "monitoring"@.len() == 10 && "monitoring"@[0] == 'm',
        is_word("muted"@) && "muted"@.len() == 5 && "muted"@[0] == 'm',
        is_word("queuedMs"@) && "queuedMs"@.len() == 8 && "queuedMs"@[0] == 'q',
        is_word("sampleRate"@) && "sampleRate"@.len() == 10 && "sampleRate"@[0] == 's',
        is_word("sessionSeconds"@) && "sessionSeconds"@.len() == 14,
        is_word("sessionText"@) && "sessionText"@.len() == 11 && "sessionText"@[0] == 's',
        is_word("streaming"@) && "streaming"@.len() == 9,
        "channels"@[0] == 'c',
{
    reveal_strlit("channels");
    reveal_strlit("deviceLabel");
    reveal_strlit("level");
    reveal_strlit("monitoring");
    reveal_strlit("muted");
    reveal_strlit("queuedMs");
    reveal_strlit("sampleRate");
    reveal_strlit("sessionSeconds");
    reveal_strlit("sessionText");
    reveal_strlit("streaming");
}

proof fn lemma_status_pieces()
    ensures
        "{\"channels\":"@ == seq!['{', '"'] + "channels"@ + seq!['"', ':'],
        ",\"deviceLabel\":"@ == seq![',', '"'] + "deviceLabel"@ + seq!['"', ':'],
        ",\"level\":"@ == seq![',', '"'] + "level"@ + seq!['"', ':'],
        ",\"monitoring\":"@ == seq![',', '"'] + "monitoring"@ + seq!['"', ':'],
        ",\"muted\":"@ == seq![',', '"'] + "muted"@ + seq!['"', ':'],
        ",\"queuedMs\":"@ == seq![',', '"'] + "queuedMs"@ + seq!['"', ':'],
        ",\"sampleRate\":"@ == seq![',', '"'] + "sampleRate"@ + seq!['"', ':'],
        ",\"sessionSeconds\":"@ == seq![',', '"'] + "sessionSeconds"@ + seq!['"', ':'],
        ",\"sessionText\":"@ == seq![',', '"'] + "sessionText"@ + seq!['"', ':'],
        ",\"streaming\":"@ == seq![',', '"'] + "streaming"@ + seq!['"', ':'],
        "}"@ == seq!['}'],
{
    reveal_strlit("channels");
    reveal_strlit("deviceLabel");
    reveal_strlit("level");
    reveal_strlit("monitoring");
    reveal_strlit("muted");
    reveal_strlit("queuedMs");
    reveal_strlit("sampleRate");
    reveal_strlit("sessionSeconds");
    reveal_strlit("sessionText");
    reveal_strlit("streaming");
    reveal_strlit("{\"channels\":");
    reveal_strlit(",\"deviceLabel\":");
    reveal_strlit(",\"level\":");
    reveal_strlit(",\"monitoring\":");
    reveal_strlit(",\"muted\":");
    reveal_strlit(",\"queuedMs\":");
    reveal_strlit(",\"sampleRate\":");
    reveal_strlit(",\"sessionSeconds\":");
    reveal_strlit(",\"sessionText\":");
    reveal_strlit(",\"streaming\":");
    reveal_strlit("}");
    assert("{\"channels\":"@ =~= seq!['{', '"'] + "channels"@ + seq!['"', ':']);
    assert(",\"deviceLabel\":"@ =~= seq![',', '"'] + "deviceLabel"@ + seq!['"', ':']);
    assert(",\"level\":"@ =~= seq![',', '"'] + "level"@ + seq!['"', ':']);
    assert(",\"monitoring\":"@ =~= seq![',', '"'] + "monitoring"@ + seq!['"', ':']);
    assert(",\"muted\":"@ =~= seq![',', '"'] + "muted"@ + seq!['"', ':']);
    assert(",\"queuedMs\":"@ =~= seq![',', '"'] + "queuedMs"@ + seq!['"', ':']);
    assert(",\"sampleRate\":"@ =~= seq![',', '"'] + "sampleRate"@ + seq!['"', ':']);
    assert(",\"sessionSeconds\":"@ =~= seq![',', '"'] + "sessionSeconds"@ + seq!['"', ':']);
    assert(",\"sessionText\":"@ =~= seq![',', '"'] + "sessionText"@ + seq!['"', ':']);
    assert(",\"streaming\":"@ =~= seq![',', '"'] + "streaming"@ + seq!['"', ':']);
    assert("}"@ =~= seq!['}']);
}

/// The members of an object up to the one at `i`, from the opening brace on.
pub open spec fn object_head(m: Seq<(Seq<char>, Seq<char>)>, i: nat) -> Seq<char>
    decreases i,
{
    if i == 0 {
        (seq!['{', '"'] + m[0].0 + seq!['"', ':']) + m[0].1
    } else {
        object_head(m, (i - 1) as nat) + (seq![',', '"'] + m[i as int].0 + seq!['"', ':'])
            + m[i as int].1
    }
}

/// What follows the member at `i`.
spec fn object_rest(m: Seq<(Seq<char>, Seq<char>)>, i: nat) -> Seq<char> {
    if i + 1 < m.len() {
        seq![','] + members_text(m, i as int + 1)
    } else {
        seq!['}']
    }
}

proof fn lemma_fold(head: Seq<char>, key: Seq<char>, value: Seq<char>, rest: Seq<char>)
    ensures
        head + (seq![',', '"'] + key + seq!['"', ':']) + value + rest == head + (seq![',']
            + member_text(key, value, rest)),
        (seq!['{', '"'] + key + seq!['"', ':']) + value + rest == seq!['{'] + member_text(
            key,
            value,
            rest,
        ),
{
    assert(head + (seq![',', '"'] + key + seq!['"', ':']) + value + rest =~= head + (seq![',']
        + member_text(key, value, rest)));
    assert((seq!['{', '"'] + key + seq!['"', ':']) + value + rest =~= seq!['{'] + member_text(
        key,
        value,
        rest,
    ));
}

proof fn lemma_object_head(m: Seq<(Seq<char>, Seq<char>)>, i: nat)
    requires
        i < m.len(),
    ensures
        object_head(m, i) + object_rest(m, i) == seq!['{'] + members_text(m, 0),
    decreases i,
{
    let key = m[i as int].0;
    let value = m[i as int].1;
    let rest = object_rest(m, i);
    if i == 0 {
        lemma_fold(seq![], key, value, rest);
    } else {
        let head = object_head(m, (i - 1) as nat);
        lemma_fold(head, key, value, rest);
        lemma_object_head(m, (i - 1) as nat);
    }
}

/// What the status has under its keys, as it is written.
spec fn status_members(p: StatePayload<Seq<char>>, r: Rounded<Seq<char>>) -> Seq<
    (Seq<char>, Seq<char>),
> {
    seq![
        ("channels"@, decimal(p.channels as nat)),
        ("deviceLabel"@, json_quote(p.device_label)),
        ("level"@, r.level),
        ("monitoring"@, bool_text(p.monitoring)),
        ("muted"@, bool_text(p.muted)),
        ("queuedMs"@, r.queued_ms),
        ("sampleRate"@, decimal(p.sample_rate as nat)),
        ("sessionSeconds"@, decimal(p.session_seconds as nat)),
        ("sessionText"@, json_quote(p.session_text)),
        ("streaming"@, bool_text(p.streaming)),
    ]
}

proof fn lemma_status_is_an_object(p: StatePayload<Seq<char>>, r: Rounded<Seq<char>>)
    ensures
        status_json(p, r) == seq!['{'] + members_text(status_members(p, r), 0),
{
    lemma_status_pieces();
    let m = status_members(p, r);
    lemma_object_head(m, 9);
    reveal_with_fuel(object_head, 10);
}

/// Reading the status back as a JSON object gives, under each key, the frame's field of
/// that name: the three switches, the numbers, the two texts as JSON strings, and the
/// rounded numbers as they were given. That holds of all frames, as long as a quoted
/// string is one JSON string and the rounded numbers are JSON numbers.
pub proof fn law_status_is_read_back(p: StatePayload<Seq<char>>, r: Rounded<Seq<char>>)
    ensures
        is_scalar(json_quote(p.device_label)) && is_scalar(json_quote(p.session_text)) && is_scalar(
            r.level,
        ) && is_scalar(r.queued_ms) ==> {
            let text = status_json(p, r);
            &&& member_of(text, "muted"@) == Some(if p.muted {
                "true"@
            } else {
                "false"@
            })
            &&& member_of(text, "monitoring"@) == Some(if p.monitoring {
                "true"@
            } else {
                "false"@
            })
            &&& member_of(text, "streaming"@) == Some(if p.streaming {
                "true"@
            } else {
                "false"@
            })
            &&& member_of(text, "channels"@) is Some && json_u64(
                member_of(text, "channels"@)->Some_0,
            ) == Some(p.channels as u64)
            &&& member_of(text, "sampleRate"@) is Some && json_u64(
                member_of(text, "sampleRate"@)->Some_0,
            ) == Some(p.sample_rate as u64)
            &&& member_of(text, "sessionSeconds"@) is Some && json_u64(
                member_of(text, "sessionSeconds"@)->Some_0,
            ) == Some(p.session_seconds)
            &&& member_of(text, "deviceLabel"@) == Some(json_quote(p.device_label))
            &&& member_of(text, "sessionText"@) == Some(json_quote(p.session_text))
            &&& member_of(text, "level"@) == Some(r.level)
            &&& member_of(text, "queuedMs"@) == Some(r.queued_ms)
        },
{
    if is_scalar(json_quote(p.device_label)) && is_scalar(json_quote(p.session_text)) && is_scalar(
        r.level,
    ) && is_scalar(r.queued_ms) {
        let m = status_members(p, r);
        let text = status_json(p, r);
        lemma_status_is_an_object(p, r);
        assert(text.skip(1) =~= members_text(m, 0));
        lemma_status_words();
        lemma_digits_are_scalar(p.channels as nat);
        lemma_digits_are_scalar(p.sample_rate as nat);
        lemma_digits_are_scalar(p.session_seconds as nat);
        lemma_truth_is_scalar(p.muted);
        lemma_truth_is_scalar(p.monitoring);
        lemma_truth_is_scalar(p.streaming);
        lemma_json_round_trip(0, p.channels as u64);
        lemma_json_round_trip(0, p.sample_rate as u64);
        lemma_json_round_trip(0, p.session_seconds);
        assert forall|j: int, k: int| 0 <= j < 10 && 0 <= k < 10 && j != k implies (
        #[trigger] m[k]).0 != (#[trigger] m[j]).0 by {}
        lemma_members(m, 0, 0);
        lemma_members(m, 0, 1);
        lemma_members(m, 0, 2);
        lemma_members(m, 0, 3);
        lemma_members(m, 0, 4);
        lemma_members(m, 0, 5);
        lemma_members(m, 0, 6);
        lemma_members(m, 0, 7);
        lemma_members(m, 0, 8);
        lemma_members(m, 0, 9);
        assert(member_of(text, m[0].0) == Some(m[0].1));
        assert(member_of(text, m[1].0) == Some(m[1].1));
        assert(member_of(text, m[2].0) == Some(m[2].1));
        assert(member_of(text, m[3].0) == Some(m[3].1));
        assert(member_of(text, m[4].0) == Some(m[4].1));
        assert(member_of(text, m[5].0) == Some(m[5].1));
        assert(member_of(text, m[6].0) == Some(m[6].1));
        assert(member_of(text, m[7].0) == Some(m[7].1));
        assert(member_of(text, m[8].0) == Some(m[8].1));
        assert(member_of(text, m[9].0) == Some(m[9].1));
    }
}

} // verus!
