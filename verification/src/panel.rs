//! What the settings panel asks for.
//!
//! A request is a message with the topic `ui:` and the name of the request.

use vstd::prelude::*;
use vstd::utf8::encode_utf8;

use crate::action::{acts, config, log_line, LOG_DEBUG, LOG_ERROR, LOG_INFO, LOG_WARN};
use crate::action::{log, log_info, log_warn, nothing, set_config, then_all, then_do, Action};
use crate::config::{read_string, Cfg, ParsedCfg, RawCfg};
use crate::events::empty_json;
use crate::json::{json_list, json_quote, json_string, list_to_string, quoted};
use crate::plugin::{Acts, Core, CoreView, HelperState};
use crate::protocol::Cmd;
use crate::text::{joined2, joined3, opt_text, same_text, texts, trim, trimmed};
use crate::themes::{scan_themes, theme_list, valid_name, valid_theme_name};

verus! {

/// Largest theme that can be saved, in bytes.
pub const THEME_BYTES_MAX: usize = 524288;

/// The requests of the panel.
#[derive(Debug, Clone, Copy, PartialEq, Eq, Structural)]
pub enum Request {
    ApplyTheme,
    RestartHelper,
    Show,
    Hide,
    ResetPos,
    Snapshot,
    SaveTheme,
    StageTheme,
    RestoreThemes,
    Log,
    Other,
}

pub open spec fn request_named(name: Seq<char>) -> Request {
    if name == "apply-theme"@ || name == "reload"@ {
        Request::ApplyTheme
    } else if name == "restart-helper"@ {
        Request::RestartHelper
    } else if name == "show"@ {
        Request::Show
    } else if name == "hide"@ {
        Request::Hide
    } else if name == "reset-pos"@ {
        Request::ResetPos
    } else if name == "snapshot"@ {
        Request::Snapshot
    } else if name == "save-theme"@ {
        Request::SaveTheme
    } else if name == "stage-theme"@ {
        Request::StageTheme
    } else if name == "restore-themes"@ {
        Request::RestoreThemes
    } else if name == "log"@ {
        Request::Log
    } else {
        Request::Other
    }
}

/// The request of that name.
pub fn request(name: &str) -> (kind: Request)
    ensures
        kind == request_named(name@),
{
    if same_text(name, "apply-theme") || same_text(name, "reload") {
        Request::ApplyTheme
    } else if same_text(name, "restart-helper") {
        Request::RestartHelper
    } else if same_text(name, "show") {
        Request::Show
    } else if same_text(name, "hide") {
        Request::Hide
    } else if same_text(name, "reset-pos") {
        Request::ResetPos
    } else if same_text(name, "snapshot") {
        Request::Snapshot
    } else if same_text(name, "save-theme") {
        Request::SaveTheme
    } else if same_text(name, "stage-theme") {
        Request::StageTheme
    } else if same_text(name, "restore-themes") {
        Request::RestoreThemes
    } else if same_text(name, "log") {
        Request::Log
    } else {
        Request::Other
    }
}

/// What requests are answered from. Only what the request at hand needs has to
/// be filled in.
#[derive(Debug, PartialEq, Eq)]
pub struct Input<Text = String> {
    /// The settings, for [`Request::ApplyTheme`] and [`Request::RestartHelper`].
    pub cfg: RawCfg<Text>,
    /// The JSON text of the draft's name and source, for
    /// [`Request::SaveTheme`] and [`Request::StageTheme`].
    pub draft_name: Option<Text>,
    pub draft: Option<Text>,
    /// The path of a [`Request::Snapshot`], where the message has one.
    pub path: Option<Text>,
    /// Level and text of a [`Request::Log`], where the message has them.
    pub level: Text,
    pub message: Option<Text>,
}

impl View for Input {
    type V = Input<Seq<char>>;

    open spec fn view(&self) -> Input<Seq<char>> {
        Input {
            cfg: self.cfg@,
            draft_name: opt_text(self.draft_name),
            draft: opt_text(self.draft),
            path: opt_text(self.path),
            level: self.level@,
            message: opt_text(self.message),
        }
    }
}

pub open spec fn level_named(name: Seq<char>) -> i32 {
    if name == "error"@ {
        LOG_ERROR
    } else if name == "warn"@ {
        LOG_WARN
    } else if name == "debug"@ {
        LOG_DEBUG
    } else {
        LOG_INFO
    }
}

/// The log level of that name; anything unknown is information.
pub fn level_of(name: &str) -> (level: i32)
    ensures
        level == level_named(name@),
{
    if same_text(name, "error") {
        LOG_ERROR
    } else if same_text(name, "warn") {
        LOG_WARN
    } else if same_text(name, "debug") {
        LOG_DEBUG
    } else {
        LOG_INFO
    }
}

/// The text in an optional JSON string; nothing readable is an empty text.
pub open spec fn text_or_empty(json: Option<Seq<char>>) -> Seq<char> {
    match json {
        Some(s) => match json_string(s) {
            Some(t) => t,
            None => seq![],
        },
        None => seq![],
    }
}

/// The text in an optional JSON string, where there is one.
pub open spec fn text_in(json: Option<Seq<char>>) -> Option<Seq<char>> {
    match json {
        Some(s) => json_string(s),
        None => None,
    }
}

/// Saving a draft: refused with a message for the panel when its name is not
/// valid, it is blank or it is too large, and else written.
pub open spec fn save_acts(name: Seq<char>, source: Seq<char>) -> Acts {
    if !valid_name(name) {
        seq![
            config(
                "themeError"@,
                "\"文件名无效：仅允许字母数字 . _ - 且以 .slint 结尾\""@,
            ),
        ]
    } else if trimmed(source).len() == 0 {
        seq![config("themeError"@, "\"主题为空\""@)]
    } else if encode_utf8(source).len() > THEME_BYTES_MAX {
        seq![config("themeError"@, "\"主题过大（>512KB）\""@)]
    } else {
        seq![Action::WriteTheme { name, source }]
    }
}

impl CoreView {
    /// The theme to stage: the named one, or the chosen one when the name is
    /// missing or not valid.
    pub open spec fn staged_name(self, name: Option<Seq<char>>) -> Seq<char> {
        match name {
            Some(n) if valid_name(n) => n,
            _ => self.cfg.theme,
        }
    }

    pub open spec fn restarted(self, p: ParsedCfg<Seq<char>>, now: u64) -> CoreView {
        (CoreView {
            helper: None,
            restarts: 0,
            gave_up: false,
            crash_notified: false,
            next_retry: now,
            ..self
        }).loaded(p)
    }

    pub open spec fn with_visible(self, visible: bool) -> CoreView {
        CoreView { cfg: Cfg { visible, ..self.cfg }, ..self }
    }

    /// The state after a request of the panel.
    pub open spec fn after_request(
        self,
        kind: Request,
        input: Input<Seq<char>>,
        now: u64,
    ) -> CoreView {
        match kind {
            Request::ApplyTheme => self.loaded(input.cfg.parsed()),
            Request::RestartHelper => self.restarted(input.cfg.parsed(), now),
            Request::Show => CoreView {
                gave_up: false,
                next_retry: now,
                ..self.with_visible(true)
            },
            Request::Hide => CoreView {
                helper_state: HelperState::Hidden,
                ..self.with_visible(false)
            },
            Request::ResetPos => CoreView { win_pos: None, pending_pos: None, ..self },
            _ => self,
        }
    }

    /// What a request of the panel brings about.
    pub open spec fn request_acts(
        self,
        name: Seq<char>,
        input: Input<Seq<char>>,
        now: u64,
    ) -> Acts {
        match request_named(name) {
            Request::ApplyTheme => seq![Action::ListThemes { force: true }] + self.loaded(
                input.cfg.parsed(),
            ).reload_acts(),
            Request::RestartHelper => self.restart_acts(input.cfg.parsed(), now),
            Request::Show => seq![config("visible"@, "true"@)] + (if self.helper is Some {
                seq![Action::Send(Cmd::Visible { show: true })]
            } else {
                seq![self.spawn_act()]
            }),
            Request::Hide => seq![config("visible"@, "false"@)] + self.send_acts(
                Cmd::Visible { show: false },
            ),
            Request::ResetPos => seq![
                config("windowX"@, "null"@),
                config("windowY"@, "null"@),
            ] + self.send_acts(Cmd::PosDefault),
            Request::Snapshot => match input.path {
                Some(path) if path.len() > 0 => self.send_acts(Cmd::Snapshot { path }),
                _ => seq![],
            },
            Request::SaveTheme => save_acts(
                text_or_empty(input.draft_name),
                text_or_empty(input.draft),
            ),
            Request::StageTheme => seq![
                Action::ReadTheme { name: self.staged_name(text_in(input.draft_name)) },
            ],
            Request::RestoreThemes => seq![
                Action::RestoreThemes,
                Action::ListThemes { force: true },
                log_line(LOG_INFO, "bundled themes restored"@),
            ],
            Request::Log => match input.message {
                Some(m) => seq![log_line(level_named(input.level), "[panel] "@ + m)],
                None => seq![],
            },
            Request::Other => seq![log_line(LOG_DEBUG, "ignoring ui action "@ + name)],
        }
    }

    pub open spec fn restart_acts(self, p: ParsedCfg<Seq<char>>, now: u64) -> Acts {
        let after = self.restarted(p, now);
        self.stop_acts() + (if after.cfg.visible {
            seq![after.spawn_act()]
        } else {
            seq![]
        })
    }

    /// A command goes to the window when there is one.
    pub open spec fn send_acts(self, cmd: Cmd<Seq<char>>) -> Acts {
        if self.helper is Some {
            seq![Action::Send(cmd)]
        } else {
            seq![]
        }
    }

    /// Whether the list of themes is written: when it has changed or must be.
    pub open spec fn publishes(self, names: Seq<Seq<char>>, force: bool) -> bool {
        force || theme_list(names) != self.last_theme_list
    }

    /// The state once the themes were listed.
    pub open spec fn published(self, names: Seq<Seq<char>>, force: bool) -> CoreView {
        if self.publishes(names, force) {
            CoreView { last_theme_list: theme_list(names), ..self }
        } else {
            self
        }
    }

    pub open spec fn publish_acts(self, names: Seq<Seq<char>>, force: bool) -> Acts {
        if self.publishes(names, force) {
            seq![config("themeList"@, json_list(theme_list(names)))]
        } else {
            seq![]
        }
    }
}

/// What to log when the host refuses a configuration write.
pub open spec fn refused_act(key: Seq<char>) -> Action<Seq<char>> {
    log_line(LOG_WARN, "set_config("@ + key + ") failed"@)
}

impl Core {
    /// Sends the window a command, where there is one.
    pub fn send(&self, cmd: Cmd) -> (todo: Vec<Action>)
        ensures
            acts(todo@) == self@.send_acts(cmd@),
    {
        let mut todo = nothing();
        if self.helper.is_some() {
            then_do(&mut todo, Action::Send(cmd));
        }
        assert(acts(todo@) =~= self@.send_acts(cmd@));
        todo
    }

    /// Handles a request of the panel.
    pub fn ui_action(&mut self, name: &str, input: &Input, now: u64) -> (todo: Vec<Action>)
        ensures
            final(self)@ == old(self)@.after_request(request_named(name@), input@, now),
            acts(todo@) == old(self)@.request_acts(name@, input@, now),
            old(self)@.valid() ==> final(self)@.valid(),
    {
        let mut todo = nothing();
        match request(name) {
            Request::ApplyTheme => {
                self.load_cfg(&input.cfg);
                then_do(&mut todo, Action::ListThemes { force: true });
                then_all(&mut todo, self.reload_theme());
            },
            Request::RestartHelper => {
                let p = input.cfg.parse();
                let more = self.restart_helper(&p, now);
                then_all(&mut todo, more);
            },
            Request::Show => {
                self.cfg.visible = true;
                self.gave_up = false;
                self.next_retry = now;
                then_do(&mut todo, set_config("visible", "true"));
                if self.helper.is_none() {
                    then_do(&mut todo, self.spawn_helper());
                } else {
                    then_do(&mut todo, Action::Send(Cmd::Visible { show: true }));
                }
            },
            Request::Hide => {
                self.cfg.visible = false;
                then_do(&mut todo, set_config("visible", "false"));
                then_all(&mut todo, self.send(Cmd::Visible { show: false }));
                self.helper_state = HelperState::Hidden;
            },
            Request::ResetPos => {
                self.win_pos = None;
                self.pending_pos = None;
                then_do(&mut todo, set_config("windowX", "null"));
                then_do(&mut todo, set_config("windowY", "null"));
                then_all(&mut todo, self.send(Cmd::PosDefault));
            },
            Request::Snapshot => if let Some(path) = &input.path {
                if !path.as_str().is_empty() {
                    then_all(&mut todo, self.send(Cmd::Snapshot { path: path.clone() }));
                }
            },
            Request::SaveTheme => {
                then_all(&mut todo, save_theme_draft(&input.draft_name, &input.draft));
            },
            Request::StageTheme => {
                let name = read_string(&input.draft_name);
                then_do(&mut todo, self.stage_theme(name));
            },
            Request::RestoreThemes => {
                then_do(&mut todo, Action::RestoreThemes);
                then_do(&mut todo, Action::ListThemes { force: true });
                then_do(&mut todo, log_info("bundled themes restored".to_owned()));
            },
            Request::Log => if let Some(message) = &input.message {
                let level: i32 = level_of(input.level.as_str());
                then_do(&mut todo, log(level, joined2("[panel] ", message.as_str())));
            },
            Request::Other => {
                then_do(&mut todo, log(LOG_DEBUG, joined2("ignoring ui action ", name)));
            },
        }
        assert(self@ =~= old(self)@.after_request(request_named(name@), input@, now));
        assert(acts(todo@) =~= old(self)@.request_acts(name@, input@, now));
        todo
    }

    /// Starts the window anew with settings that were just read.
    pub fn restart_helper(&mut self, p: &ParsedCfg, now: u64) -> (todo: Vec<Action>)
        ensures
            final(self)@ == old(self)@.restarted(p@, now),
            acts(todo@) == old(self)@.restart_acts(p@, now),
            old(self)@.valid() ==> final(self)@.valid(),
    {
        let mut todo = self.kill_helper();
        self.restarts = 0;
        self.gave_up = false;
        self.crash_notified = false;
        self.next_retry = now;
        self.adopt(p);
        assert(self@ =~= old(self)@.restarted(p@, now));
        if self.cfg.visible {
            then_do(&mut todo, self.spawn_helper());
        }
        assert(acts(todo@) =~= old(self)@.restart_acts(p@, now));
        todo
    }

    /// The action that fetches a theme for the panel's editor.
    pub fn stage_theme(&self, name: Option<String>) -> (action: Action)
        ensures
            action@ == (Action::ReadTheme { name: self@.staged_name(opt_text(name)) }),
    {
        if let Some(n) = name {
            if valid_theme_name(n.as_str()) {
                return Action::ReadTheme { name: n };
            }
        }
        Action::ReadTheme { name: self.cfg.theme.clone() }
    }

    /// Writes the list of themes, where it has changed or `force` is set. `names`
    /// are the files of the theme directory.
    pub fn publish_theme_list(&mut self, names: &Vec<String>, force: bool) -> (todo: Vec<Action>)
        ensures
            final(self)@ == old(self)@.published(texts(names@), force),
            acts(todo@) == old(self)@.publish_acts(texts(names@), force),
            final(self)@ == (if old(self)@.publishes(texts(names@), force) {
                CoreView { last_theme_list: theme_list(texts(names@)), ..old(self)@ }
            } else {
                old(self)@
            }),
            acts(todo@) == if old(self)@.publishes(texts(names@), force) {
                seq![config("themeList"@, json_list(theme_list(texts(names@))))]
            } else {
                Acts::empty()
            },
            old(self)@.valid() ==> final(self)@.valid(),
    {
        let list = scan_themes(names);
        let mut todo = nothing();
        if force || !same_list(&list, &self.last_theme_list) {
            if let Some(json) = list_to_string(&list) {
                then_do(&mut todo, set_config("themeList", json.as_str()));
            }
            self.last_theme_list = list;
        }
        assert(self@ =~= (if old(self)@.publishes(texts(names@), force) {
            CoreView { last_theme_list: theme_list(texts(names@)), ..old(self)@ }
        } else {
            old(self)@
        }));
        assert(acts(todo@) =~= if old(self)@.publishes(texts(names@), force) {
            seq![config("themeList"@, json_list(theme_list(texts(names@))))]
        } else {
            Acts::empty()
        });
        todo
    }
}

/// Whether two lists hold the same texts in the same order.
pub fn same_list(a: &Vec<String>, b: &Vec<String>) -> (same: bool)
    ensures
        same == (texts(a@) == texts(b@)),
{
    if a.len() != b.len() {
        assert(texts(a@).len() != texts(b@).len());
        return false;
    }
    let mut i: usize = 0;
    while i < a.len()
        invariant
            i <= a@.len() == b@.len(),
            forall|j: int| 0 <= j < i ==> a@[j]@ == b@[j]@,
        decreases a@.len() - i,
    {
        if !same_text(a[i].as_str(), b[i].as_str()) {
            assert(texts(a@)[i as int] != texts(b@)[i as int]);
            return false;
        }
        i = i + 1;
    }
    assert(texts(a@) =~= texts(b@));
    true
}

fn text_or(json: &Option<String>) -> (text: String)
    ensures
        text@ == text_or_empty(opt_text(*json)),
{
    match read_string(json) {
        Some(t) => t,
        None => {
            let empty = String::new();
            assert(empty@ =~= seq![]);
            empty
        },
    }
}

/// Saves the panel's draft, of which the configuration holds name and source.
pub fn save_theme_draft(name: &Option<String>, source: &Option<String>) -> (todo: Vec<Action>)
    ensures
        acts(todo@) == save_acts(
            text_or_empty(opt_text(*name)),
            text_or_empty(opt_text(*source)),
        ),
{
    save_theme(text_or(name), text_or(source))
}

/// Saves a theme under a name.
pub fn save_theme(name: String, source: String) -> (todo: Vec<Action>)
    ensures
        acts(todo@) == save_acts(name@, source@),
{
    let mut todo = nothing();
    if !valid_theme_name(name.as_str()) {
        then_do(
            &mut todo,
            set_config(
                "themeError",
                "\"文件名无效：仅允许字母数字 . _ - 且以 .slint 结尾\"",
            ),
        );
    } else if trim(source.as_str()).as_str().is_empty() {
        then_do(&mut todo, set_config("themeError", "\"主题为空\""));
    } else if source.as_str().as_bytes().len() > THEME_BYTES_MAX {
        then_do(&mut todo, set_config("themeError", "\"主题过大（>512KB）\""));
    } else {
        then_do(&mut todo, Action::WriteTheme { name, source });
    }
    assert(acts(todo@) =~= save_acts(name@, source@));
    todo
}

/// What follows once a theme was written to the file at `path`, or was not.
pub open spec fn saved_acts(path: Seq<char>, failure: Option<Seq<char>>) -> Acts {
    match failure {
        None => seq![
            log_line(LOG_INFO, "theme saved: "@ + path),
            config("themeError"@, empty_json()),
            Action::ListThemes { force: true },
        ],
        Some(e) => seq![config("themeError"@, json_quote("写入失败: "@ + e))],
    }
}

/// What follows once a theme was read for the editor, or could not be.
pub open spec fn staged_act(name: Seq<char>, outcome: Result<Seq<char>, Seq<char>>) -> Action<
    Seq<char>,
> {
    match outcome {
        Ok(source) => config("themeDraft"@, json_quote(source)),
        Err(e) => log_line(LOG_WARN, "stage-theme: cannot read "@ + name + (": "@ + e)),
    }
}

/// What follows once a theme was written to the file at `path`, or was not.
pub fn theme_saved(path: &str, failure: &Option<String>) -> (todo: Vec<Action>)
    ensures
        acts(todo@) == saved_acts(path@, opt_text(*failure)),
        acts(todo@) == match *failure {
            None => seq![
                log_line(LOG_INFO, "theme saved: "@ + path@),
                config("themeError"@, empty_json()),
                Action::ListThemes { force: true },
            ],
            Some(e) => seq![config("themeError"@, json_quote("写入失败: "@ + e@))],
        },
{
    let mut todo = nothing();
    match failure {
        None => {
            then_do(&mut todo, log_info(joined2("theme saved: ", path)));
            then_do(&mut todo, set_config("themeError", "\"\""));
            then_do(&mut todo, Action::ListThemes { force: true });
            assert(acts(todo@) =~= seq![
                log_line(LOG_INFO, "theme saved: "@ + path@),
                config("themeError"@, empty_json()),
                Action::ListThemes { force: true },
            ]);
        },
        Some(e) => {
            let message = joined2("写入失败: ", e.as_str());
            then_do(&mut todo, set_config("themeError", quoted(message.as_str()).as_str()));
            assert(acts(todo@) =~= seq![
                config("themeError"@, json_quote("写入失败: "@ + e@)),
            ]);
        },
    }
    todo
}

/// What follows once a theme was read for the editor, or could not be.
pub fn theme_staged(name: &str, outcome: &Result<String, String>) -> (action: Action)
    ensures
        action@ == staged_act(
            name@,
            match *outcome {
                Ok(source) => Ok(source@),
                Err(e) => Err(e@),
            },
        ),
        action@ == match *outcome {
            Ok(source) => config("themeDraft"@, json_quote(source@)),
            Err(e) => log_line(
                LOG_WARN,
                "stage-theme: cannot read "@ + name@ + (": "@ + e@),
            ),
        },
{
    match outcome {
        Ok(source) => set_config("themeDraft", quoted(source.as_str()).as_str()),
        Err(e) => {
            let why = joined2(": ", e.as_str());
            log_warn(joined3("stage-theme: cannot read ", name, why.as_str()))
        },
    }
}

/// What to log when the host refuses a configuration write.
pub fn config_failed(key: &str) -> (action: Action)
    ensures
        action@ == refused_act(key@),
        action@ == log_line(LOG_WARN, "set_config("@ + key@ + ") failed"@),
{
    log_warn(joined3("set_config(", key, ") failed"))
}

} // verus!
