//! The settings that the plugin reads from the host configuration.

use vstd::prelude::*;

use crate::json::{bare, json_bool, json_i32, json_string, json_u64};
use crate::json::{lemma_json_round_trip, parse_bool, parse_i32, parse_string, parse_u64};
use crate::text::{is_digit, opt_text, signed_decimal};
use crate::themes::{valid_name, valid_theme_name};

verus! {

/// What the user has chosen.
#[derive(Debug, PartialEq, Eq)]
pub struct Cfg<Text = String> {
    /// File name of the theme.
    pub theme: Text,
    pub visible: bool,
    /// Time between two ticks, in milliseconds.
    pub update_ms: u64,
    pub wdis_enabled: bool,
    /// How long a transcript stays, in milliseconds.
    pub wdis_hold_ms: u64,
}

/// The JSON texts of the settings; `None` where the host has none.
#[derive(Debug, PartialEq, Eq)]
pub struct RawCfg<Text = String> {
    pub theme: Option<Text>,
    pub visible: Option<Text>,
    pub update_ms: Option<Text>,
    pub wdis_enabled: Option<Text>,
    pub wdis_hold_ms: Option<Text>,
    pub window_x: Option<Text>,
    pub window_y: Option<Text>,
}

/// The settings as far as they could be read.
#[derive(Debug, PartialEq, Eq)]
pub struct ParsedCfg<Text = String> {
    pub theme: Option<Text>,
    pub visible: Option<bool>,
    pub update_ms: Option<u64>,
    pub wdis_enabled: Option<bool>,
    pub wdis_hold_ms: Option<u64>,
    pub window_x: Option<i32>,
    pub window_y: Option<i32>,
}

impl View for Cfg {
    type V = Cfg<Seq<char>>;

    open spec fn view(&self) -> Cfg<Seq<char>> {
        Cfg {
            theme: self.theme@,
            visible: self.visible,
            update_ms: self.update_ms,
            wdis_enabled: self.wdis_enabled,
            wdis_hold_ms: self.wdis_hold_ms,
        }
    }
}

impl View for RawCfg {
    type V = RawCfg<Seq<char>>;

    open spec fn view(&self) -> RawCfg<Seq<char>> {
        RawCfg {
            theme: opt_text(self.theme),
            visible: opt_text(self.visible),
            update_ms: opt_text(self.update_ms),
            wdis_enabled: opt_text(self.wdis_enabled),
            wdis_hold_ms: opt_text(self.wdis_hold_ms),
            window_x: opt_text(self.window_x),
            window_y: opt_text(self.window_y),
        }
    }
}

impl View for ParsedCfg {
    type V = ParsedCfg<Seq<char>>;

    open spec fn view(&self) -> ParsedCfg<Seq<char>> {
        ParsedCfg {
            theme: opt_text(self.theme),
            visible: self.visible,
            update_ms: self.update_ms,
            wdis_enabled: self.wdis_enabled,
            wdis_hold_ms: self.wdis_hold_ms,
            window_x: self.window_x,
            window_y: self.window_y,
        }
    }
}

/// `v` brought into the range from `low` to `high`.
pub open spec fn clamped(v: u64, low: u64, high: u64) -> u64 {
    if v < low {
        low
    } else if v > high {
        high
    } else {
        v
    }
}

fn clamp(v: u64, low: u64, high: u64) -> (out: u64)
    ensures
        out == clamped(v, low, high),
{
    if v < low {
        low
    } else if v > high {
        high
    } else {
        v
    }
}

/// Bounds of the time between two ticks.
pub const UPDATE_MS_MIN: u64 = 50;

pub const UPDATE_MS_MAX: u64 = 1000;

/// Bounds of the time that a transcript stays.
pub const HOLD_MS_MIN: u64 = 1000;

pub const HOLD_MS_MAX: u64 = 30000;

impl Cfg<Seq<char>> {
    /// What every configuration in use keeps to.
    pub open spec fn valid(self) -> bool {
        &&& valid_name(self.theme)
        &&& UPDATE_MS_MIN <= self.update_ms <= UPDATE_MS_MAX
        &&& HOLD_MS_MIN <= self.wdis_hold_ms <= HOLD_MS_MAX
    }

    /// The settings before any was read.
    pub open spec fn initial() -> Cfg<Seq<char>> {
        Cfg {
            theme: "ring.slint"@,
            visible: true,
            update_ms: 100,
            wdis_enabled: true,
            wdis_hold_ms: 4000,
        }
    }

    /// The settings after `p` was read: what could not be read, and a theme name
    /// that is not valid, leave the setting as it was; numbers are brought into
    /// their range.
    pub open spec fn adopting(self, p: ParsedCfg<Seq<char>>) -> Cfg<Seq<char>> {
        Cfg {
            theme: match p.theme {
                Some(t) if valid_name(t) => t,
                _ => self.theme,
            },
            visible: match p.visible {
                Some(v) => v,
                None => self.visible,
            },
            update_ms: match p.update_ms {
                Some(v) => clamped(v, UPDATE_MS_MIN, UPDATE_MS_MAX),
                None => self.update_ms,
            },
            wdis_enabled: match p.wdis_enabled {
                Some(v) => v,
                None => self.wdis_enabled,
            },
            wdis_hold_ms: match p.wdis_hold_ms {
                Some(v) => clamped(v, HOLD_MS_MIN, HOLD_MS_MAX),
                None => self.wdis_hold_ms,
            },
        }
    }
}

impl RawCfg<Seq<char>> {
    /// What the texts say.
    pub open spec fn parsed(self) -> ParsedCfg<Seq<char>> {
        ParsedCfg {
            theme: match self.theme {
                Some(s) => json_string(s),
                None => None,
            },
            visible: match self.visible {
                Some(s) => json_bool(s),
                None => None,
            },
            update_ms: match self.update_ms {
                Some(s) => json_u64(s),
                None => None,
            },
            wdis_enabled: match self.wdis_enabled {
                Some(s) => json_bool(s),
                None => None,
            },
            wdis_hold_ms: match self.wdis_hold_ms {
                Some(s) => json_u64(s),
                None => None,
            },
            window_x: match self.window_x {
                Some(s) => json_i32(s),
                None => None,
            },
            window_y: match self.window_y {
                Some(s) => json_i32(s),
                None => None,
            },
        }
    }
}

impl ParsedCfg<Seq<char>> {
    /// The saved window position: there is one where both coordinates are.
    pub open spec fn position(self) -> Option<(i32, i32)> {
        match (self.window_x, self.window_y) {
            (Some(x), Some(y)) => Some((x, y)),
            _ => None,
        }
    }
}

impl Cfg {
    pub fn new() -> (cfg: Cfg)
        ensures
            cfg@ == Cfg::initial(),
            cfg@.valid(),
    {
        proof {
            reveal_strlit("ring.slint");
            reveal_strlit(".slint");
            assert("ring.slint"@.subrange(4, 10) =~= ".slint"@);
        }
        Cfg {
            theme: "ring.slint".to_owned(),
            visible: true,
            update_ms: 100,
            wdis_enabled: true,
            wdis_hold_ms: 4000,
        }
    }

    /// Takes over the settings that could be read.
    pub fn adopt(&mut self, p: &ParsedCfg)
        ensures
            final(self)@ == old(self)@.adopting(p@),
            old(self)@.valid() ==> final(self)@.valid(),
    {
        if let Some(t) = &p.theme {
            if valid_theme_name(t.as_str()) {
                self.theme = t.clone();
            }
        }
        if let Some(v) = p.visible {
            self.visible = v;
        }
        if let Some(v) = p.update_ms {
            self.update_ms = clamp(v, UPDATE_MS_MIN, UPDATE_MS_MAX);
        }
        if let Some(v) = p.wdis_enabled {
            self.wdis_enabled = v;
        }
        if let Some(v) = p.wdis_hold_ms {
            self.wdis_hold_ms = clamp(v, HOLD_MS_MIN, HOLD_MS_MAX);
        }
    }
}

fn read_bool(text: &Option<String>) -> (v: Option<bool>)
    ensures
        v == match opt_text(*text) {
            Some(s) => json_bool(s),
            None => None,
        },
{
    match text {
        Some(s) => parse_bool(s.as_str()),
        None => None,
    }
}

fn read_u64(text: &Option<String>) -> (v: Option<u64>)
    ensures
        v == match opt_text(*text) {
            Some(s) => json_u64(s),
            None => None,
        },
{
    match text {
        Some(s) => parse_u64(s.as_str()),
        None => None,
    }
}

fn read_i32(text: &Option<String>) -> (v: Option<i32>)
    ensures
        v == match opt_text(*text) {
            Some(s) => json_i32(s),
            None => None,
        },
{
    match text {
        Some(s) => parse_i32(s.as_str()),
        None => None,
    }
}

/// The string that the JSON text of a setting holds.
pub fn read_string(text: &Option<String>) -> (v: Option<String>)
    ensures
        opt_text(v) == match opt_text(*text) {
            Some(s) => json_string(s),
            None => None,
        },
{
    match text {
        Some(s) => parse_string(s.as_str()),
        None => None,
    }
}

impl RawCfg {
    /// Reads the texts of the settings.
    pub fn parse(&self) -> (p: ParsedCfg)
        ensures
            p@ == self@.parsed(),
    {
        ParsedCfg {
            theme: read_string(&self.theme),
            visible: read_bool(&self.visible),
            update_ms: read_u64(&self.update_ms),
            wdis_enabled: read_bool(&self.wdis_enabled),
            wdis_hold_ms: read_u64(&self.wdis_hold_ms),
            window_x: read_i32(&self.window_x),
            window_y: read_i32(&self.window_y),
        }
    }
}

impl ParsedCfg {
    /// The saved window position.
    pub fn saved_position(&self) -> (pos: Option<(i32, i32)>)
        ensures
            pos == self@.position(),
    {
        match (self.window_x, self.window_y) {
            (Some(x), Some(y)) => Some((x, y)),
            _ => None,
        }
    }
}

/// Whatever the host configuration holds, the settings in use stay within their
/// bounds and the theme keeps a valid name.
pub proof fn law_settings_stay_in_bounds(cfg: Cfg<Seq<char>>, p: ParsedCfg<Seq<char>>)
    requires
        cfg.valid(),
    ensures
        cfg.adopting(p).valid(),
{
}

/// A window position that was written as two decimal numbers is read back, and
/// a position that was cleared to `null` is no position.
pub proof fn law_position_is_read_back(raw: RawCfg<Seq<char>>, x: i32, y: i32)
    ensures
        (RawCfg {
            window_x: Some(signed_decimal(x as int)),
            window_y: Some(signed_decimal(y as int)),
            ..raw
        }).parsed().position() == Some((x, y)),
        (RawCfg { window_x: Some("null"@), ..raw }).parsed().position() is None,
        (RawCfg { window_y: Some("null"@), ..raw }).parsed().position() is None,
{
    lemma_json_round_trip(x, 0);
    lemma_json_round_trip(y, 0);
    reveal_strlit("null");
    assert(bare("null"@) =~= "null"@);
    assert(!is_digit("null"@[0]));
}

} // verus!
