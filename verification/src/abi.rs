//! The plugin interface: result codes, the host's callbacks, and how texts come
//! out of the host through a buffer.
//!
//! The caller offers a buffer and its size. The host writes the text and a NUL
//! behind it, and sets the size to the length of the text; when the buffer is too
//! small it writes nothing and sets the size to what the text needs.

use vstd::prelude::*;
use vstd::utf8::{decode_utf8, valid_utf8};

use crate::text::{from_utf8_lossy, lossy_text};

verus! {

pub const MPL_ABI_VERSION: u32 = 1;

pub const MPL_API_VERSION: u32 = 2;

/// What an entry point of the plugin or a callback of the host returns.
#[allow(non_camel_case_types)]
#[derive(Debug, Clone, Copy, PartialEq, Eq, Structural)]
pub enum mpl_result_t {
    MPL_OK,
    MPL_ERR_NOT_IMPLEMENTED,
    MPL_ERR_INVALID_ARG,
    MPL_ERR_RUNTIME,
    MPL_ERR_BUFFER_TOO_SMALL,
    MPL_ERR_PERMISSION,
}

/// The first buffer for a text of the host, and the largest text that is read.
pub const READ_BUFFER: usize = 4096;

pub const READ_CAP: usize = 4194304;

/// The same for the configuration.
pub const CONFIG_BUFFER: usize = 16384;

pub const CONFIG_CAP: usize = 1048576;

/// What to do once the host has answered.
#[derive(Debug, Clone, Copy, PartialEq, Eq, Structural)]
pub enum ReadStep {
    /// Ask again with a buffer of this length.
    Retry { len: usize },
    /// The first `len` bytes of the buffer are the text.
    Take { len: usize },
    /// There is no text.
    Fail,
}

/// What follows from the host's last answer: a size behind the end of the buffer
/// is not believed.
pub open spec fn after_last(code: mpl_result_t, size: u32, buffer: usize) -> ReadStep {
    if code == mpl_result_t::MPL_OK {
        let room = if buffer > 0 {
            buffer - 1
        } else {
            0
        };
        ReadStep::Take {
            len: if (size as int) < room {
                size as usize
            } else {
                room as usize
            },
        }
    } else {
        ReadStep::Fail
    }
}

/// What follows from the host's first answer: a buffer that was too small grows
/// to what the text needs, but not without bounds.
pub open spec fn after_first(code: mpl_result_t, size: u32, buffer: usize, cap: usize) -> ReadStep {
    if code == mpl_result_t::MPL_ERR_BUFFER_TOO_SMALL {
        ReadStep::Retry {
            len: if (size as int) < cap {
                (size + 1) as usize
            } else {
                (cap + 1) as usize
            },
        }
    } else {
        after_last(code, size, buffer)
    }
}

/// What follows from the host's first answer.
pub fn first_answer(code: mpl_result_t, size: u32, buffer: usize, cap: usize) -> (step: ReadStep)
    requires
        cap < usize::MAX,
    ensures
        step == after_first(code, size, buffer, cap),
{
    if code == mpl_result_t::MPL_ERR_BUFFER_TOO_SMALL {
        let need: usize = size as usize;
        if need < cap {
            ReadStep::Retry { len: need + 1 }
        } else {
            ReadStep::Retry { len: cap + 1 }
        }
    } else {
        last_answer(code, size, buffer)
    }
}

/// What follows from the host's answer to the second try.
pub fn last_answer(code: mpl_result_t, size: u32, buffer: usize) -> (step: ReadStep)
    ensures
        step == after_last(code, size, buffer),
{
    if code == mpl_result_t::MPL_OK {
        let room: usize = if buffer > 0 {
            buffer - 1
        } else {
            0
        };
        let len: usize = size as usize;
        if len < room {
            ReadStep::Take { len }
        } else {
            ReadStep::Take { len: room }
        }
    } else {
        ReadStep::Fail
    }
}

/// What follows from the host's last answer about a setting: a text without a
/// character stands for a key that is not set.
pub open spec fn config_last(code: mpl_result_t, size: u32, buffer: usize) -> ReadStep {
    if code == mpl_result_t::MPL_OK && size == 0 {
        ReadStep::Fail
    } else {
        after_last(code, size, buffer)
    }
}

/// What follows from the host's first answer about a setting.
pub open spec fn config_first(
    code: mpl_result_t,
    size: u32,
    buffer: usize,
    cap: usize,
) -> ReadStep {
    if code == mpl_result_t::MPL_OK && size == 0 {
        ReadStep::Fail
    } else {
        after_first(code, size, buffer, cap)
    }
}

/// What follows from the host's first answer about a setting.
pub fn first_config_answer(code: mpl_result_t, size: u32, buffer: usize, cap: usize) -> (step:
    ReadStep)
    requires
        cap < usize::MAX,
    ensures
        step == config_first(code, size, buffer, cap),
{
    if code == mpl_result_t::MPL_OK && size == 0 {
        ReadStep::Fail
    } else {
        first_answer(code, size, buffer, cap)
    }
}

/// What follows from the host's answer about a setting to the second try.
pub fn config_answer(code: mpl_result_t, size: u32, buffer: usize) -> (step: ReadStep)
    ensures
        step == config_last(code, size, buffer),
{
    if code == mpl_result_t::MPL_OK && size == 0 {
        ReadStep::Fail
    } else {
        last_answer(code, size, buffer)
    }
}

/// The text in the first `len` bytes of a buffer.
pub fn taken_text(buffer: &Vec<u8>, len: usize) -> (text: String)
    requires
        len <= buffer@.len(),
    ensures
        text@ == lossy_text(buffer@.take(len as int)),
        valid_utf8(buffer@.take(len as int)) ==> text@ == decode_utf8(buffer@.take(len as int)),
{
    let mut bytes: Vec<u8> = Vec::new();
    let mut i: usize = 0;
    while i < len
        invariant
            i <= len <= buffer@.len(),
            bytes@ == buffer@.take(i as int),
        decreases len - i,
    {
        bytes.push(buffer[i]);
        i = i + 1;
        assert(bytes@ =~= buffer@.take(i as int));
    }
    from_utf8_lossy(&bytes)
}

/// What a host does with a text for a buffer.
#[derive(Debug, Clone, Copy, PartialEq, Eq, Structural)]
pub enum WriteStep {
    /// There is no buffer, or no size.
    Refuse,
    /// The buffer is too small; the text needs this size.
    TooSmall { need: u32 },
    /// Copy the text and a NUL, and report this size.
    Copy { len: u32 },
}

impl WriteStep {
    /// The result code that goes with it.
    pub open spec fn result(self) -> mpl_result_t {
        match self {
            WriteStep::Refuse => mpl_result_t::MPL_ERR_INVALID_ARG,
            WriteStep::TooSmall { need } => mpl_result_t::MPL_ERR_BUFFER_TOO_SMALL,
            WriteStep::Copy { len } => mpl_result_t::MPL_OK,
        }
    }

    /// The size that the host reports.
    pub open spec fn size(self) -> u32 {
        match self {
            WriteStep::Refuse => 0,
            WriteStep::TooSmall { need } => need,
            WriteStep::Copy { len } => len,
        }
    }

    pub fn code(self) -> (code: mpl_result_t)
        ensures
            code == self.result(),
    {
        match self {
            WriteStep::Refuse => mpl_result_t::MPL_ERR_INVALID_ARG,
            WriteStep::TooSmall { need } => mpl_result_t::MPL_ERR_BUFFER_TOO_SMALL,
            WriteStep::Copy { len } => mpl_result_t::MPL_OK,
        }
    }
}

/// What a host does with a text of `len` bytes for a buffer of the given size;
/// `None` stands for a missing buffer or size.
pub open spec fn written(size: Option<u32>, len: usize) -> WriteStep {
    match size {
        None => WriteStep::Refuse,
        Some(room) => if room < len + 1 {
            WriteStep::TooSmall { need: len as u32 }
        } else {
            WriteStep::Copy { len: len as u32 }
        },
    }
}

/// What a host does with a text of `len` bytes for a buffer.
pub fn write_out(size: Option<u32>, len: usize) -> (step: WriteStep)
    requires
        len < u32::MAX,
    ensures
        step == written(size, len),
{
    match size {
        None => WriteStep::Refuse,
        Some(room) => {
            let need: u32 = len as u32;
            if room < need + 1 {
                WriteStep::TooSmall { need }
            } else {
                WriteStep::Copy { len: need }
            }
        },
    }
}

/// Reading gives back what the host writes: a text within the bound is taken at
/// its full length, from the first buffer or from one that was grown to fit, and a
/// longer one is not taken at all.
pub proof fn law_host_texts_are_read_whole(len: usize, first: usize, cap: usize)
    requires
        1 <= first <= cap < u32::MAX,
        len < u32::MAX,
    ensures
        ({
            let one = written(Some(first as u32), len);
            let step = after_first(one.result(), one.size(), first, cap);
            if len < first {
                step == (ReadStep::Take { len })
            } else {
                &&& step is Retry
                &&& ({
                    let grown = step->Retry_len;
                    let two = written(Some(grown as u32), len);
                    after_last(two.result(), two.size(), grown) == if len <= cap {
                        ReadStep::Take { len }
                    } else {
                        ReadStep::Fail
                    }
                })
            }
        }),
{
}

/// A setting is read as the host has it: a text with characters in it as any other
/// text, and one without any, which stands for an unset key, not at all.
pub proof fn law_unset_keys_have_no_text(
    code: mpl_result_t,
    size: u32,
    buffer: usize,
    cap: usize,
)
    ensures
        code == mpl_result_t::MPL_OK && size == 0 ==> config_first(code, size, buffer, cap)
            == ReadStep::Fail && config_last(code, size, buffer) == ReadStep::Fail,
        size > 0 ==> config_first(code, size, buffer, cap) == after_first(code, size, buffer, cap)
            && config_last(code, size, buffer) == after_last(code, size, buffer),
{
}

/// The callbacks that a host may leave out; `true` where it has them.
#[derive(Debug, Clone, Copy, PartialEq, Eq, Structural)]
pub struct HostSlots {
    pub plugin_dir: bool,
    pub host_info: bool,
    pub set_interval: bool,
    pub clear_interval: bool,
    pub notify: bool,
    pub set_panel_icon: bool,
    pub set_muted: bool,
    pub get_muted: bool,
    pub set_monitoring: bool,
    pub get_monitoring: bool,
}

/// The callbacks that the plugin uses.
#[derive(Debug, Clone, Copy, PartialEq, Eq, Structural)]
pub enum HostCall {
    Log,
    GetConfig,
    SetConfig,
    AudioState,
    PluginDir,
    HostInfo,
    SetInterval,
    ClearInterval,
    Notify,
    SetPanelIcon,
    SetMuted,
    GetMuted,
    SetMonitoring,
    GetMonitoring,
}

/// The host's callbacks, from the start of the plugin to its end.
#[derive(Debug, Clone, Copy, PartialEq, Eq, Structural)]
pub struct Host {
    pub slots: Option<HostSlots>,
}

impl HostSlots {
    /// Whether the host has a callback. The first ones are always there.
    pub open spec fn has(self, call: HostCall) -> bool {
        match call {
            HostCall::Log => true,
            HostCall::GetConfig => true,
            HostCall::SetConfig => true,
            HostCall::AudioState => true,
            HostCall::PluginDir => self.plugin_dir,
            HostCall::HostInfo => self.host_info,
            HostCall::SetInterval => self.set_interval,
            HostCall::ClearInterval => self.clear_interval,
            HostCall::Notify => self.notify,
            HostCall::SetPanelIcon => self.set_panel_icon,
            HostCall::SetMuted => self.set_muted,
            HostCall::GetMuted => self.get_muted,
            HostCall::SetMonitoring => self.set_monitoring,
            HostCall::GetMonitoring => self.get_monitoring,
        }
    }
}

impl Host {
    /// Whether a callback can be made now.
    pub open spec fn answers(self, call: HostCall) -> bool {
        self.slots matches Some(slots) && slots.has(call)
    }

    /// No host yet.
    pub fn new() -> (host: Host)
        ensures
            host.slots is None,
    {
        Host { slots: None }
    }

    /// Keeps the host's callbacks.
    pub fn store_host(&mut self, slots: HostSlots)
        ensures
            final(self).slots == Some(slots),
    {
        self.slots = Some(slots);
    }

    /// Forgets the host; nothing can be called any more.
    pub fn clear_host(&mut self)
        ensures
            final(self).slots is None,
            forall|call: HostCall| !#[trigger] final(self).answers(call),
    {
        self.slots = None;
    }

    /// Whether a callback can be made now.
    pub fn with_host(&self, call: HostCall) -> (yes: bool)
        ensures
            yes == self.answers(call),
    {
        match self.slots {
            None => false,
            Some(slots) => match call {
                HostCall::Log => true,
                HostCall::GetConfig => true,
                HostCall::SetConfig => true,
                HostCall::AudioState => true,
                HostCall::PluginDir => slots.plugin_dir,
                HostCall::HostInfo => slots.host_info,
                HostCall::SetInterval => slots.set_interval,
                HostCall::ClearInterval => slots.clear_interval,
                HostCall::Notify => slots.notify,
                HostCall::SetPanelIcon => slots.set_panel_icon,
                HostCall::SetMuted => slots.set_muted,
                HostCall::GetMuted => slots.get_muted,
                HostCall::SetMonitoring => slots.set_monitoring,
                HostCall::GetMonitoring => slots.get_monitoring,
            },
        }
    }

    /// Whether the host can be asked for the plugin's directory.
    pub fn plugin_dir(&self) -> (yes: bool)
        ensures
            yes == self.answers(HostCall::PluginDir),
    {
        self.with_host(HostCall::PluginDir)
    }

    /// Whether the host can be asked what it is.
    pub fn host_info(&self) -> (yes: bool)
        ensures
            yes == self.answers(HostCall::HostInfo),
    {
        self.with_host(HostCall::HostInfo)
    }
}

/// The id of a timer, from the host's answer.
pub open spec fn timer_of(code: mpl_result_t, id: u64) -> u64 {
    if code == mpl_result_t::MPL_OK {
        id
    } else {
        0
    }
}

/// The position of a switch, from the host's answer.
pub open spec fn switch_of(code: mpl_result_t, out: u32) -> Option<bool> {
    if code == mpl_result_t::MPL_OK {
        Some(out != 0)
    } else {
        None
    }
}

/// The id of a timer, from the host's answer; 0 stands for none.
pub fn set_interval(code: mpl_result_t, id: u64) -> (timer: u64)
    ensures
        timer == timer_of(code, id),
        timer == if code == mpl_result_t::MPL_OK { id } else { 0 },
{
    if code == mpl_result_t::MPL_OK {
        id
    } else {
        0
    }
}

/// The position of a switch, from the host's answer.
pub fn switch_state(code: mpl_result_t, out: u32) -> (on: Option<bool>)
    ensures
        on == switch_of(code, out),
        on == if code == mpl_result_t::MPL_OK { Some(out != 0) } else { None },
{
    if code == mpl_result_t::MPL_OK {
        Some(out != 0)
    } else {
        None
    }
}

} // verus!
