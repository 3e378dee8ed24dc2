//! How the window is kept out of the taskbar, and what positions are worth, on
//! each platform.

use vstd::prelude::*;

use crate::helper::Os;
use crate::text::{opt_text, same_text};

verus! {

/// A point on the screen, in physical pixels.
#[derive(Debug, Clone, Copy, PartialEq, Eq, Structural)]
pub struct Point {
    pub x: i32,
    pub y: i32,
}

/// An identifier of the component object model.
#[derive(Debug, Clone, Copy, PartialEq, Eq)]
pub struct Guid {
    pub d1: u32,
    pub d2: u16,
    pub d3: u16,
    pub d4: [u8; 8],
}

/// The class of the taskbar list.
pub fn clsid_taskbar_list() -> (id: Guid)
    ensures
        id.d1 == 0x56FDF344,
        id.d2 == 0xFD6D,
        id.d3 == 0x11D0,
        id.d4@ == seq![0x95u8, 0x8Au8, 0x00u8, 0x60u8, 0x97u8, 0xC9u8, 0xA0u8, 0x90u8],
{
    let id = Guid {
        d1: 0x56FDF344,
        d2: 0xFD6D,
        d3: 0x11D0,
        d4: [0x95u8, 0x8A, 0x00, 0x60, 0x97, 0xC9, 0xA0, 0x90],
    };
    assert(id.d4@ =~= seq![0x95u8, 0x8Au8, 0x00u8, 0x60u8, 0x97u8, 0xC9u8, 0xA0u8, 0x90u8]);
    id
}

/// The interface of the taskbar list.
pub fn iid_taskbar_list() -> (id: Guid)
    ensures
        id.d1 == 0x56FDF342,
        id.d2 == 0xFD6D,
        id.d3 == 0x11D0,
        id.d4@ == seq![0x95u8, 0x8Au8, 0x00u8, 0x60u8, 0x97u8, 0xC9u8, 0xA0u8, 0x90u8],
{
    let mut id = clsid_taskbar_list();
    id.d1 = 0x56FDF342;
    id
}

pub open spec fn wayland_session(
    wayland_display: bool,
    x11_display: bool,
    session_type: Option<Seq<char>>,
) -> bool {
    wayland_display && !x11_display || session_type == Some("wayland"@)
}

/// Whether windows can be placed on a platform.
pub open spec fn can_place(os: Os, wayland: bool) -> bool {
    match os {
        Os::Linux => !wayland,
        _ => true,
    }
}

pub open spec fn size_of_screen(width: i32, height: i32) -> Option<(i32, i32)> {
    if width > 0 && height > 0 {
        Some((width, height))
    } else {
        None
    }
}

/// Whether the session is a Wayland one: there is a Wayland display and no X11
/// one, or the session says so.
pub fn is_wayland(wayland_display: bool, x11_display: bool, session_type: &Option<String>) -> (yes:
    bool)
    ensures
        yes == wayland_session(wayland_display, x11_display, opt_text(*session_type)),
        yes == (wayland_display && !x11_display || (session_type matches Some(s) && s@
            == "wayland"@)),
{
    let named = match session_type {
        Some(s) => same_text(s.as_str(), "wayland"),
        None => false,
    };
    (wayland_display && !x11_display) || named
}

/// Whether windows can be placed, and the cursor found, anywhere on the screen.
pub fn position_api_usable(os: Os, wayland: bool) -> (usable: bool)
    ensures
        usable == can_place(os, wayland),
        usable == !(os == Os::Linux && wayland),
{
    match os {
        Os::Linux => !wayland,
        Os::Windows => true,
        Os::Macos => true,
    }
}

/// The size of the screen, where the system reports one.
pub fn screen_size(width: i32, height: i32) -> (size: Option<(i32, i32)>)
    ensures
        size == size_of_screen(width, height),
        size == if width > 0 && height > 0 {
            Some((width, height))
        } else {
            None
        },
{
    if width > 0 && height > 0 {
        Some((width, height))
    } else {
        None
    }
}

pub const WS_CAPTION: u64 = 0x00C0_0000;

pub const WS_SYSMENU: u64 = 0x0008_0000;

pub const WS_THICKFRAME: u64 = 0x0004_0000;

pub const WS_MINIMIZEBOX: u64 = 0x0002_0000;

pub const WS_MAXIMIZEBOX: u64 = 0x0001_0000;

pub const WS_EX_TOOLWINDOW: u64 = 0x0000_0080;

pub const WS_EX_APPWINDOW: u64 = 0x0004_0000;

pub const WS_EX_TOPMOST: u64 = 0x0000_0008;

/// The style bits without caption, frame, menu and boxes.
pub open spec fn bare_style(style: u64) -> u64 {
    style & !WS_CAPTION & !WS_SYSMENU & !WS_MINIMIZEBOX & !WS_MAXIMIZEBOX & !WS_THICKFRAME
}

/// The extended style bits of a window that stays on top and out of the taskbar.
pub open spec fn overlay_style(style: u64) -> u64 {
    (style | WS_EX_TOOLWINDOW | WS_EX_TOPMOST) & !WS_EX_APPWINDOW
}

/// The extended style bits of a window that stays out of the taskbar.
pub open spec fn tool_style(style: u64) -> u64 {
    (style | WS_EX_TOOLWINDOW) & !WS_EX_APPWINDOW
}

/// Strips caption, frame, menu and boxes from a window style.
pub fn strip_style(style: u64) -> (out: u64)
    ensures
        out == bare_style(style),
{
    style & !WS_CAPTION & !WS_SYSMENU & !WS_MINIMIZEBOX & !WS_MAXIMIZEBOX & !WS_THICKFRAME
}

/// Puts a window on top and out of the taskbar.
pub fn overlay(style: u64) -> (out: u64)
    ensures
        out == overlay_style(style),
{
    (style | WS_EX_TOOLWINDOW | WS_EX_TOPMOST) & !WS_EX_APPWINDOW
}

/// Puts a window out of the taskbar.
pub fn tool_window(style: u64) -> (out: u64)
    ensures
        out == tool_style(style),
{
    (style | WS_EX_TOOLWINDOW) & !WS_EX_APPWINDOW
}

/// The style recipe can be applied any number of times: it sets and clears the
/// bits it is about, touches no other, and changes nothing the second time.
pub proof fn law_style_recipe_is_idempotent(style: u64)
    ensures
        bare_style(style) & (WS_CAPTION | WS_SYSMENU | WS_MINIMIZEBOX | WS_MAXIMIZEBOX
            | WS_THICKFRAME) == 0,
        bare_style(style) | (style & (WS_CAPTION | WS_SYSMENU | WS_MINIMIZEBOX | WS_MAXIMIZEBOX
            | WS_THICKFRAME)) == style,
        bare_style(bare_style(style)) == bare_style(style),
        overlay_style(style) & WS_EX_TOOLWINDOW == WS_EX_TOOLWINDOW,
        overlay_style(style) & WS_EX_TOPMOST == WS_EX_TOPMOST,
        overlay_style(style) & WS_EX_APPWINDOW == 0,
        overlay_style(style) & !(WS_EX_TOOLWINDOW | WS_EX_TOPMOST | WS_EX_APPWINDOW) == style & !(
        WS_EX_TOOLWINDOW | WS_EX_TOPMOST | WS_EX_APPWINDOW),
        overlay_style(overlay_style(style)) == overlay_style(style),
        tool_style(style) & WS_EX_TOOLWINDOW == WS_EX_TOOLWINDOW,
        tool_style(style) & WS_EX_APPWINDOW == 0,
        tool_style(style) & !(WS_EX_TOOLWINDOW | WS_EX_APPWINDOW) == style & !(WS_EX_TOOLWINDOW
            | WS_EX_APPWINDOW),
        tool_style(tool_style(style)) == tool_style(style),
{
    assert(bare_style(style) & (WS_CAPTION | WS_SYSMENU | WS_MINIMIZEBOX | WS_MAXIMIZEBOX
        | WS_THICKFRAME) == 0) by (bit_vector);
    assert(bare_style(style) | (style & (WS_CAPTION | WS_SYSMENU | WS_MINIMIZEBOX | WS_MAXIMIZEBOX
        | WS_THICKFRAME)) == style) by (bit_vector);
    assert(bare_style(bare_style(style)) == bare_style(style)) by (bit_vector);
    assert(overlay_style(style) & WS_EX_TOOLWINDOW == WS_EX_TOOLWINDOW) by (bit_vector);
    assert(overlay_style(style) & WS_EX_TOPMOST == WS_EX_TOPMOST) by (bit_vector);
    assert(overlay_style(style) & WS_EX_APPWINDOW == 0) by (bit_vector);
    assert(overlay_style(style) & !(WS_EX_TOOLWINDOW | WS_EX_TOPMOST | WS_EX_APPWINDOW) == style & !(
    WS_EX_TOOLWINDOW | WS_EX_TOPMOST | WS_EX_APPWINDOW)) by (bit_vector);
    assert(overlay_style(overlay_style(style)) == overlay_style(style)) by (bit_vector);
    assert(tool_style(style) & WS_EX_TOOLWINDOW == WS_EX_TOOLWINDOW) by (bit_vector);
    assert(tool_style(style) & WS_EX_APPWINDOW == 0) by (bit_vector);
    assert(tool_style(style) & !(WS_EX_TOOLWINDOW | WS_EX_APPWINDOW) == style & !(WS_EX_TOOLWINDOW
        | WS_EX_APPWINDOW)) by (bit_vector);
    assert(tool_style(tool_style(style)) == tool_style(style)) by (bit_vector);
}

/// What is known of the window on Windows.
#[derive(Debug, Clone, Copy, PartialEq, Eq, Structural)]
pub struct WinHardening {
    pub hwnd: Option<usize>,
    pub applied: bool,
}

/// What to do to the window on Windows.
#[derive(Debug, Clone, Copy, PartialEq, Eq, Structural)]
pub enum HardenStep {
    Nothing,
    /// Set both styles and the frame, and put the window on top.
    Apply { hwnd: usize },
    /// Put the window on top again.
    Refresh { hwnd: usize },
}

/// Ticks between two times that the window is put on top.
pub const TOPMOST_TICKS: u32 = 30;

impl WinHardening {
    pub fn new() -> (st: WinHardening)
        ensures
            st == (WinHardening { hwnd: None, applied: false }),
    {
        WinHardening { hwnd: None, applied: false }
    }

    /// What to do on the tick of that number.
    pub open spec fn step_at(self, found: Option<usize>, tick: u32) -> HardenStep {
        match self.known(found) {
            None => HardenStep::Nothing,
            Some(hwnd) => if !self.applied {
                HardenStep::Apply { hwnd }
            } else if tick % TOPMOST_TICKS == 0 {
                HardenStep::Refresh { hwnd }
            } else {
                HardenStep::Nothing
            },
        }
    }

    /// What is known afterwards.
    pub open spec fn after(self, found: Option<usize>) -> WinHardening {
        WinHardening {
            hwnd: self.known(found),
            applied: self.applied || self.known(found) is Some,
        }
    }

    /// The window's handle: the one known already, or the one found now.
    pub open spec fn known(self, found: Option<usize>) -> Option<usize> {
        match self.hwnd {
            Some(h) => Some(h),
            None => found,
        }
    }
}

/// What to do to the window on this tick: the whole recipe once, as soon as there
/// is a handle, and later only the place on top from time to time.
pub fn windows_harden(st: &mut WinHardening, found: Option<usize>, tick: u32) -> (step: HardenStep)
    ensures
        step == old(st).step_at(found, tick),
        *final(st) == old(st).after(found),
        step == match old(st).known(found) {
            None => HardenStep::Nothing,
            Some(hwnd) => if !old(st).applied {
                HardenStep::Apply { hwnd }
            } else if tick % TOPMOST_TICKS == 0 {
                HardenStep::Refresh { hwnd }
            } else {
                HardenStep::Nothing
            },
        },
        *final(st) == (WinHardening {
            hwnd: old(st).known(found),
            applied: old(st).applied || old(st).known(found) is Some,
        }),
{
    if st.hwnd.is_none() {
        st.hwnd = found;
    }
    match st.hwnd {
        None => HardenStep::Nothing,
        Some(hwnd) => {
            if !st.applied {
                st.applied = true;
                HardenStep::Apply { hwnd }
            } else if tick % TOPMOST_TICKS == 0 {
                HardenStep::Refresh { hwnd }
            } else {
                HardenStep::Nothing
            }
        },
    }
}

/// How the removal from the Windows taskbar went.
pub open spec fn taskbar_report(handle: bool, deleted: bool) -> Seq<char> {
    if !handle {
        "no-handle"@
    } else if deleted {
        "taskbar: ITaskbarList::DeleteTab + WS_EX_TOOLWINDOW"@
    } else {
        "taskbar: DeleteTab unavailable (CoCreateInstance failed); exstyle only"@
    }
}

/// How the removal from the Windows taskbar went.
pub fn windows_skip_taskbar(handle: bool, deleted: bool) -> (text: &'static str)
    ensures
        text@ == taskbar_report(handle, deleted),
        text@ == if !handle {
            "no-handle"@
        } else if deleted {
            "taskbar: ITaskbarList::DeleteTab + WS_EX_TOOLWINDOW"@
        } else {
            "taskbar: DeleteTab unavailable (CoCreateInstance failed); exstyle only"@
        },
{
    if !handle {
        "no-handle"
    } else if deleted {
        "taskbar: ITaskbarList::DeleteTab + WS_EX_TOOLWINDOW"
    } else {
        "taskbar: DeleteTab unavailable (CoCreateInstance failed); exstyle only"
    }
}

/// The kind of handle that the window has on Linux.
#[derive(Debug, Clone, Copy, PartialEq, Eq, Structural)]
pub enum HandleKind {
    Missing,
    Foreign,
    Xlib,
}

/// What was found on the way to the X11 window; what comes after a failure does
/// not matter.
#[derive(Debug, Clone, Copy, PartialEq, Eq, Structural)]
pub struct X11Probe {
    pub wayland: bool,
    pub handle: HandleKind,
    pub xlib: bool,
    pub display: bool,
    /// The atoms of the window state and of its two new members; 0 is none.
    pub state: u64,
    pub skip_taskbar: u64,
    pub skip_pager: u64,
}

/// Why the X11 window cannot be changed, if it cannot.
pub open spec fn x11_obstacle(p: X11Probe) -> Option<Seq<char>> {
    if p.wayland {
        Some("wayland-noop"@)
    } else if p.handle == HandleKind::Missing {
        Some("no-handle"@)
    } else if p.handle == HandleKind::Foreign {
        Some("not-x11"@)
    } else if !p.xlib {
        Some("no-xlib"@)
    } else if !p.display {
        Some("no-display"@)
    } else if p.state == 0 || p.skip_taskbar == 0 || p.skip_pager == 0 {
        Some("atom-error"@)
    } else {
        None
    }
}

/// How far the way to the X11 window leads: the obstacle, or the report of success
/// and whether the window is to be changed.
pub fn linux_skip_taskbar(p: X11Probe) -> (outcome: (bool, &'static str))
    ensures
        outcome.0 == (x11_obstacle(p) is None),
        outcome.1@ == match x11_obstacle(p) {
            Some(why) => why,
            None => "skip-taskbar-x11"@,
        },
{
    if p.wayland {
        return (false, "wayland-noop");
    }
    match p.handle {
        HandleKind::Missing => {
            return (false, "no-handle");
        },
        HandleKind::Foreign => {
            return (false, "not-x11");
        },
        HandleKind::Xlib => {},
    }
    if !p.xlib {
        (false, "no-xlib")
    } else if !p.display {
        (false, "no-display")
    } else if p.state == 0 || p.skip_taskbar == 0 || p.skip_pager == 0 {
        (false, "atom-error")
    } else {
        (true, "skip-taskbar-x11")
    }
}

/// The type of a property that holds atoms, and the width of its items.
pub const XA_ATOM: u64 = 4;

pub const ATOM_FORMAT: i32 = 32;

/// The members of a window state, where the property holds atoms.
pub open spec fn atoms_of(kind: u64, format: i32, items: Seq<u64>) -> Seq<u64> {
    if kind == XA_ATOM && format == ATOM_FORMAT {
        items
    } else {
        seq![]
    }
}

/// The members of a window state, where the property holds atoms.
pub fn state_atoms(kind: u64, format: i32, items: Vec<u64>) -> (atoms: Vec<u64>)
    ensures
        atoms@ == atoms_of(kind, format, items@),
        atoms@ == if kind == XA_ATOM && format == ATOM_FORMAT {
            items@
        } else {
            seq![]
        },
{
    if kind == XA_ATOM && format == ATOM_FORMAT {
        items
    } else {
        Vec::new()
    }
}

/// A list with an atom at its end, unless it holds the atom already.
pub open spec fn with_atom(atoms: Seq<u64>, atom: u64) -> Seq<u64> {
    if atoms.contains(atom) {
        atoms
    } else {
        atoms.push(atom)
    }
}

fn add_atom(atoms: &mut Vec<u64>, atom: u64)
    ensures
        final(atoms)@ == with_atom(old(atoms)@, atom),
{
    let mut i: usize = 0;
    while i < atoms.len()
        invariant
            i <= atoms@.len(),
            atoms@ == old(atoms)@,
            forall|j: int| 0 <= j < i ==> atoms@[j] != atom,
        decreases atoms@.len() - i,
    {
        if atoms[i] == atom {
            return;
        }
        i = i + 1;
    }
    atoms.push(atom);
}

/// The window state with the two members that keep a window out of taskbar and
/// pager.
pub fn merge_state(atoms: Vec<u64>, skip_taskbar: u64, skip_pager: u64) -> (merged: Vec<u64>)
    ensures
        merged@ == with_atom(with_atom(atoms@, skip_taskbar), skip_pager),
{
    let mut merged = atoms;
    add_atom(&mut merged, skip_taskbar);
    add_atom(&mut merged, skip_pager);
    merged
}

/// The new window state begins with the old one, has both new members, none of
/// them twice, and stays as it is when it is made again.
pub proof fn law_window_state_is_extended(atoms: Seq<u64>, a: u64, b: u64)
    ensures
        ({
            let merged = with_atom(with_atom(atoms, a), b);
            &&& atoms.is_prefix_of(merged)
            &&& merged.contains(a) && merged.contains(b)
            &&& merged.len() <= atoms.len() + 2
            &&& with_atom(with_atom(merged, a), b) == merged
            &&& atoms.no_duplicates() ==> merged.no_duplicates()
        }),
{
    let one = with_atom(atoms, a);
    let merged = with_atom(one, b);
    if !atoms.contains(a) {
        assert(one[one.len() - 1] == a);
    }
    assert(one.contains(a));
    let i = choose|i: int| 0 <= i < one.len() && one[i] == a;
    assert(merged[i] == a);
    if !one.contains(b) {
        assert(merged[merged.len() - 1] == b);
    }
}

/// The hints that ask a window manager for no decorations: flags, functions,
/// decorations, input mode and status.
pub fn motif_hints() -> (hints: Vec<u64>)
    ensures
        hints@ == seq![2u64, 0u64, 0u64, 0u64, 0u64],
{
    let mut hints: Vec<u64> = Vec::new();
    hints.push(2);
    hints.push(0);
    hints.push(0);
    hints.push(0);
    hints.push(0);
    assert(hints@ =~= seq![2u64, 0u64, 0u64, 0u64, 0u64]);
    hints
}

} // verus!
