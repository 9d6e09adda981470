//! Decisions around the user interface: overlay geometry, the tray menu,
//! hotkeys, the Escape key tap and the state names shown to the overlay.

use vstd::prelude::*;
use vstd::string::StringExecFns;
use crate::audio::div_trunc;
use crate::text::{str_eq, starts_with, chars_of, string_of};

verus! {

/// What the overlay shows.
#[derive(PartialEq, Eq, Structural, Clone, Copy, Debug)]
pub enum UiState {
    Recording,
    Transcribing,
    Cleaning,
    Idle,
    DownloadingModel,
    LoadingModel,
}

/// The name of a state, as the overlay receives it.
pub open spec fn ui_state_name_spec(s: UiState) -> Seq<char> {
    match s {
        UiState::Recording => "recording"@,
        UiState::Transcribing => "transcribing"@,
        UiState::Cleaning => "cleaning"@,
        UiState::Idle => "idle"@,
        UiState::DownloadingModel => "downloading-model"@,
        UiState::LoadingModel => "loading-model"@,
    }
}

/// The name of a state, as the overlay receives it.
pub fn ui_state_name(s: UiState) -> (r: &'static str)
    ensures
        r@ == ui_state_name_spec(s),
{
    match s {
        UiState::Recording => "recording",
        UiState::Transcribing => "transcribing",
        UiState::Cleaning => "cleaning",
        UiState::Idle => "idle",
        UiState::DownloadingModel => "downloading-model",
        UiState::LoadingModel => "loading-model",
    }
}

/// The overlay's logical size for the setting `size`.
pub open spec fn overlay_dimensions_spec(size: Seq<char>) -> (u32, u32) {
    if size == "small"@ {
        (250, 110)
    } else if size == "large"@ {
        (480, 200)
    } else {
        (420, 150)
    }
}

/// The overlay's logical width and height for the size setting: small,
/// large, or medium for anything else.
pub fn overlay_dimensions(size: &str) -> (r: (u32, u32))
    ensures
        r == overlay_dimensions_spec(size@),
{
    if str_eq(size, "small") {
        (250, 110)
    } else if str_eq(size, "large") {
        (480, 200)
    } else {
        (420, 150)
    }
}

/// Where the overlay's top-left corner goes on a monitor at
/// (`mon_x`, `mon_y`) of `mon_w` x `mon_h` physical pixels: centred
/// horizontally; `margin` below the top edge, or above the bottom edge when
/// the setting is `"bottom"`.
pub open spec fn overlay_origin_spec(
    mon_x: int,
    mon_y: int,
    mon_w: int,
    mon_h: int,
    w: int,
    h: int,
    margin: int,
    position: Seq<char>,
) -> (int, int) {
    let x = mon_x + div_trunc(mon_w - w, 2);
    let y = if position == "bottom"@ {
        mon_y + mon_h - h - margin
    } else {
        mon_y + margin
    };
    (x, y)
}

/// The overlay's physical position; see `overlay_origin_spec`. The sums are
/// exact (the caller narrows them to the window system's 32-bit
/// coordinates).
pub fn overlay_origin(
    mon_x: i32,
    mon_y: i32,
    mon_w: i32,
    mon_h: i32,
    w: i32,
    h: i32,
    margin: i32,
    position: &str,
) -> (r: (i64, i64))
    ensures
        r.0 == overlay_origin_spec(mon_x as int, mon_y as int, mon_w as int, mon_h as int, w as int, h as int, margin as int, position@).0,
        r.1 == overlay_origin_spec(mon_x as int, mon_y as int, mon_w as int, mon_h as int, w as int, h as int, margin as int, position@).1,
{
    let d: i64 = mon_w as i64 - w as i64;
    let half: i64 = if d >= 0 {
        d / 2
    } else {
        -((-d) / 2)
    };
    let x = mon_x as i64 + half;
    let y = if str_eq(position, "bottom") {
        mon_y as i64 + mon_h as i64 - h as i64 - margin as i64
    } else {
        mon_y as i64 + margin as i64
    };
    (x, y)
}

/// What a click on a tray menu item asks for.
#[derive(PartialEq, Eq, Clone, Debug)]
pub enum TrayAction {
    ShowSettings,
    Quit,
    /// Record from this input device from now on (empty: the system
    /// default).
    SelectDevice(String),
    Ignore,
}

/// What the menu item `id` asks for.
pub open spec fn tray_action_spec(id: Seq<char>) -> Option<Option<Seq<char>>> {
    if id == "settings"@ || id == "quit"@ {
        None
    } else if id.len() >= 4 && id.take(4) == "mic:"@ {
        Some(Some(id.skip(4)))
    } else {
        Some(None)
    }
}

/// What a click on the tray menu item `id` asks for: the settings window,
/// quitting, or (for an id `mic:<device>`) the input device.
pub fn tray_action(id: &str) -> (r: TrayAction)
    ensures
        id@ == "settings"@ ==> r == TrayAction::ShowSettings,
        id@ == "quit"@ ==> r == TrayAction::Quit,
        id@ != "settings"@ && id@ != "quit"@ ==> match tray_action_spec(id@) {
            Some(Some(d)) => r matches TrayAction::SelectDevice(dev) && dev@ == d,
            _ => r == TrayAction::Ignore,
        },
{
    proof {
        reveal_strlit("settings");
        reveal_strlit("quit");
    }
    if str_eq(id, "settings") {
        TrayAction::ShowSettings
    } else if str_eq(id, "quit") {
        TrayAction::Quit
    } else if starts_with(id, "mic:") {
        proof {
            reveal_strlit("mic:");
        }
        let c = chars_of(id);
        let mut rest: Vec<char> = Vec::new();
        let n = c.len();
        for i in 4..n
            invariant
                n == c@.len(),
                4 <= n,
                c@ == id@,
                rest@ == c@.subrange(4, i as int),
        {
            rest.push(c[i]);
            assert(c@.subrange(4, i as int).push(c@[i as int]) =~= c@.subrange(4, i + 1));
        }
        assert(c@.subrange(4, n as int) =~= id@.skip(4));
        TrayAction::SelectDevice(string_of(&rest))
    } else {
        TrayAction::Ignore
    }
}

/// One entry of the microphone submenu.
pub struct MicMenuItem {
    pub id: String,
    pub label: String,
    pub checked: bool,
}

/// The device that an input-device setting names (`""`: the default).
pub open spec fn current_device(current: Option<Seq<char>>) -> Seq<char> {
    match current {
        Some(d) => d,
        None => Seq::empty(),
    }
}

/// The device chosen by entry `k` of the submenu for `devices`: the system
/// default (`""`) first, then each device in order.
pub open spec fn menu_device(devices: Seq<Seq<char>>, k: int) -> Seq<char> {
    if k == 0 {
        Seq::empty()
    } else {
        devices[k - 1]
    }
}

/// Whether entry `k` of the submenu is checked: the default entry when no
/// device is set, a device's entry when it is the one set.
pub open spec fn menu_checked(devices: Seq<Seq<char>>, current: Option<Seq<char>>, k: int) -> bool {
    if k == 0 {
        current_device(current).len() == 0
    } else {
        devices[k - 1] == current_device(current)
    }
}

/// The microphone submenu for the input devices `devices` when the setting
/// is `current`: "System default" (id `mic:`) first, then one entry per
/// device (id `mic:<device>`), the one in use checked.
pub fn mic_menu_items(devices: &Vec<String>, current: &Option<String>) -> (r: Vec<MicMenuItem>)
    ensures
        r@.len() == devices@.len() + 1,
        r@[0].label@ == "System default"@,
        forall|k: int| 1 <= k < r@.len() ==> (#[trigger] r@[k]).label@ == devices@[k - 1]@,
        forall|k: int|
            0 <= k < r@.len() ==> (#[trigger] r@[k]).id@ == "mic:"@ + menu_device(
                devices@.map_values(|d: String| d@),
                k,
            ),
        forall|k: int|
            0 <= k < r@.len() ==> (#[trigger] r@[k]).checked == menu_checked(
                devices@.map_values(|d: String| d@),
                crate::keychain::opt_view(*current),
                k,
            ),
{
    let ghost ds = devices@.map_values(|d: String| d@);
    let ghost cur = crate::keychain::opt_view(*current);
    let cur_dev: String = match current {
        Some(d) => d.clone(),
        None => String::new(),
    };
    let cur_chars = chars_of(cur_dev.as_str());
    let mut items: Vec<MicMenuItem> = Vec::new();
    let default_id = String::from_str("mic:");
    proof {
        assert(menu_device(ds, 0) =~= Seq::<char>::empty());
        assert("mic:"@ + Seq::<char>::empty() =~= "mic:"@);
    }
    items.push(
        MicMenuItem {
            id: default_id,
            label: String::from_str("System default"),
            checked: cur_chars.len() == 0,
        },
    );
    let n = devices.len();
    for i in 0..n
        invariant
            n == devices@.len(),
            ds == devices@.map_values(|d: String| d@),
            cur == crate::keychain::opt_view(*current),
            cur_dev@ == current_device(cur),
            items@.len() == i + 1,
            items@[0].label@ == "System default"@,
            forall|k: int| 1 <= k < items@.len() ==> (#[trigger] items@[k]).label@ == devices@[k - 1]@,
            forall|k: int|
                0 <= k < items@.len() ==> (#[trigger] items@[k]).id@ == "mic:"@ + menu_device(ds, k),
            forall|k: int|
                0 <= k < items@.len() ==> (#[trigger] items@[k]).checked == menu_checked(ds, cur, k),
    {
        let d = &devices[i];
        let mut id = String::from_str("mic:");
        id.append(d.as_str());
        let checked = str_eq(d.as_str(), cur_dev.as_str());
        proof {
            assert(ds[i as int] == d@);
        }
        items.push(MicMenuItem { id, label: d.clone(), checked });
    }
    items
}

/// Clicking entry `k` of the microphone submenu selects the device of that
/// entry: the system default (`""`) for the first, each device for its own.
pub proof fn law_menu_entry_selects_its_device(devices: Seq<Seq<char>>, k: int)
    requires
        0 <= k <= devices.len(),
    ensures
        tray_action_spec("mic:"@ + menu_device(devices, k)) == Some(Some(menu_device(devices, k))),
{
    reveal_strlit("mic:");
    reveal_strlit("settings");
    reveal_strlit("quit");
    let id = "mic:"@ + menu_device(devices, k);
    assert(id.take(4) =~= "mic:"@);
    assert(id.skip(4) =~= menu_device(devices, k));
    assert(id != "settings"@) by {
        if id == "settings"@ {
            assert(id[0] == 's');
        }
    }
    assert(id != "quit"@) by {
        if id == "quit"@ {
            assert(id[0] == 'q');
        }
    }
}

/// Once the device of entry `k` is stored (an empty name stored as no
/// device), the rebuilt submenu checks entry `k`.
pub proof fn law_selected_entry_is_checked(devices: Seq<Seq<char>>, k: int)
    requires
        0 <= k <= devices.len(),
    ensures
        menu_checked(
            devices,
            if menu_device(devices, k).len() == 0 {
                None
            } else {
                Some(menu_device(devices, k))
            },
            k,
        ),
{
    if menu_device(devices, k).len() == 0 {
        assert(menu_device(devices, k) =~= Seq::<char>::empty());
    }
}

/// The app's two hotkeys.
#[derive(PartialEq, Eq, Structural, Clone, Copy, Debug)]
pub enum Hotkey {
    /// Press to start, press again to stop.
    Toggle,
    /// Hold to record, release to send.
    PushToTalk,
}

/// Whether a hotkey went down or up.
#[derive(PartialEq, Eq, Structural, Clone, Copy, Debug)]
pub enum KeyPhase {
    Pressed,
    Released,
}

/// What a hotkey event asks of the session.
#[derive(PartialEq, Eq, Structural, Clone, Copy, Debug)]
pub enum HotkeyCommand {
    /// Start when idle, finish when recording.
    Toggle,
    /// Start recording.
    Begin,
    /// Stop and send what was recorded.
    Finish,
}

/// The command of a hotkey event: the toggle key acts on press only; the
/// push-to-talk key begins on press and finishes on release.
pub fn hotkey_command(key: Hotkey, phase: KeyPhase) -> (r: Option<HotkeyCommand>)
    ensures
        r == match (key, phase) {
            (Hotkey::Toggle, KeyPhase::Pressed) => Some(HotkeyCommand::Toggle),
            (Hotkey::Toggle, KeyPhase::Released) => None,
            (Hotkey::PushToTalk, KeyPhase::Pressed) => Some(HotkeyCommand::Begin),
            (Hotkey::PushToTalk, KeyPhase::Released) => Some(HotkeyCommand::Finish),
        },
{
    match key {
        Hotkey::Toggle => match phase {
            KeyPhase::Pressed => Some(HotkeyCommand::Toggle),
            KeyPhase::Released => None,
        },
        Hotkey::PushToTalk => match phase {
            KeyPhase::Pressed => Some(HotkeyCommand::Begin),
            KeyPhase::Released => Some(HotkeyCommand::Finish),
        },
    }
}

/// The macOS key code of Escape.
pub const ESCAPE_KEY_CODE: i64 = 53;

/// What the keyboard event tap sees.
#[derive(PartialEq, Eq, Structural, Clone, Copy, Debug)]
pub enum TapEvent {
    KeyDown,
    KeyUp,
    /// The system disabled the tap (timeout or user input).
    Disabled,
}

/// What the tap does with an event.
#[derive(PartialEq, Eq, Structural, Clone, Copy, Debug)]
pub struct TapDecision {
    /// Pass the event on (else swallow it).
    pub keep: bool,
    /// Turn the tap back on.
    pub reenable: bool,
    /// Cancel whatever is under way.
    pub cancel: bool,
}

/// The tap's decision for an event with key code `key_code` while the
/// Escape interception is `escape_active`: a disabled tap is re-enabled;
/// while active, Escape is swallowed and its key-down cancels; everything
/// else passes.
pub fn escape_tap_decision(event: TapEvent, escape_active: bool, key_code: i64) -> (r: TapDecision)
    ensures
        event == TapEvent::Disabled ==> r == (TapDecision { keep: true, reenable: true, cancel: false }),
        event != TapEvent::Disabled && !escape_active ==> r == (TapDecision {
            keep: true,
            reenable: false,
            cancel: false,
        }),
        event != TapEvent::Disabled && escape_active && key_code != ESCAPE_KEY_CODE ==> r == (
        TapDecision { keep: true, reenable: false, cancel: false }),
        event != TapEvent::Disabled && escape_active && key_code == ESCAPE_KEY_CODE ==> r == (
        TapDecision { keep: false, reenable: false, cancel: event == TapEvent::KeyDown }),
{
    match event {
        TapEvent::Disabled => TapDecision { keep: true, reenable: true, cancel: false },
        _ => {
            if !escape_active || key_code != ESCAPE_KEY_CODE {
                TapDecision { keep: true, reenable: false, cancel: false }
            } else {
                let down = match event {
                    TapEvent::KeyDown => true,
                    _ => false,
                };
                TapDecision { keep: false, reenable: false, cancel: down }
            }
        },
    }
}

/// Whether a ten-second sleep that took `elapsed_ns` nanoseconds means the
/// machine slept in between (more than fifteen seconds passed).
pub fn slept_through(elapsed_ns: u128) -> (r: bool)
    ensures
        r == (elapsed_ns > 15_000_000_000),
{
    elapsed_ns > 15_000_000_000
}

/// The overlay lies on the monitor it is placed on: centred across it
/// (inside it when no wider), `margin` below its top edge in the default
/// position and `margin` above its bottom edge at `"bottom"`, so inside it
/// whenever the overlay and its margin fit; and moving the monitor moves
/// the overlay by the same amount.
pub proof fn law_overlay_stays_on_its_monitor(
    mon_x: int,
    mon_y: int,
    mon_w: int,
    mon_h: int,
    w: int,
    h: int,
    margin: int,
    position: Seq<char>,
    dx: int,
    dy: int,
)
    ensures
        ({
            let (x, y) = overlay_origin_spec(mon_x, mon_y, mon_w, mon_h, w, h, margin, position);
            &&& position != "bottom"@ ==> y == mon_y + margin
            &&& position == "bottom"@ ==> y + h + margin == mon_y + mon_h
            &&& 0 <= margin && h + margin <= mon_h ==> mon_y <= y && y + h <= mon_y + mon_h
            &&& 0 <= w <= mon_w ==> mon_x <= x && x + w <= mon_x + mon_w
            &&& 0 <= w <= mon_w ==> (x - mon_x) - (mon_x + mon_w - (x + w)) <= 1
            &&& 0 <= w <= mon_w ==> (mon_x + mon_w - (x + w)) - (x - mon_x) <= 1
        }),
        ({
            let (x, y) = overlay_origin_spec(mon_x, mon_y, mon_w, mon_h, w, h, margin, position);
            let (x2, y2) = overlay_origin_spec(
                mon_x + dx,
                mon_y + dy,
                mon_w,
                mon_h,
                w,
                h,
                margin,
                position,
            );
            x2 == x + dx && y2 == y + dy
        }),
{
}

} // verus!
