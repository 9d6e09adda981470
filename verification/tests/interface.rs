use hearye::media::{pause, play};
use hearye::ui::{
    escape_tap_decision, hotkey_command, mic_menu_items, overlay_dimensions, overlay_origin, slept_through,
    tray_action, ui_state_name, Hotkey, HotkeyCommand, KeyPhase, TapDecision, TapEvent, TrayAction, UiState,
    ESCAPE_KEY_CODE,
};

#[test]
fn overlay_sizes() {
    assert_eq!(overlay_dimensions("small"), (250, 110));
    assert_eq!(overlay_dimensions("large"), (480, 200));
    assert_eq!(overlay_dimensions("medium"), (420, 150));
    assert_eq!(overlay_dimensions("huge"), (420, 150));
}

#[test]
fn overlay_position_top_and_bottom() {
    assert_eq!(overlay_origin(0, 0, 2880, 1800, 840, 300, 64, "top"), (1020, 64));
    assert_eq!(overlay_origin(100, 50, 1000, 800, 400, 100, 32, "bottom"), (400, 718));
    // wider than the monitor: the offset rounds toward zero
    assert_eq!(overlay_origin(0, 0, 100, 100, 103, 10, 0, "top"), (-1, 0));
}

#[test]
fn tray_items() {
    assert_eq!(tray_action("settings"), TrayAction::ShowSettings);
    assert_eq!(tray_action("quit"), TrayAction::Quit);
    assert_eq!(tray_action("mic:"), TrayAction::SelectDevice(String::new()));
    assert_eq!(tray_action("mic:USB Mic"), TrayAction::SelectDevice("USB Mic".into()));
    assert_eq!(tray_action("mic-submenu"), TrayAction::Ignore);
}

#[test]
fn mic_menu_marks_the_device_in_use() {
    let devices = vec!["Built-in".to_string(), "USB Mic".to_string()];
    let items = mic_menu_items(&devices, &Some("USB Mic".to_string()));
    assert_eq!(items.len(), 3);
    assert_eq!(items[0].label, "System default");
    assert_eq!(items[0].id, "mic:");
    assert_eq!(items[2].id, "mic:USB Mic");
    assert_eq!(items.iter().map(|i| i.checked).collect::<Vec<_>>(), vec![false, false, true]);
    let items = mic_menu_items(&devices, &None);
    assert_eq!(items.iter().map(|i| i.checked).collect::<Vec<_>>(), vec![true, false, false]);
}

#[test]
fn choosing_a_menu_entry_selects_its_device() {
    let devices = vec!["A".to_string(), "B b".to_string()];
    let items = mic_menu_items(&devices, &None);
    let expect = ["", "A", "B b"];
    for (item, dev) in items.iter().zip(expect) {
        assert_eq!(tray_action(&item.id), TrayAction::SelectDevice(dev.to_string()));
    }
}

#[test]
fn hotkeys() {
    assert_eq!(hotkey_command(Hotkey::Toggle, KeyPhase::Pressed), Some(HotkeyCommand::Toggle));
    assert_eq!(hotkey_command(Hotkey::Toggle, KeyPhase::Released), None);
    assert_eq!(hotkey_command(Hotkey::PushToTalk, KeyPhase::Pressed), Some(HotkeyCommand::Begin));
    assert_eq!(hotkey_command(Hotkey::PushToTalk, KeyPhase::Released), Some(HotkeyCommand::Finish));
}

#[test]
fn escape_tap() {
    let pass = TapDecision { keep: true, reenable: false, cancel: false };
    assert_eq!(escape_tap_decision(TapEvent::Disabled, true, 0), TapDecision { keep: true, reenable: true, cancel: false });
    assert_eq!(escape_tap_decision(TapEvent::KeyDown, false, ESCAPE_KEY_CODE), pass);
    assert_eq!(escape_tap_decision(TapEvent::KeyDown, true, 12), pass);
    assert_eq!(escape_tap_decision(TapEvent::KeyDown, true, 53), TapDecision { keep: false, reenable: false, cancel: true });
    assert_eq!(escape_tap_decision(TapEvent::KeyUp, true, 53), TapDecision { keep: false, reenable: false, cancel: false });
}

#[test]
fn state_names_and_wake() {
    assert_eq!(ui_state_name(UiState::Recording), "recording");
    assert_eq!(ui_state_name(UiState::Transcribing), "transcribing");
    assert_eq!(ui_state_name(UiState::Cleaning), "cleaning");
    assert_eq!(ui_state_name(UiState::Idle), "idle");
    assert_eq!(ui_state_name(UiState::DownloadingModel), "downloading-model");
    assert_eq!(ui_state_name(UiState::LoadingModel), "loading-model");
    assert!(!slept_through(10_000_000_000));
    assert!(!slept_through(15_000_000_000));
    assert!(slept_through(15_000_000_001));
}

#[test]
fn media_commands() {
    assert_eq!(pause(), 1);
    assert_eq!(play(), 0);
}
