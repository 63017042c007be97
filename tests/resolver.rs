use edit_mouse::action::Action;
use edit_mouse::config::{default_buttons, DeviceConfig, Settings, Slot};
use edit_mouse::device::MouseDevice;
use edit_mouse::state::{resolve, AppState, DeviceRegistry};

const DEVICE: &str = "04f2:0112:ABC";

fn config_with(slot: &str, action: &str) -> DeviceConfig {
    let mut cfg = DeviceConfig::new();
    cfg.name = "Office Mouse".to_string();
    for entry in cfg.buttons.iter_mut() {
        if entry.0 == slot {
            entry.1 = action.to_string();
        }
    }
    cfg
}

fn settings_with(cfg: DeviceConfig) -> Settings {
    let mut s = Settings::new();
    s.selected_device = Some(DEVICE.to_string());
    s.devices.push((DEVICE.to_string(), cfg));
    s
}

fn attached(ids: &[&str]) -> DeviceRegistry {
    let mut r = DeviceRegistry::new();
    r.replace(ids.iter().map(|s| s.to_string()).collect());
    r
}

fn mouse(id: &str) -> MouseDevice {
    MouseDevice { id: id.to_string(), name: "Mouse".to_string() }
}

#[test]
fn no_selected_device_resolves_default() {
    let mut s = settings_with(config_with("right", "Back"));
    s.selected_device = None;
    let reg = attached(&[DEVICE]);
    for b in -1..8 {
        assert_eq!(resolve(&s, &reg, b), Action::Default);
    }
}

#[test]
fn high_buttons_resolve_default() {
    let mut cfg = DeviceConfig::new();
    cfg.buttons = vec![
        ("left".to_string(), "Back".to_string()),
        ("right".to_string(), "Back".to_string()),
        ("middle".to_string(), "Back".to_string()),
        ("button4".to_string(), "Back".to_string()),
        ("button5".to_string(), "Back".to_string()),
        ("button6".to_string(), "Back".to_string()),
    ];
    let s = settings_with(cfg);
    let reg = attached(&[DEVICE]);
    assert_eq!(resolve(&s, &reg, 4), Action::Back);
    for b in 5..20 {
        assert_eq!(resolve(&s, &reg, b), Action::Default);
    }
    assert_eq!(resolve(&s, &reg, i64::MAX), Action::Default);
    assert_eq!(resolve(&s, &reg, -1), Action::Default);
}

#[test]
fn absent_device_resolves_default() {
    let s = settings_with(config_with("right", "Back"));
    let reg = attached(&["046d:c077:XYZ"]);
    for b in 0..5 {
        assert_eq!(resolve(&s, &reg, b), Action::Default);
    }
}

#[test]
fn unconfigured_device_resolves_default() {
    let mut s = Settings::new();
    s.selected_device = Some(DEVICE.to_string());
    let reg = attached(&[DEVICE]);
    assert_eq!(resolve(&s, &reg, 1), Action::Default);
}

#[test]
fn missing_slot_resolves_default() {
    let mut cfg = DeviceConfig::new();
    cfg.buttons = vec![("left".to_string(), "Disabled".to_string())];
    let s = settings_with(cfg);
    let reg = attached(&[DEVICE]);
    assert_eq!(resolve(&s, &reg, 0), Action::Disabled);
    assert_eq!(resolve(&s, &reg, 1), Action::Default);
}

#[test]
fn unknown_action_string_resolves_default() {
    let s = settings_with(config_with("middle", "Triple Click"));
    let reg = attached(&[DEVICE]);
    assert_eq!(resolve(&s, &reg, 2), Action::Default);
}

#[test]
fn scenario_right_button_back() {
    let s = settings_with(config_with("right", "Back"));
    let reg = attached(&[DEVICE]);
    assert_eq!(resolve(&s, &reg, 1), Action::Back);
    assert_eq!(resolve(&s, &reg, 0), Action::Default);
}

#[test]
fn scenario_device_removed_mid_session() {
    let mut state = AppState::new();
    state.update_settings(settings_with(config_with("right", "Back")));
    state.update_devices(&[mouse(DEVICE), mouse("046d:c077:XYZ")]);
    assert!(state.is_selected_device_available(DEVICE));
    assert_eq!(state.resolve_action(1), Action::Back);
    state.update_devices(&[mouse("046d:c077:XYZ")]);
    assert!(!state.is_selected_device_available(DEVICE));
    for b in 0..5 {
        assert_eq!(state.resolve_action(b), Action::Default);
    }
    state.update_devices(&[mouse(DEVICE)]);
    assert_eq!(state.resolve_action(1), Action::Back);
}

#[test]
fn replacing_settings_twice_is_idempotent() {
    let mut state = AppState::new();
    state.update_devices(&[mouse(DEVICE)]);
    let s = settings_with(config_with("button4", "Forward"));
    state.update_settings(s.duplicate());
    let once: Vec<Action> = (0..6).map(|b| state.resolve_action(b)).collect();
    state.update_settings(s.duplicate());
    let twice: Vec<Action> = (0..6).map(|b| state.resolve_action(b)).collect();
    assert_eq!(once, twice);
    assert_eq!(once[3], Action::Forward);
}

#[test]
fn snapshot_is_independent_copy() {
    let mut state = AppState::new();
    state.update_settings(settings_with(config_with("left", "Double Click")));
    let mut snap = state.snapshot_settings();
    assert_eq!(snap.theme, "system");
    assert_eq!(snap.selected_device.as_deref(), Some(DEVICE));
    assert_eq!(snap.devices.len(), 1);
    assert_eq!(snap.devices[0].1.name, "Office Mouse");
    snap.selected_device = None;
    assert_eq!(state.settings.selected_device.as_deref(), Some(DEVICE));
}

#[test]
fn defaults() {
    let s = Settings::default();
    assert_eq!(s.theme, "system");
    assert!(!s.startup);
    assert!(s.selected_device.is_none());
    assert!(s.devices.is_empty());
    let cfg = DeviceConfig::default();
    assert_eq!(cfg.name, "");
    let keys: Vec<&str> = cfg.buttons.iter().map(|p| p.0.as_str()).collect();
    assert_eq!(keys, vec!["left", "right", "middle", "button4", "button5"]);
    assert!(default_buttons().iter().all(|p| p.1 == "Default"));
}

#[test]
fn slots_of_buttons() {
    assert_eq!(Slot::for_button(0), Some(Slot::Left));
    assert_eq!(Slot::for_button(2).map(|s| s.key()), Some("middle"));
    assert_eq!(Slot::for_button(4).map(|s| s.key()), Some("button5"));
    assert_eq!(Slot::for_button(5), None);
}

#[test]
fn action_strings_round_trip() {
    let all = [
        Action::Default,
        Action::Disabled,
        Action::Back,
        Action::Forward,
        Action::MiddleClick,
        Action::DoubleClick,
    ];
    for a in all {
        assert_eq!(Action::from(a.name()), a);
    }
    assert_eq!(Action::from("Middle Click"), Action::MiddleClick);
    assert_eq!(Action::from("Double Click"), Action::DoubleClick);
    for other in ["", "back", "Back ", "Middle click", "Unknown", "Default"] {
        let a = Action::from(other);
        assert_eq!(a, Action::Default);
        assert_eq!(Action::from(a.name()), a);
    }
}
