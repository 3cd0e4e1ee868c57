use waterui_cli::candidates::{android_candidate_order, auto_choice, simulator_candidate_order, text_less};
use waterui_cli::devices::{resolve_android_selection, DeviceInfo, DeviceKind, PlatformKind};
use waterui_cli::run::AutoSelectionReason;

fn listed(name: &str, id: &str, kind: DeviceKind, raw: Option<&str>) -> DeviceInfo {
    DeviceInfo {
        name: name.to_string(),
        identifier: id.to_string(),
        platform: String::new(),
        kind,
        state: None,
        raw_platform: raw.map(|r| r.to_string()),
        detail: None,
    }
}

#[test]
fn text_order_is_lexicographic() {
    assert!(text_less("Pixel", "Pixel 7"));
    assert!(!text_less("Pixel 7", "Pixel"));
    assert!(text_less("B", "a"));
    assert!(!text_less("same", "same"));
    assert!(text_less("", "x"));
    assert!(text_less("\u{e9}", "\u{1f600}"));
}

#[test]
fn android_devices_before_emulators_by_name() {
    let devs = vec![
        listed("Zeta", "emulator-5554", DeviceKind::Emulator, Some("android-emulator")),
        listed("iPhone", "X", DeviceKind::Simulator, Some("com.apple.platform.iphonesimulator")),
        listed("Pixel", "ABC", DeviceKind::Device, Some("android-device")),
        listed("Alpha", "emulator-5556", DeviceKind::Emulator, Some("android-emulator")),
        listed("Alpha", "emulator-5558", DeviceKind::Emulator, Some("android-emulator")),
        listed("Loose", "L", DeviceKind::Device, None),
    ];
    assert_eq!(android_candidate_order(&devs), Ok(vec![2, 3, 4, 0]));
    let none = vec![listed("iPhone", "X", DeviceKind::Simulator, Some("com.apple.platform.iphonesimulator"))];
    assert_eq!(
        android_candidate_order(&none),
        Err("No Android devices or emulators detected. Connect a device or create an AVD.".to_string())
    );
}

#[test]
fn simulators_of_a_platform_by_name() {
    let devs = vec![
        listed("iPhone 15", "1", DeviceKind::Simulator, Some("com.apple.platform.iphonesimulator")),
        listed("Apple TV", "2", DeviceKind::Simulator, Some("com.apple.platform.appletvsimulator")),
        listed("iPad Air", "3", DeviceKind::Simulator, Some("com.apple.platform.iphonesimulator")),
        listed("iPhone 13", "4", DeviceKind::Device, Some("com.apple.platform.iphonesimulator")),
    ];
    assert_eq!(simulator_candidate_order(&devs, PlatformKind::Ios), Ok(vec![2, 0]));
    assert_eq!(simulator_candidate_order(&devs, PlatformKind::Tvos), Ok(vec![1]));
    assert_eq!(simulator_candidate_order(&devs, PlatformKind::Macos), Ok(vec![]));
    assert_eq!(
        simulator_candidate_order(&devs, PlatformKind::Visionos),
        Err("No simulators found for visionOS. Install one using Xcode's Devices window.".to_string())
    );
}

#[test]
fn automatic_choice_rules() {
    assert_eq!(auto_choice(1, true), Some(AutoSelectionReason::SingleCandidate));
    assert_eq!(auto_choice(3, false), Some(AutoSelectionReason::NonInteractive));
    assert_eq!(auto_choice(3, true), None);
}

#[test]
fn android_device_by_name_or_serial() {
    let devs = vec![
        listed("Pixel_7", "emulator-5554", DeviceKind::Emulator, Some("android-emulator")),
        listed("Pixel", "ABC", DeviceKind::Device, Some("android-device")),
    ];
    let sel = resolve_android_selection(&devs, "ABC").unwrap();
    assert_eq!(sel.name, "Pixel");
    assert_eq!(sel.identifier.as_deref(), Some("ABC"));
    let emu = resolve_android_selection(&devs, "Pixel_7").unwrap();
    assert_eq!(emu.identifier, None);
    assert_eq!(emu.kind, DeviceKind::Emulator);
    assert_eq!(
        resolve_android_selection(&devs, "Nope").err(),
        Some("Android device or emulator 'Nope' not found. Run `water devices` to list available targets.".to_string())
    );
}
