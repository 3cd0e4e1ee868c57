use waterui_cli::devices::{
    apple_platform_display_name, apple_simulator_platform_id, build_apple_platform_options, default_backend_index,
    describe_android_candidate, find_device, platform_from_device, selection_from_device_info, BackendSelection,
    DeviceInfo, DeviceKind, PlatformKind,
};

fn dev(name: &str, id: &str, platform: &str, kind: DeviceKind, state: Option<&str>) -> DeviceInfo {
    DeviceInfo { name: name.to_string(), identifier: id.to_string(), platform: platform.to_string(), kind, state: state.map(|s| s.to_string()), raw_platform: None, detail: None }
}

#[test]
fn platforms_of_devices() {
    assert_eq!(platform_from_device(&dev("a", "1", "iPadOS 17", DeviceKind::Simulator, None)), Ok(PlatformKind::Ipados));
    assert_eq!(platform_from_device(&dev("a", "1", "macOS", DeviceKind::Device, None)), Ok(PlatformKind::Macos));
    assert_eq!(platform_from_device(&dev("a", "1", "Linux", DeviceKind::Device, None)), Err("Unsupported platform: Linux".to_string()));
}

#[test]
fn finding_and_describing_devices() {
    let devices = vec![dev("Pixel", "emu-1", "Android", DeviceKind::Emulator, Some("device")), dev("Phone", "R5", "Android", DeviceKind::Device, Some(""))];
    assert_eq!(find_device(&devices, "R5"), Some(1));
    assert_eq!(find_device(&devices, "Pixel"), Some(0));
    assert_eq!(find_device(&devices, "x"), None);
    assert_eq!(describe_android_candidate(&devices[0]), "Pixel (emulator, device)");
    assert_eq!(describe_android_candidate(&devices[1]), "Phone (device)");
    let sel = selection_from_device_info(&devices[1]);
    assert_eq!(sel.identifier.as_deref(), Some("R5"));
    assert!(selection_from_device_info(&devices[0]).identifier.is_none());
}

#[test]
fn apple_platform_menu() {
    let devices = vec![dev("a", "1", "tvOS 17", DeviceKind::Simulator, None), dev("b", "2", "iOS 17", DeviceKind::Simulator, None)];
    let options = build_apple_platform_options(&devices);
    let kinds: Vec<PlatformKind> = options.iter().map(|o| o.0).collect();
    assert_eq!(kinds, vec![PlatformKind::Macos, PlatformKind::Ios, PlatformKind::Tvos]);
    assert_eq!(options[1].1, "Apple: iOS");
    assert_eq!(apple_simulator_platform_id(PlatformKind::Ipados), "com.apple.platform.iphonesimulator");
    assert_eq!(apple_simulator_platform_id(PlatformKind::Android), "");
    assert_eq!(apple_platform_display_name(PlatformKind::Visionos), "visionOS");
    assert_eq!(apple_platform_display_name(PlatformKind::Web), "Apple");
}

#[test]
fn default_backend_choice() {
    let options = vec![(BackendSelection::Platform(PlatformKind::Android), "Android".to_string()), (BackendSelection::AppleAggregate, "Apple".to_string())];
    assert_eq!(default_backend_index(&options, true), 1);
    assert_eq!(default_backend_index(&options, false), 0);
    assert_eq!(default_backend_index(&options[..1].to_vec(), true), 0);
}
