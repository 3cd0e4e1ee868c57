use waterui_cli::commands::{
    available_platforms, build_actions, command_failure_message, doctor_status, executed_report, find_device,
    is_apple_platform, pending_report, permission_add_outcome, permission_remove_outcome, select_package_platforms,
    short_android_permission, should_regenerate_backend, ActionKind, ActionOutcome, CapturePlatform,
    CleanActionResult, CleanStatus, DoctorStatus, PackagePlatform, PackageSelection, PermissionStatus,
};
use waterui_cli::devices::{DeviceInfo, DeviceKind};

fn device(name: &str, id: &str, platform: &str) -> DeviceInfo {
    DeviceInfo { name: name.to_string(), identifier: id.to_string(), platform: platform.to_string(), kind: DeviceKind::Simulator, state: None, raw_platform: None, detail: None }
}

#[test]
fn package_platform_selection() {
    assert_eq!(available_platforms(true, true), vec![PackagePlatform::Android, PackagePlatform::Ios]);
    assert_eq!(select_package_platforms(true, Some(PackagePlatform::Ios), true, true, false).err().unwrap(), "Cannot specify a platform when using --all");
    assert!(select_package_platforms(false, None, false, false, false).is_err());
    match select_package_platforms(true, None, false, true, false) {
        Ok(PackageSelection::Platforms(v)) => assert_eq!(v, vec![PackagePlatform::Ios]),
        _ => panic!("expected platforms"),
    }
    assert_eq!(
        select_package_platforms(false, Some(PackagePlatform::Android), false, true, false).err().unwrap(),
        "Android backend not configured for this project. Add it to Water.toml or recreate the project with this backend."
    );
    assert!(matches!(select_package_platforms(false, None, true, false, false), Ok(PackageSelection::Prompt(_))));
    assert!(select_package_platforms(false, None, true, false, true).is_err());
    assert_eq!(PackagePlatform::Ios.display_name(), "iOS");
}

#[test]
fn doctor_verdicts() {
    assert_eq!(doctor_status(true, true), DoctorStatus::Fail);
    assert_eq!(doctor_status(false, true), DoctorStatus::Warn);
    assert_eq!(doctor_status(false, false), DoctorStatus::Pass);
}

#[test]
fn clean_plans_and_reports() {
    let actions = build_actions("/ws", &Some("/home/u".to_string()), false);
    assert_eq!(actions.len(), 13);
    assert_eq!(actions[0].description, "Run `cargo clean` in /ws");
    assert!(matches!(&actions[0].kind, ActionKind::Command { program, .. } if program == "cargo"));
    assert_eq!(actions[1].description, "Remove /ws/backends/android/build");
    assert_eq!(build_actions("/ws", &Some("/h".to_string()), true).len(), 14);
    assert_eq!(build_actions("/ws", &None, true).len(), 8);
    let pending = pending_report("/ws", &actions);
    assert_eq!(pending.status, CleanStatus::PendingConfirmation);
    assert_eq!(pending.actions.len(), 13);
    assert_eq!(pending.actions[3].result, CleanActionResult::Pending);
    assert_eq!(pending_report("/ws", &Vec::new()).status, CleanStatus::Noop);
    let descriptions = vec!["a".to_string(), "b".to_string(), "c".to_string()];
    let report = executed_report("/ws", &descriptions, vec![ActionOutcome::Done, ActionOutcome::Failed("boom".to_string()), ActionOutcome::Skipped("nothing to remove".to_string())]);
    assert_eq!(report.status, CleanStatus::Error);
    assert_eq!(report.errors, vec!["boom".to_string()]);
    assert_eq!(report.actions[1].result, CleanActionResult::Error);
    assert_eq!(report.actions[2].detail.as_deref(), Some("nothing to remove"));
    let fine = executed_report("/ws", &vec!["a".to_string()], vec![ActionOutcome::Removed(None)]);
    assert_eq!(fine.status, CleanStatus::Completed);
    assert_eq!(command_failure_message("cargo", Some(101)), "`cargo` exited with status 101");
    assert_eq!(command_failure_message("cargo", None), "`cargo` exited with status signal");
}

#[test]
fn permission_changes() {
    let added = permission_add_outcome(true, true, false, "camera", Some("Photos".to_string())).ok().unwrap();
    assert_eq!(added.status, PermissionStatus::Added);
    assert_eq!(added.to_text(), "Added permission: camera");
    let again = permission_add_outcome(true, true, true, "camera", None).ok().unwrap();
    assert_eq!(again.status, PermissionStatus::AlreadyExists);
    assert_eq!(again.to_text(), "Permission camera already exists");
    assert_eq!(permission_add_outcome(true, false, false, "teleport", None).err().unwrap(), "Unknown permission 'teleport'. Run `water permission available` to see valid options.");
    assert!(permission_add_outcome(false, true, false, "camera", None).err().unwrap().starts_with("Permission management is only available for playground projects."));
    assert_eq!(permission_remove_outcome(true, false, "camera").ok().unwrap().to_text(), "Permission camera not found");
    assert_eq!(permission_remove_outcome(true, true, "camera").ok().unwrap().to_text(), "Removed permission: camera");
    assert_eq!(short_android_permission("android.permission.CAMERA"), "CAMERA");
    assert_eq!(short_android_permission("com.x.P"), "com.x.P");
}

#[test]
fn capture_device_lookup() {
    let devices = vec![device("Pixel", "emulator-5554", "Android"), device("iPhone 15", "ABC", "iOS 17.2"), device("Pixel", "XYZ", "iOS 17.0")];
    assert_eq!(find_device(&devices, "ABC", None), Ok(1));
    assert_eq!(find_device(&devices, "Pixel", Some(CapturePlatform::Android)), Ok(0));
    assert_eq!(
        find_device(&devices, "Pixel", None).err().unwrap(),
        "Device 'Pixel' exists on multiple platforms (Apple and Android). Use --platform apple or --platform android to disambiguate."
    );
    assert_eq!(find_device(&devices, "Nope", Some(CapturePlatform::Apple)).err().unwrap(), "Device 'Nope' not found for platform Apple. Run `water devices` to list available targets.");
    assert_eq!(find_device(&devices, "Nope", None).err().unwrap(), "Device 'Nope' not found. Run `water devices` to list available targets.");
    assert!(is_apple_platform("watchOS 10"));
    assert!(is_apple_platform("macOS"));
    assert!(!is_apple_platform("macOS 14"));
}

#[test]
fn playground_regeneration() {
    assert!(should_regenerate_backend(false, false, &Some("0.2".to_string()), "0.2"));
    assert!(should_regenerate_backend(true, true, &Some("0.2".to_string()), "0.2"));
    assert!(!should_regenerate_backend(true, false, &Some(" 0.2\n".to_string()), "0.2"));
    assert!(should_regenerate_backend(true, false, &Some("0.1".to_string()), "0.2"));
    assert!(should_regenerate_backend(true, false, &None, "0.2"));
}
