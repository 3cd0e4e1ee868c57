use waterui_cli::android::{
    android_sdk_root_candidates, android_sdk_roots, android_tool_candidates, api_level_candidates,
    device_preferred_targets, ensure_jvm_flag, find_android_tool, find_tool_candidates,
    java_major_from_output, parse_abi_list, resolve_android_sdk_path, sanitize_package_name,
    target_by_triple, target_for_abi, PreferredTargetsError,
};

fn s(v: &str) -> String {
    v.to_string()
}

#[test]
fn targets_are_found_by_triple_and_abi() {
    let t = target_by_triple("armv7-linux-androideabi").unwrap();
    assert_eq!(t.bin_prefix, "armv7a-linux-androideabi");
    assert_eq!(t.min_api, 19);
    assert!(target_by_triple("riscv64-linux-android").is_none());
    assert_eq!(target_for_abi("arm64-v8a").unwrap().triple, "aarch64-linux-android");
    assert_eq!(target_for_abi("arm64").unwrap().triple, "aarch64-linux-android");
    assert_eq!(target_for_abi("x86").unwrap().triple, "i686-linux-android");
    assert!(target_for_abi("mips").is_none());
}

#[test]
fn preferred_targets_keep_first_occurrence_once() {
    let abis = vec![s("arm64-v8a"), s("armeabi-v7a"), s("armeabi"), s("arm64"), s("mips")];
    let targets = device_preferred_targets(&abis).ok().unwrap();
    assert_eq!(targets, vec![s("aarch64-linux-android"), s("armv7-linux-androideabi")]);
}

#[test]
fn preferred_targets_errors() {
    assert!(matches!(device_preferred_targets(&Vec::new()), Err(PreferredTargetsError::NoAbi)));
    match device_preferred_targets(&vec![s("mips"), s("sparc")]) {
        Err(PreferredTargetsError::Unsupported(m)) => assert_eq!(m, "mips, sparc"),
        _ => panic!("expected unsupported"),
    }
}

#[test]
fn abi_list_is_split_and_trimmed() {
    assert_eq!(parse_abi_list("  arm64-v8a, armeabi-v7a,,armeabi \n"), vec![s("arm64-v8a"), s("armeabi-v7a"), s("armeabi")]);
    assert!(parse_abi_list("   \n").is_empty());
}

#[test]
fn package_names_are_sanitized() {
    assert_eq!(sanitize_package_name("com.Example.my-app"), "com.example.my_app");
    assert_eq!(sanitize_package_name("com.1app.x y"), "com.a1app.x_y");
    assert_eq!(sanitize_package_name("..a..b.."), "a.b");
    assert_eq!(sanitize_package_name(""), "com.waterui.app");
    assert_eq!(sanitize_package_name("..."), "com.waterui.app");
    assert_eq!(sanitize_package_name("com._x"), "com._x");
    assert_eq!(sanitize_package_name("com.\u{e9}t\u{e9}"), "com.a\u{e9}t\u{e9}");
}

#[test]
fn sanitizing_twice_changes_nothing() {
    for input in ["com.Example.my-app", "1.2.3", "org.caf\u{e9}.App!", ""] {
        let once = sanitize_package_name(input);
        assert_eq!(sanitize_package_name(&once), once);
    }
}

#[test]
fn api_levels_count_down_to_the_minimum() {
    assert_eq!(api_level_candidates(33), vec![35, 34, 33]);
    assert_eq!(api_level_candidates(35), vec![35]);
    assert!(api_level_candidates(36).is_empty());
    assert_eq!(api_level_candidates(21).len(), 15);
}

#[test]
fn tool_candidates_list_levels_then_plain_name() {
    let t = target_by_triple("aarch64-linux-android").unwrap();
    let c = find_tool_candidates("/ndk/bin", &t, &vec![35, 21], "clang");
    assert_eq!(c, vec![s("/ndk/bin/aarch64-linux-android35-clang"), s("/ndk/bin/aarch64-linux-android21-clang"), s("/ndk/bin/aarch64-linux-android-clang")]);
}

#[test]
fn jvm_flags_are_added_once() {
    assert_eq!(ensure_jvm_flag(None, "-Xmx2g"), "-Xmx2g");
    assert_eq!(ensure_jvm_flag(Some(s("   ")), "-Xmx2g"), "-Xmx2g");
    assert_eq!(ensure_jvm_flag(Some(s(" -Dfoo=1 ")), "-Xmx2g"), "-Dfoo=1 -Xmx2g");
    assert_eq!(ensure_jvm_flag(Some(s(" -Xmx2g  -Dfoo=1 ")), "-Xmx2g"), "-Xmx2g  -Dfoo=1");
    let once = ensure_jvm_flag(Some(s("-Da=b")), "-Xmx2g");
    assert_eq!(ensure_jvm_flag(Some(once.clone()), "-Xmx2g"), once);
}

#[test]
fn sdk_roots_follow_environment_order_without_repeats() {
    let c = android_sdk_root_candidates(Some(s("/sdk")), Some(s("/sdk")), Some(s("/home/u")));
    assert_eq!(c, vec![s("/sdk"), s("/sdk"), s("/home/u/Library/Android/sdk"), s("/home/u/Android/Sdk")]);
    let roots = android_sdk_roots(&c, &vec![true, true, false, true]);
    assert_eq!(roots, vec![s("/sdk"), s("/home/u/Android/Sdk")]);
    assert_eq!(resolve_android_sdk_path(&roots), Some(s("/sdk")));
    assert_eq!(resolve_android_sdk_path(&Vec::new()), None);
}

#[test]
fn android_tools_are_found_on_path_or_in_the_sdk() {
    let roots = vec![s("/a"), s("/b")];
    let c = android_tool_candidates("adb", &roots);
    assert_eq!(c, vec![s("/a/platform-tools/adb"), s("/a/platform-tools/adb.exe"), s("/b/platform-tools/adb"), s("/b/platform-tools/adb.exe")]);
    assert_eq!(find_android_tool("adb", Some(s("/usr/bin/adb")), &roots, &vec![true, true, true, true]), Some(s("/usr/bin/adb")));
    assert_eq!(find_android_tool("adb", None, &roots, &vec![false, false, true, false]), Some(s("/b/platform-tools/adb")));
    assert_eq!(find_android_tool("adb", None, &roots, &vec![false, false, false, false]), None);
    assert!(android_tool_candidates("gradle", &roots).is_empty());
}

#[test]
fn java_versions_are_read_from_version_output() {
    assert_eq!(java_major_from_output("openjdk version \"17.0.2\" 2022-01-18\nOpenJDK Runtime"), Some(17));
    assert_eq!(java_major_from_output("java version \"1.8.0_292\"\n"), Some(8));
    assert_eq!(java_major_from_output("no quotes here\nversion \"21\"\n"), Some(21));
    assert_eq!(java_major_from_output("version \"abc\"\n"), None);
    assert_eq!(java_major_from_output("version \"99999999999\"\n"), None);
    assert_eq!(java_major_from_output(""), None);
}

#[test]
fn jvm_flag_trims_unicode_whitespace() {
    let once = ensure_jvm_flag(Some(s("\u{3000}-Da=b\u{a0}")), "-Xmx2g");
    assert_eq!(once, "-Da=b -Xmx2g");
    assert_eq!(ensure_jvm_flag(Some(once.clone()), "-Xmx2g"), once);
    assert_eq!(ensure_jvm_flag(Some(s("x")), ""), "x ");
    assert_eq!(ensure_jvm_flag(Some(s("x ")), ""), "x ");
}
