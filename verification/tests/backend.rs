use waterui_cli::backend::{
    android_dev_update_message, apple_dev_update_message, backend_targets, dependency_spec_from_value,
    ffi_compat_decision, list_entries, parse_version, plan_release_update, release_versions,
    rewrite_swift_requirement, select_compatible_version, semver_compatible, short_commit, BackendChoice,
    BackendSettings, BackendUpdateReport, BackendUpdateStatus, DependencySpec, FfiCompatDecision,
    ManifestDependency, SwiftRequirement, SwiftRewriteError, Version,
};

fn v(text: &str) -> Version {
    parse_version(text).expect("valid version")
}

#[test]
fn versions_parse_and_print() {
    let x = v("1.2.3-beta.1+build.5");
    assert_eq!((x.major, x.minor, x.patch), (1, 2, 3));
    assert_eq!(x.pre, "beta.1");
    assert_eq!(x.build, "build.5");
    assert_eq!(x.to_text(), "1.2.3-beta.1+build.5");
    assert_eq!(v("0.2.0").to_text(), "0.2.0");
    assert!(parse_version("1.2").is_none());
    assert!(parse_version("v1.2.3").is_none());
}

#[test]
fn commits_are_shortened_to_seven_characters() {
    assert_eq!(short_commit("0123456789abcdef"), "0123456");
    assert_eq!(short_commit("abc"), "abc");
}

#[test]
fn selection_prefers_newest_compatible_release() {
    let current = v("1.2.0");
    let available = vec![v("0.9.0"), v("1.2.0"), v("1.3.0"), v("1.10.0"), v("2.0.0"), v("1.4.0-rc.1")];
    let (compatible, incompatible) = select_compatible_version(&current, &available);
    assert_eq!(compatible.unwrap().to_text(), "1.10.0");
    assert_eq!(incompatible.unwrap().to_text(), "2.0.0");
    let (c, i) = select_compatible_version(&v("3.0.0"), &available);
    assert!(c.is_none() && i.is_none());
}

#[test]
fn prereleases_order_below_releases() {
    let (c, _) = select_compatible_version(&v("1.0.0-alpha"), &vec![v("1.0.0-beta"), v("1.0.0")]);
    assert_eq!(c.unwrap().to_text(), "1.0.0");
}

#[test]
fn compatibility_rules() {
    assert!(semver_compatible(&v("0.2.5"), &v("0.2.1")));
    assert!(!semver_compatible(&v("0.3.0"), &v("0.2.1")));
    assert!(!semver_compatible(&v("0.2.0"), &v("0.2.1")));
    assert!(semver_compatible(&v("1.9.0"), &v("1.2.0")));
    assert!(!semver_compatible(&v("2.0.0"), &v("1.2.0")));
}

#[test]
fn release_tags_are_read_sorted_and_deduplicated() {
    let out = "a1\trefs/tags/android-backend-v1.2.0\nb2\trefs/tags/android-backend-v1.2.0^{}\nc3\trefs/tags/android-backend-v1.10.0\nd4\trefs/tags/other-v9.0.0\ne5\trefs/heads/main\nf6\trefs/tags/android-backend-vbad\ng7\trefs/tags/android-backend-v1.2.0\nh8\trefs/tags/android-backend-v0.9.1\n";
    let versions: Vec<String> = release_versions(out, "android-backend-v").iter().map(|x| x.to_text()).collect();
    assert_eq!(versions, vec!["0.9.1", "1.2.0", "1.10.0"]);
    assert!(release_versions("", "x").is_empty());
}

#[test]
fn swift_requirement_block_is_replaced() {
    let contents = "a\n\t\trepositoryURL = \"x\";\n\t\trequirement = {\n\t\t\tkind = branch;\n\t\t\tbranch = dev;\n\t\t};\n\t};\nend";
    let out = rewrite_swift_requirement(contents, SwiftRequirement::Release("1.2.3".to_string())).ok().unwrap();
    assert_eq!(out, "a\n\t\trepositoryURL = \"x\";\n\t\t\t\trequirement = {\n\t\t\tkind = upToNextMajorVersion;\n\t\t\tminimumVersion = \"1.2.3\";\n\t\t};\n\n\t};\nend");
    let rev = rewrite_swift_requirement(contents, SwiftRequirement::Revision("abc".to_string())).ok().unwrap();
    assert!(rev.contains("\t\t\tkind = revision;\n\t\t\trevision = \"abc\";\n"));
    assert!(matches!(rewrite_swift_requirement("nothing", SwiftRequirement::Branch("d".to_string())), Err(SwiftRewriteError::MissingPackageReference)));
    assert!(matches!(rewrite_swift_requirement("repositoryURL", SwiftRequirement::Branch("d".to_string())), Err(SwiftRewriteError::MissingRequirementBlock)));
    assert!(matches!(rewrite_swift_requirement("repositoryURL requirement = {", SwiftRequirement::Branch("d".to_string())), Err(SwiftRewriteError::MalformedRequirementBlock)));
}

#[test]
fn dev_update_messages() {
    let a = Some("1111111aaaa".to_string());
    let b = Some("2222222bbbb".to_string());
    assert_eq!(android_dev_update_message(&a, &a), ("Android dev backend already at commit 1111111. No changes applied.".to_string(), false));
    assert_eq!(android_dev_update_message(&a, &b), ("Android dev backend updated (1111111 → 2222222).".to_string(), true));
    assert_eq!(android_dev_update_message(&None, &b), ("Android dev backend pinned to commit 2222222.".to_string(), true));
    assert_eq!(android_dev_update_message(&a, &None), ("Synchronized dev backend from the latest upstream commit.".to_string(), true));
    assert_eq!(apple_dev_update_message(&None, "abcdefghij"), ("Apple dev backend pinned to commit abcdefg.".to_string(), true));
    assert_eq!(apple_dev_update_message(&Some("abcdefghij".to_string()), "abcdefghij").1, false);
}

#[test]
fn release_update_plans() {
    let (install, report) = plan_release_update(BackendChoice::Android, "1.0.0", &v("1.0.0"), &vec![v("1.1.0"), v("2.0.0")]);
    assert_eq!(install.unwrap().to_text(), "1.1.0");
    assert_eq!(report.status, BackendUpdateStatus::Updated);
    assert_eq!(report.from_version.as_deref(), Some("1.0.0"));
    assert_eq!(report.to_version.as_deref(), Some("1.1.0"));
    let (install, report) = plan_release_update(BackendChoice::Android, "1.1.0", &v("1.1.0"), &vec![v("1.1.0"), v("2.0.0")]);
    assert!(install.is_none());
    assert_eq!(report.status, BackendUpdateStatus::Incompatible);
    assert_eq!(report.message.as_deref(), Some("A newer, potentially breaking Android backend (v2.0.0) is available. Update the CLI to evaluate migrating."));
    let (_, report) = plan_release_update(BackendChoice::Apple, "2.0.0", &v("2.0.0"), &vec![v("1.0.0")]);
    assert_eq!(report.status, BackendUpdateStatus::UpToDate);
    assert_eq!(report.backend, "Apple");
    let fresh = BackendUpdateReport::new(BackendChoice::Web, BackendUpdateStatus::Skipped);
    assert_eq!(fresh.backend, "Web");
}

#[test]
fn listed_backends() {
    let swift = BackendSettings { dev: true, version: None, revision: None, branch: Some("dev".to_string()), project_path: "apple".to_string() };
    let android = BackendSettings { dev: false, version: Some("0.3.0".to_string()), revision: None, branch: None, project_path: "android".to_string() };
    let report = list_entries(&Some(swift), &Some(android), &None, false);
    assert_eq!(report.entries.len(), 2);
    assert_eq!(report.entries[0].backend, "Apple");
    assert_eq!(report.entries[0].version.as_deref(), Some("dev"));
    assert!(report.entries[0].dev);
    assert_eq!(report.entries[0].targets.len(), 6);
    assert_eq!(report.entries[1].version.as_deref(), Some("0.3.0"));
    assert!(!report.entries[1].dev);
    assert_eq!(backend_targets(BackendChoice::Web), vec!["Web".to_string()]);
}

#[test]
fn dependency_specs_and_ffi_decisions() {
    assert!(matches!(dependency_spec_from_value(&ManifestDependency::Missing), DependencySpec::Missing));
    assert!(matches!(dependency_spec_from_value(&ManifestDependency::Table { has_git: true, version: None }), DependencySpec::Git));
    assert!(matches!(dependency_spec_from_value(&ManifestDependency::Text("0.2.1".to_string())), DependencySpec::Version(_)));
    assert!(matches!(dependency_spec_from_value(&ManifestDependency::Text("^0.2".to_string())), DependencySpec::Other));
    let required = v("0.2.0");
    assert!(matches!(ffi_compat_decision(&ManifestDependency::Text("0.2.3".to_string()), &required, BackendChoice::Apple, false, false, "0.3.0"), FfiCompatDecision::Compatible));
    match ffi_compat_decision(&ManifestDependency::Text("0.1.0".to_string()), &required, BackendChoice::Apple, true, false, "0.3.0") {
        FfiCompatDecision::ConfirmationRequired(m) => assert_eq!(m, "Apple backend upgrade requires updating Cargo dependencies. Re-run with --yes to confirm."),
        _ => panic!("expected confirmation"),
    }
    match ffi_compat_decision(&ManifestDependency::Text("0.1.0".to_string()), &required, BackendChoice::Android, false, false, "0.3.0") {
        FfiCompatDecision::Upgrade(Some(q)) => assert_eq!(q, "Android backend requires waterui-ffi v0.2.0. Update waterui and waterui-ffi to v0.3.0?"),
        _ => panic!("expected question"),
    }
    assert!(matches!(ffi_compat_decision(&ManifestDependency::Text("0.1.0".to_string()), &required, BackendChoice::Android, false, true, "0.3.0"), FfiCompatDecision::Upgrade(None)));
    assert!(matches!(ffi_compat_decision(&ManifestDependency::Missing, &required, BackendChoice::Android, false, true, "0.3.0"), FfiCompatDecision::Unknown(_)));
}
