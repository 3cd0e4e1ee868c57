use waterui_cli::toolchain::{
    Cmake, CmakeInstallation, FailToInstallCmake, InstallationReport, TargetListing, ToolchainError,
    UnfixableToolchain, WebToolchain,
};
use waterui_cli::toolchain_error::{
    doctor, CheckStatus, DoctorChecks, Swift, SwiftHost, SwiftInstallation, ToolchainError as ToolchainProblem,
    ToolchainErrorKind,
};

#[test]
fn unfixable_toolchain_text() {
    let u = UnfixableToolchain::new("no SDK", "install it");
    assert_eq!(u.message(), "no SDK");
    assert_eq!(u.suggestion(), "install it");
    assert_eq!(u.to_text(), "Unfixable toolchain: no SDK\n Suggestion: install it");
}

#[test]
fn installation_reports() {
    let mut r = InstallationReport::empty();
    assert_eq!(r.to_text(), "Nothing installed");
    r.add_completed("rustup");
    r.add_warning("restart shell");
    let mut other = InstallationReport::completed("cmake");
    other.add_warning("brew is slow");
    r.merge(other);
    assert_eq!(r.completed, vec!["rustup".to_string(), "cmake".to_string()]);
    assert_eq!(r.warnings, vec!["restart shell".to_string(), "brew is slow".to_string()]);
    assert_eq!(r.to_text(), "  ✓ rustup\n  ✓ cmake\n  ⚠ restart shell\n  ⚠ brew is slow\n");
    let mut e = InstallationReport::completed("x");
    e.merge(InstallationReport::empty());
    assert_eq!(e.completed, vec!["x".to_string()]);
    assert!(e.warnings.is_empty());
}

#[test]
fn cmake_checks() {
    assert!(Cmake {}.check(true).is_ok());
    assert!(matches!(Cmake {}.check(false), Err(ToolchainError::Fixable(_))));
    let inst = CmakeInstallation {};
    assert!(matches!(inst.install_outcome(false, true, Ok(())), Err(FailToInstallCmake::UnsupportedPlatform)));
    assert!(matches!(inst.install_outcome(true, false, Ok(())), Err(FailToInstallCmake::BrewNotFound)));
    assert!(inst.install_outcome(true, true, Ok(())).is_ok());
    match inst.install_outcome(true, true, Err("boom".to_string())) {
        Err(e) => assert_eq!(e.to_text(), "Failed to install CMake via Homebrew: boom"),
        Ok(()) => panic!("expected failure"),
    }
}

#[test]
fn web_toolchain_checks() {
    let w = WebToolchain {};
    assert!(matches!(w.check(false, &TargetListing::NotRun), Err(ToolchainError::Fixable(_))));
    match w.check(true, &TargetListing::NotRun) {
        Err(ToolchainError::Unfixable(u)) => assert_eq!(u.message(), "Failed to run rustup"),
        _ => panic!("expected unfixable"),
    }
    assert!(w.check(true, &TargetListing::Listed("x86_64-unknown-linux-gnu\n  wasm32-unknown-unknown \n".to_string())).is_ok());
    assert!(matches!(w.check(true, &TargetListing::Listed("wasm32-wasi\n".to_string())), Err(ToolchainError::Fixable(_))));
    let e: ToolchainError<()> = ToolchainError::fixable(());
    assert!(e.is_fixable());
}

#[test]
fn toolchain_problems() {
    let p = ToolchainProblem::unfixable("Swift compiler not found").with_suggestion("Install Xcode");
    assert_eq!(p.to_text(), "Swift compiler not found\nInstall Xcode");
    assert!(!p.is_fixable());
    assert!(ToolchainProblem::missing("x").is_fixable());
    assert_eq!(ToolchainProblem::install_failed("y").kind, ToolchainErrorKind::InstallFailed);
}

fn host(on_macos: bool, tools: bool, swift: bool, xcodebuild: bool, ios: bool, macos: bool) -> SwiftHost {
    SwiftHost { on_macos, has_xcode_cli_tools: tools, has_swift: swift, has_xcodebuild: xcodebuild, has_ios_sdk: ios, has_macos_sdk: macos }
}

#[test]
fn swift_checks_in_order() {
    let s = Swift::new().with_ios();
    assert_eq!(s.check(&host(false, true, true, true, true, true)).err().unwrap().message, "Swift development requires macOS");
    assert_eq!(s.check(&host(true, false, false, true, true, true)).err().unwrap().message, "Xcode Command Line Tools are not installed");
    assert_eq!(s.check(&host(true, true, true, true, false, true)).err().unwrap().message, "iOS SDK not found");
    assert!(s.check(&host(true, true, true, true, true, false)).is_ok());
    assert_eq!(Swift::new().with_macos().check(&host(true, true, true, true, true, false)).err().unwrap().message, "macOS SDK not found");
    assert_eq!(s.fix(&host(true, false, true, true, true, true)).ok(), Some(SwiftInstallation::XcodeCliTools));
    assert_eq!(s.fix(&host(true, true, true, false, true, true)).err().unwrap().message, "Full Xcode.app is required");
    assert_eq!(s.fix(&host(true, true, true, true, true, true)).ok(), Some(SwiftInstallation::Empty));
    assert_eq!(SwiftInstallation::XcodeCliTools.description(), "Xcode Command Line Tools");
}

#[test]
fn doctor_findings() {
    let checks = DoctorChecks {
        on_macos: false,
        xcode: Ok(()),
        ios_sdk: Ok(()),
        macos_sdk: Ok(()),
        android_sdk: Err("SDK missing".to_string()),
        android_ndk: Ok(()),
        java_found: false,
    };
    let items = doctor(&checks);
    assert_eq!(items.len(), 6);
    assert_eq!(items[0].status, CheckStatus::Skipped);
    assert_eq!(items[3].name, "Android SDK");
    assert_eq!(items[3].message.as_deref(), Some("SDK missing"));
    assert_eq!(items[4].status, CheckStatus::Passed);
    assert_eq!(items[5].message.as_deref(), Some("Install JDK or set JAVA_HOME. Android Studio includes a bundled JDK."));
}
