//! Toolchain problems as the doctor and the Swift toolchain report them:
//! what kind of problem, what it is, and how to fix it.

use vstd::prelude::*;
use crate::backend::opt_text;

verus! {

/// The kind of a toolchain problem.
#[derive(Clone, Copy, Debug, PartialEq, Eq, Structural)]
pub enum ToolchainErrorKind {
    Missing,
    Unfixable,
    InstallFailed,
}

/// A toolchain problem: its kind, its message and perhaps a suggestion.
pub struct ToolchainError {
    pub kind: ToolchainErrorKind,
    pub message: String,
    pub suggestion: Option<String>,
}

impl ToolchainError {
    /// A missing component, which can be installed.
    pub fn missing(message: &str) -> (r: ToolchainError)
        ensures
            r.kind == ToolchainErrorKind::Missing,
            r.message@ == message@,
            r.suggestion is None,
    {
        ToolchainError { kind: ToolchainErrorKind::Missing, message: String::from_str(message), suggestion: None }
    }

    /// A problem that cannot be fixed automatically.
    pub fn unfixable(message: &str) -> (r: ToolchainError)
        ensures
            r.kind == ToolchainErrorKind::Unfixable,
            r.message@ == message@,
            r.suggestion is None,
    {
        ToolchainError { kind: ToolchainErrorKind::Unfixable, message: String::from_str(message), suggestion: None }
    }

    /// An installation that failed.
    pub fn install_failed(message: &str) -> (r: ToolchainError)
        ensures
            r.kind == ToolchainErrorKind::InstallFailed,
            r.message@ == message@,
            r.suggestion is None,
    {
        ToolchainError { kind: ToolchainErrorKind::InstallFailed, message: String::from_str(message), suggestion: None }
    }

    /// The same problem with a suggestion attached.
    pub fn with_suggestion(self, suggestion: &str) -> (r: ToolchainError)
        ensures
            r.kind == self.kind,
            r.message@ == self.message@,
            opt_text(r.suggestion) == Some(suggestion@),
    {
        ToolchainError { kind: self.kind, message: self.message, suggestion: Some(String::from_str(suggestion)) }
    }

    /// Only missing components can be fixed automatically.
    pub fn is_fixable(&self) -> (r: bool)
        ensures
            r == (self.kind == ToolchainErrorKind::Missing),
    {
        match self.kind {
            ToolchainErrorKind::Missing => true,
            _ => false,
        }
    }

    /// The problem as it is displayed: the message, then the suggestion on a
    /// line of its own.
    pub fn to_text(&self) -> (r: String)
        ensures
            r@ == match self.suggestion {
                Some(s) => self.message@ + "\n"@ + s@,
                None => self.message@,
            },
    {
        let mut r = self.message.clone();
        match &self.suggestion {
            Some(s) => {
                r.append("\n");
                r.append(s.as_str());
            },
            None => {},
        }
        r
    }
}

/// The outcome of one doctor check.
#[derive(Clone, Copy, Debug, PartialEq, Eq, Structural)]
pub enum CheckStatus {
    Passed,
    Missing,
    Skipped,
}

/// One line of the doctor's findings.
pub struct DoctorItem {
    pub name: String,
    pub status: CheckStatus,
    pub message: Option<String>,
}

impl DoctorItem {
    /// A component that is present.
    pub fn ok(name: &str) -> (r: DoctorItem)
        ensures
            r.name@ == name@,
            r.status == CheckStatus::Passed,
            r.message is None,
    {
        DoctorItem { name: String::from_str(name), status: CheckStatus::Passed, message: None }
    }

    /// A component that is missing, with the reason.
    pub fn missing(name: &str, message: &str) -> (r: DoctorItem)
        ensures
            r.name@ == name@,
            r.status == CheckStatus::Missing,
            opt_text(r.message) == Some(message@),
    {
        DoctorItem { name: String::from_str(name), status: CheckStatus::Missing, message: Some(String::from_str(message)) }
    }

    /// A component that was not checked on this host.
    pub fn skipped(name: &str) -> (r: DoctorItem)
        ensures
            r.name@ == name@,
            r.status == CheckStatus::Skipped,
            r.message is None,
    {
        DoctorItem { name: String::from_str(name), status: CheckStatus::Skipped, message: None }
    }
}

/// A doctor item as plain values.
pub open spec fn item_view(i: DoctorItem) -> (Seq<char>, CheckStatus, Option<Seq<char>>) {
    (i.name@, i.status, opt_text(i.message))
}

/// The item for a check: present, or missing with the check's error text.
pub open spec fn checked_item(name: Seq<char>, result: Result<(), Seq<char>>) -> (Seq<char>, CheckStatus, Option<Seq<char>>) {
    match result {
        Ok(()) => (name, CheckStatus::Passed, None),
        Err(e) => (name, CheckStatus::Missing, Some(e)),
    }
}

/// The error text of a check result.
pub open spec fn result_text(r: Result<(), String>) -> Result<(), Seq<char>> {
    match r {
        Ok(()) => Ok(()),
        Err(e) => Err(e@),
    }
}

/// The results of the toolchain checks the doctor runs.
pub struct DoctorChecks {
    /// Whether the host is macOS; the Apple checks only run there.
    pub on_macos: bool,
    pub xcode: Result<(), String>,
    pub ios_sdk: Result<(), String>,
    pub macos_sdk: Result<(), String>,
    pub android_sdk: Result<(), String>,
    pub android_ndk: Result<(), String>,
    /// Whether a Java installation was found.
    pub java_found: bool,
}

fn checked(name: &str, result: &Result<(), String>) -> (r: DoctorItem)
    ensures
        item_view(r) == checked_item(name@, result_text(*result)),
{
    match result {
        Ok(()) => DoctorItem::ok(name),
        Err(e) => DoctorItem::missing(name, e.as_str()),
    }
}

/// The doctor's findings, in order: Xcode, the iOS and macOS SDKs (skipped
/// off macOS), the Android SDK and NDK, and Java.
pub open spec fn doctor_findings(c: DoctorChecks) -> Seq<(Seq<char>, CheckStatus, Option<Seq<char>>)> {
    (if c.on_macos {
        seq![
            checked_item("Xcode"@, result_text(c.xcode)),
            checked_item("iOS SDK"@, result_text(c.ios_sdk)),
            checked_item("macOS SDK"@, result_text(c.macos_sdk)),
        ]
    } else {
        seq![
            ("Xcode"@, CheckStatus::Skipped, None),
            ("iOS SDK"@, CheckStatus::Skipped, None),
            ("macOS SDK"@, CheckStatus::Skipped, None),
        ]
    }) + seq![
        checked_item("Android SDK"@, result_text(c.android_sdk)),
        checked_item("Android NDK"@, result_text(c.android_ndk)),
        if c.java_found {
            ("Java"@, CheckStatus::Passed, None)
        } else {
            ("Java"@, CheckStatus::Missing, Some("Install JDK or set JAVA_HOME. Android Studio includes a bundled JDK."@))
        },
    ]
}

/// Assembles the doctor's findings from the check results.
pub fn doctor(checks: &DoctorChecks) -> (r: Vec<DoctorItem>)
    ensures
        r@.map_values(|i: DoctorItem| item_view(i)) == doctor_findings(*checks),
{
    let mut items: Vec<DoctorItem> = Vec::new();
    if checks.on_macos {
        items.push(checked("Xcode", &checks.xcode));
        items.push(checked("iOS SDK", &checks.ios_sdk));
        items.push(checked("macOS SDK", &checks.macos_sdk));
    } else {
        items.push(DoctorItem::skipped("Xcode"));
        items.push(DoctorItem::skipped("iOS SDK"));
        items.push(DoctorItem::skipped("macOS SDK"));
    }
    items.push(checked("Android SDK", &checks.android_sdk));
    items.push(checked("Android NDK", &checks.android_ndk));
    if checks.java_found {
        items.push(DoctorItem::ok("Java"));
    } else {
        items.push(DoctorItem::missing("Java", "Install JDK or set JAVA_HOME. Android Studio includes a bundled JDK."));
    }
    assert(items@.map_values(|i: DoctorItem| item_view(i)) =~= doctor_findings(*checks));
    items
}

/// The Swift toolchain, with the Apple SDKs a build needs.
pub struct Swift {
    require_ios: bool,
    require_macos: bool,
}

/// What fixing the Swift toolchain takes.
#[derive(Clone, Copy, Debug, PartialEq, Eq, Structural)]
pub enum SwiftInstallation {
    /// Nothing needs installing.
    Empty,
    /// The Xcode Command Line Tools need installing.
    XcodeCliTools,
}

/// The Xcode Command Line Tools installation.
pub struct XcodeCliTools {}

impl XcodeCliTools {
    /// The command that installs the tools.
    pub fn to_text(&self) -> (r: &'static str)
        ensures
            r@ == "xcode-select --install"@,
    {
        "xcode-select --install"
    }

    /// What the installation provides.
    pub fn description(&self) -> (r: &'static str)
        ensures
            r@ == "Xcode Command Line Tools"@,
    {
        "Xcode Command Line Tools"
    }
}

impl SwiftInstallation {
    /// What the installation provides.
    pub fn description(&self) -> (r: &'static str)
        ensures
            r@ == (if *self == SwiftInstallation::Empty { "nothing"@ } else { "Xcode Command Line Tools"@ }),
    {
        match self {
            SwiftInstallation::Empty => "nothing",
            SwiftInstallation::XcodeCliTools => "Xcode Command Line Tools",
        }
    }
}

/// What the host offers the Swift toolchain.
pub struct SwiftHost {
    pub on_macos: bool,
    pub has_xcode_cli_tools: bool,
    pub has_swift: bool,
    pub has_xcodebuild: bool,
    pub has_ios_sdk: bool,
    pub has_macos_sdk: bool,
}

/// An unfixable problem with its message and suggestion.
pub open spec fn unfixable_with(e: ToolchainError, message: Seq<char>, suggestion: Seq<char>) -> bool {
    e.kind == ToolchainErrorKind::Unfixable && e.message@ == message && opt_text(e.suggestion) == Some(suggestion)
}

impl Swift {
    /// The toolchain without SDK requirements.
    pub fn new() -> (r: Swift)
        ensures
            !r.requires_ios(),
            !r.requires_macos(),
    {
        Swift { require_ios: false, require_macos: false }
    }

    /// Whether builds need the iOS SDK.
    pub closed spec fn requires_ios(&self) -> bool {
        self.require_ios
    }

    /// Whether builds need the macOS SDK.
    pub closed spec fn requires_macos(&self) -> bool {
        self.require_macos
    }

    /// The same toolchain, also requiring the iOS SDK.
    pub fn with_ios(self) -> (r: Swift)
        ensures
            r.requires_ios(),
            r.requires_macos() == self.requires_macos(),
    {
        Swift { require_ios: true, require_macos: self.require_macos }
    }

    /// The same toolchain, also requiring the macOS SDK.
    pub fn with_macos(self) -> (r: Swift)
        ensures
            r.requires_macos(),
            r.requires_ios() == self.requires_ios(),
    {
        Swift { require_ios: self.require_ios, require_macos: true }
    }

    /// The check of the Swift toolchain on a host: the first missing piece,
    /// in the order macOS, command line tools, Swift, `xcodebuild`, then the
    /// required SDKs, is reported as unfixable with its advice.
    pub fn check(&self, host: &SwiftHost) -> (r: Result<(), ToolchainError>)
        ensures
            !host.on_macos ==> (r matches Err(e) && unfixable_with(e, "Swift development requires macOS"@, "Use a Mac or set up a macOS CI environment"@)),
            host.on_macos && !host.has_xcode_cli_tools ==> (r matches Err(e) && unfixable_with(e, "Xcode Command Line Tools are not installed"@, "Run: xcode-select --install"@)),
            host.on_macos && host.has_xcode_cli_tools && !host.has_swift ==> (r matches Err(e) && unfixable_with(e, "Swift compiler not found"@, "Install Xcode from the Mac App Store"@)),
            host.on_macos && host.has_xcode_cli_tools && host.has_swift && !host.has_xcodebuild ==> (r matches Err(e) && unfixable_with(e, "xcodebuild not found"@, "Install Xcode from the Mac App Store"@)),
            host.on_macos && host.has_xcode_cli_tools && host.has_swift && host.has_xcodebuild && self.requires_ios() && !host.has_ios_sdk
                ==> (r matches Err(e) && unfixable_with(e, "iOS SDK not found"@, "Install Xcode with iOS platform support"@)),
            host.on_macos && host.has_xcode_cli_tools && host.has_swift && host.has_xcodebuild && !(self.requires_ios() && !host.has_ios_sdk)
                && self.requires_macos() && !host.has_macos_sdk
                ==> (r matches Err(e) && unfixable_with(e, "macOS SDK not found"@, "Install Xcode from the Mac App Store"@)),
            r is Ok <==> (host.on_macos && host.has_xcode_cli_tools && host.has_swift && host.has_xcodebuild
                && (self.requires_ios() ==> host.has_ios_sdk) && (self.requires_macos() ==> host.has_macos_sdk)),
    {
        if !host.on_macos {
            return Err(ToolchainError::unfixable("Swift development requires macOS").with_suggestion("Use a Mac or set up a macOS CI environment"));
        }
        if !host.has_xcode_cli_tools {
            return Err(ToolchainError::unfixable("Xcode Command Line Tools are not installed").with_suggestion("Run: xcode-select --install"));
        }
        if !host.has_swift {
            return Err(ToolchainError::unfixable("Swift compiler not found").with_suggestion("Install Xcode from the Mac App Store"));
        }
        if !host.has_xcodebuild {
            return Err(ToolchainError::unfixable("xcodebuild not found").with_suggestion("Install Xcode from the Mac App Store"));
        }
        if self.require_ios && !host.has_ios_sdk {
            return Err(ToolchainError::unfixable("iOS SDK not found").with_suggestion("Install Xcode with iOS platform support"));
        }
        if self.require_macos && !host.has_macos_sdk {
            return Err(ToolchainError::unfixable("macOS SDK not found").with_suggestion("Install Xcode from the Mac App Store"));
        }
        Ok(())
    }

    /// How to fix the Swift toolchain on a host: impossible off macOS,
    /// install the command line tools if they are missing, otherwise require
    /// the full Xcode when `xcodebuild` is missing, or nothing.
    pub fn fix(&self, host: &SwiftHost) -> (r: Result<SwiftInstallation, ToolchainError>)
        ensures
            !host.on_macos ==> (r matches Err(e) && e.kind == ToolchainErrorKind::Unfixable
                && e.message@ == "Swift development requires macOS"@ && e.suggestion is None),
            host.on_macos && !host.has_xcode_cli_tools ==> r == Ok::<SwiftInstallation, ToolchainError>(SwiftInstallation::XcodeCliTools),
            host.on_macos && host.has_xcode_cli_tools && !host.has_xcodebuild ==> (r matches Err(e)
                && unfixable_with(e, "Full Xcode.app is required"@, "Install Xcode from the Mac App Store"@)),
            host.on_macos && host.has_xcode_cli_tools && host.has_xcodebuild ==> r == Ok::<SwiftInstallation, ToolchainError>(SwiftInstallation::Empty),
    {
        if !host.on_macos {
            return Err(ToolchainError::unfixable("Swift development requires macOS"));
        }
        if !host.has_xcode_cli_tools {
            return Ok(SwiftInstallation::XcodeCliTools);
        }
        if !host.has_xcodebuild {
            return Err(ToolchainError::unfixable("Full Xcode.app is required").with_suggestion("Install Xcode from the Mac App Store"));
        }
        Ok(SwiftInstallation::Empty)
    }
}

} // verus!
