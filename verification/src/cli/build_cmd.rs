//! Arguments of `build`.

use vstd::prelude::*;

verus! {

/// A platform `build` targets.
#[derive(Clone, Copy, Debug, PartialEq, Eq, Structural)]
pub enum TargetPlatform {
    Ios,
    IosSimulator,
    Android,
    Macos,
}

/// A CPU architecture to build for.
#[derive(Clone, Copy, Debug, PartialEq, Eq, Structural)]
pub enum TargetArch {
    Arm64,
    X86_64,
    Armv7,
    X86,
}

/// The arguments of `build`.
pub struct Args {
    pub platform: TargetPlatform,
    pub arch: Option<TargetArch>,
    pub release: bool,
    pub path: String,
    pub output_dir: Option<String>,
}

/// The display name of a build platform.
pub fn platform_name(platform: TargetPlatform) -> (r: &'static str)
    ensures
        r@ == match platform {
            TargetPlatform::Ios => "iOS"@,
            TargetPlatform::IosSimulator => "iOS Simulator"@,
            TargetPlatform::Android => "Android"@,
            TargetPlatform::Macos => "macOS"@,
        },
{
    match platform {
        TargetPlatform::Ios => "iOS",
        TargetPlatform::IosSimulator => "iOS Simulator",
        TargetPlatform::Android => "Android",
        TargetPlatform::Macos => "macOS",
    }
}

/// The name an architecture is printed with in messages.
pub open spec fn arch_debug_name(a: TargetArch) -> Seq<char> {
    match a {
        TargetArch::Arm64 => "Arm64"@,
        TargetArch::X86_64 => "X86_64"@,
        TargetArch::Armv7 => "Armv7"@,
        TargetArch::X86 => "X86"@,
    }
}

fn arch_name(a: TargetArch) -> (r: &'static str)
    ensures
        r@ == arch_debug_name(a),
{
    match a {
        TargetArch::Arm64 => "Arm64",
        TargetArch::X86_64 => "X86_64",
        TargetArch::Armv7 => "Armv7",
        TargetArch::X86 => "X86",
    }
}

/// What `build` compiles for.
#[derive(Clone, Copy, Debug, PartialEq, Eq, Structural)]
pub enum BuildTarget {
    /// An iOS device (arm64).
    IosDevice,
    /// The iOS simulator for the host's architecture, or a given one.
    IosSimulator(Option<TargetArch>),
    /// Android, for a device ABI.
    Android(TargetArch),
    /// macOS for the host's architecture, or a given one.
    Macos(Option<TargetArch>),
}

/// The build target for a platform and an optional architecture: iOS
/// devices only take arm64; the simulator and macOS take arm64 or x86_64,
/// or the host's when none is given; Android takes any, arm64 by default.
pub open spec fn build_target_of(platform: TargetPlatform, arch: Option<TargetArch>) -> Result<BuildTarget, Seq<char>> {
    match (platform, arch) {
        (TargetPlatform::Ios, None) | (TargetPlatform::Ios, Some(TargetArch::Arm64)) => Ok(BuildTarget::IosDevice),
        (TargetPlatform::Ios, Some(a)) => Err("iOS physical devices only support arm64, not "@ + arch_debug_name(a)),
        (TargetPlatform::IosSimulator, None) => Ok(BuildTarget::IosSimulator(None)),
        (TargetPlatform::IosSimulator, Some(TargetArch::Arm64)) => Ok(BuildTarget::IosSimulator(Some(TargetArch::Arm64))),
        (TargetPlatform::IosSimulator, Some(TargetArch::X86_64)) => Ok(BuildTarget::IosSimulator(Some(TargetArch::X86_64))),
        (TargetPlatform::IosSimulator, Some(a)) => Err("iOS Simulator only supports arm64 or x86_64, not "@ + arch_debug_name(a)),
        (TargetPlatform::Android, None) => Ok(BuildTarget::Android(TargetArch::Arm64)),
        (TargetPlatform::Android, Some(a)) => Ok(BuildTarget::Android(a)),
        (TargetPlatform::Macos, None) => Ok(BuildTarget::Macos(None)),
        (TargetPlatform::Macos, Some(TargetArch::Arm64)) => Ok(BuildTarget::Macos(Some(TargetArch::Arm64))),
        (TargetPlatform::Macos, Some(TargetArch::X86_64)) => Ok(BuildTarget::Macos(Some(TargetArch::X86_64))),
        (TargetPlatform::Macos, Some(a)) => Err("macOS only supports arm64 or x86_64, not "@ + arch_debug_name(a)),
    }
}

/// Decides what `build` compiles for, or why it cannot.
pub fn build_target(platform: TargetPlatform, arch: Option<TargetArch>) -> (r: Result<BuildTarget, String>)
    ensures
        match build_target_of(platform, arch) {
            Ok(t) => r == Ok::<BuildTarget, String>(t),
            Err(m) => r matches Err(e) && e@ == m,
        },
{
    match (platform, arch) {
        (TargetPlatform::Ios, None) | (TargetPlatform::Ios, Some(TargetArch::Arm64)) => Ok(BuildTarget::IosDevice),
        (TargetPlatform::Ios, Some(a)) => {
            let mut m = String::from_str("iOS physical devices only support arm64, not ");
            m.append(arch_name(a));
            Err(m)
        },
        (TargetPlatform::IosSimulator, None) => Ok(BuildTarget::IosSimulator(None)),
        (TargetPlatform::IosSimulator, Some(TargetArch::Arm64)) => Ok(BuildTarget::IosSimulator(Some(TargetArch::Arm64))),
        (TargetPlatform::IosSimulator, Some(TargetArch::X86_64)) => Ok(BuildTarget::IosSimulator(Some(TargetArch::X86_64))),
        (TargetPlatform::IosSimulator, Some(a)) => {
            let mut m = String::from_str("iOS Simulator only supports arm64 or x86_64, not ");
            m.append(arch_name(a));
            Err(m)
        },
        (TargetPlatform::Android, None) => Ok(BuildTarget::Android(TargetArch::Arm64)),
        (TargetPlatform::Android, Some(a)) => Ok(BuildTarget::Android(a)),
        (TargetPlatform::Macos, None) => Ok(BuildTarget::Macos(None)),
        (TargetPlatform::Macos, Some(TargetArch::Arm64)) => Ok(BuildTarget::Macos(Some(TargetArch::Arm64))),
        (TargetPlatform::Macos, Some(TargetArch::X86_64)) => Ok(BuildTarget::Macos(Some(TargetArch::X86_64))),
        (TargetPlatform::Macos, Some(a)) => {
            let mut m = String::from_str("macOS only supports arm64 or x86_64, not ");
            m.append(arch_name(a));
            Err(m)
        },
    }
}

/// The Android ABI built for an architecture.
pub fn android_abi(arch: TargetArch) -> (r: &'static str)
    ensures
        r@ == match arch {
            TargetArch::Arm64 => "arm64-v8a"@,
            TargetArch::X86_64 => "x86_64"@,
            TargetArch::Armv7 => "armeabi-v7a"@,
            TargetArch::X86 => "x86"@,
        },
{
    match arch {
        TargetArch::Arm64 => "arm64-v8a",
        TargetArch::X86_64 => "x86_64",
        TargetArch::Armv7 => "armeabi-v7a",
        TargetArch::X86 => "x86",
    }
}

/// The heading of a build: crate, platform and mode.
pub fn build_heading(crate_name: &str, platform: TargetPlatform, release: bool) -> (r: String)
    ensures
        r@ == "Building "@ + crate_name@ + " for "@ + match platform {
            TargetPlatform::Ios => "iOS"@,
            TargetPlatform::IosSimulator => "iOS Simulator"@,
            TargetPlatform::Android => "Android"@,
            TargetPlatform::Macos => "macOS"@,
        } + " ("@ + (if release { "release"@ } else { "debug"@ }) + ")"@,
{
    let mut r = String::from_str("Building ");
    r.append(crate_name);
    r.append(" for ");
    r.append(platform_name(platform));
    r.append(" (");
    r.append(if release { "release" } else { "debug" });
    r.append(")");
    r
}

} // verus!
