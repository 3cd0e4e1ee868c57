//! Arguments of `package`.

use vstd::prelude::*;

verus! {

/// A platform `package` targets.
#[derive(Clone, Copy, Debug, PartialEq, Eq, Structural)]
pub enum TargetPlatform {
    Ios,
    IosSimulator,
    Android,
    Macos,
}

/// The arguments of `package`.
pub struct Args {
    pub platform: TargetPlatform,
    pub release: bool,
    pub distribution: bool,
    pub path: String,
}

/// The display name of a package platform.
pub fn platform_name(platform: TargetPlatform) -> (r: &'static str)
    ensures
        r@ == match platform {
            TargetPlatform::Ios => "iOS"@,
            TargetPlatform::IosSimulator => "iOS Simulator"@,
            TargetPlatform::Android => "Android"@,
            TargetPlatform::Macos => "macOS"@,
        },
{
    match platform {
        TargetPlatform::Ios => "iOS",
        TargetPlatform::IosSimulator => "iOS Simulator",
        TargetPlatform::Android => "Android",
        TargetPlatform::Macos => "macOS",
    }
}

} // verus!
