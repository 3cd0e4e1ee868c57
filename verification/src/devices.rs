//! Connected devices as the tool sees them, and the rules that pick a
//! device, a platform and a description for one.

use vstd::prelude::*;
use crate::backend::{ends_with, starts_with};
use crate::text::{chars_of, str_eq};

verus! {

/// What kind of target a device is.
#[derive(Clone, Copy, Debug, PartialEq, Eq, Structural)]
pub enum DeviceKind {
    Device,
    Emulator,
    Simulator,
}

/// A device, emulator or simulator the tool can run on.
pub struct DeviceInfo {
    pub name: String,
    pub identifier: String,
    /// The platform name, such as `iOS 17.2`, `macOS` or `Android`.
    pub platform: String,
    pub kind: DeviceKind,
    /// The device's state, such as `Booted`, when known.
    pub state: Option<String>,
    /// The platform identifier the device was listed under, such as
    /// `android-emulator` or `com.apple.platform.iphonesimulator`.
    pub raw_platform: Option<String>,
    /// More about the device, such as its OS version, when known.
    pub detail: Option<String>,
}

/// A platform the tool builds for.
#[derive(Clone, Copy, Debug, PartialEq, Eq, Structural)]
pub enum PlatformKind {
    Web,
    Macos,
    Ios,
    Ipados,
    Watchos,
    Tvos,
    Visionos,
    Android,
}

/// The platform a device's platform name denotes: Web, macOS and Android by
/// their exact names, the other Apple platforms by their name's prefix.
pub open spec fn platform_of(p: Seq<char>) -> Option<PlatformKind> {
    if p == "Web"@ {
        Some(PlatformKind::Web)
    } else if p == "macOS"@ {
        Some(PlatformKind::Macos)
    } else if starts_with(p, "iOS"@) {
        Some(PlatformKind::Ios)
    } else if starts_with(p, "iPadOS"@) {
        Some(PlatformKind::Ipados)
    } else if starts_with(p, "watchOS"@) {
        Some(PlatformKind::Watchos)
    } else if starts_with(p, "tvOS"@) {
        Some(PlatformKind::Tvos)
    } else if starts_with(p, "visionOS"@) {
        Some(PlatformKind::Visionos)
    } else if p == "Android"@ {
        Some(PlatformKind::Android)
    } else {
        None
    }
}

/// Whether `s` starts with `p`.
pub fn str_starts_with(s: &str, p: &str) -> (r: bool)
    ensures
        r == starts_with(s@, p@),
{
    let sv = chars_of(s);
    let pv = chars_of(p);
    if pv.len() > sv.len() {
        return false;
    }
    let r = crate::text::occurs_at(&sv, 0, &pv);
    assert(sv@.subrange(0, pv@.len() as int) =~= sv@.take(pv@.len() as int));
    r
}

/// The platform of a device, or the error for an unknown platform name.
pub fn platform_from_device(device: &DeviceInfo) -> (r: Result<PlatformKind, String>)
    ensures
        platform_of(device.platform@) matches Some(k) ==> r == Ok::<PlatformKind, String>(k),
        platform_of(device.platform@) is None ==> (r matches Err(m) && m@ == "Unsupported platform: "@ + device.platform@),
{
    let p = device.platform.as_str();
    if str_eq(p, "Web") {
        Ok(PlatformKind::Web)
    } else if str_eq(p, "macOS") {
        Ok(PlatformKind::Macos)
    } else if str_starts_with(p, "iOS") {
        Ok(PlatformKind::Ios)
    } else if str_starts_with(p, "iPadOS") {
        Ok(PlatformKind::Ipados)
    } else if str_starts_with(p, "watchOS") {
        Ok(PlatformKind::Watchos)
    } else if str_starts_with(p, "tvOS") {
        Ok(PlatformKind::Tvos)
    } else if str_starts_with(p, "visionOS") {
        Ok(PlatformKind::Visionos)
    } else if str_eq(p, "Android") {
        Ok(PlatformKind::Android)
    } else {
        let mut m = String::from_str("Unsupported platform: ");
        m.append(p);
        Err(m)
    }
}

/// Whether a device answers to a name or identifier.
pub open spec fn answers_to(d: DeviceInfo, query: Seq<char>) -> bool {
    d.identifier@ == query || d.name@ == query
}

/// Finds the first device whose identifier or name is the query.
pub fn find_device(devices: &Vec<DeviceInfo>, query: &str) -> (r: Option<usize>)
    ensures
        r matches Some(i) ==> i < devices@.len() && answers_to(devices@[i as int], query@)
            && forall|j: int| 0 <= j < i ==> !answers_to(#[trigger] devices@[j], query@),
        r is None ==> forall|j: int| 0 <= j < devices@.len() ==> !answers_to(#[trigger] devices@[j], query@),
{
    let mut i: usize = 0;
    while i < devices.len()
        invariant
            i <= devices@.len(),
            forall|j: int| 0 <= j < i ==> !answers_to(#[trigger] devices@[j], query@),
        decreases devices@.len() - i,
    {
        if str_eq(devices[i].identifier.as_str(), query) || str_eq(devices[i].name.as_str(), query) {
            return Some(i);
        }
        i += 1;
    }
    None
}

/// The platform `run` uses for a device named on the command line: that of
/// the first listed device answering to the name; an error when none does,
/// or when its platform is unknown.
pub fn select_run_platform(devices: &Vec<DeviceInfo>, name: &str) -> (r: Result<PlatformKind, String>)
    ensures
        (forall|j: int| 0 <= j < devices@.len() ==> !answers_to(#[trigger] devices@[j], name@)) ==> (r matches Err(m)
            && m@ == "Device '"@ + name@ + "' not found. Run `water devices` to list available targets."@),
        forall|i: int| 0 <= i < devices@.len() && answers_to(#[trigger] devices@[i], name@)
            && (forall|j: int| 0 <= j < i ==> !answers_to(#[trigger] devices@[j], name@)) ==> match platform_of(devices@[i].platform@) {
                Some(k) => r == Ok::<PlatformKind, String>(k),
                None => r matches Err(m) && m@ == "Unsupported platform: "@ + devices@[i].platform@,
            },
{
    match find_device(devices, name) {
        Some(i) => {
            let r = platform_from_device(&devices[i]);
            assert forall|k: int| 0 <= k < devices@.len() && answers_to(#[trigger] devices@[k], name@)
                && (forall|j: int| 0 <= j < k ==> !answers_to(#[trigger] devices@[j], name@)) implies k == i as int by {
                if k < i as int {
                } else if k > i as int {
                    assert(!answers_to(devices@[i as int], name@));
                }
            }
            r
        },
        None => {
            let mut m = String::from_str("Device '");
            m.append(name);
            m.append("' not found. Run `water devices` to list available targets.");
            Err(m)
        },
    }
}

/// The Apple platforms offered for a project: macOS always, then iOS,
/// iPadOS, tvOS and visionOS when some listed device runs them.
pub open spec fn apple_platform_options(devices: Seq<DeviceInfo>) -> Seq<(PlatformKind, Seq<char>)> {
    let has = |k: PlatformKind| exists|i: int| 0 <= i < devices.len() && platform_of(#[trigger] devices[i].platform@) == Some(k);
    seq![(PlatformKind::Macos, "Apple: macOS"@)]
        + (if has(PlatformKind::Ios) { seq![(PlatformKind::Ios, "Apple: iOS"@)] } else { Seq::empty() })
        + (if has(PlatformKind::Ipados) { seq![(PlatformKind::Ipados, "Apple: iPadOS"@)] } else { Seq::empty() })
        + (if has(PlatformKind::Tvos) { seq![(PlatformKind::Tvos, "Apple: tvOS"@)] } else { Seq::empty() })
        + (if has(PlatformKind::Visionos) { seq![(PlatformKind::Visionos, "Apple: visionOS"@)] } else { Seq::empty() })
}

/// The Apple platforms to offer, given the listed devices.
pub fn build_apple_platform_options(devices: &Vec<DeviceInfo>) -> (r: Vec<(PlatformKind, String)>)
    ensures
        r@.map_values(|o: (PlatformKind, String)| (o.0, o.1@)) == apple_platform_options(devices@),
{
    let mut has_ios = false;
    let mut has_ipados = false;
    let mut has_tvos = false;
    let mut has_visionos = false;
    let mut i: usize = 0;
    while i < devices.len()
        invariant
            i <= devices@.len(),
            has_ios == exists|j: int| 0 <= j < i && platform_of(#[trigger] devices@[j].platform@) == Some(PlatformKind::Ios),
            has_ipados == exists|j: int| 0 <= j < i && platform_of(#[trigger] devices@[j].platform@) == Some(PlatformKind::Ipados),
            has_tvos == exists|j: int| 0 <= j < i && platform_of(#[trigger] devices@[j].platform@) == Some(PlatformKind::Tvos),
            has_visionos == exists|j: int| 0 <= j < i && platform_of(#[trigger] devices@[j].platform@) == Some(PlatformKind::Visionos),
        decreases devices@.len() - i,
    {
        match platform_from_device(&devices[i]) {
            Ok(PlatformKind::Ios) => { has_ios = true; },
            Ok(PlatformKind::Ipados) => { has_ipados = true; },
            Ok(PlatformKind::Tvos) => { has_tvos = true; },
            Ok(PlatformKind::Visionos) => { has_visionos = true; },
            _ => {},
        }
        i += 1;
    }
    let mut options: Vec<(PlatformKind, String)> = Vec::new();
    options.push((PlatformKind::Macos, String::from_str("Apple: macOS")));
    if has_ios {
        options.push((PlatformKind::Ios, String::from_str("Apple: iOS")));
    }
    if has_ipados {
        options.push((PlatformKind::Ipados, String::from_str("Apple: iPadOS")));
    }
    if has_tvos {
        options.push((PlatformKind::Tvos, String::from_str("Apple: tvOS")));
    }
    if has_visionos {
        options.push((PlatformKind::Visionos, String::from_str("Apple: visionOS")));
    }
    assert(options@.map_values(|o: (PlatformKind, String)| (o.0, o.1@)) =~= apple_platform_options(devices@));
    options
}

/// A backend to run, as offered in the backend prompt.
#[derive(Clone, Copy, Debug, PartialEq, Eq, Structural)]
pub enum BackendSelection {
    /// A platform chosen directly.
    Platform(PlatformKind),
    /// The Apple backend, whose platform is chosen next.
    AppleAggregate,
}

/// The index of the backend preselected in the prompt: on macOS the first
/// Apple option if there is one, otherwise the first option.
pub fn default_backend_index(options: &Vec<(BackendSelection, String)>, on_macos: bool) -> (r: usize)
    ensures
        !on_macos ==> r == 0,
        on_macos ==> (r < options@.len() && options@[r as int].0 == BackendSelection::AppleAggregate
            && forall|j: int| 0 <= j < r ==> (#[trigger] options@[j]).0 != BackendSelection::AppleAggregate)
            || (r == 0 && forall|j: int| 0 <= j < options@.len() ==> (#[trigger] options@[j]).0 != BackendSelection::AppleAggregate),
{
    if !on_macos {
        return 0;
    }
    let mut i: usize = 0;
    while i < options.len()
        invariant
            on_macos,
            i <= options@.len(),
            forall|j: int| 0 <= j < i ==> (#[trigger] options@[j]).0 != BackendSelection::AppleAggregate,
        decreases options@.len() - i,
    {
        if options[i].0 == BackendSelection::AppleAggregate {
            return i;
        }
        i += 1;
    }
    0
}

/// The Android device chosen to run on.
pub struct AndroidSelection {
    pub name: String,
    /// The serial, for a physical device; emulators are found by name.
    pub identifier: Option<String>,
    pub kind: DeviceKind,
}

impl AndroidSelection {
    /// What a run records as the device: the serial of a physical device,
    /// the name of an emulator.
    pub fn stored_id(&self) -> (r: String)
        ensures
            r@ == match self.identifier {
                Some(s) => s@,
                None => self.name@,
            },
    {
        match &self.identifier {
            Some(s) => s.clone(),
            None => self.name.clone(),
        }
    }
}

/// The Android selection for a listed device.
pub fn selection_from_device_info(info: &DeviceInfo) -> (r: AndroidSelection)
    ensures
        r.name@ == info.name@,
        r.kind == info.kind,
        info.kind == DeviceKind::Device ==> (r.identifier matches Some(s) && s@ == info.identifier@),
        info.kind != DeviceKind::Device ==> r.identifier is None,
{
    AndroidSelection {
        name: info.name.clone(),
        identifier: if info.kind == DeviceKind::Device { Some(info.identifier.clone()) } else { None },
        kind: info.kind,
    }
}

/// The word for a device kind.
pub open spec fn kind_word(k: DeviceKind) -> Seq<char> {
    match k {
        DeviceKind::Device => "device"@,
        DeviceKind::Emulator => "emulator"@,
        DeviceKind::Simulator => "simulator"@,
    }
}

/// How an Android candidate is listed: its name, then its kind and its
/// state when one is known.
pub open spec fn candidate_text(info: DeviceInfo) -> Seq<char> {
    match info.state {
        Some(s) => if s@.len() > 0 {
            info.name@ + " ("@ + kind_word(info.kind) + ", "@ + s@ + ")"@
        } else {
            info.name@ + " ("@ + kind_word(info.kind) + ")"@
        },
        None => info.name@ + " ("@ + kind_word(info.kind) + ")"@,
    }
}

/// Describes an Android candidate for the device prompt.
pub fn describe_android_candidate(info: &DeviceInfo) -> (r: String)
    ensures
        r@ == candidate_text(*info),
{
    let kind = match info.kind {
        DeviceKind::Device => "device",
        DeviceKind::Emulator => "emulator",
        DeviceKind::Simulator => "simulator",
    };
    let mut r = info.name.clone();
    r.append(" (");
    r.append(kind);
    match &info.state {
        Some(s) => {
            if s.unicode_len() > 0 {
                r.append(", ");
                r.append(s.as_str());
            }
        },
        None => {},
    }
    r.append(")");
    r
}

/// The simulator platform identifier used to filter simulators; empty for
/// platforms without simulators.
pub open spec fn simulator_platform_id(p: PlatformKind) -> Seq<char> {
    match p {
        PlatformKind::Ios | PlatformKind::Ipados => "com.apple.platform.iphonesimulator"@,
        PlatformKind::Watchos => "com.apple.platform.watchsimulator"@,
        PlatformKind::Tvos => "com.apple.platform.appletvsimulator"@,
        PlatformKind::Visionos => "com.apple.platform.visionossimulator"@,
        _ => ""@,
    }
}

/// The simulator platform identifier of a platform.
pub fn apple_simulator_platform_id(platform: PlatformKind) -> (r: &'static str)
    ensures
        r@ == simulator_platform_id(platform),
{
    match platform {
        PlatformKind::Ios | PlatformKind::Ipados => "com.apple.platform.iphonesimulator",
        PlatformKind::Watchos => "com.apple.platform.watchsimulator",
        PlatformKind::Tvos => "com.apple.platform.appletvsimulator",
        PlatformKind::Visionos => "com.apple.platform.visionossimulator",
        _ => "",
    }
}

/// The display name of an Apple platform; `Apple` for the others.
pub open spec fn apple_display_name(p: PlatformKind) -> Seq<char> {
    match p {
        PlatformKind::Ios => "iOS"@,
        PlatformKind::Ipados => "iPadOS"@,
        PlatformKind::Watchos => "watchOS"@,
        PlatformKind::Tvos => "tvOS"@,
        PlatformKind::Visionos => "visionOS"@,
        _ => "Apple"@,
    }
}

/// The display name of an Apple platform.
pub fn apple_platform_display_name(platform: PlatformKind) -> (r: &'static str)
    ensures
        r@ == apple_display_name(platform),
{
    match platform {
        PlatformKind::Ios => "iOS",
        PlatformKind::Ipados => "iPadOS",
        PlatformKind::Watchos => "watchOS",
        PlatformKind::Tvos => "tvOS",
        PlatformKind::Visionos => "visionOS",
        _ => "Apple",
    }
}

/// How the target of an Apple build is named while it builds: the
/// simulator's name and the platform's display name in brackets.
pub fn apple_target_label(device_name: &str, platform: PlatformKind) -> (r: String)
    ensures
        r@ == device_name@ + " ("@ + apple_display_name(platform) + ")"@,
{
    let mut r = String::from_str(device_name);
    r.append(" (");
    r.append(apple_platform_display_name(platform));
    r.append(")");
    r
}

/// The Android selection for a device named on the command line: the first
/// listed device whose identifier or name it is, or the error telling how
/// to list them.
pub fn resolve_android_selection(devices: &Vec<DeviceInfo>, name: &str) -> (r: Result<AndroidSelection, String>)
    ensures
        (exists|j: int| 0 <= j < devices@.len() && answers_to(#[trigger] devices@[j], name@)) <==> r is Ok,
        r matches Ok(sel) ==> exists|i: int| 0 <= i < devices@.len() && answers_to(devices@[i], name@)
            && (forall|j: int| 0 <= j < i ==> !answers_to(#[trigger] devices@[j], name@))
            && sel.name@ == devices@[i].name@ && sel.kind == devices@[i].kind
            && (devices@[i].kind == DeviceKind::Device ==> (sel.identifier matches Some(s) && s@ == devices@[i].identifier@))
            && (devices@[i].kind != DeviceKind::Device ==> sel.identifier is None),
        r matches Err(m) ==> m@ == "Android device or emulator '"@ + name@ + "' not found. Run `water devices` to list available targets."@,
{
    match find_device(devices, name) {
        Some(i) => Ok(selection_from_device_info(&devices[i])),
        None => {
            let mut m = String::from_str("Android device or emulator '");
            m.append(name);
            m.append("' not found. Run `water devices` to list available targets.");
            Err(m)
        },
    }
}

} // verus!
