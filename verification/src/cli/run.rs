//! Arguments of `run`.

use vstd::prelude::*;
use crate::run::CliLogLevel;
use crate::text::{decimal, decimal_string, str_eq};

verus! {

/// A platform `run` targets.
#[derive(Clone, Copy, Debug, PartialEq, Eq, Structural)]
pub enum TargetPlatform {
    Ios,
    Android,
    Macos,
}

/// The arguments of `run`.
pub struct Args {
    pub platform: TargetPlatform,
    pub device: Option<String>,
    pub no_hot_reload: bool,
    pub path: String,
    pub logs: Option<CliLogLevel>,
}

/// The name `run` shows for its target platform; iOS runs in the simulator.
pub fn platform_name(platform: TargetPlatform) -> (r: &'static str)
    ensures
        r@ == match platform {
            TargetPlatform::Ios => "iOS Simulator"@,
            TargetPlatform::Android => "Android"@,
            TargetPlatform::Macos => "macOS"@,
        },
{
    match platform {
        TargetPlatform::Ios => "iOS Simulator",
        TargetPlatform::Android => "Android",
        TargetPlatform::Macos => "macOS",
    }
}

/// The device `run` chose.
pub enum SelectedDevice {
    /// A simulator, by name.
    AppleSimulator(String),
    /// This Mac.
    AppleMacos,
    /// A connected Android device, by identifier.
    AndroidDevice(String),
    /// An Android emulator, by AVD name.
    AndroidEmulator(String),
}

/// How `run` names the device it uses.
pub fn device_name(device: &SelectedDevice) -> (r: String)
    ensures
        r@ == match device {
            SelectedDevice::AppleSimulator(n) => n@,
            SelectedDevice::AppleMacos => "Current Machine"@,
            SelectedDevice::AndroidDevice(id) => id@,
            SelectedDevice::AndroidEmulator(avd) => avd@ + " (emulator)"@,
        },
{
    match device {
        SelectedDevice::AppleSimulator(n) => n.clone(),
        SelectedDevice::AppleMacos => String::from_str("Current Machine"),
        SelectedDevice::AndroidDevice(id) => id.clone(),
        SelectedDevice::AndroidEmulator(avd) => {
            let mut r = avd.clone();
            r.append(" (emulator)");
            r
        },
    }
}

/// Whether a simulator, given by name, identifier and state, answers to an
/// identifier or name.
pub open spec fn sim_answers(sim: (Seq<char>, Seq<char>, Seq<char>), id: Seq<char>) -> bool {
    sim.1 == id || sim.0 == id
}

/// Picks the iOS simulator to run on, by position: the first one answering
/// to the wanted identifier or name; without one, the first booted
/// simulator, or else the first listed. Each simulator is given by name,
/// identifier and state.
pub fn choose_ios_simulator(sims: &Vec<(String, String, String)>, wanted: Option<&str>) -> (r: Result<usize, String>)
    ensures
        ({
            let sv = sims@.map_values(|d: (String, String, String)| (d.0@, d.1@, d.2@));
            match wanted {
                Some(id) => match r {
                    Ok(i) => i < sv.len() && sim_answers(sv[i as int], id@)
                        && forall|j: int| 0 <= j < i ==> !sim_answers(#[trigger] sv[j], id@),
                    Err(m) => m@ == "Device not found: "@ + id@
                        && forall|j: int| 0 <= j < sv.len() ==> !sim_answers(#[trigger] sv[j], id@),
                },
                None => match r {
                    Ok(i) => i < sv.len() && ((sv[i as int].2 == "Booted"@
                        && forall|j: int| 0 <= j < i ==> #[trigger] sv[j].2 != "Booted"@)
                        || (i == 0 && forall|j: int| 0 <= j < sv.len() ==> #[trigger] sv[j].2 != "Booted"@)),
                    Err(m) => m@ == "No iOS simulators available"@ && sv.len() == 0,
                },
            }
        }),
{
    let ghost sv = sims@.map_values(|d: (String, String, String)| (d.0@, d.1@, d.2@));
    match wanted {
        Some(id) => {
            let mut i: usize = 0;
            while i < sims.len()
                invariant
                    sv == sims@.map_values(|d: (String, String, String)| (d.0@, d.1@, d.2@)),
                    i <= sv.len(),
                    wanted == Some(id),
                    forall|j: int| 0 <= j < i ==> !sim_answers(#[trigger] sv[j], id@),
                decreases sv.len() - i,
            {
                if str_eq(sims[i].1.as_str(), id) || str_eq(sims[i].0.as_str(), id) {
                    assert(sim_answers(sv[i as int], id@));
                    return Ok(i);
                }
                assert(!sim_answers(sv[i as int], id@));
                i += 1;
            }
            let mut m = String::from_str("Device not found: ");
            m.append(id);
            Err(m)
        },
        None => {
            let mut i: usize = 0;
            while i < sims.len()
                invariant
                    sv == sims@.map_values(|d: (String, String, String)| (d.0@, d.1@, d.2@)),
                    i <= sv.len(),
                    wanted is None,
                    forall|j: int| 0 <= j < i ==> #[trigger] sv[j].2 != "Booted"@,
                decreases sv.len() - i,
            {
                if str_eq(sims[i].2.as_str(), "Booted") {
                    assert(sv[i as int].2 == "Booted"@);
                    return Ok(i);
                }
                assert(sv[i as int].2 != "Booted"@);
                i += 1;
            }
            if sims.len() > 0 {
                Ok(0)
            } else {
                Err(String::from_str("No iOS simulators available"))
            }
        },
    }
}

/// The Android target `run` picks.
#[derive(Clone, Copy, Debug, PartialEq, Eq, Structural)]
pub enum AndroidPick {
    /// A connected device, by position.
    Device(usize),
    /// An emulator image to launch, by position.
    Emulator(usize),
}

/// Picks the Android target: the connected device with the named serial;
/// or else the first connected device, or else the first emulator image.
pub fn choose_android_target(connected: &Vec<String>, avds: &Vec<String>, wanted: Option<&str>) -> (r: Result<AndroidPick, String>)
    ensures
        match wanted {
            Some(id) => (r matches Ok(AndroidPick::Device(i)) && i < connected@.len() && connected@[i as int]@ == id@
                    && forall|j: int| 0 <= j < i ==> (#[trigger] connected@[j])@ != id@)
                || (r matches Err(m) && m@ == "Device not found: "@ + id@
                    && forall|j: int| 0 <= j < connected@.len() ==> (#[trigger] connected@[j])@ != id@),
            None => if connected@.len() > 0 {
                r == Ok::<AndroidPick, String>(AndroidPick::Device(0))
            } else if avds@.len() > 0 {
                r == Ok::<AndroidPick, String>(AndroidPick::Emulator(0))
            } else {
                r matches Err(m) && m@ == "No Android devices connected and no emulators available. Create an emulator in Android Studio or connect a device."@
            },
        },
{
    match wanted {
        Some(id) => {
            let mut i: usize = 0;
            while i < connected.len()
                invariant
                    i <= connected@.len(),
                    wanted == Some(id),
                    forall|j: int| 0 <= j < i ==> (#[trigger] connected@[j])@ != id@,
                decreases connected@.len() - i,
            {
                if str_eq(connected[i].as_str(), id) {
                    return Ok(AndroidPick::Device(i));
                }
                i += 1;
            }
            let mut m = String::from_str("Device not found: ");
            m.append(id);
            Err(m)
        },
        None => {
            if connected.len() > 0 {
                Ok(AndroidPick::Device(0))
            } else if avds.len() > 0 {
                Ok(AndroidPick::Emulator(0))
            } else {
                Err(String::from_str("No Android devices connected and no emulators available. Create an emulator in Android Studio or connect a device."))
            }
        },
    }
}

/// What the app on a device reports while `run` watches it.
pub enum DeviceEvent {
    Started,
    Stopped,
    Stdout(String),
    Stderr(String),
    Log { level: String, message: String },
    Exited,
    Crashed(String),
}

/// How `run` shows a device event.
pub enum EventOutput {
    /// A status line with its symbol.
    Status(&'static str, String),
    /// A plain line.
    Line(String),
    /// A warning.
    Warn(String),
    /// A note.
    Note(String),
    /// An error.
    Error(String),
    /// A log line of the app, with its level.
    Log(String, String),
    /// Nothing (the event stream ended).
    Nothing,
}

/// Shows a device event, and tells whether watching stops: when the app
/// stopped, exited or crashed, or the events ended.
pub fn device_event_output(event: Option<DeviceEvent>) -> (r: (EventOutput, bool))
    ensures
        match event {
            Some(DeviceEvent::Started) => r.0 matches EventOutput::Status(icon, t) && icon@ == "●"@ && t@ == "Application started"@ && !r.1,
            Some(DeviceEvent::Stopped) => r.0 matches EventOutput::Status(icon, t) && icon@ == "○"@ && t@ == "Application stopped"@ && r.1,
            Some(DeviceEvent::Stdout(m)) => r.0 matches EventOutput::Line(t) && t@ == "[stdout] "@ + m@ && !r.1,
            Some(DeviceEvent::Stderr(m)) => r.0 matches EventOutput::Warn(t) && t@ == "[stderr] "@ + m@ && !r.1,
            Some(DeviceEvent::Log { level, message }) => r.0 matches EventOutput::Log(l, t) && l@ == level@ && t@ == message@ && !r.1,
            Some(DeviceEvent::Exited) => r.0 matches EventOutput::Note(t) && t@ == "Application exited"@ && r.1,
            Some(DeviceEvent::Crashed(m)) => r.0 matches EventOutput::Error(t) && t@ == "Application crashed: "@ + m@ && r.1,
            None => r.0 is Nothing && r.1,
        },
{
    match event {
        Some(DeviceEvent::Started) => (EventOutput::Status("●", String::from_str("Application started")), false),
        Some(DeviceEvent::Stopped) => (EventOutput::Status("○", String::from_str("Application stopped")), true),
        Some(DeviceEvent::Stdout(m)) => {
            let mut t = String::from_str("[stdout] ");
            t.append(m.as_str());
            (EventOutput::Line(t), false)
        },
        Some(DeviceEvent::Stderr(m)) => {
            let mut t = String::from_str("[stderr] ");
            t.append(m.as_str());
            (EventOutput::Warn(t), false)
        },
        Some(DeviceEvent::Log { level, message }) => (EventOutput::Log(level, message), false),
        Some(DeviceEvent::Exited) => (EventOutput::Note(String::from_str("Application exited")), true),
        Some(DeviceEvent::Crashed(m)) => {
            let mut t = String::from_str("Application crashed: ");
            t.append(m.as_str());
            (EventOutput::Error(t), true)
        },
        None => (EventOutput::Nothing, true),
    }
}

/// What the hot-reload server reports during `run`.
pub enum HotReloadEvent {
    ServerStarted { host: String, port: u16 },
    FileChanged,
    Rebuilding,
    Built(String),
    BuildFailed(String),
    Broadcast,
}

/// How `run` shows a hot-reload event.
pub fn hot_reload_event_output(event: HotReloadEvent) -> (r: EventOutput)
    ensures
        match event {
            HotReloadEvent::ServerStarted { host, port } => r matches EventOutput::Status(icon, t) && icon@ == "◉"@
                && t@ == "Hot reload server on "@ + host@ + ":"@ + decimal(port as nat),
            HotReloadEvent::FileChanged => r matches EventOutput::Status(icon, t) && icon@ == "◌"@ && t@ == "File changed, rebuilding..."@,
            HotReloadEvent::Rebuilding => r matches EventOutput::Status(icon, t) && icon@ == "◐"@ && t@ == "Building..."@,
            HotReloadEvent::Built(p) => r matches EventOutput::Status(icon, t) && icon@ == "◑"@ && t@ == "Built: "@ + p@,
            HotReloadEvent::BuildFailed(e) => r matches EventOutput::Error(t) && t@ == "Build failed: "@ + e@,
            HotReloadEvent::Broadcast => r matches EventOutput::Line(t) && t@ == "Hot reload: updated"@,
        },
{
    match event {
        HotReloadEvent::ServerStarted { host, port } => {
            let mut t = String::from_str("Hot reload server on ");
            t.append(host.as_str());
            t.append(":");
            t.append(decimal_string(port as u64).as_str());
            EventOutput::Status("◉", t)
        },
        HotReloadEvent::FileChanged => EventOutput::Status("◌", String::from_str("File changed, rebuilding...")),
        HotReloadEvent::Rebuilding => EventOutput::Status("◐", String::from_str("Building...")),
        HotReloadEvent::Built(p) => {
            let mut t = String::from_str("Built: ");
            t.append(p.as_str());
            EventOutput::Status("◑", t)
        },
        HotReloadEvent::BuildFailed(e) => {
            let mut t = String::from_str("Build failed: ");
            t.append(e.as_str());
            EventOutput::Error(t)
        },
        HotReloadEvent::Broadcast => EventOutput::Line(String::from_str("Hot reload: updated")),
    }
}

} // verus!
