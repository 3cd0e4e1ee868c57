//! Arguments of `devices`.

use vstd::prelude::*;
use crate::backend::starts_with;
use crate::devices::str_starts_with;
use crate::text::{str_eq, views};

verus! {

/// Which devices `devices` lists.
#[derive(Clone, Copy, Debug, PartialEq, Eq, Structural)]
pub enum TargetPlatform {
    Ios,
    Android,
    Macos,
    All,
}

/// The arguments of `devices`.
pub struct Args {
    pub platform: TargetPlatform,
}

/// On macOS the tool lists the machine itself.
pub fn display_macos_devices() -> (r: &'static str)
    ensures
        r@ == "Current Machine"@,
{
    "Current Machine"
}

/// Whether a simulator runtime of `simctl list` is an iOS one: its name
/// mentions `iOS`.
pub fn is_ios_runtime(runtime: &str) -> (r: bool)
    ensures
        r == crate::text::contains_seq(runtime@, "iOS"@),
{
    crate::text::contains_str(runtime, "iOS")
}

/// The line for one simulator: a filled dot when booted, its name and its
/// identifier.
pub open spec fn simulator_line(name: Seq<char>, udid: Seq<char>, state: Seq<char>) -> Seq<char> {
    "  "@ + (if state == "Booted"@ { "●"@ } else { "○"@ }) + " "@ + name + " ("@ + udid + ")"@
}

/// The lines listing the iOS simulators, each given by name, identifier
/// and state; a note when there is none.
pub fn ios_simulator_lines(sims: &Vec<(String, String, String)>) -> (r: Vec<String>)
    ensures
        sims@.len() == 0 ==> views(r@) == seq!["  No iOS simulators available"@],
        sims@.len() > 0 ==> views(r@) == sims@.map_values(|d: (String, String, String)| simulator_line(d.0@, d.1@, d.2@)),
{
    let mut r: Vec<String> = Vec::new();
    if sims.len() == 0 {
        r.push(String::from_str("  No iOS simulators available"));
        assert(views(r@) =~= seq!["  No iOS simulators available"@]);
        return r;
    }
    let mut i: usize = 0;
    while i < sims.len()
        invariant
            i <= sims@.len(),
            r@.len() == i,
            forall|j: int| 0 <= j < i ==> (#[trigger] r@[j])@ == simulator_line(sims@[j].0@, sims@[j].1@, sims@[j].2@),
        decreases sims@.len() - i,
    {
        let mut line = String::from_str("  ");
        line.append(if str_eq(sims[i].2.as_str(), "Booted") { "●" } else { "○" });
        line.append(" ");
        line.append(sims[i].0.as_str());
        line.append(" (");
        line.append(sims[i].1.as_str());
        line.append(")");
        r.push(line);
        i += 1;
    }
    assert(views(r@) =~= sims@.map_values(|d: (String, String, String)| simulator_line(d.0@, d.1@, d.2@)));
    r
}

/// Whether a connected Android device is an emulator, by its serial.
pub open spec fn emulator_serial(id: Seq<char>) -> bool {
    starts_with(id, "emulator-"@)
}

/// The lines listing Android targets: every emulator image, marked running
/// when any emulator is connected; then every connected physical device
/// with its ABI; a note when there is neither.
pub open spec fn android_lines(avds: Seq<Seq<char>>, connected: Seq<(Seq<char>, Seq<char>)>) -> Seq<Seq<char>> {
    let running = exists|k: int| 0 <= k < connected.len() && emulator_serial(#[trigger] connected[k].0);
    let icon = if running { "●"@ } else { "○"@ };
    let physical = connected.filter(|d: (Seq<char>, Seq<char>)| !emulator_serial(d.0));
    avds.map_values(|a: Seq<char>| "  "@ + icon + " "@ + a + " (emulator)"@)
        + physical.map_values(|d: (Seq<char>, Seq<char>)| "  ● "@ + d.0 + " ("@ + d.1 + ")"@)
        + (if avds.len() == 0 && connected.len() == 0 { seq!["  No Android devices or emulators available"@] } else { Seq::empty() })
}

/// The lines listing Android emulator images and connected devices, each
/// device given by serial and ABI.
pub fn android_device_lines(avds: &Vec<String>, connected: &Vec<(String, String)>) -> (r: Vec<String>)
    ensures
        views(r@) == android_lines(views(avds@), connected@.map_values(|d: (String, String)| (d.0@, d.1@))),
{
    let ghost cv = connected@.map_values(|d: (String, String)| (d.0@, d.1@));
    let mut running = false;
    let mut k: usize = 0;
    while k < connected.len()
        invariant
            cv == connected@.map_values(|d: (String, String)| (d.0@, d.1@)),
            k <= connected@.len(),
            running <==> exists|j: int| 0 <= j < k && emulator_serial(#[trigger] cv[j].0),
        decreases connected@.len() - k,
    {
        if str_starts_with(connected[k].0.as_str(), "emulator-") {
            assert(emulator_serial(cv[k as int].0));
            running = true;
        }
        k += 1;
    }
    let icon = if running { "●" } else { "○" };
    let mut r: Vec<String> = Vec::new();
    let mut i: usize = 0;
    while i < avds.len()
        invariant
            i <= avds@.len(),
            r@.len() == i,
            forall|j: int| 0 <= j < i ==> (#[trigger] r@[j])@ == "  "@ + icon@ + " "@ + avds@[j]@ + " (emulator)"@,
        decreases avds@.len() - i,
    {
        let mut line = String::from_str("  ");
        line.append(icon);
        line.append(" ");
        line.append(avds[i].as_str());
        line.append(" (emulator)");
        r.push(line);
        i += 1;
    }
    assert(views(r@) =~= views(avds@).map_values(|a: Seq<char>| "  "@ + icon@ + " "@ + a + " (emulator)"@));
    let ghost head = views(r@);
    let mut m: usize = 0;
    while m < connected.len()
        invariant
            cv == connected@.map_values(|d: (String, String)| (d.0@, d.1@)),
            m <= connected@.len(),
            views(r@) == head + cv.take(m as int).filter(|d: (Seq<char>, Seq<char>)| !emulator_serial(d.0))
                .map_values(|d: (Seq<char>, Seq<char>)| "  ● "@ + d.0 + " ("@ + d.1 + ")"@),
        decreases connected@.len() - m,
    {
        proof {
            let t = cv.take(m + 1);
            assert(t.drop_last() =~= cv.take(m as int));
            assert(t.last() == cv[m as int]);
            reveal(Seq::filter);
        }
        if !str_starts_with(connected[m].0.as_str(), "emulator-") {
            let ghost before = views(r@);
            let mut line = String::from_str("  ● ");
            line.append(connected[m].0.as_str());
            line.append(" (");
            line.append(connected[m].1.as_str());
            line.append(")");
            r.push(line);
            assert(views(r@) =~= before.push("  ● "@ + cv[m as int].0 + " ("@ + cv[m as int].1 + ")"@));
            assert(cv.take(m + 1).filter(|d: (Seq<char>, Seq<char>)| !emulator_serial(d.0))
                =~= cv.take(m as int).filter(|d: (Seq<char>, Seq<char>)| !emulator_serial(d.0)).push(cv[m as int]));
        } else {
            assert(cv.take(m + 1).filter(|d: (Seq<char>, Seq<char>)| !emulator_serial(d.0))
                =~= cv.take(m as int).filter(|d: (Seq<char>, Seq<char>)| !emulator_serial(d.0)));
        }
        m += 1;
    }
    assert(cv.take(m as int) =~= cv);
    if avds.len() == 0 && connected.len() == 0 {
        let ghost before = views(r@);
        r.push(String::from_str("  No Android devices or emulators available"));
        assert(views(r@) =~= before + seq!["  No Android devices or emulators available"@]);
    } else {
        assert(views(r@) =~= views(r@) + Seq::<Seq<char>>::empty());
    }
    r
}

} // verus!
