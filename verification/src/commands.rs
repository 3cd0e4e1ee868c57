//! Arguments and reports of the tool's commands, and the decisions the
//! commands make between reading their inputs and acting: which platforms to
//! package, what `clean` removes and reports, what a permission change does,
//! and which device a screenshot is taken from.

use vstd::prelude::*;
use crate::backend::{backend_label, opt_text, starts_with, BackendChoice};
use crate::devices::{answers_to, str_starts_with, DeviceInfo};
use crate::paths::{pushed, push_path};
use crate::run::CheckTarget;
use crate::text::{decimal, decimal_string, trim_str, trimmed, chars_of, signed_decimal, signed_decimal_string, str_eq, string_of, views};

verus! {

fn joined_path(dir: &str, name: &str) -> (r: String)
    ensures
        r@ == pushed(dir@, name@),
{
    let mut buf = chars_of(dir);
    let n = chars_of(name);
    push_path(&mut buf, &n);
    string_of(&buf)
}

/// A platform `package` can produce an artifact for.
#[derive(Clone, Copy, Debug, PartialEq, Eq, Structural)]
pub enum PackagePlatform {
    Android,
    Ios,
}

impl PackagePlatform {
    /// The platform's display name.
    pub fn display_name(self) -> (r: &'static str)
        ensures
            r@ == (if self == PackagePlatform::Android { "Android"@ } else { "iOS"@ }),
    {
        match self {
            PackagePlatform::Android => "Android",
            PackagePlatform::Ios => "iOS",
        }
    }
}

/// The arguments of `package`.
pub struct PackageArgs {
    pub platform: Option<PackagePlatform>,
    pub all: bool,
    pub project: Option<String>,
    pub release: bool,
    pub skip_native: bool,
}

/// One packaged artifact.
pub struct PackageArtifact {
    pub platform: String,
    pub path: String,
}

/// What `package` produced.
pub struct PackageReport {
    pub project_dir: String,
    pub release: bool,
    pub skip_native: bool,
    pub artifacts: Vec<PackageArtifact>,
}

/// The platforms a project can be packaged for: Android, then iOS, each
/// when its backend is configured.
pub open spec fn packageable(android: bool, apple: bool) -> Seq<PackagePlatform> {
    (if android { seq![PackagePlatform::Android] } else { Seq::empty() })
        + (if apple { seq![PackagePlatform::Ios] } else { Seq::empty() })
}

/// The platforms a project can be packaged for.
pub fn available_platforms(android_configured: bool, apple_configured: bool) -> (r: Vec<PackagePlatform>)
    ensures
        r@ == packageable(android_configured, apple_configured),
{
    let mut r: Vec<PackagePlatform> = Vec::new();
    if android_configured {
        r.push(PackagePlatform::Android);
    }
    if apple_configured {
        r.push(PackagePlatform::Ios);
    }
    assert(r@ =~= packageable(android_configured, apple_configured));
    r
}

/// Which platforms `package` builds.
pub enum PackageSelection {
    /// These platforms, without asking.
    Platforms(Vec<PackagePlatform>),
    /// The user picks one of these.
    Prompt(Vec<PackagePlatform>),
}

/// Decides which platforms to package: all of them with `--all`, the
/// requested one if it is configured, otherwise a prompt, which JSON output
/// does not allow.
pub fn select_package_platforms(all: bool, platform: Option<PackagePlatform>, android_configured: bool, apple_configured: bool, json: bool)
    -> (r: Result<PackageSelection, String>)
    ensures
        all && platform is Some ==> (r matches Err(m) && m@ == "Cannot specify a platform when using --all"@),
        !(all && platform is Some) && !android_configured && !apple_configured ==> (r matches Err(m)
            && m@ == "No packageable platforms configured. Add a backend in Water.toml or run 'water add-backend'."@),
        !(all && platform is Some) && (android_configured || apple_configured) ==> {
            let avail = packageable(android_configured, apple_configured);
            if all {
                r matches Ok(PackageSelection::Platforms(v)) && v@ == avail
            } else {
                match platform {
                    Some(p) => if avail.contains(p) {
                        r matches Ok(PackageSelection::Platforms(v)) && v@ == seq![p]
                    } else {
                        r matches Err(m) && m@ == (if p == PackagePlatform::Android { "Android"@ } else { "iOS"@ })
                            + " backend not configured for this project. Add it to Water.toml or recreate the project with this backend."@
                    },
                    None => if json {
                        r matches Err(m) && m@ == "JSON output requires specifying --platform or --all to avoid interactive prompts."@
                    } else {
                        r matches Ok(PackageSelection::Prompt(v)) && v@ == avail
                    },
                }
            }
        },
{
    if all && platform.is_some() {
        return Err(String::from_str("Cannot specify a platform when using --all"));
    }
    let available = available_platforms(android_configured, apple_configured);
    if available.len() == 0 {
        return Err(String::from_str("No packageable platforms configured. Add a backend in Water.toml or run 'water add-backend'."));
    }
    if all {
        return Ok(PackageSelection::Platforms(available));
    }
    match platform {
        Some(p) => {
            let configured = match p {
                PackagePlatform::Android => android_configured,
                PackagePlatform::Ios => apple_configured,
            };
            proof {
                let avail = packageable(android_configured, apple_configured);
                if configured {
                    if p == PackagePlatform::Android {
                        assert(avail[0] == p);
                    } else {
                        assert(avail[avail.len() - 1] == p);
                    }
                } else {
                    assert forall|i: int| 0 <= i < avail.len() implies avail[i] != p by {}
                }
            }
            if configured {
                let mut v: Vec<PackagePlatform> = Vec::new();
                v.push(p);
                assert(v@ =~= seq![p]);
                Ok(PackageSelection::Platforms(v))
            } else {
                let mut m = String::from_str(p.display_name());
                m.append(" backend not configured for this project. Add it to Water.toml or recreate the project with this backend.");
                Err(m)
            }
        },
        None => {
            if json {
                Err(String::from_str("JSON output requires specifying --platform or --all to avoid interactive prompts."))
            } else {
                Ok(PackageSelection::Prompt(available))
            }
        },
    }
}

/// The arguments of `doctor`.
pub struct DoctorArgs {
    pub fix: bool,
}

/// The overall verdict of `doctor`.
#[derive(Clone, Copy, Debug, PartialEq, Eq, Structural)]
pub enum DoctorStatus {
    Pass,
    Warn,
    Fail,
}

/// The verdict from the findings: any failure fails, otherwise any warning
/// warns, otherwise everything passes.
pub fn doctor_status(has_failures: bool, has_warnings: bool) -> (r: DoctorStatus)
    ensures
        r == (if has_failures { DoctorStatus::Fail } else if has_warnings { DoctorStatus::Warn } else { DoctorStatus::Pass }),
{
    if has_failures {
        DoctorStatus::Fail
    } else if has_warnings {
        DoctorStatus::Warn
    } else {
        DoctorStatus::Pass
    }
}

/// The toolchains the doctor checks: Rust, Swift on macOS, and Android.
pub fn doctor_targets(on_macos: bool) -> (r: Vec<CheckTarget>)
    ensures
        r@ == seq![CheckTarget::Rust] + (if on_macos { seq![CheckTarget::Swift] } else { Seq::empty() }) + seq![CheckTarget::Android],
{
    let mut r: Vec<CheckTarget> = Vec::new();
    r.push(CheckTarget::Rust);
    if on_macos {
        r.push(CheckTarget::Swift);
    }
    r.push(CheckTarget::Android);
    assert(r@ =~= seq![CheckTarget::Rust] + (if on_macos { seq![CheckTarget::Swift] } else { Seq::<CheckTarget>::empty() }) + seq![CheckTarget::Android]);
    r
}

/// How the doctor applies fixes.
#[derive(Clone, Copy, Debug, PartialEq, Eq, Structural)]
pub enum FixMode {
    /// Without asking, as `--fix` requests.
    Automatic,
    /// After the user agreed.
    Interactive,
}

/// What the doctor does after its checks.
#[derive(Clone, Copy, Debug, PartialEq, Eq, Structural)]
pub enum DoctorFollowUp {
    /// Apply the fixes in this mode.
    Fix(FixMode),
    /// Ask whether to fix (a terminal is there and `--fix` was not given).
    Ask,
    /// Report that nothing needs fixing, with an empty list of applied fixes.
    NothingToFix,
    /// Do nothing more.
    Done,
}

/// The doctor's next step: fix automatically on `--fix` when something
/// failed, ask when a terminal is there, say there is nothing to fix when
/// `--fix` was given and all passed.
pub fn doctor_follow_up(has_failures: bool, fix: bool, is_json: bool) -> (r: DoctorFollowUp)
    ensures
        r == (if has_failures {
            if fix { DoctorFollowUp::Fix(FixMode::Automatic) } else if !is_json { DoctorFollowUp::Ask } else { DoctorFollowUp::Done }
        } else if fix {
            DoctorFollowUp::NothingToFix
        } else {
            DoctorFollowUp::Done
        }),
{
    if has_failures {
        if fix {
            DoctorFollowUp::Fix(FixMode::Automatic)
        } else if !is_json {
            DoctorFollowUp::Ask
        } else {
            DoctorFollowUp::Done
        }
    } else if fix {
        DoctorFollowUp::NothingToFix
    } else {
        DoctorFollowUp::Done
    }
}

/// The progress label of a doctor step: its number out of the total, and
/// what it checks.
pub fn progress_label(step: u64, total: u64, message: &str) -> (r: String)
    ensures
        r@ == "["@ + decimal(step as nat) + "/"@ + decimal(total as nat) + "] "@ + message@,
{
    let mut r = String::from_str("[");
    r.append(decimal_string(step).as_str());
    r.append("/");
    r.append(decimal_string(total).as_str());
    r.append("] ");
    r.append(message);
    r
}

/// The arguments of `devices`, which take none.
pub struct DevicesArgs {}

/// What `add-backend` reports.
pub struct AddBackendReport {
    pub project_dir: String,
    pub backend: String,
    pub using_dev_dependencies: bool,
    pub config_path: String,
}

/// Refuses to add a backend the project already has.
pub fn check_backend_absent(choice: BackendChoice, present: bool) -> (r: Result<(), String>)
    ensures
        present <==> r is Err,
        r matches Err(m) ==> m@ == backend_label(choice) + " backend already exists in this project."@,
{
    if present {
        let mut m = String::from_str(choice.label());
        m.append(" backend already exists in this project.");
        Err(m)
    } else {
        Ok(())
    }
}

/// The hot-reload watch list with `path` added at the end unless it is
/// already there.
pub fn with_watch_path(watch: &Vec<String>, path: &str) -> (r: Vec<String>)
    ensures
        views(watch@).contains(path@) ==> views(r@) == views(watch@),
        !views(watch@).contains(path@) ==> views(r@) == views(watch@).push(path@),
{
    let mut found = false;
    let mut i: usize = 0;
    while i < watch.len()
        invariant
            i <= watch@.len(),
            found <==> exists|j: int| 0 <= j < i && #[trigger] views(watch@)[j] == path@,
        decreases watch@.len() - i,
    {
        if str_eq(watch[i].as_str(), path) {
            assert(views(watch@)[i as int] == path@);
            found = true;
        }
        i += 1;
    }
    let mut r: Vec<String> = Vec::new();
    let mut k: usize = 0;
    while k < watch.len()
        invariant
            k <= watch@.len(),
            views(r@) == views(watch@).take(k as int),
        decreases watch@.len() - k,
    {
        let ghost before = views(r@);
        let e = watch[k].clone();
        r.push(e);
        assert(views(r@) =~= before.push(views(watch@)[k as int]));
        k += 1;
        assert(views(watch@).take(k as int) =~= before.push(views(watch@)[k - 1]));
    }
    assert(views(watch@).take(k as int) =~= views(watch@));
    if found {
        proof {
            let j = choose|j: int| 0 <= j < i && #[trigger] views(watch@)[j] == path@;
            assert(views(watch@)[j] == path@);
        }
        r
    } else {
        proof {
            if views(watch@).contains(path@) {
                let j = choose|j: int| 0 <= j < views(watch@).len() && views(watch@)[j] == path@;
                assert(views(watch@)[j] == path@);
            }
        }
        r.push(String::from_str(path));
        r
    }
}

/// The arguments of `clean`.
pub struct CleanArgs {
    pub yes: bool,
}

/// What a clean-up step does.
pub enum ActionKind {
    /// Runs a program with arguments, in a directory if one is given.
    Command { program: String, args: Vec<String>, workdir: Option<String> },
    /// Removes a directory.
    RemoveDir(String),
}

/// A clean-up step and its description.
pub struct Action {
    pub description: String,
    pub kind: ActionKind,
}

impl Action {
    /// A step that runs a program.
    pub fn command(description: String, program: &str, args: Vec<String>, workdir: Option<String>) -> (r: Action)
        ensures
            r.description@ == description@,
            r.kind matches ActionKind::Command { program: p, args: a, workdir: w }
                && p@ == program@ && views(a@) == views(args@) && opt_text(w) == opt_text(workdir),
    {
        Action { description, kind: ActionKind::Command { program: String::from_str(program), args, workdir } }
    }

    /// A step that removes a directory.
    pub fn remove_dir(description: String, path: String) -> (r: Action)
        ensures
            r.description@ == description@,
            r.kind matches ActionKind::RemoveDir(p) && p@ == path@,
    {
        Action { description, kind: ActionKind::RemoveDir(path) }
    }
}

/// The directories `clean` removes: the Android and demo Apple build outputs
/// in the workspace, then Gradle's caches in the home directory and, on
/// macOS, Xcode's derived data.
pub open spec fn clean_directories(workspace: Seq<char>, home: Option<Seq<char>>, on_macos: bool) -> Seq<Seq<char>> {
    seq![
        pushed(workspace, "backends/android/build"@),
        pushed(workspace, "backends/android/.gradle"@),
        pushed(workspace, "backends/android/runtime/build"@),
        pushed(workspace, "backends/android/runtime/.cxx"@),
        pushed(workspace, "demo/apple/build"@),
        pushed(workspace, "demo/apple/DerivedData"@),
        pushed(workspace, "demo/apple/.swiftpm"@),
    ] + match home {
        Some(h) => seq![
            pushed(h, ".gradle/caches"@),
            pushed(h, ".gradle/daemon"@),
            pushed(h, ".gradle/native"@),
            pushed(h, ".gradle/buildOutputCleanup"@),
            pushed(h, ".gradle/notifications"@),
        ] + (if on_macos { seq![pushed(h, "Library/Developer/Xcode/DerivedData"@)] } else { Seq::empty() }),
        None => Seq::empty(),
    }
}

fn push_under(dirs: &mut Vec<String>, base: &str, rel: &str)
    ensures
        views(final(dirs)@) == views(old(dirs)@).push(pushed(base@, rel@)),
{
    dirs.push(joined_path(base, rel));
    assert(views(dirs@) =~= views(old(dirs)@).push(pushed(base@, rel@)));
}

/// The clean-up steps: `cargo clean` in the workspace, then the removal of
/// each directory.
pub fn build_actions(workspace: &str, home: &Option<String>, on_macos: bool) -> (r: Vec<Action>)
    ensures
        r@.len() == clean_directories(workspace@, opt_text(*home), on_macos).len() + 1,
        r@[0].description@ == "Run `cargo clean` in "@ + workspace@,
        r@[0].kind matches ActionKind::Command { program, args, workdir }
            && program@ == "cargo"@ && views(args@) == seq!["clean"@] && opt_text(workdir) == Some(workspace@),
        forall|i: int| 1 <= i < r@.len() ==> {
            let d = clean_directories(workspace@, opt_text(*home), on_macos)[i - 1];
            &&& (#[trigger] r@[i]).description@ == "Remove "@ + d
            &&& r@[i].kind matches ActionKind::RemoveDir(p) && p@ == d
        },
{
    let mut dirs: Vec<String> = Vec::new();
    push_under(&mut dirs, workspace, "backends/android/build");
    push_under(&mut dirs, workspace, "backends/android/.gradle");
    push_under(&mut dirs, workspace, "backends/android/runtime/build");
    push_under(&mut dirs, workspace, "backends/android/runtime/.cxx");
    push_under(&mut dirs, workspace, "demo/apple/build");
    push_under(&mut dirs, workspace, "demo/apple/DerivedData");
    push_under(&mut dirs, workspace, "demo/apple/.swiftpm");
    if let Some(h) = home {
        push_under(&mut dirs, h.as_str(), ".gradle/caches");
        push_under(&mut dirs, h.as_str(), ".gradle/daemon");
        push_under(&mut dirs, h.as_str(), ".gradle/native");
        push_under(&mut dirs, h.as_str(), ".gradle/buildOutputCleanup");
        push_under(&mut dirs, h.as_str(), ".gradle/notifications");
        if on_macos {
            push_under(&mut dirs, h.as_str(), "Library/Developer/Xcode/DerivedData");
        }
    }
    let ghost cd = clean_directories(workspace@, opt_text(*home), on_macos);
    assert(views(dirs@) =~= cd);
    let mut actions: Vec<Action> = Vec::new();
    let mut description = String::from_str("Run `cargo clean` in ");
    description.append(workspace);
    let mut args: Vec<String> = Vec::new();
    args.push(String::from_str("clean"));
    assert(views(args@) =~= seq!["clean"@]);
    actions.push(Action::command(description, "cargo", args, Some(String::from_str(workspace))));
    let mut i: usize = 0;
    while i < dirs.len()
        invariant
            i <= dirs@.len(),
            views(dirs@) == cd,
            actions@.len() == i + 1,
            actions@[0].description@ == "Run `cargo clean` in "@ + workspace@,
            actions@[0].kind matches ActionKind::Command { program, args, workdir }
                && program@ == "cargo"@ && views(args@) == seq!["clean"@] && opt_text(workdir) == Some(workspace@),
            forall|k: int| 1 <= k < actions@.len() ==> {
                &&& (#[trigger] actions@[k]).description@ == "Remove "@ + cd[k - 1]
                &&& actions@[k].kind matches ActionKind::RemoveDir(p) && p@ == cd[k - 1]
            },
        decreases dirs@.len() - i,
    {
        let mut d = String::from_str("Remove ");
        d.append(dirs[i].as_str());
        actions.push(Action::remove_dir(d, dirs[i].clone()));
        i += 1;
    }
    actions
}

/// The overall outcome of `clean`.
#[derive(Clone, Copy, Debug, PartialEq, Eq, Structural)]
pub enum CleanStatus {
    /// Every step succeeded.
    Completed,
    Error,
    Noop,
    PendingConfirmation,
}

/// The outcome of one step.
#[derive(Clone, Copy, Debug, PartialEq, Eq, Structural)]
pub enum CleanActionResult {
    Done,
    Removed,
    Skipped,
    Error,
    Pending,
}

/// One step of `clean` as reported.
pub struct CleanActionReport {
    pub description: String,
    pub result: CleanActionResult,
    pub detail: Option<String>,
    pub error: Option<String>,
}

/// What `clean` reports.
pub struct CleanReport {
    pub status: CleanStatus,
    pub workspace: String,
    pub actions: Vec<CleanActionReport>,
    pub errors: Vec<String>,
}

/// What executing a step gave.
pub enum ActionOutcome {
    /// A command ran successfully.
    Done,
    /// A directory was removed.
    Removed(Option<String>),
    /// Nothing was there to remove.
    Skipped(String),
    /// The step failed with this message.
    Failed(String),
}

/// What `clean` does with its steps.
#[derive(Clone, Copy, Debug, PartialEq, Eq, Structural)]
pub enum CleanStep {
    /// Report the steps and wait for confirmation; nothing runs.
    AskFirst,
    /// Run every step.
    RunAll,
}

/// Decides whether `clean` runs its steps: with `--yes`, or in JSON mode
/// where nobody can be asked, it runs them; otherwise it lists them and
/// waits. With no step at all there is nothing to run either way.
pub fn clean_step(action_count: usize, yes: bool, is_json: bool) -> (r: CleanStep)
    ensures
        r == (if action_count > 0 && (yes || is_json) { CleanStep::RunAll } else { CleanStep::AskFirst }),
{
    if action_count > 0 && (yes || is_json) {
        CleanStep::RunAll
    } else {
        CleanStep::AskFirst
    }
}

/// The report of `clean` before anything runs: nothing to do, or the steps
/// waiting for confirmation.
pub fn pending_report(workspace: &str, actions: &Vec<Action>) -> (r: CleanReport)
    ensures
        r.workspace@ == workspace@,
        r.errors@.len() == 0,
        actions@.len() == 0 ==> r.status == CleanStatus::Noop && r.actions@.len() == 0,
        actions@.len() > 0 ==> r.status == CleanStatus::PendingConfirmation && r.actions@.len() == actions@.len(),
        forall|i: int| 0 <= i < r.actions@.len() ==> (#[trigger] r.actions@[i]).description@ == actions@[i].description@
            && r.actions@[i].result == CleanActionResult::Pending && r.actions@[i].detail is None && r.actions@[i].error is None,
{
    let mut reports: Vec<CleanActionReport> = Vec::new();
    let mut i: usize = 0;
    while i < actions.len()
        invariant
            i <= actions@.len(),
            reports@.len() == i,
            forall|k: int| 0 <= k < i ==> (#[trigger] reports@[k]).description@ == actions@[k].description@
                && reports@[k].result == CleanActionResult::Pending && reports@[k].detail is None && reports@[k].error is None,
        decreases actions@.len() - i,
    {
        reports.push(CleanActionReport { description: actions[i].description.clone(), result: CleanActionResult::Pending, detail: None, error: None });
        i += 1;
    }
    let status = if actions.len() == 0 { CleanStatus::Noop } else { CleanStatus::PendingConfirmation };
    CleanReport { status, workspace: String::from_str(workspace), actions: reports, errors: Vec::new() }
}

/// The reported form of one executed step.
pub open spec fn step_report(description: Seq<char>, outcome: ActionOutcome, rep: CleanActionReport) -> bool {
    &&& rep.description@ == description
    &&& match outcome {
        ActionOutcome::Done => rep.result == CleanActionResult::Done && rep.detail is None && rep.error is None,
        ActionOutcome::Removed(d) => rep.result == CleanActionResult::Removed && opt_text(rep.detail) == opt_text(d) && rep.error is None,
        ActionOutcome::Skipped(reason) => rep.result == CleanActionResult::Skipped && opt_text(rep.detail) == Some(reason@) && rep.error is None,
        ActionOutcome::Failed(m) => rep.result == CleanActionResult::Error && rep.detail is None && opt_text(rep.error) == Some(m@),
    }
}

/// The messages of the failed steps, in order.
pub open spec fn failure_messages(outcomes: Seq<ActionOutcome>) -> Seq<Seq<char>>
    decreases outcomes.len(),
{
    if outcomes.len() == 0 {
        Seq::empty()
    } else {
        let earlier = failure_messages(outcomes.drop_last());
        match outcomes.last() {
            ActionOutcome::Failed(m) => earlier.push(m@),
            _ => earlier,
        }
    }
}

/// The report of `clean` after running every step: one entry per step, the
/// failure messages collected, and success only when nothing failed.
pub fn executed_report(workspace: &str, descriptions: &Vec<String>, outcomes: Vec<ActionOutcome>) -> (r: CleanReport)
    requires
        descriptions@.len() == outcomes@.len(),
    ensures
        r.workspace@ == workspace@,
        r.actions@.len() == outcomes@.len(),
        forall|i: int| 0 <= i < r.actions@.len() ==> step_report(descriptions@[i]@, outcomes@[i], #[trigger] r.actions@[i]),
        views(r.errors@) == failure_messages(outcomes@),
        r.status == (if r.errors@.len() == 0 { CleanStatus::Completed } else { CleanStatus::Error }),
{
    let mut reports: Vec<CleanActionReport> = Vec::new();
    let mut errors: Vec<String> = Vec::new();
    let mut i: usize = 0;
    while i < outcomes.len()
        invariant
            descriptions@.len() == outcomes@.len(),
            i <= outcomes@.len(),
            reports@.len() == i,
            forall|k: int| 0 <= k < i ==> step_report(descriptions@[k]@, outcomes@[k], #[trigger] reports@[k]),
            views(errors@) == failure_messages(outcomes@.take(i as int)),
        decreases outcomes@.len() - i,
    {
        proof {
            assert(outcomes@.take(i + 1).drop_last() =~= outcomes@.take(i as int));
        }
        let description = descriptions[i].clone();
        let rep = match &outcomes[i] {
            ActionOutcome::Done => CleanActionReport { description, result: CleanActionResult::Done, detail: None, error: None },
            ActionOutcome::Removed(d) => CleanActionReport {
                description,
                result: CleanActionResult::Removed,
                detail: match d { Some(x) => Some(x.clone()), None => None },
                error: None,
            },
            ActionOutcome::Skipped(reason) => CleanActionReport { description, result: CleanActionResult::Skipped, detail: Some(reason.clone()), error: None },
            ActionOutcome::Failed(m) => {
                let ghost before = views(errors@);
                errors.push(m.clone());
                assert(views(errors@) =~= before.push(m@));
                CleanActionReport { description, result: CleanActionResult::Error, detail: None, error: Some(m.clone()) }
            },
        };
        reports.push(rep);
        i += 1;
    }
    assert(outcomes@.take(i as int) =~= outcomes@);
    let status = if errors.len() == 0 { CleanStatus::Completed } else { CleanStatus::Error };
    CleanReport { status, workspace: String::from_str(workspace), actions: reports, errors }
}

/// The error of a command that exited unsuccessfully: its exit code, or
/// `signal` when a signal ended it.
pub fn command_failure_message(program: &str, code: Option<i32>) -> (r: String)
    ensures
        r@ == "`"@ + program@ + "` exited with status "@ + match code {
            Some(c) => signal_free(c as int),
            None => "signal"@,
        },
{
    let mut m = String::from_str("`");
    m.append(program);
    m.append("` exited with status ");
    match code {
        Some(c) => {
            let t = signed_decimal_string(c as i64);
            m.append(t.as_str());
        },
        None => {
            m.append("signal");
        },
    }
    m
}

/// An exit code in decimal.
pub open spec fn signal_free(c: int) -> Seq<char> {
    signed_decimal(c)
}

/// Whether a permission change did something.
#[derive(Clone, Copy, Debug, PartialEq, Eq, Structural)]
pub enum PermissionStatus {
    Added,
    AlreadyExists,
    Removed,
    NotFound,
}

/// The outcome of adding or removing a permission.
pub struct AddPermissionReport {
    pub permission: String,
    pub status: PermissionStatus,
    pub description: Option<String>,
    pub message: Option<String>,
}

impl AddPermissionReport {
    /// The report as it is displayed.
    pub fn to_text(&self) -> (r: String)
        ensures
            r@ == match self.status {
                PermissionStatus::Added => "Added permission: "@ + self.permission@,
                PermissionStatus::AlreadyExists => "Permission "@ + self.permission@ + " already exists"@,
                PermissionStatus::Removed => "Removed permission: "@ + self.permission@,
                PermissionStatus::NotFound => "Permission "@ + self.permission@ + " not found"@,
            },
    {
        match self.status {
            PermissionStatus::Added => {
                let mut r = String::from_str("Added permission: ");
                r.append(self.permission.as_str());
                r
            },
            PermissionStatus::AlreadyExists => {
                let mut r = String::from_str("Permission ");
                r.append(self.permission.as_str());
                r.append(" already exists");
                r
            },
            PermissionStatus::Removed => {
                let mut r = String::from_str("Removed permission: ");
                r.append(self.permission.as_str());
                r
            },
            PermissionStatus::NotFound => {
                let mut r = String::from_str("Permission ");
                r.append(self.permission.as_str());
                r.append(" not found");
                r
            },
        }
    }
}

/// The outcome of `permission add`, given whether the project is a
/// playground, whether the name is a known permission and whether it is
/// already configured; on `Added` the permission is to be recorded.
pub fn permission_add_outcome(is_playground: bool, known: bool, already_configured: bool, permission: &str, description: Option<String>)
    -> (r: Result<AddPermissionReport, String>)
    ensures
        !is_playground ==> (r matches Err(m) && m@ == "Permission management is only available for playground projects.\n\nFor regular app projects, configure permissions directly in:\n• iOS: Info.plist\n• Android: AndroidManifest.xml"@),
        is_playground && !known ==> (r matches Err(m) && m@ == "Unknown permission '"@ + permission@ + "'. Run `water permission available` to see valid options."@),
        is_playground && known && already_configured ==> (r matches Ok(rep) && rep.permission@ == permission@
            && rep.status == PermissionStatus::AlreadyExists && rep.description is None
            && opt_text(rep.message) == Some("Permission is already configured"@)),
        is_playground && known && !already_configured ==> (r matches Ok(rep) && rep.permission@ == permission@
            && rep.status == PermissionStatus::Added && opt_text(rep.description) == opt_text(description) && rep.message is None),
{
    if !is_playground {
        return Err(String::from_str("Permission management is only available for playground projects.\n\nFor regular app projects, configure permissions directly in:\n• iOS: Info.plist\n• Android: AndroidManifest.xml"));
    }
    if !known {
        let mut m = String::from_str("Unknown permission '");
        m.append(permission);
        m.append("'. Run `water permission available` to see valid options.");
        return Err(m);
    }
    if already_configured {
        return Ok(AddPermissionReport {
            permission: String::from_str(permission),
            status: PermissionStatus::AlreadyExists,
            description: None,
            message: Some(String::from_str("Permission is already configured")),
        });
    }
    Ok(AddPermissionReport { permission: String::from_str(permission), status: PermissionStatus::Added, description, message: None })
}

/// The outcome of `permission remove`, given whether the project is a
/// playground and whether the permission was configured (and is now removed).
pub fn permission_remove_outcome(is_playground: bool, removed: bool, permission: &str) -> (r: Result<AddPermissionReport, String>)
    ensures
        !is_playground ==> (r matches Err(m) && m@ == "Permission management is only available for playground projects."@),
        is_playground && !removed ==> (r matches Ok(rep) && rep.permission@ == permission@ && rep.status == PermissionStatus::NotFound
            && rep.description is None && opt_text(rep.message) == Some("Permission was not configured"@)),
        is_playground && removed ==> (r matches Ok(rep) && rep.permission@ == permission@ && rep.status == PermissionStatus::Removed
            && rep.description is None && rep.message is None),
{
    if !is_playground {
        return Err(String::from_str("Permission management is only available for playground projects."));
    }
    if !removed {
        return Ok(AddPermissionReport {
            permission: String::from_str(permission),
            status: PermissionStatus::NotFound,
            description: None,
            message: Some(String::from_str("Permission was not configured")),
        });
    }
    Ok(AddPermissionReport { permission: String::from_str(permission), status: PermissionStatus::Removed, description: None, message: None })
}

/// An Android manifest permission without its `android.permission.` prefix.
pub fn short_android_permission(name: &str) -> (r: String)
    ensures
        starts_with(name@, "android.permission."@) ==> r@ == name@.skip(19),
        !starts_with(name@, "android.permission."@) ==> r@ == name@,
{
    proof {
        reveal_strlit("android.permission.");
    }
    if str_starts_with(name, "android.permission.") {
        let n = name.unicode_len();
        String::from_str(name.substring_char(19, n))
    } else {
        String::from_str(name)
    }
}

/// The arguments of `permission add`.
pub struct AddPermissionArgs {
    pub permission: String,
    pub description: Option<String>,
    pub project: Option<String>,
}

/// The arguments of `permission remove`.
pub struct RemovePermissionArgs {
    pub permission: String,
    pub project: Option<String>,
}

/// The arguments of `permission list`.
pub struct ListPermissionsArgs {
    pub project: Option<String>,
}

/// The arguments of `permission available`.
pub struct AvailablePermissionsArgs {
    pub platform: Option<String>,
}

/// The permission subcommands.
pub enum PermissionCommands {
    Add(AddPermissionArgs),
    Remove(RemovePermissionArgs),
    List(ListPermissionsArgs),
    Available(AvailablePermissionsArgs),
}

/// A configured permission.
pub struct PermissionEntry {
    pub name: String,
    pub description: Option<String>,
    pub ios_keys: Vec<String>,
    pub android_permissions: Vec<String>,
}

/// The configured permissions.
pub struct ListPermissionsReport {
    pub permissions: Vec<PermissionEntry>,
    pub count: usize,
}

impl ListPermissionsReport {
    /// The report of a list of permissions, with its count.
    pub fn new(permissions: Vec<PermissionEntry>) -> (r: ListPermissionsReport)
        ensures
            r.permissions@ == permissions@,
            r.count == permissions@.len(),
    {
        let count = permissions.len();
        ListPermissionsReport { permissions, count }
    }
}

/// A permission the tool knows.
pub struct AvailablePermissionEntry {
    pub name: String,
    pub ios_supported: bool,
    pub android_supported: bool,
    pub ios_key: Option<String>,
    pub android_permission: Option<String>,
}

/// `s` followed by spaces up to `width` characters.
pub open spec fn padded(s: Seq<char>, width: nat) -> Seq<char> {
    if s.len() >= width { s } else { s + Seq::new((width - s.len()) as nat, |i: int| ' ') }
}

fn pad_right(s: &str, width: usize) -> (r: String)
    ensures
        r@ == padded(s@, width as nat),
{
    let mut r = String::from_str(s);
    let n = s.unicode_len();
    if n >= width {
        return r;
    }
    let mut k: usize = n;
    let ghost start = s@;
    while k < width
        invariant
            n == start.len(),
            n <= k <= width,
            r@ == start + Seq::new((k - n) as nat, |i: int| ' '),
        decreases width - k,
    {
        r.append(" ");
        k += 1;
        proof {
            reveal_strlit(" ");
        }
        assert(r@ =~= start + Seq::new((k - n) as nat, |i: int| ' '));
    }
    r
}

impl AvailablePermissionEntry {
    /// Whether the entry is listed under a platform filter: `ios` and
    /// `android` keep the permissions that platform supports; anything else
    /// keeps all.
    pub fn shown_for(&self, platform: Option<&str>) -> (r: bool)
        ensures
            r == match platform {
                Some(p) => !(p@ == "ios"@ && !self.ios_supported) && !(p@ == "android"@ && !self.android_supported),
                None => true,
            },
    {
        match platform {
            Some(p) => !(str_eq(p, "ios") && !self.ios_supported) && !(str_eq(p, "android") && !self.android_supported),
            None => true,
        }
    }

    /// The entry's row in the table of available permissions: the name in
    /// 25 columns, iOS and Android support in 5 and 8, then the iOS key, or
    /// else the Android permission, or a dash.
    pub fn table_row(&self) -> (r: String)
        ensures
            r@ == padded(self.name@, 25) + " "@ + padded(if self.ios_supported { "Yes"@ } else { "-"@ }, 5) + " "@
                + padded(if self.android_supported { "Yes"@ } else { "-"@ }, 8) + " "@
                + match self.ios_key {
                    Some(k) => k@,
                    None => match self.android_permission {
                        Some(a) => a@,
                        None => "-"@,
                    },
                },
    {
        let mut r = pad_right(self.name.as_str(), 25);
        r.append(" ");
        r.append(pad_right(if self.ios_supported { "Yes" } else { "-" }, 5).as_str());
        r.append(" ");
        r.append(pad_right(if self.android_supported { "Yes" } else { "-" }, 8).as_str());
        r.append(" ");
        match &self.ios_key {
            Some(k) => r.append(k.as_str()),
            None => match &self.android_permission {
                Some(a) => r.append(a.as_str()),
                None => r.append("-"),
            },
        }
        r
    }
}

/// The permissions the tool knows.
pub struct AvailablePermissionsReport {
    pub permissions: Vec<AvailablePermissionEntry>,
}

/// The platform filter of `capture`.
#[derive(Clone, Copy, Debug, PartialEq, Eq, Structural)]
pub enum CapturePlatform {
    Apple,
    Android,
}

/// The arguments of `capture`.
pub struct CaptureArgs {
    pub device: String,
    pub platform: Option<CapturePlatform>,
    pub output: Option<String>,
}

/// Where a screenshot was saved.
pub struct CaptureReport {
    pub device: String,
    pub platform: String,
    pub output_path: String,
}

impl CaptureReport {
    /// The report as it is displayed.
    pub fn to_text(&self) -> (r: String)
        ensures
            r@ == "Screenshot saved to "@ + self.output_path@,
    {
        let mut r = String::from_str("Screenshot saved to ");
        r.append(self.output_path.as_str());
        r
    }
}

/// Whether a platform name is an Apple platform: names starting with iOS,
/// iPadOS, watchOS, tvOS or visionOS, and `macOS`.
pub open spec fn apple_platform_name(p: Seq<char>) -> bool {
    starts_with(p, "iOS"@) || starts_with(p, "iPadOS"@) || starts_with(p, "watchOS"@)
        || starts_with(p, "tvOS"@) || starts_with(p, "visionOS"@) || p == "macOS"@
}

/// Whether a platform name is an Apple platform.
pub fn is_apple_platform(platform: &str) -> (r: bool)
    ensures
        r == apple_platform_name(platform@),
{
    str_starts_with(platform, "iOS") || str_starts_with(platform, "iPadOS") || str_starts_with(platform, "watchOS")
        || str_starts_with(platform, "tvOS") || str_starts_with(platform, "visionOS") || str_eq(platform, "macOS")
}

/// Whether a device passes the platform filter of `capture`.
pub open spec fn passes_filter(d: DeviceInfo, filter: Option<CapturePlatform>) -> bool {
    match filter {
        None => true,
        Some(CapturePlatform::Apple) => apple_platform_name(d.platform@),
        Some(CapturePlatform::Android) => d.platform@ == "Android"@,
    }
}

/// The devices `capture` may mean: those answering to the query that pass the filter.
pub open spec fn capture_matches(devices: Seq<DeviceInfo>, query: Seq<char>, filter: Option<CapturePlatform>) -> Seq<int>
    decreases devices.len(),
{
    if devices.len() == 0 {
        Seq::empty()
    } else {
        let earlier = capture_matches(devices.drop_last(), query, filter);
        let d = devices.last();
        if answers_to(d, query) && passes_filter(d, filter) { earlier.push(devices.len() - 1) } else { earlier }
    }
}

/// Finds the device `capture` is asked for: the first device answering to
/// the query and passing the filter, unless there is none, or the matches
/// span both Apple and Android.
pub fn find_device(devices: &Vec<DeviceInfo>, query: &str, filter: Option<CapturePlatform>) -> (r: Result<usize, String>)
    ensures
        ({
            let m = capture_matches(devices@, query@, filter);
            &&& m.len() == 0 ==> (r matches Err(e) && e@ == "Device '"@ + query@ + "' not found"@ + match filter {
                    None => ""@,
                    Some(CapturePlatform::Apple) => " for platform Apple"@,
                    Some(CapturePlatform::Android) => " for platform Android"@,
                } + ". Run `water devices` to list available targets."@)
            &&& m.len() > 0 && (exists|i: int| 0 <= i < m.len() && apple_platform_name(devices@[#[trigger] m[i]].platform@))
                && (exists|i: int| 0 <= i < m.len() && devices@[#[trigger] m[i]].platform@ == "Android"@)
                ==> (r matches Err(e) && e@ == "Device '"@ + query@ + "' exists on multiple platforms (Apple and Android). Use --platform apple or --platform android to disambiguate."@)
            &&& r matches Ok(i) ==> m.len() > 0 && i == m[0]
            &&& m.len() > 0 && !((exists|i: int| 0 <= i < m.len() && apple_platform_name(devices@[#[trigger] m[i]].platform@))
                && (exists|i: int| 0 <= i < m.len() && devices@[#[trigger] m[i]].platform@ == "Android"@)) ==> r is Ok
        }),
{
    let mut matches: Vec<usize> = Vec::new();
    let mut has_apple = false;
    let mut has_android = false;
    let mut i: usize = 0;
    while i < devices.len()
        invariant
            i <= devices@.len(),
            matches@.map_values(|k: usize| k as int) == capture_matches(devices@.take(i as int), query@, filter),
            forall|k: int| 0 <= k < matches@.len() ==> (#[trigger] matches@[k]) < i,
            has_apple == exists|k: int| 0 <= k < matches@.len() && apple_platform_name(devices@[#[trigger] matches@[k] as int].platform@),
            has_android == exists|k: int| 0 <= k < matches@.len() && devices@[#[trigger] matches@[k] as int].platform@ == "Android"@,
        decreases devices@.len() - i,
    {
        proof {
            let t = devices@.take(i + 1);
            assert(t.drop_last() =~= devices@.take(i as int));
            assert(t.last() == devices@[i as int]);
        }
        let d = &devices[i];
        let answers = str_eq(d.identifier.as_str(), query) || str_eq(d.name.as_str(), query);
        let apple = is_apple_platform(d.platform.as_str());
        let android = str_eq(d.platform.as_str(), "Android");
        let passes = match filter {
            None => true,
            Some(CapturePlatform::Apple) => apple,
            Some(CapturePlatform::Android) => android,
        };
        if answers && passes {
            let ghost before = matches@;
            let ghost old_apple = has_apple;
            let ghost old_android = has_android;
            matches.push(i);
            assert(matches@.map_values(|k: usize| k as int) =~= before.map_values(|k: usize| k as int).push(i as int));
            assert(forall|k: int| 0 <= k < before.len() ==> matches@[k] == before[k]);
            proof {
                if old_apple {
                    let k = choose|k: int| 0 <= k < before.len() && apple_platform_name(devices@[#[trigger] before[k] as int].platform@);
                    assert(apple_platform_name(devices@[matches@[k] as int].platform@));
                }
                if old_android {
                    let k = choose|k: int| 0 <= k < before.len() && devices@[#[trigger] before[k] as int].platform@ == "Android"@;
                    assert(devices@[matches@[k] as int].platform@ == "Android"@);
                }
                if !apple && !old_apple {
                    assert forall|k: int| 0 <= k < matches@.len() implies !apple_platform_name(devices@[#[trigger] matches@[k] as int].platform@) by {
                        if k < before.len() {
                            assert(matches@[k] == before[k]);
                        }
                    }
                }
                if !android && !old_android {
                    assert forall|k: int| 0 <= k < matches@.len() implies devices@[#[trigger] matches@[k] as int].platform@ != "Android"@ by {
                        if k < before.len() {
                            assert(matches@[k] == before[k]);
                        }
                    }
                }
            }
            if apple {
                assert(apple_platform_name(devices@[matches@[matches@.len() - 1] as int].platform@));
                has_apple = true;
            }
            if android {
                assert(devices@[matches@[matches@.len() - 1] as int].platform@ == "Android"@);
                has_android = true;
            }
        }
        i += 1;
    }
    assert(devices@.take(i as int) =~= devices@);
    let ghost m = capture_matches(devices@, query@, filter);
    assert(forall|k: int| 0 <= k < m.len() ==> m[k] == matches@[k] as int);
    if matches.len() == 0 {
        let mut e = String::from_str("Device '");
        e.append(query);
        e.append("' not found");
        match filter {
            None => {},
            Some(CapturePlatform::Apple) => { e.append(" for platform Apple"); },
            Some(CapturePlatform::Android) => { e.append(" for platform Android"); },
        }
        e.append(". Run `water devices` to list available targets.");
        proof { reveal_strlit(""); }
        return Err(e);
    }
    proof {
        if has_apple {
            let k = choose|k: int| 0 <= k < matches@.len() && apple_platform_name(devices@[#[trigger] matches@[k] as int].platform@);
            assert(apple_platform_name(devices@[m[k]].platform@));
        }
        if has_android {
            let k = choose|k: int| 0 <= k < matches@.len() && devices@[#[trigger] matches@[k] as int].platform@ == "Android"@;
            assert(devices@[m[k]].platform@ == "Android"@);
        }
        if (exists|k: int| 0 <= k < m.len() && apple_platform_name(devices@[#[trigger] m[k]].platform@)) {
            let k = choose|k: int| 0 <= k < m.len() && apple_platform_name(devices@[#[trigger] m[k]].platform@);
            assert(apple_platform_name(devices@[matches@[k] as int].platform@));
        }
        if (exists|k: int| 0 <= k < m.len() && devices@[#[trigger] m[k]].platform@ == "Android"@) {
            let k = choose|k: int| 0 <= k < m.len() && devices@[#[trigger] m[k]].platform@ == "Android"@;
            assert(devices@[matches@[k] as int].platform@ == "Android"@);
        }
    }
    if has_apple && has_android {
        let mut e = String::from_str("Device '");
        e.append(query);
        e.append("' exists on multiple platforms (Apple and Android). Use --platform apple or --platform android to disambiguate.");
        return Err(e);
    }
    Ok(matches[0])
}


/// The arguments of `backend list`.
pub struct BackendListArgs {
    /// The project directory; the working directory when absent.
    pub project: Option<String>,
}

/// The state of a background task.
pub enum Status {
    Pending,
    Started { message: String },
    Progress { percent: u8, message: String },
    Done,
    Failed(String),
}

/// Whether the playground's generated backend must be generated again: when
/// it is missing, in dev mode, when it records no tool version, or when the
/// recorded version (trimmed) is not this tool's.
pub open spec fn regenerate_backend(present: bool, dev_mode: bool, stored_version: Option<Seq<char>>, current_version: Seq<char>) -> bool {
    !present || dev_mode || match stored_version {
        None => true,
        Some(v) => trimmed(v) != current_version,
    }
}

/// Decides whether to regenerate the playground backend; `stored_version`
/// is the content of its version file, if it could be read.
pub fn should_regenerate_backend(present: bool, dev_mode: bool, stored_version: &Option<String>, current_version: &str) -> (r: bool)
    ensures
        r == regenerate_backend(present, dev_mode, opt_text(*stored_version), current_version@),
{
    if !present {
        return true;
    }
    if dev_mode {
        return true;
    }
    match stored_version {
        None => true,
        Some(v) => {
            let t = trim_str(v.as_str());
            !str_eq(t.as_str(), current_version)
        },
    }
}

} // verus!
