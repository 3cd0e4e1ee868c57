//! What `create` makes: the names and place of a new project or playground,
//! its backends, the manifest and template values of its Rust crate, and the
//! `Water.toml` record that describes it; and the backends a playground
//! keeps in its cache directory.

use vstd::prelude::*;
use crate::backend::{opt_text, BackendChoice};
use crate::create::{
    app_name_for, app_name_spec, check_create_mode, config_waterui_path, crate_name_for, crate_name_spec,
    default_bundle_identifier, offered_backends, swift_backend_entry, ProjectDependencies, SwiftBackendEntry,
    SwiftDependency,
};
use crate::paths::{pushed, push_path};
use crate::templates::{dep_view, pair_views, waterui_dependencies, CargoManifest, ManifestDep, TemplateContext};
use crate::text::{chars_of, string_of, views};

verus! {

/// The given text, or `default` when none is given.
pub open spec fn given_or(given: Option<Seq<char>>, default: Seq<char>) -> Seq<char> {
    match given {
        Some(g) => g,
        None => default,
    }
}

/// The backends of a new project: those named on the command line; else all
/// offered ones under `--yes`; else those picked in the prompt, by their
/// positions among the offered ones.
pub open spec fn chosen_backends(requested: Seq<BackendChoice>, picked: Seq<usize>, yes: bool) -> Seq<BackendChoice> {
    if requested.len() > 0 {
        requested
    } else if yes {
        offered_backends()
    } else {
        picked.map_values(|k: usize| offered_backends()[k as int])
    }
}

/// The names and place of a project about to be created. An empty list of
/// backends means the user picked none and creation is cancelled.
pub struct CreatePlan {
    pub display_name: String,
    pub crate_name: String,
    pub app_name: String,
    pub bundle_identifier: String,
    pub directory: String,
    pub backends: Vec<BackendChoice>,
}

/// A plan with the display name `display`: the crate and app names derived
/// from it with their fallbacks, the bundle identifier and the directory as
/// given, else `com.waterui.` and the crate name, and the crate name's
/// directory in the current directory.
pub open spec fn plan_names(
    p: CreatePlan,
    display: Seq<char>,
    crate_fallback: Seq<char>,
    app_fallback: Seq<char>,
    bundle: Option<Seq<char>>,
    directory: Option<Seq<char>>,
    current_dir: Seq<char>,
) -> bool {
    let c = crate_name_spec(display, crate_fallback);
    &&& p.display_name@ == display
    &&& p.crate_name@ == c
    &&& p.app_name@ == app_name_spec(display, app_fallback)
    &&& p.bundle_identifier@ == given_or(bundle, "com.waterui."@ + c)
    &&& p.directory@ == given_or(directory, pushed(current_dir, c))
}

fn clone_or(given: &Option<String>, default: &str) -> (r: String)
    ensures
        r@ == given_or(opt_text(*given), default@),
{
    match given {
        Some(g) => g.clone(),
        None => String::from_str(default),
    }
}

fn plan_for(
    display_name: &Option<String>,
    default_name: &str,
    crate_fallback: &str,
    app_fallback: &str,
    bundle_identifier: &Option<String>,
    directory: &Option<String>,
    current_dir: &str,
    backends: Vec<BackendChoice>,
) -> (p: CreatePlan)
    ensures
        plan_names(p, given_or(opt_text(*display_name), default_name@), crate_fallback@, app_fallback@,
            opt_text(*bundle_identifier), opt_text(*directory), current_dir@),
        p.backends@ == backends@,
{
    let display = clone_or(display_name, default_name);
    let crate_name = crate_name_for(display.as_str(), crate_fallback);
    let app_name = app_name_for(display.as_str(), app_fallback);
    let bundle = match bundle_identifier {
        Some(b) => b.clone(),
        None => default_bundle_identifier(crate_name.as_str()),
    };
    let dir = match directory {
        Some(d) => d.clone(),
        None => crate::create::joined_path(current_dir, crate_name.as_str()),
    };
    CreatePlan { display_name: display, crate_name, app_name, bundle_identifier: bundle, directory: dir, backends }
}

/// Plans `water create`: refused in JSON mode without `--yes`; otherwise the
/// display name defaults to `Water Demo`, the crate name to `waterui-app`
/// and the app name to `WaterUIApp` when the display name gives none, and
/// the backends are those of [`chosen_backends`]. `picked` holds the
/// positions chosen in the backend prompt.
pub fn plan_create(
    display_name: &Option<String>,
    bundle_identifier: &Option<String>,
    directory: &Option<String>,
    requested: &Vec<BackendChoice>,
    picked: &Vec<usize>,
    is_json: bool,
    yes: bool,
    current_dir: &str,
) -> (r: Result<CreatePlan, String>)
    requires
        forall|i: int| 0 <= i < picked@.len() ==> #[trigger] picked@[i] < 3,
    ensures
        r is Err <==> (is_json && !yes),
        r matches Err(m) ==> m@ == "JSON output requires --yes to avoid interactive prompts. Re-run with --yes or provide --backend, --name, and related flags."@,
        r matches Ok(p) ==> plan_names(p, given_or(opt_text(*display_name), "Water Demo"@), "waterui-app"@, "WaterUIApp"@,
            opt_text(*bundle_identifier), opt_text(*directory), current_dir@)
            && p.backends@ == chosen_backends(requested@, picked@, yes),
{
    match check_create_mode(is_json, yes) {
        Err(m) => Err(m),
        Ok(()) => {
            let backends: Vec<BackendChoice> = if requested.len() == 0 && yes {
                let all = vec![BackendChoice::Web, BackendChoice::Apple, BackendChoice::Android];
                assert(all@ =~= offered_backends());
                all
            } else {
                crate::create::choose_backends(requested, picked)
            };
            Ok(plan_for(display_name, "Water Demo", "waterui-app", "WaterUIApp", bundle_identifier, directory, current_dir, backends))
        },
    }
}

/// Plans a playground: the display name defaults to `Playground`, the crate
/// name to `playground` and the app name to `PlaygroundApp`; a playground
/// has no backends of its own, and JSON mode needs no `--yes`.
pub fn playground_plan(display_name: &Option<String>, bundle_identifier: &Option<String>, directory: &Option<String>, current_dir: &str) -> (p: CreatePlan)
    ensures
        plan_names(p, given_or(opt_text(*display_name), "Playground"@), "playground"@, "PlaygroundApp"@,
            opt_text(*bundle_identifier), opt_text(*directory), current_dir@),
        p.backends@.len() == 0,
{
    plan_for(display_name, "Playground", "playground", "PlaygroundApp", bundle_identifier, directory, current_dir, Vec::new())
}

/// The app name a playground's backends use: its display name in upper camel
/// case, or `PlaygroundApp` when that is empty.
pub fn playground_app_name(display_name: &str) -> (r: String)
    ensures
        r@ == app_name_spec(display_name@, "PlaygroundApp"@),
{
    app_name_for(display_name, "PlaygroundApp")
}

/// Whether an entry of a playground backend directory survives regenerating
/// it: the build caches of Gradle, Xcode and SwiftPM.
pub fn kept_on_regenerate(name: &str) -> (r: bool)
    ensures
        r == (name@ == "build"@ || name@ == ".gradle"@ || name@ == "DerivedData"@ || name@ == ".build"@),
{
    crate::text::str_eq(name, "build") || crate::text::str_eq(name, ".gradle") || crate::text::str_eq(name, "DerivedData")
        || crate::text::str_eq(name, ".build")
}

/// What a project records of its package.
#[derive(Clone, Copy, Debug, PartialEq, Eq, Structural)]
pub enum PackageType {
    App,
    Playground,
}

/// The web or Android backend entry of `Water.toml`.
pub struct PlainBackendEntry {
    pub project_path: String,
    pub version: Option<String>,
    pub dev: bool,
}

/// A backend entry of `Water.toml`, by backend.
pub enum BackendEntry {
    Web(PlainBackendEntry),
    Android(PlainBackendEntry),
    Apple(SwiftBackendEntry),
}

/// The `Water.toml` record of a project.
pub struct ProjectConfig {
    pub package_type: PackageType,
    pub name: String,
    pub bundle_identifier: String,
    pub dev_dependencies: bool,
    /// The local WaterUI checkout, as seen from the project.
    pub waterui_path: Option<String>,
    pub web: Option<PlainBackendEntry>,
    pub android: Option<PlainBackendEntry>,
    pub swift: Option<SwiftBackendEntry>,
}

/// Where each backend project of an app lies, below the project root.
pub struct BackendPaths {
    pub web: String,
    pub android: String,
    pub apple: String,
}

/// A web or Android entry with these values.
pub open spec fn plain_entry_is(e: PlainBackendEntry, project_path: Seq<char>, version: Option<Seq<char>>, dev: bool) -> bool {
    e.project_path@ == project_path && opt_text(e.version) == version && e.dev == dev
}

/// The Apple entry for a backend project at `project_path`: the scheme is
/// the crate name, the Xcode project is named after the app, and the package
/// source is the git requirement or the local path of `swift`.
pub open spec fn swift_entry_is(e: SwiftBackendEntry, project_path: Seq<char>, crate_name: Seq<char>, app_name: Seq<char>, swift: SwiftDependency, dev: bool) -> bool {
    &&& e.project_path@ == project_path
    &&& e.scheme@ == crate_name
    &&& opt_text(e.project_file) == Some(app_name + ".xcodeproj"@)
    &&& e.dev == dev
    &&& match swift {
        SwiftDependency::Git { version, branch, revision } => opt_text(e.version) == opt_text(version)
            && opt_text(e.branch) == opt_text(branch) && opt_text(e.revision) == opt_text(revision)
            && e.local_path is None,
        SwiftDependency::Local { path } => e.version is None && e.branch is None && e.revision is None
            && opt_text(e.local_path) == Some(path@),
    }
}

/// The local checkout as `Water.toml` records it, seen from the project's
/// canonical directory; none outside dev mode.
pub open spec fn checkout_config_path(deps: ProjectDependencies, project_canonical: Option<Seq<char>>) -> Option<Seq<char>> {
    match deps.local_waterui_path {
        Some(v) => Some(config_waterui_path(v.root@, project_canonical)),
        None => None,
    }
}

/// The released Android backend recorded for an app: none in dev mode or
/// when no release is known.
pub open spec fn recorded_android_version(dev: bool, release: Seq<char>) -> Option<Seq<char>> {
    if dev || release.len() == 0 { None } else { Some(release) }
}

/// The files of a new project that the library decides: the Cargo manifest,
/// the values of the Rust templates, and the `Water.toml` record.
pub struct ProjectFiles {
    pub manifest: CargoManifest,
    pub rust_context: Vec<(String, String)>,
    pub config: ProjectConfig,
}

/// The manifest of a crate named `crate_name` by `author`: version `0.1.0`,
/// edition 2024, a static, dynamic and Rust library, and the WaterUI
/// dependencies of the checkout, if any.
pub open spec fn manifest_is(m: CargoManifest, crate_name: Seq<char>, author: Seq<char>, checkout: Option<Seq<char>>) -> bool {
    &&& m.name@ == crate_name
    &&& m.version@ == "0.1.0"@
    &&& m.edition@ == "2024"@
    &&& views(m.authors@) == seq![author]
    &&& views(m.crate_types@) == seq!["staticlib"@, "cdylib"@, "rlib"@]
    &&& m.dependencies@.map_values(|e: (String, ManifestDep)| (e.0@, dep_view(e.1))) == waterui_dependencies(checkout)
}

/// The values the Rust templates of a project are rendered with.
pub open spec fn rust_values(crate_name: Seq<char>, author: Seq<char>, display_name: Seq<char>, deps_line: Seq<char>) -> Seq<(Seq<char>, Seq<char>)> {
    seq![("CRATE_NAME"@, crate_name), ("AUTHOR"@, author), ("APP_DISPLAY_NAME"@, display_name), ("WATERUI_DEPS"@, deps_line)]
}

/// The package part of a `Water.toml` record.
pub open spec fn package_is(c: ProjectConfig, kind: PackageType, plan: CreatePlan, dev_dependencies: bool, checkout: Option<Seq<char>>) -> bool {
    &&& c.package_type == kind
    &&& c.name@ == plan.display_name@
    &&& c.bundle_identifier@ == plan.bundle_identifier@
    &&& c.dev_dependencies == dev_dependencies
    &&& opt_text(c.waterui_path) == checkout
}

fn checkout_path(deps: &ProjectDependencies, project_canonical: &Option<String>) -> (r: Option<String>)
    ensures
        opt_text(r) == checkout_config_path(*deps, opt_text(*project_canonical)),
{
    match &deps.local_waterui_path {
        Some(v) => Some(v.path_for_config(project_canonical)),
        None => None,
    }
}

fn manifest_for(plan: &CreatePlan, author: &str, checkout: &Option<String>) -> (m: CargoManifest)
    ensures
        manifest_is(m, plan.crate_name@, author@, opt_text(*checkout)),
{
    let ctx = TemplateContext {
        app_display_name: plan.display_name.clone(),
        app_name: plan.app_name.clone(),
        crate_name: plan.crate_name.clone(),
        bundle_identifier: plan.bundle_identifier.clone(),
        author: String::from_str(author),
        android_backend_path: None,
        use_remote_dev_backend: false,
        waterui_path: match checkout {
            Some(c) => Some(c.clone()),
            None => None,
        },
        backend_project_path: None,
        android_permissions: Vec::new(),
    };
    ctx.cargo_manifest()
}

fn rust_context_for(plan: &CreatePlan, author: &str, deps: &ProjectDependencies, project_canonical: &Option<String>) -> (r: Vec<(String, String)>)
    ensures
        pair_views(r@) == rust_values(plan.crate_name@, author@, plan.display_name@,
            match deps.local_waterui_path {
                Some(v) => crate::create::path_dependency(config_waterui_path(v.root@, opt_text(*project_canonical))),
                None => deps.rust_toml_view(),
            }),
{
    let mut r: Vec<(String, String)> = Vec::new();
    r.push((String::from_str("CRATE_NAME"), plan.crate_name.clone()));
    r.push((String::from_str("AUTHOR"), String::from_str(author)));
    r.push((String::from_str("APP_DISPLAY_NAME"), plan.display_name.clone()));
    r.push((String::from_str("WATERUI_DEPS"), deps.rust_toml_for_project(project_canonical)));
    assert(pair_views(r@) =~= rust_values(plan.crate_name@, author@, plan.display_name@,
        match deps.local_waterui_path {
            Some(v) => crate::create::path_dependency(config_waterui_path(v.root@, opt_text(*project_canonical))),
            None => deps.rust_toml_view(),
        }));
    r
}

fn plain_entry(project_path: &str, version: Option<String>, dev: bool) -> (e: PlainBackendEntry)
    ensures
        plain_entry_is(e, project_path@, opt_text(version), dev),
{
    PlainBackendEntry { project_path: String::from_str(project_path), version, dev }
}

/// The files of a new app, once its directory exists: `project_canonical` is
/// that directory's canonical path, `author` the git user, `dev` whether
/// dev dependencies were asked for, and `android_release` the released
/// Android backend, empty when unknown. `Water.toml` gets one entry for each
/// chosen backend, at its path in `paths`.
pub fn project_files(
    plan: &CreatePlan,
    author: &str,
    dev: bool,
    deps: &ProjectDependencies,
    project_canonical: &Option<String>,
    android_release: &str,
    paths: &BackendPaths,
) -> (r: ProjectFiles)
    ensures
        manifest_is(r.manifest, plan.crate_name@, author@, checkout_config_path(*deps, opt_text(*project_canonical))),
        pair_views(r.rust_context@) == rust_values(plan.crate_name@, author@, plan.display_name@,
            match deps.local_waterui_path {
                Some(v) => crate::create::path_dependency(config_waterui_path(v.root@, opt_text(*project_canonical))),
                None => deps.rust_toml_view(),
            }),
        package_is(r.config, PackageType::App, *plan, dev, checkout_config_path(*deps, opt_text(*project_canonical))),
        r.config.web is Some <==> plan.backends@.contains(BackendChoice::Web),
        r.config.android is Some <==> plan.backends@.contains(BackendChoice::Android),
        r.config.swift is Some <==> plan.backends@.contains(BackendChoice::Apple),
        r.config.web matches Some(e) ==> plain_entry_is(e, paths.web@, None, dev),
        r.config.android matches Some(e) ==> plain_entry_is(e, paths.android@, recorded_android_version(dev, android_release@), dev),
        r.config.swift matches Some(e) ==> swift_entry_is(e, paths.apple@, plan.crate_name@, plan.app_name@, deps.swift, dev),
{
    let checkout = checkout_path(deps, project_canonical);
    let manifest = manifest_for(plan, author, &checkout);
    let rust_context = rust_context_for(plan, author, deps, project_canonical);
    let mut web: Option<PlainBackendEntry> = None;
    let mut android: Option<PlainBackendEntry> = None;
    let mut swift: Option<SwiftBackendEntry> = None;
    let mut i: usize = 0;
    while i < plan.backends.len()
        invariant
            i <= plan.backends@.len(),
            web is Some <==> plan.backends@.take(i as int).contains(BackendChoice::Web),
            android is Some <==> plan.backends@.take(i as int).contains(BackendChoice::Android),
            swift is Some <==> plan.backends@.take(i as int).contains(BackendChoice::Apple),
            web matches Some(e) ==> plain_entry_is(e, paths.web@, None, dev),
            android matches Some(e) ==> plain_entry_is(e, paths.android@, recorded_android_version(dev, android_release@), dev),
            swift matches Some(e) ==> swift_entry_is(e, paths.apple@, plan.crate_name@, plan.app_name@, deps.swift, dev),
        decreases plan.backends@.len() - i,
    {
        let b = plan.backends[i];
        proof {
            let t = plan.backends@.take(i as int);
            let t1 = plan.backends@.take(i as int + 1);
            assert(t1 =~= t.push(b));
            assert(t1.contains(b)) by { assert(t1[i as int] == b); }
            assert forall|c: BackendChoice| c != b implies (t1.contains(c) <==> t.contains(c)) by {
                if t1.contains(c) {
                    let k = choose|k: int| 0 <= k < t1.len() && t1[k] == c;
                    assert(k < i);
                    assert(t[k] == c);
                }
                if t.contains(c) {
                    let k = choose|k: int| 0 <= k < t.len() && t[k] == c;
                    assert(t1[k] == c);
                }
            }
        }
        match b {
            BackendChoice::Web => {
                web = Some(plain_entry(paths.web.as_str(), None, dev));
            },
            BackendChoice::Android => {
                let version = crate::create::android_backend_version(dev, android_release);
                android = Some(plain_entry(paths.android.as_str(), version, dev));
            },
            BackendChoice::Apple => {
                let e = swift_backend_entry(paths.apple.as_str(), plan.crate_name.as_str(), plan.app_name.as_str(), &deps.swift, dev);
                swift = Some(e);
            },
        }
        i += 1;
    }
    assert(plan.backends@.take(i as int) =~= plan.backends@);
    let config = ProjectConfig {
        package_type: PackageType::App,
        name: plan.display_name.clone(),
        bundle_identifier: plan.bundle_identifier.clone(),
        dev_dependencies: dev,
        waterui_path: checkout,
        web,
        android,
        swift,
    };
    ProjectFiles { manifest, rust_context, config }
}

/// The files of a new playground, once its directory exists. A playground
/// records no backends, and only the local checkout marks dev mode.
pub fn playground_files(plan: &CreatePlan, author: &str, deps: &ProjectDependencies, project_canonical: &Option<String>) -> (r: ProjectFiles)
    ensures
        manifest_is(r.manifest, plan.crate_name@, author@, checkout_config_path(*deps, opt_text(*project_canonical))),
        pair_views(r.rust_context@) == rust_values(plan.crate_name@, author@, plan.display_name@,
            match deps.local_waterui_path {
                Some(v) => crate::create::path_dependency(config_waterui_path(v.root@, opt_text(*project_canonical))),
                None => deps.rust_toml_view(),
            }),
        package_is(r.config, PackageType::Playground, *plan, false, checkout_config_path(*deps, opt_text(*project_canonical))),
        r.config.web is None,
        r.config.android is None,
        r.config.swift is None,
{
    let checkout = checkout_path(deps, project_canonical);
    let manifest = manifest_for(plan, author, &checkout);
    let rust_context = rust_context_for(plan, author, deps, project_canonical);
    let config = ProjectConfig {
        package_type: PackageType::Playground,
        name: plan.display_name.clone(),
        bundle_identifier: plan.bundle_identifier.clone(),
        dev_dependencies: false,
        waterui_path: checkout,
        web: None,
        android: None,
        swift: None,
    };
    ProjectFiles { manifest, rust_context, config }
}

/// The entry a playground keeps for a backend generated under `cache_dir`,
/// in its `web`, `android` or `apple` subdirectory: dev mode follows
/// `use_dev`; the web and Android entries record no release; the Apple entry
/// is named after the crate and the app and takes its package source from
/// `swift`.
pub open spec fn playground_entry_is(e: BackendEntry, cache_dir: Seq<char>, crate_name: Seq<char>, app_name: Seq<char>, backend: BackendChoice, use_dev: bool, swift: SwiftDependency) -> bool {
    match backend {
        BackendChoice::Web => e matches BackendEntry::Web(w) && plain_entry_is(w, pushed(cache_dir, "web"@), None, use_dev),
        BackendChoice::Android => e matches BackendEntry::Android(a) && plain_entry_is(a, pushed(cache_dir, "android"@), None, use_dev),
        BackendChoice::Apple => e matches BackendEntry::Apple(s) && swift_entry_is(s, pushed(cache_dir, "apple"@), crate_name, app_name, swift, use_dev),
    }
}

/// The backend entry of a playground, for a backend kept in the cache
/// directory `cache_dir`; `use_dev` is whether the project names a local
/// checkout, and `app_name` comes from [`playground_app_name`].
pub fn playground_backend_entry(cache_dir: &str, crate_name: &str, app_name: &str, backend: BackendChoice, use_dev: bool, swift: &SwiftDependency) -> (r: BackendEntry)
    ensures
        playground_entry_is(r, cache_dir@, crate_name@, app_name@, backend, use_dev, *swift),
{
    match backend {
        BackendChoice::Web => {
            let dir = crate::create::joined_path(cache_dir, "web");
            BackendEntry::Web(plain_entry(dir.as_str(), None, use_dev))
        },
        BackendChoice::Android => {
            let dir = crate::create::joined_path(cache_dir, "android");
            BackendEntry::Android(plain_entry(dir.as_str(), None, use_dev))
        },
        BackendChoice::Apple => {
            let dir = crate::create::joined_path(cache_dir, "apple");
            BackendEntry::Apple(swift_backend_entry(dir.as_str(), crate_name, app_name, swift, use_dev))
        },
    }
}

/// Records a backend entry in a project's `Water.toml` record, replacing the
/// entry of that backend and leaving everything else as it was.
pub fn set_backend(config: &mut ProjectConfig, entry: BackendEntry)
    ensures
        final(config).package_type == old(config).package_type,
        final(config).name@ == old(config).name@,
        final(config).bundle_identifier@ == old(config).bundle_identifier@,
        final(config).dev_dependencies == old(config).dev_dependencies,
        opt_text(final(config).waterui_path) == opt_text(old(config).waterui_path),
        match entry {
            BackendEntry::Web(w) => final(config).web == Some(w) && final(config).android == old(config).android
                && final(config).swift == old(config).swift,
            BackendEntry::Android(a) => final(config).android == Some(a) && final(config).web == old(config).web
                && final(config).swift == old(config).swift,
            BackendEntry::Apple(s) => final(config).swift == Some(s) && final(config).web == old(config).web
                && final(config).android == old(config).android,
        },
{
    match entry {
        BackendEntry::Web(w) => config.web = Some(w),
        BackendEntry::Android(a) => config.android = Some(a),
        BackendEntry::Apple(s) => config.swift = Some(s),
    }
}

/// The record a playground runs with: the loaded record with the entry of
/// `backend` pointing into the cache directory, everything else unchanged.
pub open spec fn playground_config_is(
    new: ProjectConfig,
    old: ProjectConfig,
    cache_dir: Seq<char>,
    crate_name: Seq<char>,
    backend: BackendChoice,
    swift: SwiftDependency,
) -> bool {
    let use_dev = old.waterui_path is Some;
    let app = app_name_spec(old.name@, "PlaygroundApp"@);
    &&& new.package_type == old.package_type
    &&& new.name@ == old.name@
    &&& new.bundle_identifier@ == old.bundle_identifier@
    &&& new.dev_dependencies == old.dev_dependencies
    &&& opt_text(new.waterui_path) == opt_text(old.waterui_path)
    &&& match backend {
        BackendChoice::Web => new.web matches Some(w) && plain_entry_is(w, pushed(cache_dir, "web"@), None, use_dev)
            && new.android == old.android && new.swift == old.swift,
        BackendChoice::Android => new.android matches Some(a) && plain_entry_is(a, pushed(cache_dir, "android"@), None, use_dev)
            && new.web == old.web && new.swift == old.swift,
        BackendChoice::Apple => new.swift matches Some(e) && swift_entry_is(e, pushed(cache_dir, "apple"@), crate_name, app, swift, use_dev)
            && new.web == old.web && new.android == old.android,
    }
}

/// Points a playground's record at the backend generated in its cache
/// directory: dev mode is on when the record names a local checkout, and the
/// app name comes from the playground's display name.
pub fn use_playground_backend(config: &mut ProjectConfig, cache_dir: &str, crate_name: &str, backend: BackendChoice, swift: &SwiftDependency)
    ensures
        playground_config_is(*final(config), *old(config), cache_dir@, crate_name@, backend, *swift),
{
    let use_dev = config.waterui_path.is_some();
    let app_name = playground_app_name(config.name.as_str());
    let entry = playground_backend_entry(cache_dir, crate_name, app_name.as_str(), backend, use_dev, swift);
    set_backend(config, entry);
}

} // verus!
