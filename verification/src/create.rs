//! Project creation rules: default identifiers, the dependency lines of a
//! new project, validation of a local WaterUI checkout, the Info.plist keys
//! for permissions, and the report of `create`.

use vstd::prelude::*;
use crate::backend::{backend_label, opt_text, BackendChoice};
use crate::paths::{pushed, push_path};
use crate::android::{sanitize_package_name, sanitized_package};
use crate::run::{ascii_lower, to_ascii_lowercase};
use crate::templates::pair_views;
use crate::text::{chars_of, join, joined, lines, replace_all, replaced, split, split_chars, split_lines, str_eq, str_lowercase, string_of, to_lowercase, trim_str, trimmed, views, vviews};

verus! {

/// The bundle identifier proposed for an app: `com.example.` and the
/// lowercased name without spaces.
pub open spec fn default_bundle(app_name: Seq<char>) -> Seq<char> {
    "com.example."@ + replaced(str_lowercase(app_name), " "@, ""@)
}

/// Proposes a bundle identifier for an app name.
pub fn default_bundle_id(app_name: &str) -> (r: String)
    ensures
        r@ == default_bundle(app_name@),
{
    proof {
        reveal_strlit(" ");
        reveal_strlit("");
    }
    let lower = to_lowercase(app_name);
    let squeezed = replace_all(lower.as_str(), " ", "");
    let mut r = String::from_str("com.example.");
    r.append(squeezed.as_str());
    r
}

/// A platform a new project can target.
#[derive(Clone, Copy, Debug, PartialEq, Eq, Structural)]
pub enum Platform {
    Ios,
    Android,
    MacOs,
}

/// The platform a name denotes, ignoring case.
pub open spec fn platform_named(lower: Seq<char>) -> Option<Platform> {
    if lower == "ios"@ {
        Some(Platform::Ios)
    } else if lower == "android"@ {
        Some(Platform::Android)
    } else if lower == "macos"@ {
        Some(Platform::MacOs)
    } else {
        None
    }
}

impl Platform {
    /// The platform's display name.
    pub fn label(self) -> (r: &'static str)
        ensures
            r@ == match self {
                Platform::Ios => "iOS"@,
                Platform::Android => "Android"@,
                Platform::MacOs => "macOS"@,
            },
    {
        match self {
            Platform::Ios => "iOS",
            Platform::Android => "Android",
            Platform::MacOs => "macOS",
        }
    }

    /// The platform a name denotes, ignoring case.
    pub fn from_name(s: &str) -> (r: Option<Platform>)
        ensures
            r == platform_named(str_lowercase(s@)),
    {
        let lower = to_lowercase(s);
        if str_eq(lower.as_str(), "ios") {
            Some(Platform::Ios)
        } else if str_eq(lower.as_str(), "android") {
            Some(Platform::Android)
        } else if str_eq(lower.as_str(), "macos") {
            Some(Platform::MacOs)
        } else {
            None
        }
    }
}

/// The platforms named in a list, in order; unknown names are left out.
pub open spec fn platforms_named(names: Seq<Seq<char>>) -> Seq<Platform>
    decreases names.len(),
{
    if names.len() == 0 {
        Seq::empty()
    } else {
        let earlier = platforms_named(names.drop_last());
        match platform_named(str_lowercase(names.last())) {
            Some(p) => earlier.push(p),
            None => earlier,
        }
    }
}

/// Reads the platforms named in a list.
pub fn parse_platforms(names: &Vec<String>) -> (r: Vec<Platform>)
    ensures
        r@ == platforms_named(views(names@)),
{
    let mut r: Vec<Platform> = Vec::new();
    let mut i: usize = 0;
    while i < names.len()
        invariant
            i <= names@.len(),
            r@ == platforms_named(views(names@).take(i as int)),
        decreases names@.len() - i,
    {
        proof {
            let t = views(names@).take(i + 1);
            assert(t.drop_last() =~= views(names@).take(i as int));
            assert(t.last() == names@[i as int]@);
        }
        match Platform::from_name(names[i].as_str()) {
            Some(p) => r.push(p),
            None => {},
        }
        i += 1;
    }
    assert(views(names@).take(i as int) =~= views(names@));
    r
}

/// What `pathdiff::diff_paths` gives for a path relative to a base: the
/// relative path, or none when there is none.
pub uninterp spec fn path_difference(path: Seq<char>, base: Seq<char>) -> Option<Seq<char>>;

/// The path of `path` relative to `base`.
///
/// Calls `pathdiff::diff_paths` on the two paths and converts the result to
/// text; the result is named, not restated.
#[verifier::external_body]
fn diff_paths(path: &str, base: &str) -> (r: Option<String>)
    ensures
        opt_text(r) == path_difference(path@, base@),
{
    pathdiff::diff_paths(path, base).map(|p| p.to_string_lossy().into_owned())
}

/// A local WaterUI checkout that holds both backends.
pub struct ValidatedWaterUIPath {
    /// The checkout's canonical root.
    pub root: String,
    /// The Android backend inside it.
    pub android_backend: String,
    /// The Apple backend inside it.
    pub apple_backend: String,
}

/// The path recorded in a project's configuration for the checkout: relative
/// to the canonical project directory where one can be computed, otherwise
/// the checkout's root.
pub open spec fn config_waterui_path(root: Seq<char>, project_canonical: Option<Seq<char>>) -> Seq<char> {
    match project_canonical {
        Some(p) => match path_difference(root, p) {
            Some(rel) => rel,
            None => root,
        },
        None => root,
    }
}

impl ValidatedWaterUIPath {
    /// The path to record in `Water.toml`, given the project directory's
    /// canonical form when it could be resolved.
    pub fn path_for_config(&self, project_canonical: &Option<String>) -> (r: String)
        ensures
            r@ == config_waterui_path(self.root@, opt_text(*project_canonical)),
    {
        match project_canonical {
            Some(p) => match diff_paths(self.root.as_str(), p.as_str()) {
                Some(rel) => rel,
                None => self.root.clone(),
            },
            None => self.root.clone(),
        }
    }
}

/// What the file system says about a candidate checkout.
pub struct CheckoutProbe {
    /// The canonical path, if it could be resolved.
    pub canonical: Option<String>,
    pub exists: bool,
    pub is_dir: bool,
    /// Whether `backends/android` is an existing directory.
    pub android_dir: bool,
    /// Whether `backends/apple` is an existing directory.
    pub apple_dir: bool,
    /// Whether `backends/android/build.gradle.kts` exists.
    pub android_gradle: bool,
    /// Whether `backends/apple/Package.swift` exists.
    pub apple_package: bool,
}

/// The checkout a probe validates, or the first reason it is refused.
pub open spec fn validated_checkout(given: Seq<char>, p: CheckoutProbe) -> Result<(Seq<char>, Seq<char>, Seq<char>), Seq<char>> {
    match p.canonical {
        None => Err("Failed to resolve WaterUI repository path: "@ + given),
        Some(c) => {
            let root = c@;
            let android = pushed(root, "backends/android"@);
            let apple = pushed(root, "backends/apple"@);
            if !p.exists {
                Err("WaterUI repository path does not exist: "@ + root)
            } else if !p.is_dir {
                Err("WaterUI repository path is not a directory: "@ + root)
            } else if !p.android_dir {
                Err("Invalid WaterUI repository: missing backends/android directory at "@ + root
                    + ".\nMake sure git submodules are initialized with: git submodule update --init --recursive"@)
            } else if !p.apple_dir {
                Err("Invalid WaterUI repository: missing backends/apple directory at "@ + root
                    + ".\nMake sure git submodules are initialized with: git submodule update --init --recursive"@)
            } else if !p.android_gradle {
                Err("Invalid Android backend: missing build.gradle.kts at "@ + android
                    + ".\nThe backends/android submodule may not be properly initialized."@)
            } else if !p.apple_package {
                Err("Invalid Apple backend: missing Package.swift at "@ + apple
                    + ".\nThe backends/apple submodule may not be properly initialized."@)
            } else {
                Ok((root, android, apple))
            }
        },
    }
}

pub(crate) fn joined_path(dir: &str, name: &str) -> (r: String)
    ensures
        r@ == pushed(dir@, name@),
{
    let mut buf = chars_of(dir);
    let n = chars_of(name);
    push_path(&mut buf, &n);
    string_of(&buf)
}

/// Validates a local WaterUI checkout from what the file system says of it.
pub fn validate_waterui_path(given: &str, probe: &CheckoutProbe) -> (r: Result<ValidatedWaterUIPath, String>)
    ensures
        match (r, validated_checkout(given@, *probe)) {
            (Ok(v), Ok(t)) => (v.root@, v.android_backend@, v.apple_backend@) == t,
            (Err(m), Err(n)) => m@ == n,
            _ => false,
        },
{
    let root = match &probe.canonical {
        None => {
            let mut m = String::from_str("Failed to resolve WaterUI repository path: ");
            m.append(given);
            return Err(m);
        },
        Some(c) => c.clone(),
    };
    let android = joined_path(root.as_str(), "backends/android");
    let apple = joined_path(root.as_str(), "backends/apple");
    if !probe.exists {
        let mut m = String::from_str("WaterUI repository path does not exist: ");
        m.append(root.as_str());
        return Err(m);
    }
    if !probe.is_dir {
        let mut m = String::from_str("WaterUI repository path is not a directory: ");
        m.append(root.as_str());
        return Err(m);
    }
    if !probe.android_dir {
        let mut m = String::from_str("Invalid WaterUI repository: missing backends/android directory at ");
        m.append(root.as_str());
        m.append(".\nMake sure git submodules are initialized with: git submodule update --init --recursive");
        return Err(m);
    }
    if !probe.apple_dir {
        let mut m = String::from_str("Invalid WaterUI repository: missing backends/apple directory at ");
        m.append(root.as_str());
        m.append(".\nMake sure git submodules are initialized with: git submodule update --init --recursive");
        return Err(m);
    }
    if !probe.android_gradle {
        let mut m = String::from_str("Invalid Android backend: missing build.gradle.kts at ");
        m.append(android.as_str());
        m.append(".\nThe backends/android submodule may not be properly initialized.");
        return Err(m);
    }
    if !probe.apple_package {
        let mut m = String::from_str("Invalid Apple backend: missing Package.swift at ");
        m.append(apple.as_str());
        m.append(".\nThe backends/apple submodule may not be properly initialized.");
        return Err(m);
    }
    Ok(ValidatedWaterUIPath { root, android_backend: android, apple_backend: apple })
}

/// Where the Apple backend of a new project comes from.
pub enum SwiftDependency {
    Git { version: Option<String>, branch: Option<String>, revision: Option<String> },
    Local { path: String },
}

/// The dependencies of a new project.
pub struct ProjectDependencies {
    /// The dependency line used when no project directory is known.
    pub rust_toml: String,
    pub swift: SwiftDependency,
    /// The local WaterUI checkout, in dev mode.
    pub local_waterui_path: Option<ValidatedWaterUIPath>,
}

/// The `Cargo.toml` line that depends on WaterUI at a path.
pub open spec fn path_dependency(path: Seq<char>) -> Seq<char> {
    "waterui = { path = \""@ + path + "\" }"@
}

/// The `Cargo.toml` line that depends on a released WaterUI.
pub open spec fn version_dependency(version: Seq<char>) -> Seq<char> {
    "waterui = \""@ + version + "\""@
}

impl ProjectDependencies {
    /// The dependency line used when no project directory is known.
    pub open spec fn rust_toml_view(&self) -> Seq<char> {
        self.rust_toml@
    }

    /// The `Cargo.toml` dependency line for a project: a path to the local
    /// checkout in dev mode, otherwise the released version.
    pub fn rust_toml_for_project(&self, project_canonical: &Option<String>) -> (r: String)
        ensures
            r@ == match self.local_waterui_path {
                Some(v) => path_dependency(config_waterui_path(v.root@, opt_text(*project_canonical))),
                None => self.rust_toml_view(),
            },
    {
        match &self.local_waterui_path {
            Some(v) => {
                let rel = v.path_for_config(project_canonical);
                let mut r = String::from_str("waterui = { path = \"");
                r.append(rel.as_str());
                r.append("\" }");
                r
            },
            None => self.rust_toml.clone(),
        }
    }
}

fn clone_checkout(v: &ValidatedWaterUIPath) -> (r: ValidatedWaterUIPath)
    ensures
        r.root@ == v.root@,
        r.android_backend@ == v.android_backend@,
        r.apple_backend@ == v.apple_backend@,
{
    ValidatedWaterUIPath { root: v.root.clone(), android_backend: v.android_backend.clone(), apple_backend: v.apple_backend.clone() }
}

/// Dependencies on a local checkout: the path dependency on its root and the
/// Apple backend inside it.
pub open spec fn local_dependencies(d: ProjectDependencies, v: ValidatedWaterUIPath) -> bool {
    &&& d.rust_toml_view() == path_dependency(v.root@)
    &&& match d.swift {
        SwiftDependency::Local { path } => path@ == v.apple_backend@,
        _ => false,
    }
    &&& match d.local_waterui_path {
        Some(w) => w.root@ == v.root@ && w.android_backend@ == v.android_backend@ && w.apple_backend@ == v.apple_backend@,
        None => false,
    }
}

/// Dependencies on released versions.
pub open spec fn released_dependencies(d: ProjectDependencies, waterui_version: Seq<char>, swift_backend_version: Seq<char>) -> bool {
    &&& d.rust_toml_view() == version_dependency(waterui_version)
    &&& match d.swift {
        SwiftDependency::Git { version, branch, revision } => opt_text(version) == Some(swift_backend_version) && branch is None && revision is None,
        _ => false,
    }
    &&& d.local_waterui_path is None
}

/// Decides the dependencies of a new project: the local checkout in dev
/// mode, otherwise the released WaterUI and Apple backend versions this tool
/// was built with, which must be known.
pub fn resolve_dependencies_with_path(waterui_path: &Option<ValidatedWaterUIPath>, waterui_version: &str, swift_backend_version: &str)
    -> (r: Result<ProjectDependencies, String>)
    ensures
        *waterui_path matches Some(v) ==> (r matches Ok(d) && local_dependencies(d, v)),
        waterui_path is None && waterui_version@.len() == 0 ==> (r matches Err(m)
            && m@ == "WATERUI_VERSION is not set. This should be set at build time."@),
        waterui_path is None && waterui_version@.len() > 0 && swift_backend_version@.len() == 0 ==> (r matches Err(m)
            && m@ == "WATERUI_SWIFT_BACKEND_VERSION is not set. This should be set at build time."@),
        waterui_path is None && waterui_version@.len() > 0 && swift_backend_version@.len() > 0 ==> (r matches Ok(d)
            && released_dependencies(d, waterui_version@, swift_backend_version@)),
{
    match waterui_path {
        Some(v) => {
            let mut rust_toml = String::from_str("waterui = { path = \"");
            rust_toml.append(v.root.as_str());
            rust_toml.append("\" }");
            Ok(ProjectDependencies {
                rust_toml,
                swift: SwiftDependency::Local { path: v.apple_backend.clone() },
                local_waterui_path: Some(clone_checkout(v)),
            })
        },
        None => {
            if waterui_version.unicode_len() == 0 {
                return Err(String::from_str("WATERUI_VERSION is not set. This should be set at build time."));
            }
            let mut rust_toml = String::from_str("waterui = \"");
            rust_toml.append(waterui_version);
            rust_toml.append("\"");
            if swift_backend_version.unicode_len() == 0 {
                return Err(String::from_str("WATERUI_SWIFT_BACKEND_VERSION is not set. This should be set at build time."));
            }
            Ok(ProjectDependencies {
                rust_toml,
                swift: SwiftDependency::Git { version: Some(String::from_str(swift_backend_version)), branch: None, revision: None },
                local_waterui_path: None,
            })
        },
    }
}

/// The commit hash `git ls-remote` printed: the first field of its first
/// line, if that is not empty.
pub open spec fn ls_remote_hash(output: Seq<char>) -> Option<Seq<char>> {
    let ls = lines(output);
    if ls.len() == 0 {
        None
    } else {
        let first = split(ls[0], '\t')[0];
        if first.len() > 0 { Some(first) } else { None }
    }
}

/// Reads the commit hash from `git ls-remote` output.
pub fn git_ls_remote_hash(output: &str) -> (r: Option<String>)
    ensures
        opt_text(r) == ls_remote_hash(output@),
{
    let chars = chars_of(output);
    let ls = split_lines(&chars);
    if ls.len() == 0 {
        return None;
    }
    let fields = split_chars(&ls[0], '\t');
    proof {
        crate::text::lemma_split_has_piece(ls@[0]@, '\t');
    }
    assert(vviews(fields@)[0] == fields@[0]@);
    if fields[0].len() == 0 {
        None
    } else {
        Some(string_of(&fields[0]))
    }
}

/// The commit recorded for the Android dev backend: the file's trimmed
/// contents, unless that is empty.
pub open spec fn recorded_commit(contents: Seq<char>) -> Option<Seq<char>> {
    if trimmed(contents).len() == 0 { None } else { Some(trimmed(contents)) }
}

/// Reads the recorded Android dev backend commit from its file's contents.
pub fn parse_dev_commit(contents: &str) -> (r: Option<String>)
    ensures
        opt_text(r) == recorded_commit(contents@),
{
    let t = trim_str(contents);
    if t.unicode_len() == 0 { None } else { Some(t) }
}

/// Where the Android dev backend commit is recorded in a project.
pub fn dev_commit_path(project_dir: &str) -> (r: String)
    ensures
        r@ == pushed(pushed(pushed(project_dir@, "backends"@), "android"@), ".waterui-dev-commit"@),
{
    let a = joined_path(project_dir, "backends");
    let b = joined_path(a.as_str(), "android");
    joined_path(b.as_str(), ".waterui-dev-commit")
}

/// Whether a file or directory of the Android backend is left out when it is
/// copied into a project: build outputs, IDE and VCS metadata.
pub open spec fn skipped_name(name: Seq<char>) -> bool {
    name == "build"@ || name == ".gradle"@ || name == ".cxx"@ || name == "local.properties"@
        || name == ".DS_Store"@ || name == "target"@ || name == ".idea"@ || name == ".git"@
}

/// Whether an entry is left out when the Android backend is copied.
pub fn should_skip(name: &str) -> (r: bool)
    ensures
        r == skipped_name(name@),
{
    str_eq(name, "build") || str_eq(name, ".gradle") || str_eq(name, ".cxx") || str_eq(name, "local.properties")
        || str_eq(name, ".DS_Store") || str_eq(name, "target") || str_eq(name, ".idea") || str_eq(name, ".git")
}

/// A path written into `local.properties`: on a Windows host every
/// backslash is doubled, as the properties format needs; elsewhere the path
/// is kept as it is.
pub fn escape_local_property_path(path: &str, windows_host: bool) -> (r: String)
    ensures
        r@ == (if windows_host { replaced(path@, seq!['\\'], seq!['\\', '\\']) } else { path@ }),
{
    if windows_host {
        proof {
            reveal_strlit("\\");
            reveal_strlit("\\\\");
        }
        assert("\\"@ =~= seq!['\\']);
        assert("\\\\"@ =~= seq!['\\', '\\']);
        replace_all(path, "\\", "\\\\")
    } else {
        String::from_str(path)
    }
}

/// The Info.plist build settings for permission entries: one line per
/// distinct key, in order of first appearance, with double quotes in the
/// description escaped; lines joined by newlines.
pub open spec fn plist_lines(entries: Seq<(Seq<char>, Seq<char>)>) -> Seq<Seq<char>>
    decreases entries.len(),
{
    if entries.len() == 0 {
        Seq::empty()
    } else {
        let earlier = plist_lines(entries.drop_last());
        let (key, description) = entries.last();
        if exists|j: int| 0 <= j < entries.len() - 1 && #[trigger] entries[j].0 == key {
            earlier
        } else {
            earlier.push("\t\t\t\tINFOPLIST_KEY_"@ + key + " = \""@ + replaced(description, "\""@, "\\\""@) + "\";"@)
        }
    }
}

/// The string pairs as plain values.
pub open spec fn pair_texts(v: Seq<(String, String)>) -> Seq<(Seq<char>, Seq<char>)> {
    v.map_values(|p: (String, String)| (p.0@, p.1@))
}

/// The Info.plist build settings for the permissions' (key, description) entries.
pub fn generate_ios_permission_keys(entries: &Vec<(String, String)>) -> (r: String)
    ensures
        r@ == joined(plist_lines(pair_texts(entries@)), "\n"@),
{
    proof {
        reveal_strlit("\"");
    }
    let mut out: Vec<String> = Vec::new();
    let mut i: usize = 0;
    while i < entries.len()
        invariant
            i <= entries@.len(),
            views(out@) == plist_lines(pair_texts(entries@).take(i as int)),
        decreases entries@.len() - i,
    {
        let ghost pt = pair_texts(entries@).take(i + 1);
        assert(pt.drop_last() =~= pair_texts(entries@).take(i as int));
        let key = &entries[i].0;
        let mut seen = false;
        let mut j: usize = 0;
        while j < i
            invariant
                j <= i < entries@.len(),
                pt == pair_texts(entries@).take(i + 1),
                key@ == entries@[i as int].0@,
                seen == exists|k: int| 0 <= k < j && #[trigger] pt[k].0 == pt[i as int].0,
            decreases i - j,
        {
            assert(pt[j as int] == (entries@[j as int].0@, entries@[j as int].1@));
            assert(pt[i as int] == (entries@[i as int].0@, entries@[i as int].1@));
            if str_eq(entries[j].0.as_str(), key.as_str()) {
                assert(pt[j as int].0 == pt[i as int].0);
                seen = true;
            }
            j += 1;
        }
        proof {
            reveal_strlit("\"");
        }
        if !seen {
            let escaped = replace_all(entries[i].1.as_str(), "\"", "\\\"");
            let mut line = String::from_str("\t\t\t\tINFOPLIST_KEY_");
            line.append(key.as_str());
            line.append(" = \"");
            line.append(escaped.as_str());
            line.append("\";");
            let ghost before = views(out@);
            out.push(line);
            assert(views(out@) =~= before.push(line@));
        }
        i += 1;
    }
    assert(pair_texts(entries@).take(i as int) =~= pair_texts(entries@));
    join(&out, "\n")
}

/// Whether `create` made the project or was cancelled.
#[derive(Clone, Copy, Debug, PartialEq, Eq, Structural)]
pub enum CreateStatus {
    Created,
    Cancelled,
}

/// What `create` reports.
pub struct CreateReport {
    pub status: CreateStatus,
    pub project_dir: String,
    pub crate_name: String,
    pub display_name: String,
    pub bundle_identifier: String,
    pub backends: Vec<String>,
    pub using_dev_dependencies: bool,
    pub config_path: String,
}

/// Assembles the report of `create`; the configuration lives in the
/// project's `Water.toml`.
pub fn build_report(
    status: CreateStatus,
    project_dir: &str,
    crate_name: &str,
    display_name: &str,
    bundle_identifier: &str,
    backends: &Vec<BackendChoice>,
    using_dev_dependencies: bool,
) -> (r: CreateReport)
    ensures
        r.status == status,
        r.project_dir@ == project_dir@,
        r.crate_name@ == crate_name@,
        r.display_name@ == display_name@,
        r.bundle_identifier@ == bundle_identifier@,
        views(r.backends@) == backends@.map_values(|b: BackendChoice| backend_label(b)),
        r.using_dev_dependencies == using_dev_dependencies,
        r.config_path@ == pushed(project_dir@, "Water.toml"@),
{
    let mut labels: Vec<String> = Vec::new();
    let mut i: usize = 0;
    while i < backends.len()
        invariant
            i <= backends@.len(),
            labels@.len() == i,
            forall|j: int| 0 <= j < i ==> (#[trigger] labels@[j])@ == backend_label(backends@[j]),
        decreases backends@.len() - i,
    {
        labels.push(String::from_str(backends[i].label()));
        i += 1;
    }
    assert(views(labels@) =~= backends@.map_values(|b: BackendChoice| backend_label(b)));
    CreateReport {
        status,
        project_dir: String::from_str(project_dir),
        crate_name: String::from_str(crate_name),
        display_name: String::from_str(display_name),
        bundle_identifier: String::from_str(bundle_identifier),
        backends: labels,
        using_dev_dependencies,
        config_path: joined_path(project_dir, "Water.toml"),
    }
}

impl CreateReport {
    /// The report as it is displayed.
    pub fn to_text(&self) -> (r: String)
        ensures
            r@ == "Project created at "@ + self.project_dir@ + "\nBackends: "@ + joined(views(self.backends@), ", "@),
    {
        let mut r = String::from_str("Project created at ");
        r.append(self.project_dir.as_str());
        r.append("\nBackends: ");
        r.append(join(&self.backends, ", ").as_str());
        r
    }
}


/// What `heck` makes of a text in kebab case.
pub uninterp spec fn kebab_case(s: Seq<char>) -> Seq<char>;

/// What `heck` makes of a text in upper camel case.
pub uninterp spec fn upper_camel_case(s: Seq<char>) -> Seq<char>;

/// Writes a text in kebab case.
///
/// Calls `heck::ToKebabCase::to_kebab_case`; the result is named, not restated.
#[verifier::external_body]
fn to_kebab_case(s: &str) -> (r: String)
    ensures
        r@ == kebab_case(s@),
{
    heck::ToKebabCase::to_kebab_case(s)
}

/// Writes a text in upper camel case.
///
/// Calls `heck::ToUpperCamelCase::to_upper_camel_case`; the result is named,
/// not restated.
#[verifier::external_body]
fn to_upper_camel_case(s: &str) -> (r: String)
    ensures
        r@ == upper_camel_case(s@),
{
    heck::ToUpperCamelCase::to_upper_camel_case(s)
}

/// The crate name for an app: its display name in kebab case, or the
/// fallback when that is empty.
pub open spec fn crate_name_spec(display_name: Seq<char>, fallback: Seq<char>) -> Seq<char> {
    if kebab_case(display_name).len() == 0 { fallback } else { kebab_case(display_name) }
}

/// Derives the crate name from an app's display name; `fallback` is
/// `waterui-app` for projects and `playground` for playgrounds.
pub fn crate_name_for(display_name: &str, fallback: &str) -> (r: String)
    ensures
        r@ == crate_name_spec(display_name@, fallback@),
{
    let generated = to_kebab_case(display_name);
    if generated.unicode_len() == 0 { String::from_str(fallback) } else { generated }
}

/// The type name for an app: its display name in upper camel case, or the
/// fallback when that is empty.
pub open spec fn app_name_spec(display_name: Seq<char>, fallback: Seq<char>) -> Seq<char> {
    if upper_camel_case(display_name).len() == 0 { fallback } else { upper_camel_case(display_name) }
}

/// Derives the app's type name from its display name; `fallback` is
/// `WaterUIApp` for projects and `PlaygroundApp` for playgrounds.
pub fn app_name_for(display_name: &str, fallback: &str) -> (r: String)
    ensures
        r@ == app_name_spec(display_name@, fallback@),
{
    let generated = to_upper_camel_case(display_name);
    if generated.unicode_len() == 0 { String::from_str(fallback) } else { generated }
}

/// The bundle identifier proposed for a new project: `com.waterui.` and the
/// crate name.
pub fn default_bundle_identifier(crate_name: &str) -> (r: String)
    ensures
        r@ == "com.waterui."@ + crate_name@,
{
    let mut r = String::from_str("com.waterui.");
    r.append(crate_name);
    r
}

/// Refuses an interactive `create` when output is JSON: prompts need a
/// terminal, so `--yes` is required.
pub fn check_create_mode(is_json: bool, yes: bool) -> (r: Result<(), String>)
    ensures
        r is Err <==> (is_json && !yes),
        r matches Err(m) ==> m@ == "JSON output requires --yes to avoid interactive prompts. Re-run with --yes or provide --backend, --name, and related flags."@,
{
    if is_json && !yes {
        Err(String::from_str("JSON output requires --yes to avoid interactive prompts. Re-run with --yes or provide --backend, --name, and related flags."))
    } else {
        Ok(())
    }
}

/// The backends `create` offers, in the order of its prompt.
pub open spec fn offered_backends() -> Seq<BackendChoice> {
    seq![BackendChoice::Web, BackendChoice::Apple, BackendChoice::Android]
}

/// The backends of a new project: those named on the command line, or else
/// those picked in the prompt, by their positions among the offered ones.
pub fn choose_backends(requested: &Vec<BackendChoice>, picked: &Vec<usize>) -> (r: Vec<BackendChoice>)
    requires
        forall|i: int| 0 <= i < picked@.len() ==> #[trigger] picked@[i] < 3,
    ensures
        requested@.len() > 0 ==> r@ == requested@,
        requested@.len() == 0 ==> r@ == picked@.map_values(|k: usize| offered_backends()[k as int]),
{
    if requested.len() > 0 {
        return requested.clone();
    }
    let offered: Vec<BackendChoice> = vec![BackendChoice::Web, BackendChoice::Apple, BackendChoice::Android];
    assert(offered@ =~= offered_backends());
    let mut r: Vec<BackendChoice> = Vec::new();
    let mut i: usize = 0;
    while i < picked.len()
        invariant
            i <= picked@.len(),
            offered@ == offered_backends(),
            forall|j: int| 0 <= j < picked@.len() ==> #[trigger] picked@[j] < 3,
            r@ == picked@.take(i as int).map_values(|k: usize| offered_backends()[k as int]),
        decreases picked@.len() - i,
    {
        r.push(offered[picked[i]]);
        i += 1;
        assert(r@ =~= picked@.take(i as int).map_values(|k: usize| offered_backends()[k as int]));
    }
    assert(picked@.take(i as int) =~= picked@);
    r
}

/// The released Android backend version recorded in a new project: none in
/// dev mode or when no release is known.
pub fn android_backend_version(dev: bool, release: &str) -> (r: Option<String>)
    ensures
        (dev || release@.len() == 0) ==> r is None,
        !(dev || release@.len() == 0) ==> opt_text(r) == Some(release@),
{
    if dev || release.unicode_len() == 0 {
        None
    } else {
        Some(String::from_str(release))
    }
}

/// The Apple backend entry of a project's `Water.toml`.
pub struct SwiftBackendEntry {
    pub project_path: String,
    pub scheme: String,
    pub project_file: Option<String>,
    pub version: Option<String>,
    pub branch: Option<String>,
    pub revision: Option<String>,
    pub local_path: Option<String>,
    pub dev: bool,
}

/// The Apple backend entry for a project: the scheme is the crate name, the
/// Xcode project is named after the app, and the package source is either
/// a git requirement or a local path.
pub fn swift_backend_entry(project_path: &str, crate_name: &str, app_name: &str, swift: &SwiftDependency, dev: bool) -> (r: SwiftBackendEntry)
    ensures
        r.project_path@ == project_path@,
        r.scheme@ == crate_name@,
        opt_text(r.project_file) == Some(app_name@ + ".xcodeproj"@),
        r.dev == dev,
        match swift {
            SwiftDependency::Git { version, branch, revision } => opt_text(r.version) == opt_text(*version)
                && opt_text(r.branch) == opt_text(*branch) && opt_text(r.revision) == opt_text(*revision)
                && r.local_path is None,
            SwiftDependency::Local { path } => r.version is None && r.branch is None && r.revision is None
                && opt_text(r.local_path) == Some(path@),
        },
{
    let mut file = String::from_str(app_name);
    file.append(".xcodeproj");
    let (version, branch, revision, local_path) = match swift {
        SwiftDependency::Git { version, branch, revision } => (clone_opt(version), clone_opt(branch), clone_opt(revision), None),
        SwiftDependency::Local { path } => (None, None, None, Some(path.clone())),
    };
    SwiftBackendEntry {
        project_path: String::from_str(project_path),
        scheme: String::from_str(crate_name),
        project_file: Some(file),
        version,
        branch,
        revision,
        local_path,
        dev,
    }
}

fn clone_opt(o: &Option<String>) -> (r: Option<String>)
    ensures
        opt_text(r) == opt_text(*o),
{
    match o {
        Some(s) => Some(s.clone()),
        None => None,
    }
}

/// Whether an environment switch is on: set to `1`, or to `true` in any
/// ASCII case.
pub open spec fn switch_on(value: Option<Seq<char>>) -> bool {
    match value {
        Some(v) => v == "1"@ || ascii_lower(v) == "true"@,
        None => false,
    }
}

/// Reads an environment switch such as `WATERUI_ANDROID_REMOTE_DEV_BACKEND`.
pub fn env_switch_enabled(value: Option<&str>) -> (r: bool)
    ensures
        r == switch_on(match value { Some(v) => Some(v@), None => None }),
{
    match value {
        Some(v) => {
            let lower = to_ascii_lowercase(v);
            let l = string_of(&lower);
            str_eq(v, "1") || str_eq(l.as_str(), "true")
        },
        None => false,
    }
}

/// Where the Android backend of a new project comes from.
#[derive(Clone, Copy, Debug, PartialEq, Eq, Structural)]
pub enum AndroidBackendSource {
    /// Gradle fetches the development backend itself; nothing is copied.
    Remote,
    /// A checkout of the backend's development branch is copied in.
    DevCheckout,
    /// The backend bundled with the WaterUI sources is copied in.
    Bundled,
}

/// The Android backend source: remote only in dev mode when asked for,
/// otherwise the dev checkout in dev mode and the bundled copy outside it.
pub fn android_backend_source(dev_mode: bool, remote_requested: bool) -> (r: AndroidBackendSource)
    ensures
        r == (if dev_mode && remote_requested { AndroidBackendSource::Remote }
            else if dev_mode { AndroidBackendSource::DevCheckout }
            else { AndroidBackendSource::Bundled }),
{
    if dev_mode && remote_requested {
        AndroidBackendSource::Remote
    } else if dev_mode {
        AndroidBackendSource::DevCheckout
    } else {
        AndroidBackendSource::Bundled
    }
}

/// The values filled into the Android templates: app name, crate name and
/// its underscore form, the Java package, and whether Gradle fetches the
/// development backend.
pub open spec fn android_context(display_name: Seq<char>, crate_name: Seq<char>, package: Seq<char>, use_dev_backend: bool) -> Seq<(Seq<char>, Seq<char>)> {
    seq![
        ("APP_NAME"@, display_name),
        ("CRATE_NAME"@, crate_name),
        ("CRATE_NAME_SANITIZED"@, replaced(crate_name, "-"@, "_"@)),
        ("BUNDLE_IDENTIFIER"@, package),
        ("USE_DEV_BACKEND"@, if use_dev_backend { "true"@ } else { "false"@ }),
    ]
}

/// The template values of a new Android project; the package is the bundle
/// identifier made a valid Java package name.
pub fn android_template_context(display_name: &str, crate_name: &str, bundle_identifier: &str, use_dev_backend: bool) -> (r: Vec<(String, String)>)
    ensures
        pair_views(r@) == android_context(display_name@, crate_name@, sanitized_package(bundle_identifier@), use_dev_backend),
{
    proof {
        reveal_strlit("-");
    }
    let package = sanitize_package_name(bundle_identifier);
    let mut r: Vec<(String, String)> = Vec::new();
    r.push((String::from_str("APP_NAME"), String::from_str(display_name)));
    r.push((String::from_str("CRATE_NAME"), String::from_str(crate_name)));
    r.push((String::from_str("CRATE_NAME_SANITIZED"), replace_all(crate_name, "-", "_")));
    r.push((String::from_str("BUNDLE_IDENTIFIER"), package));
    r.push((String::from_str("USE_DEV_BACKEND"), String::from_str(if use_dev_backend { "true" } else { "false" })));
    assert(pair_views(r@) =~= android_context(display_name@, crate_name@, sanitized_package(bundle_identifier@), use_dev_backend));
    r
}

/// A file of a new Android project: its bundled template, where it goes
/// relative to the project directory, and whether the template values are
/// filled in (otherwise it is copied as it is).
pub struct TemplateFile {
    pub template: String,
    pub destination: String,
    pub render: bool,
}

/// The files of a new Android project, in the order they are written; the
/// main activity goes under the package's directory.
pub open spec fn android_files(package: Seq<char>) -> Seq<(Seq<char>, Seq<char>, bool)> {
    seq![
        ("android/build.gradle.kts.tpl"@, "android/build.gradle.kts"@, true),
        ("android/gradle.properties.tpl"@, "android/gradle.properties"@, true),
        ("android/settings.gradle.kts.tpl"@, "android/settings.gradle.kts"@, true),
        ("android/app/build.gradle.kts.tpl"@, "android/app/build.gradle.kts"@, true),
        ("android/app/proguard-rules.pro"@, "android/app/proguard-rules.pro"@, false),
        ("android/app/src/main/AndroidManifest.xml.tpl"@, "android/app/src/main/AndroidManifest.xml"@, true),
        ("android/app/src/main/res/values/strings.xml.tpl"@, "android/app/src/main/res/values/strings.xml"@, true),
        ("android/app/src/main/res/values/themes.xml.tpl"@, "android/app/src/main/res/values/themes.xml"@, true),
        ("android/app/src/main/res/values/colors.xml.tpl"@, "android/app/src/main/res/values/colors.xml"@, true),
        ("android/app/src/main/res/drawable/ic_launcher_foreground.xml.tpl"@, "android/app/src/main/res/drawable/ic_launcher_foreground.xml"@, true),
        ("android/app/src/main/res/mipmap-anydpi-v26/ic_launcher.xml.tpl"@, "android/app/src/main/res/mipmap-anydpi-v26/ic_launcher.xml"@, true),
        ("android/app/src/main/res/mipmap-anydpi-v26/ic_launcher_round.xml.tpl"@, "android/app/src/main/res/mipmap-anydpi-v26/ic_launcher_round.xml"@, true),
        ("android/app/src/main/java/MainActivity.kt.tpl"@, "android/app/src/main/java/"@ + replaced(package, "."@, "/"@) + "/MainActivity.kt"@, true),
        ("android/build-rust.sh.tpl"@, "build-rust.sh"@, true),
        ("android/gradlew"@, "android/gradlew"@, false),
        ("android/gradlew.bat"@, "android/gradlew.bat"@, false),
        ("android/gradle/wrapper/gradle-wrapper.jar"@, "android/gradle/wrapper/gradle-wrapper.jar"@, false),
        ("android/gradle/wrapper/gradle-wrapper.properties"@, "android/gradle/wrapper/gradle-wrapper.properties"@, false),
    ]
}

fn template_file(template: &str, destination: &str, render: bool) -> (r: TemplateFile)
    ensures
        r.template@ == template@,
        r.destination@ == destination@,
        r.render == render,
{
    TemplateFile { template: String::from_str(template), destination: String::from_str(destination), render }
}

/// The files to write for a new Android project whose Java package is
/// `package`.
pub fn android_template_files(package: &str) -> (r: Vec<TemplateFile>)
    ensures
        r@.map_values(|f: TemplateFile| (f.template@, f.destination@, f.render)) == android_files(package@),
{
    proof {
        reveal_strlit(".");
        reveal_strlit("/");
    }
    let mut activity = String::from_str("android/app/src/main/java/");
    activity.append(replace_all(package, ".", "/").as_str());
    activity.append("/MainActivity.kt");
    let mut r: Vec<TemplateFile> = Vec::new();
    r.push(template_file("android/build.gradle.kts.tpl", "android/build.gradle.kts", true));
    r.push(template_file("android/gradle.properties.tpl", "android/gradle.properties", true));
    r.push(template_file("android/settings.gradle.kts.tpl", "android/settings.gradle.kts", true));
    r.push(template_file("android/app/build.gradle.kts.tpl", "android/app/build.gradle.kts", true));
    r.push(template_file("android/app/proguard-rules.pro", "android/app/proguard-rules.pro", false));
    r.push(template_file("android/app/src/main/AndroidManifest.xml.tpl", "android/app/src/main/AndroidManifest.xml", true));
    r.push(template_file("android/app/src/main/res/values/strings.xml.tpl", "android/app/src/main/res/values/strings.xml", true));
    r.push(template_file("android/app/src/main/res/values/themes.xml.tpl", "android/app/src/main/res/values/themes.xml", true));
    r.push(template_file("android/app/src/main/res/values/colors.xml.tpl", "android/app/src/main/res/values/colors.xml", true));
    r.push(template_file("android/app/src/main/res/drawable/ic_launcher_foreground.xml.tpl", "android/app/src/main/res/drawable/ic_launcher_foreground.xml", true));
    r.push(template_file("android/app/src/main/res/mipmap-anydpi-v26/ic_launcher.xml.tpl", "android/app/src/main/res/mipmap-anydpi-v26/ic_launcher.xml", true));
    r.push(template_file("android/app/src/main/res/mipmap-anydpi-v26/ic_launcher_round.xml.tpl", "android/app/src/main/res/mipmap-anydpi-v26/ic_launcher_round.xml", true));
    r.push(TemplateFile { template: String::from_str("android/app/src/main/java/MainActivity.kt.tpl"), destination: activity, render: true });
    r.push(template_file("android/build-rust.sh.tpl", "build-rust.sh", true));
    r.push(template_file("android/gradlew", "android/gradlew", false));
    r.push(template_file("android/gradlew.bat", "android/gradlew.bat", false));
    r.push(template_file("android/gradle/wrapper/gradle-wrapper.jar", "android/gradle/wrapper/gradle-wrapper.jar", false));
    r.push(template_file("android/gradle/wrapper/gradle-wrapper.properties", "android/gradle/wrapper/gradle-wrapper.properties", false));
    assert(r@.map_values(|f: TemplateFile| (f.template@, f.destination@, f.render)) =~= android_files(package@));
    r
}

/// What a new project records of the development backend it copied.
pub enum DevCommitStep {
    /// Record the checkout's commit.
    Write(String),
    /// Remove any recorded commit.
    Clear,
}

/// The commit is recorded when the dev checkout was copied and its head is
/// known; otherwise any old record is removed.
pub fn dev_commit_step(dev_mode: bool, head: Option<String>) -> (r: DevCommitStep)
    ensures
        dev_mode && head is Some ==> (r matches DevCommitStep::Write(c) && Some(c@) == opt_text(head)),
        !(dev_mode && head is Some) ==> r is Clear,
{
    match head {
        Some(c) => if dev_mode { DevCommitStep::Write(c) } else { DevCommitStep::Clear },
        None => DevCommitStep::Clear,
    }
}

/// The error for a failed `git` command: the given message, followed by
/// git's trimmed error output, or its trimmed standard output when that is
/// empty, when there is any.
pub open spec fn git_failure_text(failure: Seq<char>, stderr: Seq<char>, stdout: Seq<char>) -> Seq<char> {
    let details = if trimmed(stderr).len() > 0 { trimmed(stderr) } else { trimmed(stdout) };
    if details.len() == 0 { failure } else { failure + ": "@ + details }
}

/// Explains a failed `git` command.
pub fn git_failure_message(failure: &str, stderr: &str, stdout: &str) -> (r: String)
    ensures
        r@ == git_failure_text(failure@, stderr@, stdout@),
{
    let e = trim_str(stderr);
    let details = if e.unicode_len() > 0 { e } else { trim_str(stdout) };
    if details.unicode_len() == 0 {
        String::from_str(failure)
    } else {
        let mut m = String::from_str(failure);
        m.append(": ");
        m.append(details.as_str());
        m
    }
}

/// The Swift package requirement written into the Xcode project for a git
/// dependency: the release's major version, a pinned revision, or a branch
/// (`main` when none is named), in that order of preference.
pub open spec fn package_requirement(version: Option<Seq<char>>, branch: Option<Seq<char>>, revision: Option<Seq<char>>) -> Seq<char> {
    match version {
        Some(v) => "requirement = { \n\t\t\t\tkind = upToNextMajorVersion;\n\t\t\t\tminimumVersion = \""@ + v + "\";\n\t\t\t\t}"@,
        None => match revision {
            Some(r) => "requirement = {\n\t\t\t\tkind = revision;\n\t\t\t\trevision = \""@ + r + "\";\n\t\t\t};"@,
            None => "requirement = {\n\t\t\t\tkind = branch;\n\t\t\t\tbranch = \""@
                + (match branch { Some(b) => b, None => "main"@ }) + "\";\n\t\t\t};"@,
        },
    }
}

/// The package reference entry and section of the Xcode project: a local
/// package by its path relative to the Apple project (or as given when no
/// relative path exists), or the remote repository with its requirement.
pub open spec fn xcode_package_reference_of(dep: SwiftDependency, apple_root: Seq<char>, repo_url: Seq<char>) -> (Seq<char>, Seq<char>) {
    match dep {
        SwiftDependency::Local { path } => {
            let local = match path_difference(path@, apple_root) { Some(rel) => rel, None => path@ };
            ("D01867782E6C82CA00802E96 /* XCLocalSwiftPackageReference \"waterui-swift\" */,"@,
             "/* Begin XCLocalSwiftPackageReference section */\n        D01867782E6C82CA00802E96 /* XCLocalSwiftPackageReference \"waterui-swift\" */ = {\n            isa = XCLocalSwiftPackageReference;\n            relativePath = \""@
                + local + "\";\n        };\n/* End XCLocalSwiftPackageReference section */"@)
        },
        SwiftDependency::Git { version, branch, revision } => {
            ("D01867782E6C82CA00802E96 /* XCRemoteSwiftPackageReference \"waterui-swift\" */,"@,
             "/* Begin XCRemoteSwiftPackageReference section */\n        D01867782E6C82CA00802E96 /* XCRemoteSwiftPackageReference \"waterui-swift\" */ = {\n            isa = XCRemoteSwiftPackageReference;\n            repositoryURL = \""@
                + repo_url + "\";\n            "@ + package_requirement(opt_text(version), opt_text(branch), opt_text(revision))
                + "\n        };\n/* End XCRemoteSwiftPackageReference section */"@)
        },
    }
}

/// Builds the Swift package reference of a new Xcode project.
pub fn xcode_package_reference(dep: &SwiftDependency, apple_root: &str, repo_url: &str) -> (r: (String, String))
    ensures
        (r.0@, r.1@) == xcode_package_reference_of(*dep, apple_root@, repo_url@),
{
    match dep {
        SwiftDependency::Local { path } => {
            let local = match diff_paths(path.as_str(), apple_root) {
                Some(rel) => rel,
                None => path.clone(),
            };
            let mut section = String::from_str("/* Begin XCLocalSwiftPackageReference section */\n        D01867782E6C82CA00802E96 /* XCLocalSwiftPackageReference \"waterui-swift\" */ = {\n            isa = XCLocalSwiftPackageReference;\n            relativePath = \"");
            section.append(local.as_str());
            section.append("\";\n        };\n/* End XCLocalSwiftPackageReference section */");
            (String::from_str("D01867782E6C82CA00802E96 /* XCLocalSwiftPackageReference \"waterui-swift\" */,"), section)
        },
        SwiftDependency::Git { version, branch, revision } => {
            let requirement = match version {
                Some(v) => {
                    let mut q = String::from_str("requirement = { \n\t\t\t\tkind = upToNextMajorVersion;\n\t\t\t\tminimumVersion = \"");
                    q.append(v.as_str());
                    q.append("\";\n\t\t\t\t}");
                    q
                },
                None => match revision {
                    Some(rv) => {
                        let mut q = String::from_str("requirement = {\n\t\t\t\tkind = revision;\n\t\t\t\trevision = \"");
                        q.append(rv.as_str());
                        q.append("\";\n\t\t\t};");
                        q
                    },
                    None => {
                        let mut q = String::from_str("requirement = {\n\t\t\t\tkind = branch;\n\t\t\t\tbranch = \"");
                        match branch {
                            Some(b) => q.append(b.as_str()),
                            None => q.append("main"),
                        }
                        q.append("\";\n\t\t\t};");
                        q
                    },
                },
            };
            let mut section = String::from_str("/* Begin XCRemoteSwiftPackageReference section */\n        D01867782E6C82CA00802E96 /* XCRemoteSwiftPackageReference \"waterui-swift\" */ = {\n            isa = XCRemoteSwiftPackageReference;\n            repositoryURL = \"");
            section.append(repo_url);
            section.append("\";\n            ");
            section.append(requirement.as_str());
            section.append("\n        };\n/* End XCRemoteSwiftPackageReference section */");
            (String::from_str("D01867782E6C82CA00802E96 /* XCRemoteSwiftPackageReference \"waterui-swift\" */,"), section)
        },
    }
}

} // verus!
