//! Placeholder substitution for the Apple and Android project templates, and
//! the relative paths that generated projects use to reach a local WaterUI
//! checkout.

use vstd::prelude::*;
use crate::paths::{lemma_config_path_plain, lemma_pushed_clean, no_double_slash, component_count, config_path, count_components, is_absolute, normalize_path_for_config, push_path, pushed};
use crate::backend::has_suffix;
use crate::text::{contains_seq, lemma_contains_prefix_pair, lemma_replaced_absent, chars_of, join, joined, replace_all, replaced, str_eq, str_lowercase, string_of, to_lowercase, views};

verus! {

/// Values substituted into the project templates.
pub struct TemplateContext {
    /// The application display name (e.g. "My App").
    pub app_display_name: String,
    /// The application name used for files and folders (e.g. "MyApp").
    pub app_name: String,
    /// The Rust crate name (e.g. "my_app").
    pub crate_name: String,
    /// The bundle identifier (e.g. "com.example.myapp").
    pub bundle_identifier: String,
    /// The author name.
    pub author: String,
    /// Path to the Android backend, relative or absolute.
    pub android_backend_path: Option<String>,
    /// Whether the Android project uses the remote dev backend instead of a local one.
    pub use_remote_dev_backend: bool,
    /// Path to a local WaterUI checkout, for dev mode.
    pub waterui_path: Option<String>,
    /// Path from the project root to the generated Xcode or Android project;
    /// `None` stands for a project one level deep (such as `apple`).
    pub backend_project_path: Option<String>,
    /// Android permissions to declare in the manifest (e.g. "internet").
    pub android_permissions: Vec<String>,
}

/// The path that `depth` pushes of `..` onto an empty path give: `..`
/// joined by `/`, `depth` times.
pub open spec fn parent_steps(depth: nat) -> Seq<char>
    decreases depth,
{
    if depth == 0 {
        Seq::empty()
    } else {
        pushed(parent_steps((depth - 1) as nat), seq!['.', '.'])
    }
}

/// How many levels the backend project lies below the project root.
pub open spec fn backend_depth(backend_project_path: Option<String>) -> nat {
    match backend_project_path {
        None => 1,
        Some(p) => component_count(p@),
    }
}

/// The path from the backend project to `backends/<sub>` of the WaterUI
/// checkout, with forward slashes; none without a checkout.
pub open spec fn relative_backend_path(
    waterui_path: Option<String>,
    backend_project_path: Option<String>,
    sub: Seq<char>,
) -> Option<Seq<char>> {
    match waterui_path {
        None => None,
        Some(w) => if is_absolute(w@) {
            Some(config_path(pushed(pushed(w@, "backends"@), sub)))
        } else {
            Some(config_path(pushed(pushed(pushed(parent_steps(backend_depth(backend_project_path)), w@), "backends"@), sub)))
        },
    }
}

/// The manifest name of a permission: the well-known short names, in any
/// case, map to their `android.permission.*` constant; any other name is a
/// raw Android permission name and is kept exactly as given.
pub open spec fn android_permission_name(perm: Seq<char>) -> Seq<char> {
    match short_permission(str_lowercase(perm)) {
        Some(name) => name,
        None => perm,
    }
}

/// The `android.permission.*` constant of a lowercased short permission
/// name, if it is one the tool knows.
pub open spec fn short_permission(lower: Seq<char>) -> Option<Seq<char>> {
    if lower == "internet"@ {
        Some("android.permission.INTERNET"@)
    } else if lower == "camera"@ {
        Some("android.permission.CAMERA"@)
    } else if lower == "microphone"@ {
        Some("android.permission.RECORD_AUDIO"@)
    } else if lower == "location"@ {
        Some("android.permission.ACCESS_FINE_LOCATION"@)
    } else if lower == "coarse_location"@ {
        Some("android.permission.ACCESS_COARSE_LOCATION"@)
    } else if lower == "storage"@ {
        Some("android.permission.READ_EXTERNAL_STORAGE"@)
    } else if lower == "write_storage"@ {
        Some("android.permission.WRITE_EXTERNAL_STORAGE"@)
    } else if lower == "bluetooth"@ {
        Some("android.permission.BLUETOOTH"@)
    } else if lower == "bluetooth_admin"@ {
        Some("android.permission.BLUETOOTH_ADMIN"@)
    } else if lower == "vibrate"@ {
        Some("android.permission.VIBRATE"@)
    } else if lower == "wake_lock"@ {
        Some("android.permission.WAKE_LOCK"@)
    } else {
        None
    }
}

/// How a permission is named in the Android manifest: each short name the
/// tool knows, written in any case, stands for its fixed Android permission
/// (`microphone` for `RECORD_AUDIO`, `location` for `ACCESS_FINE_LOCATION`,
/// `storage` for `READ_EXTERNAL_STORAGE`, and so on); every other name is a
/// raw Android permission name and is written exactly as given.
pub proof fn lemma_permission_names(perm: Seq<char>)
    ensures
        str_lowercase(perm) == "internet"@ ==> android_permission_name(perm) == "android.permission.INTERNET"@,
        str_lowercase(perm) == "camera"@ ==> android_permission_name(perm) == "android.permission.CAMERA"@,
        str_lowercase(perm) == "microphone"@ ==> android_permission_name(perm) == "android.permission.RECORD_AUDIO"@,
        str_lowercase(perm) == "location"@ ==> android_permission_name(perm) == "android.permission.ACCESS_FINE_LOCATION"@,
        str_lowercase(perm) == "coarse_location"@ ==> android_permission_name(perm) == "android.permission.ACCESS_COARSE_LOCATION"@,
        str_lowercase(perm) == "storage"@ ==> android_permission_name(perm) == "android.permission.READ_EXTERNAL_STORAGE"@,
        str_lowercase(perm) == "write_storage"@ ==> android_permission_name(perm) == "android.permission.WRITE_EXTERNAL_STORAGE"@,
        str_lowercase(perm) == "bluetooth"@ ==> android_permission_name(perm) == "android.permission.BLUETOOTH"@,
        str_lowercase(perm) == "bluetooth_admin"@ ==> android_permission_name(perm) == "android.permission.BLUETOOTH_ADMIN"@,
        str_lowercase(perm) == "vibrate"@ ==> android_permission_name(perm) == "android.permission.VIBRATE"@,
        str_lowercase(perm) == "wake_lock"@ ==> android_permission_name(perm) == "android.permission.WAKE_LOCK"@,
        (str_lowercase(perm) != "internet"@ && str_lowercase(perm) != "camera"@ && str_lowercase(perm) != "microphone"@ && str_lowercase(perm) != "location"@ && str_lowercase(perm) != "coarse_location"@ && str_lowercase(perm) != "storage"@ && str_lowercase(perm) != "write_storage"@ && str_lowercase(perm) != "bluetooth"@ && str_lowercase(perm) != "bluetooth_admin"@ && str_lowercase(perm) != "vibrate"@ && str_lowercase(perm) != "wake_lock"@) ==> android_permission_name(perm) == perm,
{
    reveal_strlit("internet");
    reveal_strlit("camera");
    reveal_strlit("microphone");
    reveal_strlit("location");
    reveal_strlit("coarse_location");
    reveal_strlit("storage");
    reveal_strlit("write_storage");
    reveal_strlit("bluetooth");
    reveal_strlit("bluetooth_admin");
    reveal_strlit("vibrate");
    reveal_strlit("wake_lock");
    assert("camera"@.len() != "internet"@.len());
    assert("microphone"@.len() != "internet"@.len());
    assert("microphone"@.len() != "camera"@.len());
    assert("location"@[0] != "internet"@[0]);
    assert("location"@.len() != "camera"@.len());
    assert("location"@.len() != "microphone"@.len());
    assert("coarse_location"@.len() != "internet"@.len());
    assert("coarse_location"@.len() != "camera"@.len());
    assert("coarse_location"@.len() != "microphone"@.len());
    assert("coarse_location"@.len() != "location"@.len());
    assert("storage"@.len() != "internet"@.len());
    assert("storage"@.len() != "camera"@.len());
    assert("storage"@.len() != "microphone"@.len());
    assert("storage"@.len() != "location"@.len());
    assert("storage"@.len() != "coarse_location"@.len());
    assert("write_storage"@.len() != "internet"@.len());
    assert("write_storage"@.len() != "camera"@.len());
    assert("write_storage"@.len() != "microphone"@.len());
    assert("write_storage"@.len() != "location"@.len());
    assert("write_storage"@.len() != "coarse_location"@.len());
    assert("write_storage"@.len() != "storage"@.len());
    assert("bluetooth"@.len() != "internet"@.len());
    assert("bluetooth"@.len() != "camera"@.len());
    assert("bluetooth"@.len() != "microphone"@.len());
    assert("bluetooth"@.len() != "location"@.len());
    assert("bluetooth"@.len() != "coarse_location"@.len());
    assert("bluetooth"@.len() != "storage"@.len());
    assert("bluetooth"@.len() != "write_storage"@.len());
    assert("bluetooth_admin"@.len() != "internet"@.len());
    assert("bluetooth_admin"@.len() != "camera"@.len());
    assert("bluetooth_admin"@.len() != "microphone"@.len());
    assert("bluetooth_admin"@.len() != "location"@.len());
    assert("bluetooth_admin"@[0] != "coarse_location"@[0]);
    assert("bluetooth_admin"@.len() != "storage"@.len());
    assert("bluetooth_admin"@.len() != "write_storage"@.len());
    assert("bluetooth_admin"@.len() != "bluetooth"@.len());
    assert("vibrate"@.len() != "internet"@.len());
    assert("vibrate"@.len() != "camera"@.len());
    assert("vibrate"@.len() != "microphone"@.len());
    assert("vibrate"@.len() != "location"@.len());
    assert("vibrate"@.len() != "coarse_location"@.len());
    assert("vibrate"@[0] != "storage"@[0]);
    assert("vibrate"@.len() != "write_storage"@.len());
    assert("vibrate"@.len() != "bluetooth"@.len());
    assert("vibrate"@.len() != "bluetooth_admin"@.len());
    assert("wake_lock"@.len() != "internet"@.len());
    assert("wake_lock"@.len() != "camera"@.len());
    assert("wake_lock"@.len() != "microphone"@.len());
    assert("wake_lock"@.len() != "location"@.len());
    assert("wake_lock"@.len() != "coarse_location"@.len());
    assert("wake_lock"@.len() != "storage"@.len());
    assert("wake_lock"@.len() != "write_storage"@.len());
    assert("wake_lock"@[0] != "bluetooth"@[0]);
    assert("wake_lock"@.len() != "bluetooth_admin"@.len());
    assert("wake_lock"@.len() != "vibrate"@.len());
}

/// The manifest line that declares one permission.
pub open spec fn permission_line(perm: Seq<char>) -> Seq<char> {
    "    <uses-permission android:name=\""@ + android_permission_name(perm) + "\" />"@
}

/// The manifest lines of all permissions, one per line.
pub open spec fn permissions_xml(perms: Seq<Seq<char>>) -> Seq<char> {
    joined(perms.map_values(|p: Seq<char>| permission_line(p)), "\n"@)
}

/// The package reference entry of the Xcode project file.
pub open spec fn package_reference_entry(apple: Option<Seq<char>>) -> Seq<char> {
    match apple {
        None => "\t\t\t\tD01867782E6C82CA00802E96 /* XCRemoteSwiftPackageReference \"apple-backend\" */,"@,
        Some(p) => "\t\t\t\tD01867782E6C82CA00802E96 /* XCLocalSwiftPackageReference \""@ + p + "\" */,"@,
    }
}

/// The package reference section of the Xcode project file: the released
/// package from its repository, or the local checkout at the given path.
pub open spec fn package_reference_section(apple: Option<Seq<char>>) -> Seq<char> {
    match apple {
        None => "/* Begin XCRemoteSwiftPackageReference section */\n\t\tD01867782E6C82CA00802E96 /* XCRemoteSwiftPackageReference \"apple-backend\" */ = {\n\t\t\tisa = XCRemoteSwiftPackageReference;\n\t\t\trepositoryURL = \"https://github.com/user/waterui-apple.git\";\n\t\t\trequirement = {\n\t\t\t\tkind = upToNextMajorVersion;\n\t\t\t\tminimumVersion = 1.0.0;\n\t\t\t};\n\t\t};\n/* End XCRemoteSwiftPackageReference section */"@,
        Some(p) => "/* Begin XCLocalSwiftPackageReference section */\n\t\tD01867782E6C82CA00802E96 /* XCLocalSwiftPackageReference \""@ + p
            + "\" */ = {\n\t\t\tisa = XCLocalSwiftPackageReference;\n\t\t\trelativePath = \""@ + p
            + "\";\n\t\t};\n/* End XCLocalSwiftPackageReference section */"@,
    }
}

impl TemplateContext {
    /// The Android backend path substituted into templates (empty without a checkout).
    pub open spec fn android_backend_text(&self) -> Seq<char> {
        match relative_backend_path(self.waterui_path, self.backend_project_path, "android"@) {
            Some(p) => p,
            None => Seq::empty(),
        }
    }

    /// The Apple backend path, if the project uses a local checkout.
    pub open spec fn apple_backend(&self) -> Option<Seq<char>> {
        relative_backend_path(self.waterui_path, self.backend_project_path, "apple"@)
    }

    /// The placeholders of the templates with their values, in the order in
    /// which they are substituted.
    pub open spec fn substitutions(&self) -> Seq<(Seq<char>, Seq<char>)> {
        seq![
            ("__APP_DISPLAY_NAME__"@, self.app_display_name@),
            ("__APP_NAME__"@, self.app_name@),
            ("__CRATE_NAME__"@, self.crate_name@),
            ("__ANDROID_NAMESPACE__"@, replaced(self.bundle_identifier@, "-"@, "_"@)),
            ("__BUNDLE_IDENTIFIER__"@, self.bundle_identifier@),
            ("__AUTHOR__"@, self.author@),
            ("__ANDROID_BACKEND_PATH__"@, self.android_backend_text()),
            ("__USE_REMOTE_DEV_BACKEND__"@, if self.use_remote_dev_backend { "true"@ } else { "false"@ }),
            ("__SWIFT_PACKAGE_REFERENCE_ENTRY__"@, package_reference_entry(self.apple_backend())),
            ("__SWIFT_PACKAGE_REFERENCE_SECTION__"@, package_reference_section(self.apple_backend())),
            ("__IOS_PERMISSION_KEYS__"@, Seq::empty()),
            ("__ANDROID_PERMISSIONS__"@, permissions_xml(views(self.android_permissions@))),
            ("__PROJECT_ROOT_RELATIVE_PATH__"@, parent_steps(backend_depth(self.backend_project_path))),
        ]
    }

    /// `template` with every placeholder substituted, in the fixed order of
    /// [`TemplateContext::substitutions`].
    pub open spec fn rendered(&self, template: Seq<char>) -> Seq<char> {
        substituted(template, self.substitutions())
    }

    /// The placeholder-value pairs as strings.
    pub fn substitution_list(&self) -> (v: Vec<(String, String)>)
        ensures
            pair_views(v@) == self.substitutions(),
    {
        proof {
            reveal_strlit("");
            reveal_strlit("-");
        }
        let android_namespace = replace_all(self.bundle_identifier.as_str(), "-", "_");
        let android_path = match self.compute_android_backend_path() {
            Some(p) => p,
            None => String::new(),
        };
        let mut v: Vec<(String, String)> = Vec::new();
        v.push((String::from_str("__APP_DISPLAY_NAME__"), self.app_display_name.clone()));
        v.push((String::from_str("__APP_NAME__"), self.app_name.clone()));
        v.push((String::from_str("__CRATE_NAME__"), self.crate_name.clone()));
        v.push((String::from_str("__ANDROID_NAMESPACE__"), android_namespace));
        v.push((String::from_str("__BUNDLE_IDENTIFIER__"), self.bundle_identifier.clone()));
        v.push((String::from_str("__AUTHOR__"), self.author.clone()));
        v.push((String::from_str("__ANDROID_BACKEND_PATH__"), android_path));
        v.push((String::from_str("__USE_REMOTE_DEV_BACKEND__"), String::from_str(if self.use_remote_dev_backend { "true" } else { "false" })));
        v.push((String::from_str("__SWIFT_PACKAGE_REFERENCE_ENTRY__"), self.swift_package_reference_entry()));
        v.push((String::from_str("__SWIFT_PACKAGE_REFERENCE_SECTION__"), self.swift_package_reference_section()));
        v.push((String::from_str("__IOS_PERMISSION_KEYS__"), String::new()));
        v.push((String::from_str("__ANDROID_PERMISSIONS__"), self.android_permissions_xml()));
        v.push((String::from_str("__PROJECT_ROOT_RELATIVE_PATH__"), self.project_root_relative_path()));
        assert(pair_views(v@) =~= self.substitutions());
        v
    }

    /// Renders a template by replacing all placeholders.
    pub fn render(&self, template: &str) -> (r: String)
        ensures
            r@ == self.rendered(template@),
    {
        proof {
            reveal_strlit("__APP_DISPLAY_NAME__");
            reveal_strlit("__APP_NAME__");
            reveal_strlit("__CRATE_NAME__");
            reveal_strlit("__ANDROID_NAMESPACE__");
            reveal_strlit("__BUNDLE_IDENTIFIER__");
            reveal_strlit("__AUTHOR__");
            reveal_strlit("__ANDROID_BACKEND_PATH__");
            reveal_strlit("__USE_REMOTE_DEV_BACKEND__");
            reveal_strlit("__SWIFT_PACKAGE_REFERENCE_ENTRY__");
            reveal_strlit("__SWIFT_PACKAGE_REFERENCE_SECTION__");
            reveal_strlit("__IOS_PERMISSION_KEYS__");
            reveal_strlit("__ANDROID_PERMISSIONS__");
            reveal_strlit("__PROJECT_ROOT_RELATIVE_PATH__");
        }
        let subs = self.substitution_list();
        assert(pair_views(subs@).len() == subs@.len());
        assert(self.substitutions().len() == 13);
        assert forall|i: int| 0 <= i < subs@.len() implies (#[trigger] pair_views(subs@)[i]).0.len() > 0 by {
            assert(i == 0 || i == 1 || i == 2 || i == 3 || i == 4 || i == 5 || i == 6 || i == 7 || i == 8
                || i == 9 || i == 10 || i == 11 || i == 12);
        }
        substitute_all(template, &subs)
    }

    /// Replaces `AppName` in a template file path with the application name.
    pub fn transform_path(&self, path: &str) -> (r: String)
        ensures
            r@ == replaced(path@, "AppName"@, self.app_name@),
    {
        proof {
            reveal_strlit("AppName");
        }
        replace_all(path, "AppName", self.app_name.as_str())
    }

    /// The path from the backend project to `backends/<backend_subdir>` of the
    /// local WaterUI checkout; none when the project uses no local checkout.
    ///
    /// An absolute checkout path is used as it is; a relative one is reached by
    /// first climbing out of the backend project.
    pub fn compute_relative_backend_path(&self, backend_subdir: &str) -> (r: Option<String>)
        ensures
            r matches Some(s) ==> relative_backend_path(self.waterui_path, self.backend_project_path, backend_subdir@) == Some(s@),
            r is None ==> relative_backend_path(self.waterui_path, self.backend_project_path, backend_subdir@) is None,
    {
        let waterui_path = match &self.waterui_path {
            None => return None,
            Some(w) => w,
        };
        let w = chars_of(waterui_path.as_str());
        let backends = chars_of("backends");
        let sub = chars_of(backend_subdir);
        let mut buf: Vec<char> = Vec::new();
        if w.len() > 0 && w[0] == '/' {
            push_path(&mut buf, &w);
            assert(buf@ == w@);
            push_path(&mut buf, &backends);
            push_path(&mut buf, &sub);
        } else {
            let depth = self.backend_project_depth();
            let mut k: usize = 0;
            let dots = vec!['.', '.'];
            assert(dots@ =~= seq!['.', '.']);
            while k < depth
                invariant
                    k <= depth,
                    dots@ == seq!['.', '.'],
                    buf@ == parent_steps(k as nat),
                decreases depth - k,
            {
                push_path(&mut buf, &dots);
                k += 1;
            }
            push_path(&mut buf, &w);
            push_path(&mut buf, &backends);
            push_path(&mut buf, &sub);
        }
        let joined_path = string_of(&buf);
        Some(normalize_path_for_config(joined_path.as_str()))
    }

    /// How many levels the backend project lies below the project root.
    pub fn backend_project_depth(&self) -> (d: usize)
        ensures
            d == backend_depth(self.backend_project_path),
    {
        match &self.backend_project_path {
            None => 1,
            Some(p) => {
                let pv = chars_of(p.as_str());
                count_components(&pv)
            },
        }
    }

    /// The path from the Xcode project to the WaterUI Swift backend.
    pub fn compute_apple_backend_path(&self) -> (r: Option<String>)
        ensures
            r matches Some(s) ==> self.apple_backend() == Some(s@),
            r is None ==> self.apple_backend() is None,
    {
        proof {
            reveal_strlit("apple");
        }
        self.compute_relative_backend_path("apple")
    }

    /// The path from the Android project to the WaterUI Android backend.
    pub fn compute_android_backend_path(&self) -> (r: Option<String>)
        ensures
            r matches Some(s) ==> relative_backend_path(self.waterui_path, self.backend_project_path, "android"@) == Some(s@),
            r is None ==> relative_backend_path(self.waterui_path, self.backend_project_path, "android"@) is None,
    {
        self.compute_relative_backend_path("android")
    }

    /// The path from the backend project up to the project root: `..` once
    /// per level, joined by `/`.
    pub fn project_root_relative_path(&self) -> (r: String)
        ensures
            r@ == parent_steps(backend_depth(self.backend_project_path)),
    {
        let depth = self.backend_project_depth();
        let mut buf: Vec<char> = Vec::new();
        let dots = vec!['.', '.'];
        assert(dots@ =~= seq!['.', '.']);
        let mut k: usize = 0;
        while k < depth
            invariant
                k <= depth,
                dots@ == seq!['.', '.'],
                buf@ == parent_steps(k as nat),
            decreases depth - k,
        {
            push_path(&mut buf, &dots);
            k += 1;
        }
        string_of(&buf)
    }

    /// The `<uses-permission>` lines for the Android manifest, one per
    /// permission, separated by newlines.
    pub fn android_permissions_xml(&self) -> (r: String)
        ensures
            r@ == permissions_xml(views(self.android_permissions@)),
    {
        let mut lines: Vec<String> = Vec::new();
        let mut i: usize = 0;
        while i < self.android_permissions.len()
            invariant
                i <= self.android_permissions@.len(),
                lines@.len() == i,
                forall|j: int| 0 <= j < i ==> #[trigger] lines@[j]@ == permission_line(self.android_permissions@[j]@),
            decreases self.android_permissions@.len() - i,
        {
            let line = permission_line_of(self.android_permissions[i].as_str());
            lines.push(line);
            i += 1;
        }
        assert(views(lines@) =~= views(self.android_permissions@).map_values(|p: Seq<char>| permission_line(p)));
        join(&lines, "\n")
    }

    /// The package reference entry line for the Xcode project file.
    pub fn swift_package_reference_entry(&self) -> (r: String)
        ensures
            r@ == package_reference_entry(self.apple_backend()),
    {
        match self.compute_apple_backend_path() {
            None => String::from_str("\t\t\t\tD01867782E6C82CA00802E96 /* XCRemoteSwiftPackageReference \"apple-backend\" */,"),
            Some(p) => {
                let mut s = String::from_str("\t\t\t\tD01867782E6C82CA00802E96 /* XCLocalSwiftPackageReference \"");
                s.append(p.as_str());
                s.append("\" */,");
                s
            },
        }
    }

    /// The package reference section for the Xcode project file.
    pub fn swift_package_reference_section(&self) -> (r: String)
        ensures
            r@ == package_reference_section(self.apple_backend()),
    {
        match self.compute_apple_backend_path() {
            None => String::from_str("/* Begin XCRemoteSwiftPackageReference section */\n\t\tD01867782E6C82CA00802E96 /* XCRemoteSwiftPackageReference \"apple-backend\" */ = {\n\t\t\tisa = XCRemoteSwiftPackageReference;\n\t\t\trepositoryURL = \"https://github.com/user/waterui-apple.git\";\n\t\t\trequirement = {\n\t\t\t\tkind = upToNextMajorVersion;\n\t\t\t\tminimumVersion = 1.0.0;\n\t\t\t};\n\t\t};\n/* End XCRemoteSwiftPackageReference section */"),
            Some(p) => {
                let mut s = String::from_str("/* Begin XCLocalSwiftPackageReference section */\n\t\tD01867782E6C82CA00802E96 /* XCLocalSwiftPackageReference \"");
                s.append(p.as_str());
                s.append("\" */ = {\n\t\t\tisa = XCLocalSwiftPackageReference;\n\t\t\trelativePath = \"");
                s.append(p.as_str());
                s.append("\";\n\t\t};\n/* End XCLocalSwiftPackageReference section */");
                s
            },
        }
    }
}

/// The character views of a list of string pairs.
pub open spec fn pair_views(v: Seq<(String, String)>) -> Seq<(Seq<char>, Seq<char>)> {
    v.map_values(|p: (String, String)| (p.0@, p.1@))
}

/// `template` after replacing, pair by pair in order, each placeholder by its value.
pub open spec fn substituted(template: Seq<char>, subs: Seq<(Seq<char>, Seq<char>)>) -> Seq<char>
    decreases subs.len(),
{
    if subs.len() == 0 {
        template
    } else {
        replaced(substituted(template, subs.drop_last()), subs.last().0, subs.last().1)
    }
}

/// Applies each placeholder substitution in turn.
pub fn substitute_all(template: &str, subs: &Vec<(String, String)>) -> (r: String)
    requires
        forall|i: int| 0 <= i < subs@.len() ==> (#[trigger] pair_views(subs@)[i]).0.len() > 0,
    ensures
        r@ == substituted(template@, pair_views(subs@)),
{
    let mut t = String::from_str(template);
    let mut i: usize = 0;
    while i < subs.len()
        invariant
            i <= subs@.len(),
            forall|k: int| 0 <= k < subs@.len() ==> (#[trigger] pair_views(subs@)[k]).0.len() > 0,
            t@ == substituted(template@, pair_views(subs@).take(i as int)),
        decreases subs@.len() - i,
    {
        assert(pair_views(subs@)[i as int].0.len() > 0);
        t = replace_all(t.as_str(), subs[i].0.as_str(), subs[i].1.as_str());
        i += 1;
        assert(pair_views(subs@).take(i as int).drop_last() =~= pair_views(subs@).take(i - 1 as int));
    }
    assert(pair_views(subs@).take(i as int) =~= pair_views(subs@));
    t
}

/// The manifest name for one permission.
pub fn android_permission_name_of(perm: &str) -> (r: String)
    ensures
        r@ == android_permission_name(perm@),
{
    let lower = to_lowercase(perm);
    let l = lower.as_str();
    if str_eq(l, "internet") {
        String::from_str("android.permission.INTERNET")
    } else if str_eq(l, "camera") {
        String::from_str("android.permission.CAMERA")
    } else if str_eq(l, "microphone") {
        String::from_str("android.permission.RECORD_AUDIO")
    } else if str_eq(l, "location") {
        String::from_str("android.permission.ACCESS_FINE_LOCATION")
    } else if str_eq(l, "coarse_location") {
        String::from_str("android.permission.ACCESS_COARSE_LOCATION")
    } else if str_eq(l, "storage") {
        String::from_str("android.permission.READ_EXTERNAL_STORAGE")
    } else if str_eq(l, "write_storage") {
        String::from_str("android.permission.WRITE_EXTERNAL_STORAGE")
    } else if str_eq(l, "bluetooth") {
        String::from_str("android.permission.BLUETOOTH")
    } else if str_eq(l, "bluetooth_admin") {
        String::from_str("android.permission.BLUETOOTH_ADMIN")
    } else if str_eq(l, "vibrate") {
        String::from_str("android.permission.VIBRATE")
    } else if str_eq(l, "wake_lock") {
        String::from_str("android.permission.WAKE_LOCK")
    } else {
        String::from_str(perm)
    }
}

/// The manifest line that declares one permission.
pub fn permission_line_of(perm: &str) -> (r: String)
    ensures
        r@ == permission_line(perm@),
{
    let name = android_permission_name_of(perm);
    let mut s = String::from_str("    <uses-permission android:name=\"");
    s.append(name.as_str());
    s.append("\" />");
    s
}


proof fn lemma_substituted_plain(t: Seq<char>, subs: Seq<(Seq<char>, Seq<char>)>)
    requires
        !contains_seq(t, seq!['_', '_']),
        forall|k: int| 0 <= k < subs.len() ==> (#[trigger] subs[k]).0.len() >= 2 && subs[k].0[0] == '_' && subs[k].0[1] == '_',
    ensures
        substituted(t, subs) == t,
    decreases subs.len(),
{
    if subs.len() > 0 {
        lemma_substituted_plain(t, subs.drop_last());
        let p = subs.last().0;
        assert(subs[subs.len() - 1] == subs.last());
        if contains_seq(t, p) {
            lemma_contains_prefix_pair(t, p);
            assert(seq![p[0], p[1]] =~= seq!['_', '_']);
        }
        lemma_replaced_absent(t, p, subs.last().1);
    }
}

/// A template in which no two underscores stand side by side is rendered
/// unchanged, whatever the context: every placeholder starts with `__`.
pub proof fn lemma_render_plain_template(ctx: TemplateContext, t: Seq<char>)
    requires
        !contains_seq(t, "__"@),
    ensures
        ctx.rendered(t) == t,
{
    reveal_strlit("__");
    reveal_strlit("__APP_DISPLAY_NAME__");
    reveal_strlit("__APP_NAME__");
    reveal_strlit("__CRATE_NAME__");
    reveal_strlit("__ANDROID_NAMESPACE__");
    reveal_strlit("__BUNDLE_IDENTIFIER__");
    reveal_strlit("__AUTHOR__");
    reveal_strlit("__ANDROID_BACKEND_PATH__");
    reveal_strlit("__USE_REMOTE_DEV_BACKEND__");
    reveal_strlit("__SWIFT_PACKAGE_REFERENCE_ENTRY__");
    reveal_strlit("__SWIFT_PACKAGE_REFERENCE_SECTION__");
    reveal_strlit("__IOS_PERMISSION_KEYS__");
    reveal_strlit("__ANDROID_PERMISSIONS__");
    reveal_strlit("__PROJECT_ROOT_RELATIVE_PATH__");
    assert("__"@ =~= seq!['_', '_']);
    let subs = ctx.substitutions();
    assert forall|k: int| 0 <= k < subs.len() implies (#[trigger] subs[k]).0.len() >= 2 && subs[k].0[0] == '_' && subs[k].0[1] == '_' by {
        assert(k == 0 || k == 1 || k == 2 || k == 3 || k == 4 || k == 5 || k == 6 || k == 7 || k == 8
            || k == 9 || k == 10 || k == 11 || k == 12);
    }
    lemma_substituted_plain(t, subs);
}

/// A file path without `AppName` is kept as it is.
pub proof fn lemma_transform_plain_path(ctx: TemplateContext, path: Seq<char>)
    requires
        !contains_seq(path, "AppName"@),
    ensures
        replaced(path, "AppName"@, ctx.app_name@) == path,
{
    lemma_replaced_absent(path, "AppName"@, ctx.app_name@);
}


proof fn lemma_parent_steps_clean(d: nat)
    ensures
        no_double_slash(parent_steps(d)),
        !parent_steps(d).contains('\\'),
    decreases d,
{
    if d > 0 {
        lemma_parent_steps_clean((d - 1) as nat);
        lemma_pushed_clean(parent_steps((d - 1) as nat), seq!['.', '.']);
    }
}

/// Backend paths come out clean: when the checkout path and the backend
/// directory hold no doubled `/` and no backslash, and the backend directory
/// is relative, the path written into the project holds no `//`.
pub proof fn lemma_backend_path_clean(waterui_path: String, backend_project_path: Option<String>, sub: Seq<char>)
    requires
        no_double_slash(waterui_path@),
        !waterui_path@.contains('\\'),
        no_double_slash(sub),
        !sub.contains('\\'),
        !is_absolute(sub),
    ensures
        relative_backend_path(Some(waterui_path), backend_project_path, sub) matches Some(r) && !contains_seq(r, "//"@),
{
    reveal_strlit("backends");
    reveal_strlit("//");
    let w = waterui_path@;
    let b = "backends"@;
    assert(no_double_slash(b));
    assert(!b.contains('\\'));
    assert(!is_absolute(b));
    let base = if is_absolute(w) {
        w
    } else {
        let d = backend_depth(backend_project_path);
        lemma_parent_steps_clean(d);
        lemma_pushed_clean(parent_steps(d), w);
        pushed(parent_steps(d), w)
    };
    assert(no_double_slash(base) && !base.contains('\\'));
    lemma_pushed_clean(base, b);
    lemma_pushed_clean(pushed(base, b), sub);
    let raw = pushed(pushed(base, b), sub);
    lemma_config_path_plain(raw);
    let r = relative_backend_path(Some(waterui_path), backend_project_path, sub).unwrap();
    assert(r == raw);
    if contains_seq(r, "//"@) {
        let i = choose|i: int| 0 <= i && i + "//"@.len() <= r.len() && #[trigger] r.subrange(i, i + "//"@.len()) == "//"@;
        assert(r.subrange(i, i + 2)[0] == r[i]);
        assert(r.subrange(i, i + 2)[1] == r[i + 1]);
        assert(r[i] == '/' && r[i + 1] == '/');
    }
}

/// A dependency of a generated crate: a registry version or a local path.
pub enum ManifestDep {
    Version(String),
    Path(String),
}

/// The contents of a generated crate's `Cargo.toml`.
pub struct CargoManifest {
    pub name: String,
    pub version: String,
    pub edition: String,
    pub authors: Vec<String>,
    pub crate_types: Vec<String>,
    /// The dependencies, ordered by name.
    pub dependencies: Vec<(String, ManifestDep)>,
}

/// A dependency as plain values: the path, or the version, by kind.
pub open spec fn dep_view(d: ManifestDep) -> (bool, Seq<char>) {
    match d {
        ManifestDep::Path(p) => (true, p@),
        ManifestDep::Version(v) => (false, v@),
    }
}

/// The WaterUI dependencies of a generated crate: the checkout and its
/// `ffi` directory by path in dev mode, or else the released versions.
pub open spec fn waterui_dependencies(waterui_path: Option<Seq<char>>) -> Seq<(Seq<char>, (bool, Seq<char>))> {
    match waterui_path {
        Some(p) => seq![("waterui"@, (true, config_path(p))), ("waterui-ffi"@, (true, config_path(pushed(p, "ffi"@))))],
        None => seq![("waterui"@, (false, "0.2"@)), ("waterui-ffi"@, (false, "0.2"@))],
    }
}

impl TemplateContext {
    /// The manifest of the generated crate: version `0.1.0`, edition 2024,
    /// the context's author, a static, dynamic and Rust library, and the
    /// WaterUI dependencies.
    pub fn cargo_manifest(&self) -> (r: CargoManifest)
        ensures
            r.name@ == self.crate_name@,
            r.version@ == "0.1.0"@,
            r.edition@ == "2024"@,
            views(r.authors@) == seq![self.author@],
            views(r.crate_types@) == seq!["staticlib"@, "cdylib"@, "rlib"@],
            r.dependencies@.map_values(|e: (String, ManifestDep)| (e.0@, dep_view(e.1)))
                == waterui_dependencies(match self.waterui_path { Some(p) => Some(p@), None => None }),
    {
        let mut authors: Vec<String> = Vec::new();
        authors.push(self.author.clone());
        let mut crate_types: Vec<String> = Vec::new();
        crate_types.push(String::from_str("staticlib"));
        crate_types.push(String::from_str("cdylib"));
        crate_types.push(String::from_str("rlib"));
        let mut dependencies: Vec<(String, ManifestDep)> = Vec::new();
        match &self.waterui_path {
            Some(p) => {
                let mut ffi = chars_of(p.as_str());
                push_path(&mut ffi, &chars_of("ffi"));
                let ffi_path = string_of(&ffi);
                dependencies.push((String::from_str("waterui"), ManifestDep::Path(normalize_path_for_config(p.as_str()))));
                dependencies.push((String::from_str("waterui-ffi"), ManifestDep::Path(normalize_path_for_config(ffi_path.as_str()))));
            },
            None => {
                dependencies.push((String::from_str("waterui"), ManifestDep::Version(String::from_str("0.2"))));
                dependencies.push((String::from_str("waterui-ffi"), ManifestDep::Version(String::from_str("0.2"))));
            },
        }
        assert(views(authors@) =~= seq![self.author@]);
        assert(views(crate_types@) =~= seq!["staticlib"@, "cdylib"@, "rlib"@]);
        assert(dependencies@.map_values(|e: (String, ManifestDep)| (e.0@, dep_view(e.1)))
            =~= waterui_dependencies(match self.waterui_path { Some(p) => Some(p@), None => None }));
        CargoManifest {
            name: self.crate_name.clone(),
            version: String::from_str("0.1.0"),
            edition: String::from_str("2024"),
            authors,
            crate_types,
            dependencies,
        }
    }
}

/// Where a root template is written: its name without `.tpl`, under `src`
/// for `lib.rs` and at the crate root otherwise.
pub open spec fn root_template_target(base_dir: Seq<char>, template: Seq<char>) -> Seq<char> {
    let name = if template.len() >= 4 && template.skip(template.len() - 4) == ".tpl"@ {
        template.take(template.len() - 4)
    } else {
        template
    };
    if name == "lib.rs"@ { pushed(pushed(base_dir, "src"@), name) } else { pushed(base_dir, name) }
}

/// The file a root template becomes.
pub fn root_template_destination(base_dir: &str, template: &str) -> (r: String)
    ensures
        r@ == root_template_target(base_dir@, template@),
{
    proof {
        reveal_strlit(".tpl");
    }
    let t = chars_of(template);
    let suffix = chars_of(".tpl");
    let mut name: Vec<char> = Vec::new();
    let keep = if has_suffix(&t, &suffix) { t.len() - 4 } else { t.len() };
    let mut i: usize = 0;
    while i < keep
        invariant
            keep <= t@.len(),
            i <= keep,
            name@ == t@.take(i as int),
        decreases keep - i,
    {
        name.push(t[i]);
        i += 1;
        assert(name@ =~= t@.take(i as int));
    }
    if keep == t.len() {
        assert(t@.take(keep as int) =~= t@);
    }
    let mut out = chars_of(base_dir);
    if str_eq(string_of(&name).as_str(), "lib.rs") {
        push_path(&mut out, &chars_of("src"));
    }
    push_path(&mut out, &name);
    string_of(&out)
}

/// Whether an embedded file is a template: its file name ends in `.tpl`
/// after at least one other character.
pub open spec fn is_template_path(p: Seq<char>) -> bool {
    p.len() > 4 && p.skip(p.len() - 4) == ".tpl"@ && p[p.len() - 5] != '/'
}

impl TemplateContext {
    /// Where an embedded file is written, relative to the target directory,
    /// and whether it is rendered: a template loses its `.tpl` and is
    /// rendered; other files are copied; `AppName` in either path becomes
    /// the application name.
    pub fn scaffold_destination(&self, relative: &str) -> (r: (String, bool))
        ensures
            r.1 == is_template_path(relative@),
            r.0@ == replaced(if is_template_path(relative@) { relative@.take(relative@.len() - 4) } else { relative@ },
                "AppName"@, self.app_name@),
    {
        proof {
            reveal_strlit(".tpl");
        }
        let p = chars_of(relative);
        let suffix = chars_of(".tpl");
        let template = p.len() > 4 && has_suffix(&p, &suffix) && p[p.len() - 5] != '/';
        if template {
            let mut stem: Vec<char> = Vec::new();
            let keep = p.len() - 4;
            let mut i: usize = 0;
            while i < keep
                invariant
                    keep <= p@.len(),
                    i <= keep,
                    stem@ == p@.take(i as int),
                decreases keep - i,
            {
                stem.push(p[i]);
                i += 1;
                assert(stem@ =~= p@.take(i as int));
            }
            (self.transform_path(string_of(&stem).as_str()), true)
        } else {
            (self.transform_path(relative), false)
        }
    }
}

/// The directories a new Android project gets for native libraries, one per
/// ABI.
pub fn jni_lib_dirs(base_dir: &str) -> (r: Vec<String>)
    ensures
        views(r@) == seq!["arm64-v8a"@, "x86_64"@, "armeabi-v7a"@, "x86"@]
            .map_values(|abi: Seq<char>| pushed(base_dir@, "app/src/main/jniLibs/"@ + abi)),
{
    let mut r: Vec<String> = Vec::new();
    let abis: Vec<&str> = vec!["arm64-v8a", "x86_64", "armeabi-v7a", "x86"];
    let mut i: usize = 0;
    while i < abis.len()
        invariant
            abis@.map_values(|a: &str| a@) == seq!["arm64-v8a"@, "x86_64"@, "armeabi-v7a"@, "x86"@],
            i <= abis@.len(),
            r@.len() == i,
            forall|j: int| 0 <= j < i ==> (#[trigger] r@[j])@ == pushed(base_dir@, "app/src/main/jniLibs/"@ + abis@[j]@),
        decreases abis@.len() - i,
    {
        let mut rel = String::from_str("app/src/main/jniLibs/");
        rel.append(abis[i]);
        let mut buf = chars_of(base_dir);
        push_path(&mut buf, &chars_of(rel.as_str()));
        r.push(string_of(&buf));
        i += 1;
    }
    proof {
        assert(abis@.map_values(|a: &str| a@) =~= seq!["arm64-v8a"@, "x86_64"@, "armeabi-v7a"@, "x86"@]);
        assert(views(r@) =~= seq!["arm64-v8a"@, "x86_64"@, "armeabi-v7a"@, "x86"@]
            .map_values(|abi: Seq<char>| pushed(base_dir@, "app/src/main/jniLibs/"@ + abi)));
    }
    r
}

/// `local.properties` for a generated Android project: the SDK directory
/// with forward slashes.
pub fn android_local_properties(sdk_path: &str) -> (r: String)
    ensures
        r@ == "sdk.dir="@ + config_path(sdk_path@) + "\n"@,
{
    let mut r = String::from_str("sdk.dir=");
    r.append(normalize_path_for_config(sdk_path).as_str());
    r.append("\n");
    r
}

} // verus!
