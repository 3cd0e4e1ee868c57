//! Rules of `run`: the platforms, the hot-reload library and its
//! environment, build speed-ups, and the messages shown while running.

use vstd::prelude::*;
use crate::backend::{chars_from, ends_with, has_prefix, has_suffix, opt_text, starts_with, BackendChoice};
use crate::paths::{pushed, push_path};
use crate::templates::pair_views;
use crate::android::{sanitize_package_name, sanitized_package};
use crate::text::{lemma_tokens_from_plain, lemma_tokens_of_joined, plain_token, is_whitespace, leading_ws, unicode_whitespace, keep_nonempty, push_all, split, split_chars, trim_chars, chars_of, contains_seq, contains_str, decimal, decimal_string, join, joined, lines, replace_all, replaced, split_lines, split_whitespace, str_eq, string_of, tokens, trim_str, trimmed, views, vviews};

verus! {

/// A platform the tool runs apps on.
#[derive(Clone, Copy, Debug, PartialEq, Eq, Structural)]
pub enum Platform {
    Web,
    Macos,
    Ios,
    Ipados,
    Watchos,
    Tvos,
    Visionos,
    Android,
}

/// Whether a platform is one of Apple's.
pub open spec fn apple(p: Platform) -> bool {
    p == Platform::Macos || p == Platform::Ios || p == Platform::Ipados || p == Platform::Watchos
        || p == Platform::Tvos || p == Platform::Visionos
}

/// Whether a platform counts as mobile: iOS, iPadOS, watchOS, tvOS and Android.
pub open spec fn mobile(p: Platform) -> bool {
    p == Platform::Ios || p == Platform::Ipados || p == Platform::Watchos || p == Platform::Tvos || p == Platform::Android
}

/// The display name of a platform.
pub open spec fn platform_label(p: Platform) -> Seq<char> {
    match p {
        Platform::Web => "Web"@,
        Platform::Macos => "macOS"@,
        Platform::Ios => "iOS"@,
        Platform::Ipados => "iPadOS"@,
        Platform::Watchos => "watchOS"@,
        Platform::Tvos => "tvOS"@,
        Platform::Visionos => "visionOS"@,
        Platform::Android => "Android"@,
    }
}

impl Platform {
    /// Whether this is one of Apple's platforms.
    pub fn is_apple_platform(&self) -> (r: bool)
        ensures
            r == apple(*self),
    {
        match self {
            Platform::Macos | Platform::Ios | Platform::Ipados | Platform::Watchos | Platform::Tvos | Platform::Visionos => true,
            _ => false,
        }
    }

    /// Whether this platform counts as mobile.
    pub fn is_mobile_platform(&self) -> (r: bool)
        ensures
            r == mobile(*self),
    {
        match self {
            Platform::Ios | Platform::Ipados | Platform::Watchos | Platform::Tvos | Platform::Android => true,
            _ => false,
        }
    }

    /// The platform's display name.
    pub fn to_text(&self) -> (r: &'static str)
        ensures
            r@ == platform_label(*self),
    {
        match self {
            Platform::Web => "Web",
            Platform::Macos => "macOS",
            Platform::Ios => "iOS",
            Platform::Ipados => "iPadOS",
            Platform::Watchos => "watchOS",
            Platform::Tvos => "tvOS",
            Platform::Visionos => "visionOS",
            Platform::Android => "Android",
        }
    }
}

/// The toolchains a platform needs checked before running.
#[derive(Clone, Copy, Debug, PartialEq, Eq, Structural)]
pub enum CheckTarget {
    Rust,
    Swift,
    Android,
}

/// Rust always; Swift for Apple platforms; the Android toolchain for Android.
pub fn toolchain_targets_for_platform(platform: Platform) -> (r: Vec<CheckTarget>)
    ensures
        r@ == seq![CheckTarget::Rust] + (if apple(platform) { seq![CheckTarget::Swift] } else { Seq::empty() })
            + (if platform == Platform::Android { seq![CheckTarget::Android] } else { Seq::empty() }),
{
    let mut targets: Vec<CheckTarget> = Vec::new();
    targets.push(CheckTarget::Rust);
    if platform.is_apple_platform() {
        targets.push(CheckTarget::Swift);
    }
    if platform == Platform::Android {
        targets.push(CheckTarget::Android);
    }
    assert(targets@ =~= seq![CheckTarget::Rust] + (if apple(platform) { seq![CheckTarget::Swift] } else { Seq::<CheckTarget>::empty() })
        + (if platform == Platform::Android { seq![CheckTarget::Android] } else { Seq::<CheckTarget>::empty() }));
    targets
}

/// Hot reload builds the Android library for 64-bit ARM; other platforms
/// build for the host.
pub fn hot_reload_target(platform: Platform) -> (r: Option<String>)
    ensures
        platform == Platform::Android ==> opt_text(r) == Some("aarch64-linux-android"@),
        platform != Platform::Android ==> r is None,
{
    match platform {
        Platform::Android => Some(String::from_str("aarch64-linux-android")),
        _ => None,
    }
}

/// Apple platforms and Android reload native code in place.
pub fn platform_supports_native_hot_reload(platform: Platform) -> (r: bool)
    ensures
        r == (apple(platform) || platform == Platform::Android),
{
    platform.is_apple_platform() || platform == Platform::Android
}

/// `s` with ASCII capitals lowercased.
pub open spec fn ascii_lower(s: Seq<char>) -> Seq<char> {
    s.map_values(|c: char| if 'A' <= c && c <= 'Z' { ((c as int) + 32) as char } else { c })
}

/// Lowercases the ASCII capitals of a string.
pub fn to_ascii_lowercase(s: &str) -> (r: Vec<char>)
    ensures
        r@ == ascii_lower(s@),
{
    let v = chars_of(s);
    let mut r: Vec<char> = Vec::new();
    let mut i: usize = 0;
    while i < v.len()
        invariant
            i <= v@.len(),
            r@ == ascii_lower(v@.take(i as int)),
        decreases v@.len() - i,
    {
        let c = v[i];
        let d = if 'A' <= c && c <= 'Z' {
            let lower = ((c as u32) + 32) as u8;
            lower as char
        } else {
            c
        };
        r.push(d);
        i += 1;
        assert(r@ =~= ascii_lower(v@.take(i as int)));
    }
    assert(v@.take(i as int) =~= v@);
    r
}

/// `s` with ASCII small letters capitalised.
pub open spec fn ascii_upper(s: Seq<char>) -> Seq<char> {
    s.map_values(|c: char| if 'a' <= c && c <= 'z' { ((c as int) - 32) as char } else { c })
}

/// Capitalises the ASCII small letters of a string.
pub fn to_ascii_uppercase(s: &str) -> (r: Vec<char>)
    ensures
        r@ == ascii_upper(s@),
{
    let v = chars_of(s);
    let mut r: Vec<char> = Vec::new();
    let mut i: usize = 0;
    while i < v.len()
        invariant
            i <= v@.len(),
            r@ == ascii_upper(v@.take(i as int)),
        decreases v@.len() - i,
    {
        let c = v[i];
        let d = if 'a' <= c && c <= 'z' {
            let upper = ((c as u32) - 32) as u8;
            upper as char
        } else {
            c
        };
        r.push(d);
        i += 1;
        assert(r@ =~= ascii_upper(v@.take(i as int)));
    }
    assert(v@.take(i as int) =~= v@);
    r
}

/// The file name of the dynamic library built from a crate for a target:
/// Windows gives `name.dll`, Apple targets `libname.dylib`, others
/// `libname.so`; hyphens in the crate name become underscores. Without a
/// target, the host system's name decides.
pub open spec fn dylib_name(crate_name: Seq<char>, target: Seq<char>) -> Seq<char> {
    let t = ascii_lower(target);
    let n = replaced(crate_name, "-"@, "_"@);
    if contains_seq(t, "windows"@) {
        n + ".dll"@
    } else if contains_seq(t, "darwin"@) || contains_seq(t, "apple"@) || contains_seq(t, "ios"@) || contains_seq(t, "macos"@) {
        "lib"@ + n + ".dylib"@
    } else {
        "lib"@ + n + ".so"@
    }
}

/// The file name of a crate's dynamic library.
pub fn dylib_filename(crate_name: &str, target_triple: Option<&str>, host_os: &str) -> (r: String)
    ensures
        r@ == dylib_name(crate_name@, match target_triple { Some(t) => t@, None => host_os@ }),
{
    proof {
        reveal_strlit("-");
    }
    let normalized = replace_all(crate_name, "-", "_");
    let target = match target_triple {
        Some(t) => t,
        None => host_os,
    };
    let lower_chars = to_ascii_lowercase(target);
    let lower = string_of(&lower_chars);
    let l = lower.as_str();
    if contains_str(l, "windows") {
        let mut r = normalized;
        r.append(".dll");
        r
    } else if contains_str(l, "darwin") || contains_str(l, "apple") || contains_str(l, "ios") || contains_str(l, "macos") {
        let mut r = String::from_str("lib");
        r.append(normalized.as_str());
        r.append(".dylib");
        r
    } else {
        let mut r = String::from_str("lib");
        r.append(normalized.as_str());
        r.append(".so");
        r
    }
}

fn joined_path(dir: &str, name: &str) -> (r: String)
    ensures
        r@ == pushed(dir@, name@),
{
    let mut buf = chars_of(dir);
    let n = chars_of(name);
    push_path(&mut buf, &n);
    string_of(&buf)
}

/// Where the hot-reload library is built: `target`, the target triple if
/// one is given, the profile, then the library's file name.
pub open spec fn hot_reload_path(project_dir: Seq<char>, crate_name: Seq<char>, release: bool, target: Option<Seq<char>>, host_os: Seq<char>) -> Seq<char> {
    let base = pushed(project_dir, "target"@);
    let with_target = match target {
        Some(t) => pushed(base, t),
        None => base,
    };
    let profile = if release { "release"@ } else { "debug"@ };
    pushed(pushed(with_target, profile), dylib_name(crate_name, match target { Some(t) => t, None => host_os }))
}

/// The path of the hot-reload library.
pub fn hot_reload_library_path(project_dir: &str, crate_name: &str, release: bool, target_triple: Option<&str>, host_os: &str) -> (r: String)
    ensures
        r@ == hot_reload_path(project_dir@, crate_name@, release, match target_triple { Some(t) => Some(t@), None => None }, host_os@),
{
    let filename = dylib_filename(crate_name, target_triple, host_os);
    let mut path = joined_path(project_dir, "target");
    match target_triple {
        Some(t) => {
            path = joined_path(path.as_str(), t);
        },
        None => {},
    }
    let profile = if release { "release" } else { "debug" };
    let p = joined_path(path.as_str(), profile);
    joined_path(p.as_str(), filename.as_str())
}

/// The Android ABI directory for a Rust target triple.
pub open spec fn jni_abi(target: Seq<char>) -> Option<Seq<char>> {
    if target == "aarch64-linux-android"@ {
        Some("arm64-v8a"@)
    } else if target == "armv7-linux-androideabi"@ {
        Some("armeabi-v7a"@)
    } else if target == "x86_64-linux-android"@ {
        Some("x86_64"@)
    } else if target == "i686-linux-android"@ {
        Some("x86"@)
    } else {
        None
    }
}

/// Where the Android library is built and where it is copied in the
/// Android project, as `lib<crate>.so` and `libwaterui_app.so`; none for an
/// unknown target.
pub fn jni_library_paths(project_dir: &str, package: &str, release: bool, target: &str) -> (r: Option<(String, String)>)
    ensures
        jni_abi(target@) is None ==> r is None,
        jni_abi(target@) matches Some(abi) ==> (r matches Some(p)
            && p.0@ == pushed(pushed(pushed(pushed(project_dir@, "target"@), target@), if release { "release"@ } else { "debug"@ }),
                "lib"@ + replaced(package@, "-"@, "_"@) + ".so"@)
            && p.1@ == pushed(pushed(pushed(project_dir@, "android/app/src/main/jniLibs"@), abi), "libwaterui_app.so"@)),
{
    proof {
        reveal_strlit("-");
    }
    let abi = if str_eq(target, "aarch64-linux-android") {
        "arm64-v8a"
    } else if str_eq(target, "armv7-linux-androideabi") {
        "armeabi-v7a"
    } else if str_eq(target, "x86_64-linux-android") {
        "x86_64"
    } else if str_eq(target, "i686-linux-android") {
        "x86"
    } else {
        return None;
    };
    let profile = if release { "release" } else { "debug" };
    let crate_file = replace_all(package, "-", "_");
    let mut file = String::from_str("lib");
    file.append(crate_file.as_str());
    file.append(".so");
    let a = joined_path(project_dir, "target");
    let b = joined_path(a.as_str(), target);
    let c = joined_path(b.as_str(), profile);
    let source = joined_path(c.as_str(), file.as_str());
    let j = joined_path(project_dir, "android/app/src/main/jniLibs");
    let k = joined_path(j.as_str(), abi);
    let dest = joined_path(k.as_str(), "libwaterui_app.so");
    Some((source, dest))
}

/// The ABI directory a target's library is copied into is the device ABI
/// that the target serves: going from a target to its `jniLibs` directory and
/// from that ABI back to a target gives the same target, and every target
/// chosen for a device ABI has a `jniLibs` directory. In particular the
/// 64-bit ARM library lands in `arm64-v8a`, the 32-bit one in `armeabi-v7a`.
pub proof fn lemma_jni_abi_inverse(target: Seq<char>, abi: Seq<char>)
    ensures
        jni_abi(target) matches Some(a) ==> crate::android::abi_triple(a) == Some(target),
        crate::android::abi_triple(abi) matches Some(t) ==> jni_abi(t) is Some,
        crate::android::abi_triple(abi) matches Some(t) ==> crate::android::abi_triple(jni_abi(t)->0) == Some(t),
{
    reveal_strlit("arm64-v8a");
    reveal_strlit("arm64");
    reveal_strlit("armeabi-v7a");
    reveal_strlit("armeabi");
    reveal_strlit("x86_64");
    reveal_strlit("x86");
    reveal_strlit("aarch64-linux-android");
    reveal_strlit("armv7-linux-androideabi");
    reveal_strlit("x86_64-linux-android");
    reveal_strlit("i686-linux-android");
    assert("armeabi-v7a"@[3] != "arm64-v8a"@[3]);
    assert("armeabi-v7a"@[3] != "arm64"@[3]);
    assert("x86_64"@[0] != "arm64-v8a"@[0]);
    assert("x86_64"@[0] != "arm64"@[0]);
    assert("x86_64"@[0] != "armeabi-v7a"@[0]);
    assert("x86_64"@[0] != "armeabi"@[0]);
    assert("x86"@[0] != "arm64-v8a"@[0]);
    assert("x86"@[0] != "arm64"@[0]);
    assert("x86"@[0] != "armeabi-v7a"@[0]);
    assert("x86"@[0] != "armeabi"@[0]);
    assert("x86"@.len() != "x86_64"@.len());
    assert("aarch64-linux-android"@[1] != "armv7-linux-androideabi"@[1]);
    assert("aarch64-linux-android"@[0] != "x86_64-linux-android"@[0]);
    assert("aarch64-linux-android"@[0] != "i686-linux-android"@[0]);
    assert("armv7-linux-androideabi"@[0] != "x86_64-linux-android"@[0]);
    assert("armv7-linux-androideabi"@[0] != "i686-linux-android"@[0]);
    assert("x86_64-linux-android"@[0] != "i686-linux-android"@[0]);
}

/// The progress line shown while Xcode builds.
pub fn apple_build_progress_message(platform_name: &str, scheme: &str, explicit_target: Option<&str>) -> (r: String)
    ensures
        r@ == "Building Xcode project \""@ + scheme@ + "\" for "@ + (match explicit_target { Some(t) => t@, None => platform_name@ }) + "..."@,
{
    let mut r = String::from_str("Building Xcode project \"");
    r.append(scheme);
    r.append("\" for ");
    match explicit_target {
        Some(t) => r.append(t),
        None => r.append(platform_name),
    }
    r.append("...");
    r
}

/// Why the hot-reload connection to the app ended.
pub enum NativeDisconnectReason {
    /// The app closed it, with a close code if one was sent.
    Graceful(Option<u16>),
    /// It broke, with whatever details were available.
    Abnormal(String),
}

/// The message shown when the hot-reload connection ends.
pub open spec fn connection_loss_text(reason: NativeDisconnectReason) -> Seq<char> {
    match reason {
        NativeDisconnectReason::Graceful(Some(code)) => "Hot reload connection closed by the app (close code "@ + decimal(code as nat) + ")."@,
        NativeDisconnectReason::Graceful(None) => "Hot reload connection closed by the app."@,
        NativeDisconnectReason::Abnormal(d) => if trimmed(d@).len() == 0 {
            "Hot reload connection failed. The app likely crashed."@
        } else {
            "Hot reload connection failed ("@ + trimmed(d@) + "). The app likely crashed."@
        },
    }
}

/// Describes the end of the hot-reload connection.
pub fn format_connection_loss_message(reason: &NativeDisconnectReason) -> (r: String)
    ensures
        r@ == connection_loss_text(*reason),
{
    match reason {
        NativeDisconnectReason::Graceful(Some(code)) => {
            let mut r = String::from_str("Hot reload connection closed by the app (close code ");
            r.append(decimal_string(*code as u64).as_str());
            r.append(").");
            r
        },
        NativeDisconnectReason::Graceful(None) => String::from_str("Hot reload connection closed by the app."),
        NativeDisconnectReason::Abnormal(details) => {
            let detail = trim_str(details.as_str());
            if detail.unicode_len() == 0 {
                String::from_str("Hot reload connection failed. The app likely crashed.")
            } else {
                let mut r = String::from_str("Hot reload connection failed (");
                r.append(detail.as_str());
                r.append("). The app likely crashed.");
                r
            }
        },
    }
}

/// Why a device was picked without asking.
#[derive(Clone, Copy, Debug, PartialEq, Eq, Structural)]
pub enum AutoSelectionReason {
    SingleCandidate,
    NonInteractive,
}

impl AutoSelectionReason {
    /// The start of the message that announces the choice.
    pub fn message_prefix(self) -> (r: &'static str)
        ensures
            r@ == (if self == AutoSelectionReason::SingleCandidate { "Using"@ } else { "Non-interactive terminal detected; using"@ }),
    {
        match self {
            AutoSelectionReason::SingleCandidate => "Using",
            AutoSelectionReason::NonInteractive => "Non-interactive terminal detected; using",
        }
    }
}

/// Each line of `text` preceded by `indent`, lines joined by newlines.
pub open spec fn indented(text: Seq<char>, indent: Seq<char>) -> Seq<char> {
    joined(lines(text).map_values(|l: Seq<char>| indent + l), "\n"@)
}

/// Indents every line of a text.
pub fn indent_lines(text: &str, indent: &str) -> (r: String)
    ensures
        r@ == indented(text@, indent@),
{
    let chars = chars_of(text);
    let ls = split_lines(&chars);
    let mut out: Vec<String> = Vec::new();
    let mut i: usize = 0;
    while i < ls.len()
        invariant
            i <= ls@.len(),
            out@.len() == i,
            forall|k: int| 0 <= k < i ==> (#[trigger] out@[k])@ == indent@ + ls@[k]@,
        decreases ls@.len() - i,
    {
        let mut line = String::from_str(indent);
        line.append(string_of(&ls[i]).as_str());
        out.push(line);
        i += 1;
    }
    assert(views(out@) =~= vviews(ls@).map_values(|l: Seq<char>| indent@ + l));
    join(&out, "\n")
}

/// The flag that compiles WaterUI's hot-reload support into the library.
pub open spec fn hot_reload_cfg() -> Seq<char> {
    "--cfg=waterui_hot_reload_lib"@
}

/// Environment changes for a build command.
pub struct EnvChanges {
    /// Variables to set, in order.
    pub set: Vec<(String, String)>,
    /// Variables to remove.
    pub remove: Vec<String>,
}

/// The environment changes that switch hot reload on or off for a build,
/// given the current `RUSTFLAGS`. On: enable it, point it at `127.0.0.1` and
/// the port if known, and add the hot-reload flag to `RUSTFLAGS` unless it
/// is there. Off: keep the variable set, drop host and port, and take the
/// flag out of `RUSTFLAGS`.
pub open spec fn hot_reload_env(enable: bool, port: Option<u16>, rustflags: Seq<char>, set: Seq<(Seq<char>, Seq<char>)>, remove: Seq<Seq<char>>) -> bool {
    let flags = tokens(rustflags);
    if enable {
        &&& remove.len() == 0
        &&& set == seq![("WATERUI_ENABLE_HOT_RELOAD"@, "1"@), ("WATERUI_HOT_RELOAD_HOST"@, "127.0.0.1"@)]
            + (match port { Some(p) => seq![("WATERUI_HOT_RELOAD_PORT"@, decimal(p as nat))], None => Seq::empty() })
            + (if flags.contains(hot_reload_cfg()) { Seq::empty() } else { seq![("RUSTFLAGS"@, joined(flags.push(hot_reload_cfg()), " "@))] })
    } else {
        &&& remove == seq!["WATERUI_HOT_RELOAD_HOST"@, "WATERUI_HOT_RELOAD_PORT"@]
        &&& set == seq![("WATERUI_ENABLE_HOT_RELOAD"@, "1"@), ("RUSTFLAGS"@, joined(flags.filter(|f: Seq<char>| f != hot_reload_cfg()), " "@))]
    }
}


fn strings_of(v: &Vec<Vec<char>>) -> (r: Vec<String>)
    ensures
        views(r@) == vviews(v@),
{
    let mut r: Vec<String> = Vec::new();
    let mut i: usize = 0;
    while i < v.len()
        invariant
            i <= v@.len(),
            r@.len() == i,
            forall|k: int| 0 <= k < i ==> (#[trigger] r@[k])@ == v@[k]@,
        decreases v@.len() - i,
    {
        r.push(string_of(&v[i]));
        i += 1;
    }
    assert(views(r@) =~= vviews(v@));
    r
}

/// The environment changes for hot reload; `rustflags` is the current
/// `RUSTFLAGS`, if set.
pub fn configure_hot_reload_env(enable: bool, port: Option<u16>, rustflags: &Option<String>) -> (r: EnvChanges)
    ensures
        hot_reload_env(enable, port, match rustflags { Some(f) => f@, None => Seq::empty() }, pair_views(r.set@), views(r.remove@)),
{
    let current = match rustflags {
        Some(f) => f.clone(),
        None => String::new(),
    };
    let cur_chars = chars_of(current.as_str());
    let toks = split_whitespace(&cur_chars);
    let flags = strings_of(&toks);
    let ghost fv = views(flags@);
    let cfg = "--cfg=waterui_hot_reload_lib";
    let mut set: Vec<(String, String)> = Vec::new();
    let mut remove: Vec<String> = Vec::new();
    if enable {
        set.push((String::from_str("WATERUI_ENABLE_HOT_RELOAD"), String::from_str("1")));
        set.push((String::from_str("WATERUI_HOT_RELOAD_HOST"), String::from_str("127.0.0.1")));
        match port {
            Some(p) => set.push((String::from_str("WATERUI_HOT_RELOAD_PORT"), decimal_string(p as u64))),
            None => {},
        }
        let ghost before = pair_views(set@);
        let mut found = false;
        let mut i: usize = 0;
        while i < flags.len()
            invariant
                i <= flags@.len(),
                fv == views(flags@),
                cfg@ == hot_reload_cfg(),
                found == exists|k: int| 0 <= k < i && fv[k] == hot_reload_cfg(),
            decreases flags@.len() - i,
        {
            if str_eq(flags[i].as_str(), cfg) {
                assert(fv[i as int] == hot_reload_cfg());
                found = true;
            }
            i += 1;
        }
        proof {
            if found {
                let k = choose|k: int| 0 <= k < i && fv[k] == hot_reload_cfg();
                assert(fv[k] == hot_reload_cfg());
            }
        }
        if !found {
            let mut all = flags;
            all.push(String::from_str(cfg));
            assert(views(all@) =~= fv.push(hot_reload_cfg()));
            set.push((String::from_str("RUSTFLAGS"), join(&all, " ")));
        }
        assert(pair_views(set@) =~= seq![("WATERUI_ENABLE_HOT_RELOAD"@, "1"@), ("WATERUI_HOT_RELOAD_HOST"@, "127.0.0.1"@)]
            + (match port { Some(p) => seq![("WATERUI_HOT_RELOAD_PORT"@, decimal(p as nat))], None => Seq::empty() })
            + (if fv.contains(hot_reload_cfg()) { Seq::empty() } else { seq![("RUSTFLAGS"@, joined(fv.push(hot_reload_cfg()), " "@))] }));
    } else {
        set.push((String::from_str("WATERUI_ENABLE_HOT_RELOAD"), String::from_str("1")));
        remove.push(String::from_str("WATERUI_HOT_RELOAD_HOST"));
        remove.push(String::from_str("WATERUI_HOT_RELOAD_PORT"));
        let mut kept: Vec<String> = Vec::new();
        let mut i: usize = 0;
        while i < flags.len()
            invariant
                i <= flags@.len(),
                fv == views(flags@),
                cfg@ == hot_reload_cfg(),
                views(kept@) == fv.take(i as int).filter(|f: Seq<char>| f != hot_reload_cfg()),
            decreases flags@.len() - i,
        {
            proof {
                reveal(Seq::filter);
                assert(fv.take(i + 1).drop_last() =~= fv.take(i as int));
            }
            if !str_eq(flags[i].as_str(), cfg) {
                let ghost b = views(kept@);
                kept.push(flags[i].clone());
                assert(views(kept@) =~= b.push(fv[i as int]));
            }
            i += 1;
        }
        assert(fv.take(i as int) =~= fv);
        set.push((String::from_str("RUSTFLAGS"), join(&kept, " ")));
        assert(pair_views(set@) =~= seq![("WATERUI_ENABLE_HOT_RELOAD"@, "1"@), ("RUSTFLAGS"@, joined(fv.filter(|f: Seq<char>| f != hot_reload_cfg()), " "@))]);
        assert(views(remove@) =~= seq!["WATERUI_HOT_RELOAD_HOST"@, "WATERUI_HOT_RELOAD_PORT"@]);
    }
    EnvChanges { set, remove }
}

/// Whether the flags already ask the linker to use mold.
pub open spec fn has_mold_flags(flags: Seq<Seq<char>>) -> bool {
    exists|i: int| 0 <= i < flags.len() - 1 && flags[i] == "-C"@ && #[trigger] flags[i + 1] == "link-arg=-fuse-ld=mold"@
}

/// The `RUSTFLAGS` value that makes builds link with mold, or none when
/// mold is not wanted or already configured.
pub fn configure_mold(enable: bool, rustflags: &Option<String>) -> (r: Option<String>)
    ensures
        !enable ==> r is None,
        enable ==> ({
            let flags = tokens(match rustflags { Some(f) => f@, None => Seq::empty() });
            if has_mold_flags(flags) {
                r is None
            } else {
                opt_text(r) == Some(joined(flags.push("-C"@).push("link-arg=-fuse-ld=mold"@), " "@))
            }
        }),
{
    if !enable {
        return None;
    }
    let current = match rustflags {
        Some(f) => f.clone(),
        None => String::new(),
    };
    let cur_chars = chars_of(current.as_str());
    let toks = split_whitespace(&cur_chars);
    let flags = strings_of(&toks);
    let ghost fv = views(flags@);
    let n = flags.len();
    if n >= 2 {
        let mut i: usize = 0;
        while i < n - 1
            invariant
                enable,
                n == flags@.len(),
                n >= 2,
                fv == views(flags@),
                fv == tokens(match rustflags { Some(f) => f@, None => Seq::empty() }),
                i <= n - 1,
                forall|k: int| 0 <= k < i ==> !(fv[k] == "-C"@ && #[trigger] fv[k + 1] == "link-arg=-fuse-ld=mold"@),
            decreases n - 1 - i,
        {
            if str_eq(flags[i].as_str(), "-C") && str_eq(flags[i + 1].as_str(), "link-arg=-fuse-ld=mold") {
                assert(fv[i as int] == "-C"@ && fv[i + 1] == "link-arg=-fuse-ld=mold"@);
                return None;
            }
            i += 1;
        }
    }
    assert(!has_mold_flags(fv));
    let mut all = flags;
    all.push(String::from_str("-C"));
    all.push(String::from_str("link-arg=-fuse-ld=mold"));
    assert(views(all@) =~= fv.push("-C"@).push("link-arg=-fuse-ld=mold"@));
    Some(join(&all, " "))
}

/// The log level of the app's console output.
#[derive(Clone, Copy, Debug, PartialEq, Eq, Structural)]
pub enum CliLogLevel {
    Error,
    Warn,
    Info,
    Debug,
    Verbose,
}

/// The `index.html` of a web project, loading the generated JavaScript
/// module of the crate: `./pkg/` and the crate name with underscores.
pub open spec fn web_module_path(crate_name: Seq<char>) -> Seq<char> {
    "./pkg/"@ + replaced(crate_name, "-"@, "_"@) + ".js"@
}

/// The web platform.
pub struct WebPlatform {}

impl WebPlatform {
    /// The web platform.
    pub fn new() -> (r: WebPlatform) {
        WebPlatform {}
    }

    /// The toolchain the web platform needs.
    pub fn toolchain(&self) -> (r: crate::toolchain::WebToolchain) {
        crate::toolchain::WebToolchain {}
    }

    /// The Rust target web builds use.
    pub fn target(&self) -> (r: &'static str)
        ensures
            r@ == "wasm32-unknown-unknown"@,
    {
        "wasm32-unknown-unknown"
    }

    /// The JavaScript module the page loads for a crate.
    pub fn js_module(&self, crate_name: &str) -> (r: String)
        ensures
            r@ == web_module_path(crate_name@),
    {
        proof {
            reveal_strlit("-");
        }
        let n = replace_all(crate_name, "-", "_");
        let mut r = String::from_str("./pkg/");
        r.append(n.as_str());
        r.append(".js");
        r
    }

    /// The page with the module path filled in.
    pub fn index_html(&self, template: &str, crate_name: &str) -> (r: String)
        ensures
            r@ == replaced(template@, "__WASM_JS_MODULE__"@, web_module_path(crate_name@)),
    {
        proof {
            reveal_strlit("__WASM_JS_MODULE__");
        }
        let module = self.js_module(crate_name);
        replace_all(template, "__WASM_JS_MODULE__", module.as_str())
    }
}

/// Where Xcode keeps a project's build products: `.waterui/DerivedData`.
pub fn derived_data_dir(project_dir: &str) -> (r: String)
    ensures
        r@ == pushed(project_dir@, ".waterui/DerivedData"@),
{
    joined_path(project_dir, ".waterui/DerivedData")
}

/// An Xcode project to build: its scheme and project file.
pub struct XcodeProject {
    pub scheme: String,
    pub project_file: String,
}

/// The last `max_lines` lines of a text, or all of them when there are fewer.
pub open spec fn last_lines_of(text: Seq<char>, max_lines: nat) -> Seq<Seq<char>> {
    let ls = lines(text);
    if ls.len() <= max_lines { ls } else { ls.skip(ls.len() - max_lines) }
}

/// The last lines of a log.
pub fn last_lines(text: &str, max_lines: usize) -> (r: Vec<String>)
    ensures
        views(r@) == last_lines_of(text@, max_lines as nat),
{
    let chars = chars_of(text);
    let ls = split_lines(&chars);
    let start = if ls.len() <= max_lines { 0 } else { ls.len() - max_lines };
    let mut r: Vec<String> = Vec::new();
    let mut i = start;
    while i < ls.len()
        invariant
            start <= i <= ls@.len(),
            r@.len() == i - start,
            forall|k: int| 0 <= k < r@.len() ==> (#[trigger] r@[k])@ == ls@[start + k]@,
        decreases ls@.len() - i,
    {
        r.push(string_of(&ls[i]));
        i += 1;
    }
    assert(views(r@) =~= last_lines_of(text@, max_lines as nat));
    r
}

/// Where the components of a path begin: after a leading root `/`, or after
/// a leading `.` component, which `std::path` keeps as it is.
pub open spec fn body_start(s: Seq<char>) -> int {
    if s.len() > 0 && s[0] == '/' {
        1
    } else if s == seq!['.'] || (s.len() >= 2 && s[0] == '.' && s[1] == '/') {
        1
    } else {
        0
    }
}

/// The last `/` at or after position `b`, or -1.
pub open spec fn last_sep(s: Seq<char>, b: int) -> int
    decreases s.len(),
{
    if s.len() <= b || s.len() == 0 {
        -1
    } else if s.last() == '/' {
        s.len() - 1
    } else {
        last_sep(s.drop_last(), b)
    }
}

/// The text of the last component after position `b`, as far as the last `/`.
pub open spec fn last_segment(s: Seq<char>, b: int) -> Seq<char> {
    let k = last_sep(s, b);
    if k >= b { s.skip(k + 1) } else { s.skip(b) }
}

/// Where the last component after position `b` starts, less its separator.
pub open spec fn segment_cut(s: Seq<char>, b: int) -> int {
    let k = last_sep(s, b);
    if k >= b { k } else { b }
}

/// The path with trailing separators and trailing `.` components removed,
/// the way `std::path` ignores them, keeping the first `b` characters.
pub open spec fn trimmed_back(s: Seq<char>, b: int) -> Seq<char>
    decreases s.len(),
{
    if s.len() <= b || b < 0 {
        s
    } else {
        let seg = last_segment(s, b);
        if seg.len() == 0 || seg == seq!['.'] {
            if 0 <= segment_cut(s, b) < s.len() {
                trimmed_back(s.take(segment_cut(s, b)), b)
            } else {
                s
            }
        } else {
            s
        }
    }
}

/// The parent of a Unix path as `Path::parent` gives it: none for the empty
/// path and for a path that is only a root; the empty path for a single
/// relative component; otherwise the path without its last component and
/// without the separators and `.` components before it.
pub open spec fn path_parent(s: Seq<char>) -> Option<Seq<char>> {
    let b = body_start(s);
    let t = trimmed_back(s, b);
    if t.len() <= b {
        if s.len() == 0 || s[0] == '/' { None } else { Some(Seq::empty()) }
    } else {
        Some(trimmed_back(t.take(segment_cut(t, b)), b))
    }
}

proof fn lemma_last_sep(s: Seq<char>, b: int)
    requires
        0 <= b,
    ensures
        -1 <= last_sep(s, b) < s.len(),
        last_sep(s, b) >= 0 ==> b <= last_sep(s, b) && s[last_sep(s, b)] == '/'
            && forall|j: int| last_sep(s, b) < j < s.len() ==> s[j] != '/',
        last_sep(s, b) < 0 ==> forall|j: int| b <= j < s.len() ==> s[j] != '/',
    decreases s.len(),
{
    if s.len() <= b || s.len() == 0 {
    } else if s.last() == '/' {
    } else {
        lemma_last_sep(s.drop_last(), b);
        assert forall|j: int| b <= j < s.len() - 1 implies s[j] == s.drop_last()[j] by {}
    }
}

fn last_sep_in(v: &Vec<char>, len: usize, b: usize) -> (r: Option<usize>)
    requires
        len <= v@.len(),
    ensures
        match r {
            Some(k) => last_sep(v@.take(len as int), b as int) == k as int,
            None => last_sep(v@.take(len as int), b as int) < 0,
        },
{
    proof { lemma_last_sep(v@.take(len as int), b as int); }
    let mut i = len;
    while i > b
        invariant
            i <= len <= v@.len(),
            forall|j: int| i <= j < len ==> v@[j] != '/',
        decreases i,
    {
        if v[i - 1] == '/' {
            proof {
                let t = v@.take(len as int);
                lemma_last_sep(t, b as int);
                let k = last_sep(t, b as int);
                if k >= 0 && k != i - 1 {
                    if k < i - 1 {
                        assert(t[i - 1] == '/');
                    } else {
                        assert(t[k] == '/');
                    }
                }
                if k < 0 {
                    assert(t[i - 1] == '/');
                }
            }
            return Some(i - 1);
        }
        i -= 1;
    }
    proof {
        let t = v@.take(len as int);
        let k = last_sep(t, b as int);
        if k >= 0 {
            assert(t[k] == '/');
        }
    }
    None
}

fn trim_back_len(v: &Vec<char>, len: usize, b: usize) -> (r: usize)
    requires
        len <= v@.len(),
        b <= len,
    ensures
        b <= r <= len,
        v@.take(r as int) == trimmed_back(v@.take(len as int), b as int),
{
    let mut cur = len;
    while cur > b
        invariant
            b <= cur <= len <= v@.len(),
            trimmed_back(v@.take(cur as int), b as int) == trimmed_back(v@.take(len as int), b as int),
        decreases cur,
    {
        let ghost t = v@.take(cur as int);
        proof { lemma_last_sep(t, b as int); }
        let start = match last_sep_in(v, cur, b) {
            Some(k) => k + 1,
            None => b,
        };
        let cut = if start > b { start - 1 } else { b };
        proof {
            assert(last_segment(t, b as int) =~= v@.subrange(start as int, cur as int));
            assert(segment_cut(t, b as int) == cut as int);
        }
        let empty = start == cur;
        let dot = cur - start == 1 && v[start] == '.';
        if empty || dot {
            proof {
                if dot {
                    assert(last_segment(t, b as int) =~= seq!['.']);
                }
                assert(t.take(cut as int) =~= v@.take(cut as int));
            }
            cur = cut;
        } else {
            proof {
                assert(last_segment(t, b as int).len() > 0);
                if last_segment(t, b as int) == seq!['.'] {
                    assert(last_segment(t, b as int)[0] == v@[start as int]);
                }
            }
            return cur;
        }
    }
    cur
}

/// The directory above the tool's own manifest directory, which is the
/// workspace root: the parent of the manifest directory, which must have one.
pub fn workspace_root(manifest_dir: &str) -> (r: String)
    requires
        path_parent(manifest_dir@) is Some,
    ensures
        Some(r@) == path_parent(manifest_dir@),
{
    let v = chars_of(manifest_dir);
    let n = v.len();
    let b: usize = if n > 0 && v[0] == '/' {
        1
    } else if (n == 1 && v[0] == '.') || (n >= 2 && v[0] == '.' && v[1] == '/') {
        1
    } else {
        0
    };
    proof {
        if n == 1 && v@[0] == '.' {
            assert(v@ =~= seq!['.']);
        }
        if v@ == seq!['.'] {
            assert(n == 1 && v@[0] == '.');
        }
        assert(v@.take(n as int) =~= v@);
    }
    assert(b as int == body_start(v@));
    let t = trim_back_len(&v, n, b);
    let ghost tv = v@.take(t as int);
    if t <= b {
        proof {
            assert(tv.len() <= b);
        }
        return String::new();
    }
    proof { lemma_last_sep(tv, b as int); }
    let cut = match last_sep_in(&v, t, b) {
        Some(k) => k,
        None => b,
    };
    assert(cut as int == segment_cut(tv, b as int));
    let p = trim_back_len(&v, cut, b);
    proof {
        assert(tv.take(cut as int) =~= v@.take(cut as int));
    }
    let mut out: Vec<char> = Vec::new();
    let mut i: usize = 0;
    while i < p
        invariant
            i <= p <= v@.len(),
            out@ == v@.take(i as int),
        decreases p - i,
    {
        out.push(v[i]);
        i += 1;
        assert(out@ =~= v@.take(i as int));
    }
    string_of(&out)
}

/// The name a platform is printed with in messages: its variant's name.
pub open spec fn platform_debug_name(p: Platform) -> Seq<char> {
    match p {
        Platform::Web => "Web"@,
        Platform::Macos => "Macos"@,
        Platform::Ios => "Ios"@,
        Platform::Ipados => "Ipados"@,
        Platform::Watchos => "Watchos"@,
        Platform::Tvos => "Tvos"@,
        Platform::Visionos => "Visionos"@,
        Platform::Android => "Android"@,
    }
}

fn debug_name(p: Platform) -> (r: &'static str)
    ensures
        r@ == platform_debug_name(p),
{
    match p {
        Platform::Web => "Web",
        Platform::Macos => "Macos",
        Platform::Ios => "Ios",
        Platform::Ipados => "Ipados",
        Platform::Watchos => "Watchos",
        Platform::Tvos => "Tvos",
        Platform::Visionos => "Visionos",
        Platform::Android => "Android",
    }
}

/// The error shown when the toolchain check fails before a run: the
/// platform, then the check's report, trimmed and indented by two spaces,
/// or a full stop when the report is blank.
pub open spec fn not_ready_text(p: Platform, details: Seq<char>) -> Seq<char> {
    let t = trimmed(details);
    "Toolchain not ready for "@ + platform_debug_name(p) + (if t.len() == 0 { "."@ } else { ":\n\n"@ + indented(t, "  "@) })
}

/// Composes the error for a failed toolchain check.
pub fn toolchain_not_ready_message(platform: Platform, details: &str) -> (r: String)
    ensures
        r@ == not_ready_text(platform, details@),
{
    let mut message = String::from_str("Toolchain not ready for ");
    message.append(debug_name(platform));
    let t = trim_str(details);
    if t.unicode_len() == 0 {
        message.append(".");
    } else {
        message.append(":\n\n");
        message.append(indent_lines(t.as_str(), "  ").as_str());
    }
    message
}

/// How a run of a native platform proceeds.
#[derive(Clone, Copy, Debug, PartialEq, Eq, Structural)]
pub struct RunPlan {
    /// Hot reload is on: asked for, and supported by the platform.
    pub hot_reload: bool,
    /// The hot-reload server starts before the app is launched, and the
    /// Android linker environment is set up; Android needs the port for
    /// its reverse tunnel.
    pub server_before_launch: bool,
}

/// Plans a run: hot reload unless it was switched off or the platform
/// cannot reload natively; on Android with hot reload, the server first.
pub fn plan_run(platform: Platform, no_hot_reload: bool) -> (r: RunPlan)
    ensures
        r.hot_reload == (!no_hot_reload && (apple(platform) || platform == Platform::Android)),
        r.server_before_launch == (r.hot_reload && platform == Platform::Android),
{
    let hot_reload = !no_hot_reload && platform_supports_native_hot_reload(platform);
    RunPlan { hot_reload, server_before_launch: hot_reload && platform == Platform::Android }
}

/// The steps of running an app on a platform, in the order they happen.
#[derive(Clone, Copy, Debug, PartialEq, Eq, Structural)]
pub enum RunStep {
    /// Nothing has happened yet.
    Begin,
    /// Check the toolchain of the platform's targets.
    CheckToolchain,
    /// Hand the run over to the web flow; the run ends here.
    RunWeb,
    /// Set up the Android linker for the hot-reload target.
    ConfigureAndroidLinker,
    /// Take the hot-reload lock of the project.
    AcquireLock,
    /// Start the hot-reload server before launching (Android).
    StartServerBeforeLaunch,
    /// Build, package and launch the app.
    Package,
    /// Record the run so that `run again` can repeat it.
    RecordLastRun,
    /// The app runs without hot reload; the run ends here.
    Launched,
    /// Start the hot-reload server after launching.
    StartServerAfterLaunch,
    /// Watch the sources and reload; the run ends here.
    Watch,
    /// The run failed.
    Stopped,
}

/// The step after `step` of a run on `platform`, when `step` succeeded
/// (`ok`) or failed. Failures stop the run, except that a run that could
/// not be recorded goes on; finished runs stay finished.
pub open spec fn run_successor(platform: Platform, no_hot_reload: bool, step: RunStep, ok: bool) -> RunStep {
    let hot = !no_hot_reload && (apple(platform) || platform == Platform::Android);
    let early = hot && platform == Platform::Android;
    match step {
        RunStep::Begin => RunStep::CheckToolchain,
        RunStep::CheckToolchain => if !ok {
            RunStep::Stopped
        } else if platform == Platform::Web {
            RunStep::RunWeb
        } else if early {
            RunStep::ConfigureAndroidLinker
        } else if hot {
            RunStep::AcquireLock
        } else {
            RunStep::Package
        },
        RunStep::ConfigureAndroidLinker => if ok { RunStep::AcquireLock } else { RunStep::Stopped },
        RunStep::AcquireLock => if !ok {
            RunStep::Stopped
        } else if early {
            RunStep::StartServerBeforeLaunch
        } else {
            RunStep::Package
        },
        RunStep::StartServerBeforeLaunch => if ok { RunStep::Package } else { RunStep::Stopped },
        RunStep::Package => if ok { RunStep::RecordLastRun } else { RunStep::Stopped },
        RunStep::RecordLastRun => if !hot {
            RunStep::Launched
        } else if early {
            RunStep::Watch
        } else {
            RunStep::StartServerAfterLaunch
        },
        RunStep::StartServerAfterLaunch => if ok { RunStep::Watch } else { RunStep::Stopped },
        RunStep::RunWeb => RunStep::RunWeb,
        RunStep::Launched => RunStep::Launched,
        RunStep::Watch => RunStep::Watch,
        RunStep::Stopped => RunStep::Stopped,
    }
}

/// Decides what a run does next, given the step just taken and its
/// outcome: the next step, and the message the run stops with when it
/// stops. A failed toolchain check stops with the toolchain report; any
/// other failure stops with its own message.
pub fn next_run_step(platform: Platform, no_hot_reload: bool, step: RunStep, outcome: &Result<(), String>) -> (r: (RunStep, Option<String>))
    ensures
        r.0 == run_successor(platform, no_hot_reload, step, outcome is Ok),
        r.0 == RunStep::Stopped && step != RunStep::Stopped ==> (outcome matches Err(details) && r.1 matches Some(m)
            && m@ == (if step == RunStep::CheckToolchain { not_ready_text(platform, details@) } else { details@ })),
        !(r.0 == RunStep::Stopped && step != RunStep::Stopped) ==> r.1 is None,
{
    let plan = plan_run(platform, no_hot_reload);
    let hot = plan.hot_reload;
    let early = plan.server_before_launch;
    let ok = outcome.is_ok();
    let next = match step {
        RunStep::Begin => RunStep::CheckToolchain,
        RunStep::CheckToolchain => if !ok {
            RunStep::Stopped
        } else if platform == Platform::Web {
            RunStep::RunWeb
        } else if early {
            RunStep::ConfigureAndroidLinker
        } else if hot {
            RunStep::AcquireLock
        } else {
            RunStep::Package
        },
        RunStep::ConfigureAndroidLinker => if ok { RunStep::AcquireLock } else { RunStep::Stopped },
        RunStep::AcquireLock => if !ok {
            RunStep::Stopped
        } else if early {
            RunStep::StartServerBeforeLaunch
        } else {
            RunStep::Package
        },
        RunStep::StartServerBeforeLaunch => if ok { RunStep::Package } else { RunStep::Stopped },
        RunStep::Package => if ok { RunStep::RecordLastRun } else { RunStep::Stopped },
        RunStep::RecordLastRun => if !hot {
            RunStep::Launched
        } else if early {
            RunStep::Watch
        } else {
            RunStep::StartServerAfterLaunch
        },
        RunStep::StartServerAfterLaunch => if ok { RunStep::Watch } else { RunStep::Stopped },
        RunStep::RunWeb => RunStep::RunWeb,
        RunStep::Launched => RunStep::Launched,
        RunStep::Watch => RunStep::Watch,
        RunStep::Stopped => RunStep::Stopped,
    };
    if next == RunStep::Stopped && step != RunStep::Stopped {
        match outcome {
            Err(details) => {
                if step == RunStep::CheckToolchain {
                    (next, Some(toolchain_not_ready_message(platform, details.as_str())))
                } else {
                    (next, Some(details.clone()))
                }
            },
            Ok(()) => (next, None),
        }
    } else {
        (next, None)
    }
}

/// A run that goes well reaches its end in order: the toolchain check, then
/// for the web the web flow; otherwise the linker set-up, the lock and the
/// early server where hot reload on Android needs them, packaging,
/// recording, and the late server where hot reload needs one, ending in
/// watching with hot reload and in a plain launch without it.
pub proof fn lemma_successful_run(platform: Platform, no_hot_reload: bool)
    ensures
        ({
            let hot = !no_hot_reload && (apple(platform) || platform == Platform::Android);
            let s1 = run_successor(platform, no_hot_reload, RunStep::Begin, true);
            let s2 = run_successor(platform, no_hot_reload, s1, true);
            let s3 = run_successor(platform, no_hot_reload, s2, true);
            let s4 = run_successor(platform, no_hot_reload, s3, true);
            let s5 = run_successor(platform, no_hot_reload, s4, true);
            let s6 = run_successor(platform, no_hot_reload, s5, true);
            let s7 = run_successor(platform, no_hot_reload, s6, true);
            let s8 = run_successor(platform, no_hot_reload, s7, true);
            s1 == RunStep::CheckToolchain
            && (platform == Platform::Web ==> s2 == RunStep::RunWeb)
            && (platform != Platform::Web && !hot ==> s2 == RunStep::Package && s3 == RunStep::RecordLastRun && s4 == RunStep::Launched)
            && (hot && platform != Platform::Android ==> s2 == RunStep::AcquireLock && s3 == RunStep::Package
                && s4 == RunStep::RecordLastRun && s5 == RunStep::StartServerAfterLaunch && s6 == RunStep::Watch)
            && (hot && platform == Platform::Android ==> s2 == RunStep::ConfigureAndroidLinker && s3 == RunStep::AcquireLock
                && s4 == RunStep::StartServerBeforeLaunch && s5 == RunStep::Package && s6 == RunStep::RecordLastRun
                && s7 == RunStep::Watch && s8 == RunStep::Watch)
        }),
{
}

/// The backend a playground needs to run on a platform; none for watchOS,
/// which playgrounds do not support.
pub open spec fn playground_backend_of(p: Platform) -> Option<BackendChoice> {
    match p {
        Platform::Web => Some(BackendChoice::Web),
        Platform::Android => Some(BackendChoice::Android),
        Platform::Watchos => None,
        _ => Some(BackendChoice::Apple),
    }
}

/// The backend a playground needs for a platform, or the error for one it
/// cannot run on.
pub fn playground_backend(platform: Platform) -> (r: Result<BackendChoice, String>)
    ensures
        playground_backend_of(platform) matches Some(b) ==> r == Ok::<BackendChoice, String>(b),
        playground_backend_of(platform) is None ==> (r matches Err(m)
            && m@ == "Platform "@ + platform_debug_name(platform) + " is not supported in playground mode"@),
{
    match platform {
        Platform::Web => Ok(BackendChoice::Web),
        Platform::Android => Ok(BackendChoice::Android),
        Platform::Macos | Platform::Ios | Platform::Ipados | Platform::Tvos | Platform::Visionos => Ok(BackendChoice::Apple),
        Platform::Watchos => {
            let mut m = String::from_str("Platform ");
            m.append(debug_name(platform));
            m.append(" is not supported in playground mode");
            Err(m)
        },
    }
}

/// Refuses watchOS, whose backend does not exist yet.
pub fn check_run_platform(platform: Platform) -> (r: Result<(), String>)
    ensures
        platform != Platform::Watchos <==> r is Ok,
        r matches Err(m) ==> m@ == "watchOS backend is not supported yet."@,
{
    if platform == Platform::Watchos {
        Err(String::from_str("watchOS backend is not supported yet."))
    } else {
        Ok(())
    }
}

/// What a run is asked to do.
pub struct RunRequest {
    /// The platform, when one was named.
    pub platform: Option<Platform>,
    /// The device, when one was named.
    pub device: Option<String>,
    pub release: bool,
    pub no_sccache: bool,
    pub mold: bool,
    pub no_hot_reload: bool,
    pub log_filter: Option<String>,
}

/// Without a terminal to ask in, as with JSON output, a run must name its
/// platform or its device.
pub fn check_run_request(is_json: bool, request: &RunRequest) -> (r: Result<(), String>)
    ensures
        r is Err <==> (is_json && request.platform is None && request.device is None),
        r matches Err(m) ==> m@ == "JSON output requires specifying --platform or --device to avoid interactive prompts."@,
{
    if is_json && request.platform.is_none() && request.device.is_none() {
        Err(String::from_str("JSON output requires specifying --platform or --device to avoid interactive prompts."))
    } else {
        Ok(())
    }
}

/// `run again` repeats the last run as it was: it takes no device, no
/// build option and no hot-reload switch.
pub fn check_run_again(request: &RunRequest) -> (r: Result<(), String>)
    ensures
        r is Err <==> (request.device is Some || request.release || request.no_sccache || request.mold || request.no_hot_reload),
        r matches Err(m) ==> m@ == "`water run again` does not accept additional options. Re-run the original command without extra flags."@,
{
    if request.device.is_some() || request.release || request.no_sccache || request.mold || request.no_hot_reload {
        Err(String::from_str("`water run again` does not accept additional options. Re-run the original command without extra flags."))
    } else {
        Ok(())
    }
}

/// The record of the last run, kept for `run again`.
pub struct LastRun {
    pub platform: Platform,
    pub device: Option<String>,
    pub release: bool,
    pub enable_sccache: bool,
    pub mold: bool,
    /// Seconds since the Unix epoch when the run started.
    pub timestamp: u64,
}

/// The run that `run again` makes from the record of the last one: the same
/// platform, device and build options, with hot reload on and the default
/// log filter.
pub fn replay_request(last: &LastRun) -> (r: RunRequest)
    ensures
        r.platform == Some(last.platform),
        opt_text(r.device) == opt_text(last.device),
        r.release == last.release,
        r.no_sccache == !last.enable_sccache,
        r.mold == last.mold,
        !r.no_hot_reload,
        r.log_filter is None,
{
    RunRequest {
        platform: Some(last.platform),
        device: match &last.device { Some(d) => Some(d.clone()), None => None },
        release: last.release,
        no_sccache: !last.enable_sccache,
        mold: last.mold,
        no_hot_reload: false,
        log_filter: None,
    }
}

/// Where an Xcode project is: under the project's Apple directory, the
/// configured project file, or else the one named after the scheme.
pub fn xcode_project_file(project_dir: &str, project_path: &str, scheme: &str, custom: Option<&str>) -> (r: String)
    ensures
        r@ == pushed(pushed(project_dir@, project_path@), match custom {
            Some(c) => c@,
            None => scheme@ + ".xcodeproj"@,
        }),
{
    let root = joined_path(project_dir, project_path);
    match custom {
        Some(c) => joined_path(root.as_str(), c),
        None => {
            let mut name = String::from_str(scheme);
            name.append(".xcodeproj");
            joined_path(root.as_str(), name.as_str())
        },
    }
}

/// The arguments every `xcodebuild` run starts with.
pub open spec fn xcodebuild_arg_list(project_file: Seq<char>, scheme: Seq<char>, configuration: Seq<char>, derived_root: Seq<char>) -> Seq<Seq<char>> {
    seq!["-project"@, project_file, "-scheme"@, scheme, "-configuration"@, configuration, "-derivedDataPath"@, derived_root,
        "-allowProvisioningUpdates"@, "-allowProvisioningDeviceRegistration"@]
}

/// The base arguments of `xcodebuild` for a project.
pub fn xcodebuild_args(project_file: &str, scheme: &str, configuration: &str, derived_root: &str) -> (r: Vec<String>)
    ensures
        views(r@) == xcodebuild_arg_list(project_file@, scheme@, configuration@, derived_root@),
{
    let mut r: Vec<String> = Vec::new();
    r.push(String::from_str("-project"));
    r.push(String::from_str(project_file));
    r.push(String::from_str("-scheme"));
    r.push(String::from_str(scheme));
    r.push(String::from_str("-configuration"));
    r.push(String::from_str(configuration));
    r.push(String::from_str("-derivedDataPath"));
    r.push(String::from_str(derived_root));
    r.push(String::from_str("-allowProvisioningUpdates"));
    r.push(String::from_str("-allowProvisioningDeviceRegistration"));
    assert(views(r@) =~= xcodebuild_arg_list(project_file@, scheme@, configuration@, derived_root@));
    r
}

/// The simulator platform named in an `xcodebuild` destination, and the
/// suffix of its products directory.
pub open spec fn simulator_of(p: Platform) -> Option<(Seq<char>, Seq<char>)> {
    match p {
        Platform::Ios | Platform::Ipados => Some(("iOS Simulator"@, "iphonesimulator"@)),
        Platform::Watchos => Some(("watchOS Simulator"@, "watchsimulator"@)),
        Platform::Tvos => Some(("tvOS Simulator"@, "appletvsimulator"@)),
        Platform::Visionos => Some(("visionOS Simulator"@, "xrsimulator"@)),
        _ => None,
    }
}

/// The simulator of a platform, or the error for one without simulators.
pub fn simulator_target(platform: Platform) -> (r: Result<(&'static str, &'static str), String>)
    ensures
        simulator_of(platform) matches Some(t) ==> (r matches Ok(p) && p.0@ == t.0 && p.1@ == t.1),
        simulator_of(platform) is None ==> (r matches Err(m)
            && m@ == "Unsupported platform for simulator: "@ + platform_debug_name(platform)),
{
    match platform {
        Platform::Ios | Platform::Ipados => Ok(("iOS Simulator", "iphonesimulator")),
        Platform::Watchos => Ok(("watchOS Simulator", "watchsimulator")),
        Platform::Tvos => Ok(("tvOS Simulator", "appletvsimulator")),
        Platform::Visionos => Ok(("visionOS Simulator", "xrsimulator")),
        _ => {
            let mut m = String::from_str("Unsupported platform for simulator: ");
            m.append(debug_name(platform));
            Err(m)
        },
    }
}

/// The `xcodebuild` destination for a named simulator.
pub fn simulator_destination(sim_platform: &str, device: &str) -> (r: String)
    ensures
        r@ == "platform="@ + sim_platform@ + ",name="@ + device@,
{
    let mut r = String::from_str("platform=");
    r.append(sim_platform);
    r.append(",name=");
    r.append(device);
    r
}

/// Where the simulator build puts the app bundle.
pub fn simulator_app_bundle(derived_root: &str, configuration: &str, products: &str, scheme: &str) -> (r: String)
    ensures
        r@ == pushed(pushed(derived_root@, "Build/Products/"@ + configuration@ + "-"@ + products@), scheme@ + ".app"@),
{
    let mut dir = String::from_str("Build/Products/");
    dir.append(configuration);
    dir.append("-");
    dir.append(products);
    let products_dir = joined_path(derived_root, dir.as_str());
    let mut bundle = String::from_str(scheme);
    bundle.append(".app");
    joined_path(products_dir.as_str(), bundle.as_str())
}

/// The arguments of `xcrun` that launch the app on a simulator, passing the
/// hot-reload port when there is one.
pub open spec fn launch_arg_list(device: Seq<char>, bundle_identifier: Seq<char>, port: Option<u16>) -> Seq<Seq<char>> {
    seq!["simctl"@, "launch"@, "--terminate-running-process"@]
        + (match port { Some(p) => seq!["--setenv"@, "WATERUI_HOT_RELOAD_PORT"@, decimal(p as nat)], None => Seq::empty() })
        + seq![device, bundle_identifier]
}

/// Arguments of `xcrun` to launch the app on a simulator.
pub fn simctl_launch_args(device: &str, bundle_identifier: &str, port: Option<u16>) -> (r: Vec<String>)
    ensures
        views(r@) == launch_arg_list(device@, bundle_identifier@, port),
{
    let mut r: Vec<String> = Vec::new();
    r.push(String::from_str("simctl"));
    r.push(String::from_str("launch"));
    r.push(String::from_str("--terminate-running-process"));
    match port {
        Some(p) => {
            r.push(String::from_str("--setenv"));
            r.push(String::from_str("WATERUI_HOT_RELOAD_PORT"));
            r.push(decimal_string(p as u64));
        },
        None => {},
    }
    r.push(String::from_str(device));
    r.push(String::from_str(bundle_identifier));
    assert(views(r@) =~= launch_arg_list(device@, bundle_identifier@, port));
    r
}

/// Whether a simulator's state marks it unavailable.
pub open spec fn unavailable(state: Option<Seq<char>>) -> bool {
    state == Some("unavailable"@)
}

/// The simulator used when none was named: the first that is not
/// unavailable, or else the first.
pub open spec fn preferred_simulator_of(candidates: Seq<(Seq<char>, Option<Seq<char>>)>) -> Seq<char>
    recommends
        candidates.len() > 0,
{
    let i = choose|i: int| 0 <= i < candidates.len() && !unavailable(candidates[i].1)
        && forall|j: int| 0 <= j < i ==> unavailable(#[trigger] candidates[j].1);
    if exists|i: int| 0 <= i < candidates.len() && !unavailable(#[trigger] candidates[i].1) {
        candidates[i].0
    } else {
        candidates[0].0
    }
}

/// Picks the default simulator from the listed ones, each given by name
/// and state.
pub fn preferred_simulator(candidates: &Vec<(String, Option<String>)>) -> (r: String)
    requires
        candidates@.len() > 0,
    ensures
        r@ == preferred_simulator_of(candidates@.map_values(|c: (String, Option<String>)| (c.0@, opt_text(c.1)))),
{
    let ghost cv = candidates@.map_values(|c: (String, Option<String>)| (c.0@, opt_text(c.1)));
    let mut i: usize = 0;
    while i < candidates.len()
        invariant
            cv == candidates@.map_values(|c: (String, Option<String>)| (c.0@, opt_text(c.1))),
            i <= cv.len(),
            forall|j: int| 0 <= j < i ==> unavailable(#[trigger] cv[j].1),
        decreases cv.len() - i,
    {
        let usable = match &candidates[i].1 {
            Some(state) => !str_eq(state.as_str(), "unavailable"),
            None => true,
        };
        assert(cv[i as int] == (candidates@[i as int].0@, opt_text(candidates@[i as int].1)));
        if usable {
            proof {
                assert(!unavailable(cv[i as int].1));
                let k = choose|k: int| 0 <= k < cv.len() && !unavailable(cv[k].1)
                    && forall|j: int| 0 <= j < k ==> unavailable(#[trigger] cv[j].1);
                if k < i {
                    assert(unavailable(cv[k].1));
                } else if k > i {
                    assert(unavailable(cv[i as int].1));
                }
                assert(k == i);
            }
            return candidates[i].0.clone();
        }
        i += 1;
    }
    proof {
        assert forall|k: int| 0 <= k < cv.len() implies unavailable(#[trigger] cv[k].1) by {}
    }
    candidates[0].0.clone()
}

/// How a simulator is offered in the prompt: its name, and its detail in
/// brackets when there is one.
pub fn simulator_option_label(name: &str, detail: Option<&str>) -> (r: String)
    ensures
        r@ == match detail {
            Some(d) => name@ + " ("@ + d@ + ")"@,
            None => name@,
        },
{
    let mut r = String::from_str(name);
    match detail {
        Some(d) => {
            r.append(" (");
            r.append(d);
            r.append(")");
        },
        None => {},
    }
    r
}

/// The lines of a text, trimmed, without the empty ones.
pub open spec fn nonblank_lines_of(text: Seq<char>) -> Seq<Seq<char>> {
    lines(text).map_values(|l: Seq<char>| trimmed(l)).filter(|l: Seq<char>| l.len() > 0)
}

fn nonblank_lines(output: &str) -> (r: Vec<String>)
    ensures
        views(r@) == nonblank_lines_of(output@),
{
    let chars = chars_of(output);
    let ls = split_lines(&chars);
    let mut trimmed_lines: Vec<Vec<char>> = Vec::new();
    let mut i: usize = 0;
    while i < ls.len()
        invariant
            i <= ls@.len(),
            trimmed_lines@.len() == i,
            forall|j: int| 0 <= j < i ==> (#[trigger] trimmed_lines@[j])@ == trimmed(ls@[j]@),
        decreases ls@.len() - i,
    {
        trimmed_lines.push(trim_chars(ls[i].as_slice()));
        i += 1;
    }
    assert(vviews(trimmed_lines@) =~= lines(output@).map_values(|l: Seq<char>| trimmed(l)));
    let kept = keep_nonempty(trimmed_lines);
    strings_of(&kept)
}

/// Reads the emulator names listed by `emulator -list-avds`: the lines of
/// its output, trimmed, without the empty ones.
pub fn avd_names(output: &str) -> (r: Vec<String>)
    ensures
        views(r@) == nonblank_lines_of(output@),
{
    nonblank_lines(output)
}

/// The activity `adb` starts to launch the app: the Java package of the
/// bundle identifier and the main activity.
pub fn launch_activity(bundle_identifier: &str) -> (r: String)
    ensures
        r@ == sanitized_package(bundle_identifier@) + "/.MainActivity"@,
{
    let mut r = sanitize_package_name(bundle_identifier);
    r.append("/.MainActivity");
    r
}

/// Whether a build target is an Android one.
pub open spec fn android_target(target: Option<Seq<char>>) -> bool {
    match target {
        Some(t) => contains_seq(t, "android"@),
        None => false,
    }
}

/// Whether a build target is an Android one: its triple mentions `android`.
pub fn is_android_target(target: Option<&str>) -> (r: bool)
    ensures
        r == android_target(match target { Some(t) => Some(t@), None => None }),
{
    match target {
        Some(t) => contains_str(t, "android"),
        None => false,
    }
}

/// The arguments of `cargo` for a build or a `rustc` run of a package: the
/// target when one is given, and `--release` for release builds.
pub open spec fn cargo_arg_list(command: Seq<char>, package: Seq<char>, target: Option<Seq<char>>, release: bool) -> Seq<Seq<char>> {
    seq![command, "--package"@, package]
        + (if command == "rustc"@ { seq!["--lib"@] } else { Seq::empty() })
        + (match target { Some(t) => seq!["--target"@, t], None => Seq::empty() })
        + (if release { seq!["--release"@] } else { Seq::empty() })
        + (if command == "rustc"@ { seq!["--"@, "--crate-type"@, "cdylib"@] } else { Seq::empty() })
}

fn cargo_args(command: &str, package: &str, target: Option<&str>, release: bool) -> (r: Vec<String>)
    ensures
        views(r@) == cargo_arg_list(command@, package@, match target { Some(t) => Some(t@), None => None }, release),
{
    let rustc = str_eq(command, "rustc");
    let mut r: Vec<String> = Vec::new();
    r.push(String::from_str(command));
    r.push(String::from_str("--package"));
    r.push(String::from_str(package));
    if rustc {
        r.push(String::from_str("--lib"));
    }
    match target {
        Some(t) => {
            r.push(String::from_str("--target"));
            r.push(String::from_str(t));
        },
        None => {},
    }
    if release {
        r.push(String::from_str("--release"));
    }
    if rustc {
        r.push(String::from_str("--"));
        r.push(String::from_str("--crate-type"));
        r.push(String::from_str("cdylib"));
    }
    assert(views(r@) =~= cargo_arg_list(command@, package@, match target { Some(t) => Some(t@), None => None }, release));
    r
}

/// The arguments of `cargo build` for the app's library.
pub fn cargo_build_args(package: &str, target: Option<&str>, release: bool) -> (r: Vec<String>)
    ensures
        views(r@) == cargo_arg_list("build"@, package@, match target { Some(t) => Some(t@), None => None }, release),
{
    cargo_args("build", package, target, release)
}

/// The arguments of `cargo rustc` that force a dynamic library when the
/// build did not leave one.
pub fn cdylib_rustc_args(package: &str, target: Option<&str>, release: bool) -> (r: Vec<String>)
    ensures
        views(r@) == cargo_arg_list("rustc"@, package@, match target { Some(t) => Some(t@), None => None }, release),
{
    cargo_args("rustc", package, target, release)
}

/// The environment that keeps debug builds small enough to send over the
/// hot-reload connection; release builds need none.
pub fn dev_profile_env(release: bool) -> (r: Vec<(String, String)>)
    ensures
        release ==> r@.len() == 0,
        !release ==> pair_views(r@) == seq![("CARGO_PROFILE_DEV_DEBUG"@, "1"@), ("CARGO_PROFILE_DEV_SPLIT_DEBUGINFO"@, "packed"@)],
{
    let mut r: Vec<(String, String)> = Vec::new();
    if !release {
        r.push((String::from_str("CARGO_PROFILE_DEV_DEBUG"), String::from_str("1")));
        r.push((String::from_str("CARGO_PROFILE_DEV_SPLIT_DEBUGINFO"), String::from_str("packed")));
        assert(pair_views(r@) =~= seq![("CARGO_PROFILE_DEV_DEBUG"@, "1"@), ("CARGO_PROFILE_DEV_SPLIT_DEBUGINFO"@, "packed"@)]);
    }
    r
}

/// What follows a `cargo build` of the app's library.
#[derive(Clone, Copy, Debug, PartialEq, Eq, Structural)]
pub enum BuildNext {
    /// Build again without the build cache.
    RetryWithoutCache,
    /// The build is done; force the dynamic library and copy it into the
    /// Android project as told.
    Finish { ensure_cdylib: bool, copy_to_jni_libs: bool },
    /// The build failed.
    Fail,
}

/// The decision after a build: on success, make sure of the hot-reload
/// library and, after a first attempt, copy an Android library into the
/// project; on a first failure with the build cache, retry without it;
/// otherwise fail.
pub fn next_after_build(succeeded: bool, cache_used: bool, is_retry: bool, hot_reload: bool, target: Option<&str>) -> (r: BuildNext)
    ensures
        succeeded ==> r == (BuildNext::Finish {
            ensure_cdylib: hot_reload && target is Some,
            copy_to_jni_libs: !is_retry && android_target(match target { Some(t) => Some(t@), None => None }),
        }),
        !succeeded && cache_used && !is_retry ==> r == BuildNext::RetryWithoutCache,
        !succeeded && !(cache_used && !is_retry) ==> r == BuildNext::Fail,
{
    if succeeded {
        let android = is_android_target(target);
        BuildNext::Finish { ensure_cdylib: hot_reload && target.is_some(), copy_to_jni_libs: !is_retry && android }
    } else if cache_used && !is_retry {
        BuildNext::RetryWithoutCache
    } else {
        BuildNext::Fail
    }
}

/// The directory where cargo keeps a build's intermediate libraries.
pub fn deps_dir(project_dir: &str, target: Option<&str>, release: bool) -> (r: String)
    ensures
        r@ == pushed(pushed(match target {
            Some(t) => pushed(pushed(project_dir@, "target"@), t@),
            None => pushed(project_dir@, "target"@),
        }, if release { "release"@ } else { "debug"@ }), "deps"@),
{
    let mut dir = joined_path(project_dir, "target");
    match target {
        Some(t) => {
            dir = joined_path(dir.as_str(), t);
        },
        None => {},
    }
    let profile = if release { "release" } else { "debug" };
    let p = joined_path(dir.as_str(), profile);
    joined_path(p.as_str(), "deps")
}

/// Whether a file in the deps directory is the package's dynamic library:
/// it starts with `lib` (when the library's file name does) and the package
/// name with underscores, and ends with the library's extension.
pub open spec fn cdylib_match(name: Seq<char>, package: Seq<char>, library_file: Seq<char>) -> bool {
    let ext = seq!['.'] + split(library_file, '.').last();
    let prefix = if starts_with(library_file, "lib"@) { "lib"@ } else { Seq::empty() };
    starts_with(name, prefix + replaced(package, "-"@, "_"@)) && ends_with(name, ext)
}

/// Tells whether a file found among the intermediate libraries is the one
/// to copy to the expected place.
pub fn is_cdylib_artifact(name: &str, package: &str, library_file: &str) -> (r: bool)
    ensures
        r == cdylib_match(name@, package@, library_file@),
{
    proof {
        reveal_strlit("-");
        reveal_strlit("lib");
    }
    let file = chars_of(library_file);
    let pieces = split_chars(&file, '.');
    proof {
        crate::text::lemma_split_nonempty(file@, '.', Seq::empty());
    }
    let mut ext: Vec<char> = Vec::new();
    ext.push('.');
    push_all(&mut ext, &pieces[pieces.len() - 1]);
    let lib = chars_of("lib");
    let mut want: Vec<char> = Vec::new();
    if has_prefix(&file, &lib) {
        push_all(&mut want, &lib);
    }
    let normalized = replace_all(package, "-", "_");
    push_all(&mut want, &chars_of(normalized.as_str()));
    let n = chars_of(name);
    proof {
        assert(ext@ =~= seq!['.'] + split(library_file@, '.').last());
        assert(want@ =~= (if starts_with(library_file@, "lib"@) { "lib"@ } else { Seq::<char>::empty() }) + replaced(package@, "-"@, "_"@));
    }
    has_prefix(&n, &want) && has_suffix(&n, &ext)
}

/// Where an app panicked, as `file:line:column`.
pub fn panic_location_text(file: &str, line: u32, column: u32) -> (r: String)
    ensures
        r@ == file@ + ":"@ + decimal(line as nat) + ":"@ + decimal(column as nat),
{
    let mut r = String::from_str(file);
    r.append(":");
    r.append(decimal_string(line as u64).as_str());
    r.append(":");
    r.append(decimal_string(column as u64).as_str());
    r
}

/// The frames of a panic's backtrace that are shown: its lines, trimmed,
/// without empty ones; none when the backtrace is blank or disabled.
pub open spec fn backtrace_frames_of(backtrace: Seq<char>) -> Option<Seq<Seq<char>>> {
    let t = trimmed(backtrace);
    if t.len() == 0 || t == "disabled backtrace"@ {
        None
    } else {
        Some(nonblank_lines_of(t))
    }
}

/// Reads the frames of a backtrace sent with a panic.
pub fn backtrace_frames(backtrace: &str) -> (r: Option<Vec<String>>)
    ensures
        match backtrace_frames_of(backtrace@) {
            None => r is None,
            Some(f) => r matches Some(v) && views(v@) == f,
        },
{
    let t = trim_str(backtrace);
    if t.unicode_len() == 0 || str_eq(t.as_str(), "disabled backtrace") {
        return None;
    }
    Some(nonblank_lines(t.as_str()))
}

/// Whether a backtrace frame looks like the app's own code: not from the
/// standard library or the panic machinery, and naming a path or a place.
pub open spec fn user_frame(line: Seq<char>) -> bool {
    &&& !contains_seq(line, "std::"@)
    &&& !contains_seq(line, "core::"@)
    &&& !contains_seq(line, "alloc::"@)
    &&& !contains_seq(line, "<unknown>"@)
    &&& !contains_seq(line, "rust_begin_unwind"@)
    &&& (contains_seq(line, "::"@) || contains_seq(line, " at "@))
}

/// Tells whether a backtrace frame is highlighted as the app's own.
pub fn is_user_frame(line: &str) -> (r: bool)
    ensures
        r == user_frame(line@),
{
    !contains_str(line, "std::") && !contains_str(line, "core::") && !contains_str(line, "alloc::")
        && !contains_str(line, "<unknown>") && !contains_str(line, "rust_begin_unwind")
        && (contains_str(line, "::") || contains_str(line, " at "))
}

/// `s` without any number of leading copies of `prefix`.
pub open spec fn without_prefixes(s: Seq<char>, prefix: Seq<char>) -> Seq<char>
    decreases s.len(),
{
    if prefix.len() > 0 && starts_with(s, prefix) {
        without_prefixes(s.skip(prefix.len() as int), prefix)
    } else {
        s
    }
}

/// A log line sent by the app as it is printed: the tracing prefix, the
/// level in brackets, the message without surrounding whitespace and
/// without repeated prefixes, and the target in brackets when there is one.
pub open spec fn remote_log_text(prefix: Seq<char>, level: Seq<char>, message: Seq<char>, target: Seq<char>) -> Seq<char> {
    let m0 = without_prefixes(trimmed(message), prefix);
    let m = m0.skip(leading_ws(m0) as int);
    prefix + " ["@ + level + "] "@ + m + (if target.len() == 0 { Seq::empty() } else { " ("@ + target + ")"@ })
}

/// Formats a log line sent by the app.
pub fn remote_log_line(prefix: &str, level: &str, message: &str, target: Option<&str>) -> (r: String)
    ensures
        r@ == remote_log_text(prefix@, level@, message@, match target { Some(t) => t@, None => Seq::empty() }),
{
    let t = trim_str(message);
    let mut m = chars_of(t.as_str());
    let p = chars_of(prefix);
    while p.len() > 0 && has_prefix(&m, &p)
        invariant
            p@ == prefix@,
            without_prefixes(m@, p@) == without_prefixes(trimmed(message@), prefix@),
        decreases m@.len(),
    {
        let ghost before = m@;
        m = chars_from(&m, p.len());
        assert(m@ == before.skip(p@.len() as int));
    }
    let ghost m0 = m@;
    let mut start: usize = 0;
    while start < m.len() && is_whitespace(m[start])
        invariant
            start <= m@.len(),
            forall|j: int| 0 <= j < start ==> unicode_whitespace(#[trigger] m@[j]),
        decreases m@.len() - start,
    {
        start += 1;
    }
    proof {
        crate::text::lemma_leading_ws_prefix(m@, start as int);
    }
    let rest = chars_from(&m, start);
    let mut r = String::from_str(prefix);
    r.append(" [");
    r.append(level);
    r.append("] ");
    r.append(string_of(&rest).as_str());
    match target {
        Some(tg) => {
            if tg.unicode_len() > 0 {
                r.append(" (");
                r.append(tg);
                r.append(")");
            }
        },
        None => {},
    }
    r
}

/// What happens on the hot-reload connection to a native app.
pub enum SocketEvent {
    /// The app sent a text message.
    Text(String),
    /// The app closed the connection, with a close code if it sent one.
    Close(Option<u16>),
    /// The app pinged.
    Ping(Vec<u8>),
    /// The app sent something else (binary data, a pong, a raw frame).
    Other,
    /// Receiving failed.
    ReceiveError(String),
    /// A rebuilt library is ready; whether it could be read.
    LibraryReady { path: String, read_ok: bool },
    /// Sending the library failed.
    SendError(String),
    /// The web page was rebuilt (nothing to do for a native app).
    WebRebuilt,
    /// The rebuild channel closed.
    ChannelClosed,
    /// Rebuild notices were missed.
    Lagged(u64),
}

/// What the server does in answer.
pub enum SocketAction {
    /// Handle the app's message (a panic report or a log line).
    HandleMessage(String),
    /// Answer a ping.
    Pong(Vec<u8>),
    /// Send the library's bytes.
    SendLibrary(String),
    /// Warn, and go on.
    Warn(String),
    /// Report that the app went away, and stop.
    Disconnected(NativeDisconnectReason),
    /// Do nothing.
    Ignore,
    /// Stop serving this connection.
    Stop,
}

/// The server's answer to each event on a native app's connection.
pub fn socket_step(event: SocketEvent) -> (r: SocketAction)
    ensures
        match event {
            SocketEvent::Text(t) => r matches SocketAction::HandleMessage(m) && m@ == t@,
            SocketEvent::Close(code) => r matches SocketAction::Disconnected(NativeDisconnectReason::Graceful(c)) && c == code,
            SocketEvent::Ping(p) => r matches SocketAction::Pong(q) && q@ == p@,
            SocketEvent::Other => r is Ignore,
            SocketEvent::ReceiveError(e) => r matches SocketAction::Disconnected(NativeDisconnectReason::Abnormal(d)) && d@ == e@,
            SocketEvent::LibraryReady { path, read_ok } => if read_ok {
                r matches SocketAction::SendLibrary(q) && q@ == path@
            } else {
                r matches SocketAction::Warn(w) && w@ == "Failed to read hot reload artifact at "@ + path@
            },
            SocketEvent::SendError(e) => r matches SocketAction::Disconnected(NativeDisconnectReason::Abnormal(d)) && d@ == e@,
            SocketEvent::WebRebuilt => r is Ignore,
            SocketEvent::ChannelClosed => r is Stop,
            SocketEvent::Lagged(n) => r matches SocketAction::Warn(w)
                && w@ == "Missed "@ + decimal(n as nat) + " hot reload updates (CLI lagged behind)"@,
        },
{
    match event {
        SocketEvent::Text(t) => SocketAction::HandleMessage(t),
        SocketEvent::Close(code) => SocketAction::Disconnected(NativeDisconnectReason::Graceful(code)),
        SocketEvent::Ping(p) => SocketAction::Pong(p),
        SocketEvent::Other => SocketAction::Ignore,
        SocketEvent::ReceiveError(e) => SocketAction::Disconnected(NativeDisconnectReason::Abnormal(e)),
        SocketEvent::LibraryReady { path, read_ok } => {
            if read_ok {
                SocketAction::SendLibrary(path)
            } else {
                let mut w = String::from_str("Failed to read hot reload artifact at ");
                w.append(path.as_str());
                SocketAction::Warn(w)
            }
        },
        SocketEvent::SendError(e) => SocketAction::Disconnected(NativeDisconnectReason::Abnormal(e)),
        SocketEvent::WebRebuilt => SocketAction::Ignore,
        SocketEvent::ChannelClosed => SocketAction::Stop,
        SocketEvent::Lagged(n) => {
            let mut w = String::from_str("Missed ");
            w.append(decimal_string(n).as_str());
            w.append(" hot reload updates (CLI lagged behind)");
            SocketAction::Warn(w)
        },
    }
}

/// The lines printed when a platform's toolchain is not ready: a heading,
/// each issue with its trimmed suggestion when it has one, and the hint to
/// run the doctor. Each issue is given by its description and suggestion.
pub open spec fn toolchain_issue_lines(label: Seq<char>, issues: Seq<(Seq<char>, Seq<char>)>) -> Seq<Seq<char>>
    decreases issues.len(),
{
    if issues.len() == 0 {
        seq!["Error: "@ + label + " requirements are not satisfied"@]
    } else {
        let (text, suggestion) = issues.last();
        let t = trimmed(suggestion);
        toolchain_issue_lines(label, issues.drop_last()) + seq!["  • "@ + text]
            + (if t.len() > 0 { seq!["    suggestion: "@ + t] } else { Seq::empty() })
    }
}

/// The report of toolchain issues, with its closing hint.
pub fn toolchain_error_lines(label: &str, issues: &Vec<(String, String)>) -> (r: Vec<String>)
    ensures
        views(r@) == toolchain_issue_lines(label@, issues@.map_values(|i: (String, String)| (i.0@, i.1@)))
            + seq!["  → Run `water doctor` for automatic fixes."@],
{
    let ghost iv = issues@.map_values(|i: (String, String)| (i.0@, i.1@));
    let mut r: Vec<String> = Vec::new();
    let mut head = String::from_str("Error: ");
    head.append(label);
    head.append(" requirements are not satisfied");
    r.push(head);
    let mut i: usize = 0;
    assert(views(r@) =~= toolchain_issue_lines(label@, iv.take(0)));
    while i < issues.len()
        invariant
            iv == issues@.map_values(|i: (String, String)| (i.0@, i.1@)),
            i <= issues@.len(),
            views(r@) == toolchain_issue_lines(label@, iv.take(i as int)),
        decreases issues@.len() - i,
    {
        proof {
            assert(iv.take(i + 1).drop_last() =~= iv.take(i as int));
            assert(iv.take(i + 1).last() == iv[i as int]);
        }
        let ghost before = views(r@);
        let mut item = String::from_str("  • ");
        item.append(issues[i].0.as_str());
        r.push(item);
        let t = trim_str(issues[i].1.as_str());
        if t.unicode_len() > 0 {
            let mut sug = String::from_str("    suggestion: ");
            sug.append(t.as_str());
            r.push(sug);
            assert(views(r@) =~= before + seq!["  • "@ + iv[i as int].0] + seq!["    suggestion: "@ + trimmed(iv[i as int].1)]);
        } else {
            assert(views(r@) =~= before + seq!["  • "@ + iv[i as int].0] + Seq::<Seq<char>>::empty());
        }
        i += 1;
    }
    assert(iv.take(i as int) =~= iv);
    let ghost body = views(r@);
    r.push(String::from_str("  → Run `water doctor` for automatic fixes."));
    assert(views(r@) =~= body + seq!["  → Run `water doctor` for automatic fixes."@]);
    r
}

/// The directories watched for changes during hot reload: the crate's
/// sources, then each extra path from the project's configuration.
pub fn hot_reload_watch_paths(project_dir: &str, extra: &Vec<String>) -> (r: Vec<String>)
    ensures
        views(r@) == seq![pushed(project_dir@, "src"@)] + views(extra@).map_values(|p: Seq<char>| pushed(project_dir@, p)),
{
    let mut r: Vec<String> = Vec::new();
    r.push(joined_path(project_dir, "src"));
    let mut i: usize = 0;
    while i < extra.len()
        invariant
            i <= extra@.len(),
            views(r@) == seq![pushed(project_dir@, "src"@)] + views(extra@).take(i as int).map_values(|p: Seq<char>| pushed(project_dir@, p)),
        decreases extra@.len() - i,
    {
        let ghost before = views(r@);
        let entry = joined_path(project_dir, extra[i].as_str());
        assert(entry@ == pushed(project_dir@, views(extra@)[i as int]));
        r.push(entry);
        assert(views(r@) =~= before.push(entry@));
        assert(views(extra@).take(i + 1) =~= views(extra@).take(i as int).push(views(extra@)[i as int]));
        i += 1;
        assert(views(r@) =~= seq![pushed(project_dir@, "src"@)] + views(extra@).take(i as int).map_values(|p: Seq<char>| pushed(project_dir@, p)));
    }
    assert(views(extra@).take(i as int) =~= views(extra@));
    r
}

/// The web page's script with the hot-reload server's port filled in.
pub fn inject_hot_reload_port(main_js: &str, port: u16) -> (r: String)
    ensures
        r@ == replaced(main_js@, "__HOT_RELOAD_PORT__"@, decimal(port as nat)),
{
    proof {
        reveal_strlit("__HOT_RELOAD_PORT__");
    }
    let digits = decimal_string(port as u64);
    replace_all(main_js, "__HOT_RELOAD_PORT__", digits.as_str())
}

/// The arguments of `wasm-pack` that build the web app into `pkg`.
pub fn wasm_pack_args(web_dir: &str, release: bool) -> (r: Vec<String>)
    ensures
        views(r@) == seq!["build"@, "--target"@, "web"@, "--out-dir"@, pushed(web_dir@, "pkg"@), "--out-name"@, "app"@,
            if release { "--release"@ } else { "--dev"@ }],
{
    let mut r: Vec<String> = Vec::new();
    r.push(String::from_str("build"));
    r.push(String::from_str("--target"));
    r.push(String::from_str("web"));
    r.push(String::from_str("--out-dir"));
    r.push(joined_path(web_dir, "pkg"));
    r.push(String::from_str("--out-name"));
    r.push(String::from_str("app"));
    r.push(String::from_str(if release { "--release" } else { "--dev" }));
    assert(views(r@) =~= seq!["build"@, "--target"@, "web"@, "--out-dir"@, pushed(web_dir@, "pkg"@), "--out-name"@, "app"@,
        if release { "--release"@ } else { "--dev"@ }]);
    r
}

/// Where cargo leaves the web build's WebAssembly module.
pub fn wasm_artifact(target_dir: &str, crate_name: &str, release: bool) -> (r: String)
    ensures
        r@ == pushed(pushed(pushed(target_dir@, "wasm32-unknown-unknown"@), if release { "release"@ } else { "debug"@ }),
            replaced(crate_name@, "-"@, "_"@) + ".wasm"@),
{
    proof {
        reveal_strlit("-");
    }
    let a = joined_path(target_dir, "wasm32-unknown-unknown");
    let b = joined_path(a.as_str(), if release { "release" } else { "debug" });
    let mut file = replace_all(crate_name, "-", "_");
    file.append(".wasm");
    joined_path(b.as_str(), file.as_str())
}

/// Whether a build uses sccache as its compiler wrapper.
pub enum SccacheChoice {
    /// Set `RUSTC_WRAPPER` to the sccache found at this path.
    Use(String),
    /// Go without the build cache, warning as told.
    Skip(String),
}

/// Chooses the build cache when it is wanted: not when another compiler
/// wrapper is set, and only when sccache is found.
pub fn sccache_choice(wrapper_set: bool, sccache: Option<String>) -> (r: SccacheChoice)
    ensures
        wrapper_set ==> (r matches SccacheChoice::Skip(w) && w@ == "RUSTC_WRAPPER already set; not overriding with sccache"@),
        !wrapper_set && sccache is None ==> (r matches SccacheChoice::Skip(w) && w@ == "`sccache` not found on PATH; proceeding without build cache"@),
        !wrapper_set && sccache is Some ==> (r matches SccacheChoice::Use(p) && Some(p@) == opt_text(sccache)),
{
    if wrapper_set {
        return SccacheChoice::Skip(String::from_str("RUSTC_WRAPPER already set; not overriding with sccache"));
    }
    match sccache {
        Some(p) => SccacheChoice::Use(p),
        None => SccacheChoice::Skip(String::from_str("`sccache` not found on PATH; proceeding without build cache")),
    }
}

/// The installed Rust targets from `rustup target list --installed`: its
/// lines, trimmed, without empty ones.
pub fn installed_rust_targets(output: &str) -> (r: Vec<String>)
    ensures
        views(r@) == nonblank_lines_of(output@),
{
    nonblank_lines(output)
}

/// Whether the listing of installed targets names `target` as the first
/// word of one of its lines.
pub open spec fn target_listed(output: Seq<char>, target: Seq<char>) -> bool {
    exists|i: int| 0 <= i < lines(output).len() && tokens(lines(output)[i]).len() > 0
        && #[trigger] tokens(lines(output)[i])[0] == target
}

/// Tells whether a Rust target is installed, from the listing of installed
/// targets.
pub fn rust_target_listed(output: &str, target: &str) -> (r: bool)
    ensures
        r == target_listed(output@, target@),
{
    let chars = chars_of(output);
    let ls = split_lines(&chars);
    let ghost lv = vviews(ls@);
    let mut i: usize = 0;
    while i < ls.len()
        invariant
            lv == vviews(ls@),
            lv == lines(output@),
            i <= lv.len(),
            forall|j: int| 0 <= j < i ==> !(tokens(lv[j]).len() > 0 && #[trigger] tokens(lv[j])[0] == target@),
        decreases lv.len() - i,
    {
        let words = split_whitespace(ls[i].as_slice());
        assert(vviews(words@) == tokens(lv[i as int]));
        if words.len() > 0 && str_eq(string_of(&words[0]).as_str(), target) {
            assert(tokens(lv[i as int])[0] == target@);
            return true;
        }
        i += 1;
    }
    false
}

/// Where the macOS build puts the app bundle, and the executable inside it.
pub fn macos_app_paths(derived_root: &str, configuration: &str, scheme: &str) -> (r: (String, String))
    ensures
        r.0@ == pushed(pushed(derived_root@, "Build/Products/"@ + configuration@), scheme@ + ".app"@),
        r.1@ == pushed(pushed(r.0@, "Contents/MacOS"@), scheme@),
{
    let mut dir = String::from_str("Build/Products/");
    dir.append(configuration);
    let products = joined_path(derived_root, dir.as_str());
    let mut name = String::from_str(scheme);
    name.append(".app");
    let bundle = joined_path(products.as_str(), name.as_str());
    let contents = joined_path(bundle.as_str(), "Contents/MacOS");
    let exe = joined_path(contents.as_str(), scheme);
    (bundle, exe)
}

/// The value `RUSTFLAGS` has after a set of environment changes: the one
/// they set last, if the last change is to it, otherwise the old value.
pub open spec fn rustflags_after(rustflags: Seq<char>, set: Seq<(Seq<char>, Seq<char>)>) -> Seq<char> {
    if set.len() > 0 && set.last().0 == "RUSTFLAGS"@ { set.last().1 } else { rustflags }
}

proof fn lemma_hot_reload_cfg_plain()
    ensures
        plain_token(hot_reload_cfg()),
{
    reveal_strlit("--cfg=waterui_hot_reload_lib");
}

/// Switching hot reload on leaves its flag among the `RUSTFLAGS` tokens, so
/// switching it on again changes no `RUSTFLAGS`: the second time only the
/// switch, the host and the port are set.
pub proof fn lemma_hot_reload_on_twice(
    port: Option<u16>,
    rustflags: Seq<char>,
    set: Seq<(Seq<char>, Seq<char>)>,
    remove: Seq<Seq<char>>,
    set2: Seq<(Seq<char>, Seq<char>)>,
    remove2: Seq<Seq<char>>,
)
    requires
        hot_reload_env(true, port, rustflags, set, remove),
        hot_reload_env(true, port, rustflags_after(rustflags, set), set2, remove2),
    ensures
        tokens(rustflags_after(rustflags, set)).contains(hot_reload_cfg()),
        set2 == seq![("WATERUI_ENABLE_HOT_RELOAD"@, "1"@), ("WATERUI_HOT_RELOAD_HOST"@, "127.0.0.1"@)]
            + (match port { Some(p) => seq![("WATERUI_HOT_RELOAD_PORT"@, decimal(p as nat))], None => Seq::empty() }),
        remove2.len() == 0,
{
    reveal_strlit("RUSTFLAGS");
    reveal_strlit("WATERUI_HOT_RELOAD_HOST");
    reveal_strlit("WATERUI_HOT_RELOAD_PORT");
    let flags = tokens(rustflags);
    let base: Seq<(Seq<char>, Seq<char>)> = seq![("WATERUI_ENABLE_HOT_RELOAD"@, "1"@), ("WATERUI_HOT_RELOAD_HOST"@, "127.0.0.1"@)]
        + (match port { Some(p) => seq![("WATERUI_HOT_RELOAD_PORT"@, decimal(p as nat))], None => Seq::empty() });
    if flags.contains(hot_reload_cfg()) {
        assert(set =~= base);
        match port {
            Some(p) => {
                assert(set.last().0 == "WATERUI_HOT_RELOAD_PORT"@);
                assert("WATERUI_HOT_RELOAD_PORT"@.len() != "RUSTFLAGS"@.len());
            },
            None => {
                assert(set.last().0 == "WATERUI_HOT_RELOAD_HOST"@);
                assert("WATERUI_HOT_RELOAD_HOST"@.len() != "RUSTFLAGS"@.len());
            },
        }
        assert(set.last().0 != "RUSTFLAGS"@);
        assert(rustflags_after(rustflags, set) == rustflags);
    } else {
        let added = flags.push(hot_reload_cfg());
        assert(set =~= base + seq![("RUSTFLAGS"@, joined(added, " "@))]);
        assert(rustflags_after(rustflags, set) == joined(added, " "@));
        lemma_tokens_from_plain(rustflags, Seq::empty());
        lemma_hot_reload_cfg_plain();
        assert forall|k: int| 0 <= k < added.len() implies plain_token(#[trigger] added[k]) by {
            if k < flags.len() {
                assert(added[k] == flags[k]);
            }
        }
        lemma_tokens_of_joined(added);
        assert(added[added.len() - 1] == hot_reload_cfg());
    }
    assert(set2 =~= base + Seq::<(Seq<char>, Seq<char>)>::empty());
}

/// Switching hot reload off takes every copy of its flag out of
/// `RUSTFLAGS`.
pub proof fn lemma_hot_reload_off_removes_flag(
    port: Option<u16>,
    rustflags: Seq<char>,
    set: Seq<(Seq<char>, Seq<char>)>,
    remove: Seq<Seq<char>>,
)
    requires
        hot_reload_env(false, port, rustflags, set, remove),
    ensures
        !tokens(rustflags_after(rustflags, set)).contains(hot_reload_cfg()),
{
    let flags = tokens(rustflags);
    let kept = flags.filter(|f: Seq<char>| f != hot_reload_cfg());
    assert(rustflags_after(rustflags, set) == joined(kept, " "@));
    lemma_tokens_from_plain(rustflags, Seq::empty());
    assert forall|k: int| 0 <= k < kept.len() implies plain_token(#[trigger] kept[k]) by {
        assert(kept.contains(kept[k]));
        flags.lemma_filter_contains_rev(|f: Seq<char>| f != hot_reload_cfg(), kept[k]);
    }
    lemma_tokens_of_joined(kept);
    if kept.contains(hot_reload_cfg()) {
        let k = choose|k: int| 0 <= k < kept.len() && kept[k] == hot_reload_cfg();
        flags.lemma_filter_pred(|f: Seq<char>| f != hot_reload_cfg(), k);
    }
}

/// Asking for mold on flags it just produced changes nothing: the flags it
/// adds are recognised as already there.
pub proof fn lemma_mold_added_once(rustflags: Seq<char>)
    ensures
        has_mold_flags(tokens(joined(tokens(rustflags).push("-C"@).push("link-arg=-fuse-ld=mold"@), " "@))),
{
    reveal_strlit("-C");
    reveal_strlit("link-arg=-fuse-ld=mold");
    let flags = tokens(rustflags);
    let added = flags.push("-C"@).push("link-arg=-fuse-ld=mold"@);
    lemma_tokens_from_plain(rustflags, Seq::empty());
    assert(plain_token("-C"@));
    assert(plain_token("link-arg=-fuse-ld=mold"@));
    assert forall|k: int| 0 <= k < added.len() implies plain_token(#[trigger] added[k]) by {
        if k < flags.len() {
            assert(added[k] == flags[k]);
        }
    }
    lemma_tokens_of_joined(added);
    let i = added.len() - 2;
    assert(added[i] == "-C"@ && added[i + 1] == "link-arg=-fuse-ld=mold"@);
}

} // verus!
