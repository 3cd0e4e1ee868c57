//! Android toolchain rules: the Rust targets the tool builds for, device ABI
//! matching, NDK tool names, package-name sanitising and JVM flags.

use vstd::prelude::*;
use crate::paths::{pushed, push_path};
use crate::run::{ascii_upper, to_ascii_uppercase};
use crate::templates::pair_views;
use crate::text::{replace_all, replaced, lemma_filter_nonempty_all, lemma_tokens_around, lemma_tokens_single, lemma_trimmed_idempotent, lemma_trimmed_plain, leading_ws, trailing_ws, unicode_whitespace, lemma_split_joined, lines, split_lines, chars_of, decimal, decimal_chars, is_alphanumeric, join, joined, keep_nonempty, nonempty_pieces, push_all, same_chars, split, split_chars, split_whitespace, str_eq, string_of, tokens, trim_chars, trimmed, unicode_alphanumeric, views, vviews};

verus! {

/// A Rust target the Android build supports.
pub struct AndroidTargetConfig {
    /// The Rust target triple.
    pub triple: String,
    /// The prefix of the NDK compiler names for this target.
    pub bin_prefix: String,
    /// The lowest Android API level the target supports.
    pub min_api: u32,
}

impl AndroidTargetConfig {
    /// The target as plain values: triple, NDK prefix and lowest API level.
    pub open spec fn view_tuple(&self) -> (Seq<char>, Seq<char>, u32) {
        (self.triple@, self.bin_prefix@, self.min_api)
    }
}

/// The supported target with the given triple, if any.
pub open spec fn target_spec(triple: Seq<char>) -> Option<(Seq<char>, Seq<char>, u32)> {
    if triple == "aarch64-linux-android"@ {
        Some(("aarch64-linux-android"@, "aarch64-linux-android"@, 21))
    } else if triple == "x86_64-linux-android"@ {
        Some(("x86_64-linux-android"@, "x86_64-linux-android"@, 21))
    } else if triple == "armv7-linux-androideabi"@ {
        Some(("armv7-linux-androideabi"@, "armv7a-linux-androideabi"@, 19))
    } else if triple == "i686-linux-android"@ {
        Some(("i686-linux-android"@, "i686-linux-android"@, 19))
    } else {
        None
    }
}

/// The target triple that serves a device ABI, if the ABI is supported.
pub open spec fn abi_triple(abi: Seq<char>) -> Option<Seq<char>> {
    if abi == "arm64-v8a"@ || abi == "arm64"@ {
        Some("aarch64-linux-android"@)
    } else if abi == "armeabi-v7a"@ || abi == "armeabi"@ {
        Some("armv7-linux-androideabi"@)
    } else if abi == "x86_64"@ {
        Some("x86_64-linux-android"@)
    } else if abi == "x86"@ {
        Some("i686-linux-android"@)
    } else {
        None
    }
}

fn make_target(triple: &str, bin_prefix: &str, min_api: u32) -> (t: AndroidTargetConfig)
    ensures
        t.view_tuple() == (triple@, bin_prefix@, min_api),
{
    AndroidTargetConfig { triple: String::from_str(triple), bin_prefix: String::from_str(bin_prefix), min_api }
}

/// Looks up a supported target by its triple.
pub fn target_by_triple(triple: &str) -> (r: Option<AndroidTargetConfig>)
    ensures
        r matches Some(t) ==> target_spec(triple@) == Some(t.view_tuple()),
        r is None ==> target_spec(triple@) is None,
{
    if str_eq(triple, "aarch64-linux-android") {
        Some(make_target("aarch64-linux-android", "aarch64-linux-android", 21))
    } else if str_eq(triple, "x86_64-linux-android") {
        Some(make_target("x86_64-linux-android", "x86_64-linux-android", 21))
    } else if str_eq(triple, "armv7-linux-androideabi") {
        Some(make_target("armv7-linux-androideabi", "armv7a-linux-androideabi", 19))
    } else if str_eq(triple, "i686-linux-android") {
        Some(make_target("i686-linux-android", "i686-linux-android", 19))
    } else {
        None
    }
}

/// The triple that serves a device ABI.
pub fn abi_target_triple(abi: &str) -> (r: Option<String>)
    ensures
        r matches Some(t) ==> abi_triple(abi@) == Some(t@),
        r is None ==> abi_triple(abi@) is None,
{
    if str_eq(abi, "arm64-v8a") || str_eq(abi, "arm64") {
        Some(String::from_str("aarch64-linux-android"))
    } else if str_eq(abi, "armeabi-v7a") || str_eq(abi, "armeabi") {
        Some(String::from_str("armv7-linux-androideabi"))
    } else if str_eq(abi, "x86_64") {
        Some(String::from_str("x86_64-linux-android"))
    } else if str_eq(abi, "x86") {
        Some(String::from_str("i686-linux-android"))
    } else {
        None
    }
}

/// The supported target that serves a device ABI.
pub fn target_for_abi(abi: &str) -> (r: Option<AndroidTargetConfig>)
    ensures
        r matches Some(t) ==> (abi_triple(abi@) matches Some(tr) && target_spec(tr) == Some(t.view_tuple())),
        r is None ==> abi_triple(abi@) is None,
{
    match abi_target_triple(abi) {
        None => None,
        Some(t) => {
            let r = target_by_triple(t.as_str());
            proof {
                reveal_strlit("aarch64-linux-android");
                reveal_strlit("x86_64-linux-android");
                reveal_strlit("armv7-linux-androideabi");
                reveal_strlit("i686-linux-android");
            }
            r
        },
    }
}

/// The triples for a device's ABI list, most preferred first: each supported
/// ABI contributes its triple the first time that triple appears.
pub open spec fn preferred_triples(abis: Seq<Seq<char>>) -> Seq<Seq<char>>
    decreases abis.len(),
{
    if abis.len() == 0 {
        Seq::empty()
    } else {
        let earlier = preferred_triples(abis.drop_last());
        match abi_triple(abis.last()) {
            Some(t) => if earlier.contains(t) { earlier } else { earlier.push(t) },
            None => earlier,
        }
    }
}

/// Why no build target could be chosen for a device.
pub enum PreferredTargetsError {
    /// The device reported no ABI.
    NoAbi,
    /// None of the reported ABIs (listed, joined by ", ") is supported.
    Unsupported(String),
}

fn contains_string(v: &Vec<String>, s: &str) -> (b: bool)
    ensures
        b == views(v@).contains(s@),
{
    let mut i: usize = 0;
    while i < v.len()
        invariant
            i <= v@.len(),
            forall|j: int| 0 <= j < i ==> views(v@)[j] != s@,
        decreases v@.len() - i,
    {
        if str_eq(v[i].as_str(), s) {
            assert(views(v@)[i as int] == s@);
            return true;
        }
        i += 1;
    }
    false
}

/// The Rust targets to build for a device, from the ABIs it reports.
///
/// Fails when the device reports no ABI, or when none of them is supported.
pub fn device_preferred_targets(abis: &Vec<String>) -> (r: Result<Vec<String>, PreferredTargetsError>)
    ensures
        abis@.len() == 0 ==> r matches Err(PreferredTargetsError::NoAbi),
        abis@.len() > 0 && preferred_triples(views(abis@)).len() == 0 ==> (r matches Err(PreferredTargetsError::Unsupported(m))
            && m@ == joined(views(abis@), ", "@)),
        preferred_triples(views(abis@)).len() > 0 ==> (r matches Ok(v) && views(v@) == preferred_triples(views(abis@))),
{
    if abis.len() == 0 {
        return Err(PreferredTargetsError::NoAbi);
    }
    let mut targets: Vec<String> = Vec::new();
    let mut i: usize = 0;
    while i < abis.len()
        invariant
            i <= abis@.len(),
            views(targets@) == preferred_triples(views(abis@).take(i as int)),
        decreases abis@.len() - i,
    {
        proof {
            assert(views(abis@).take(i + 1).drop_last() =~= views(abis@).take(i as int));
            assert(views(abis@).take(i + 1).last() == abis@[i as int]@);
        }
        match abi_target_triple(abis[i].as_str()) {
            Some(t) => {
                if !contains_string(&targets, t.as_str()) {
                    let ghost before = views(targets@);
                    targets.push(t);
                    assert(views(targets@) =~= before.push(t@));
                }
            },
            None => {},
        }
        i += 1;
    }
    assert(views(abis@).take(abis@.len() as int) =~= views(abis@));
    if targets.len() == 0 {
        return Err(PreferredTargetsError::Unsupported(join(abis, ", ")));
    }
    Ok(targets)
}

/// The ABIs listed in the output of `getprop`: the trimmed output split at
/// commas, each entry trimmed, empty entries dropped.
pub open spec fn abi_list(output: Seq<char>) -> Seq<Seq<char>> {
    split(trimmed(output), ',').map_values(|p: Seq<char>| trimmed(p)).filter(|p: Seq<char>| p.len() > 0)
}

/// Parses the ABI list a device reports for one property.
pub fn parse_abi_list(output: &str) -> (r: Vec<String>)
    ensures
        views(r@) == abi_list(output@),
{
    let chars = chars_of(output);
    let trimmed_output = trim_chars(&chars);
    let pieces = split_chars(&trimmed_output, ',');
    let mut trimmed_pieces: Vec<Vec<char>> = Vec::new();
    let mut i: usize = 0;
    while i < pieces.len()
        invariant
            i <= pieces@.len(),
            trimmed_pieces@.len() == i,
            forall|j: int| 0 <= j < i ==> (#[trigger] trimmed_pieces@[j])@ == trimmed(pieces@[j]@),
        decreases pieces@.len() - i,
    {
        trimmed_pieces.push(trim_chars(&pieces[i]));
        i += 1;
    }
    assert(vviews(trimmed_pieces@) =~= vviews(pieces@).map_values(|p: Seq<char>| trimmed(p)));
    let kept = keep_nonempty(trimmed_pieces);
    let mut r: Vec<String> = Vec::new();
    let mut k: usize = 0;
    while k < kept.len()
        invariant
            k <= kept@.len(),
            r@.len() == k,
            forall|j: int| 0 <= j < k ==> (#[trigger] r@[j])@ == kept@[j]@,
        decreases kept@.len() - k,
    {
        r.push(string_of(&kept[k]));
        k += 1;
    }
    assert(views(r@) =~= vviews(kept@));
    r
}

/// One character of a sanitised package name: ASCII letters lowercased,
/// digits and underscores kept, non-ASCII Unicode alphanumerics kept, a
/// hyphen or any other character turned into an underscore. (The ASCII
/// alphanumerics are exactly the ASCII letters and digits, so no other ASCII
/// character is alphanumeric.)
pub open spec fn sanitized_char(c: char) -> char {
    if ('a' <= c && c <= 'z') || ('0' <= c && c <= '9') {
        c
    } else if 'A' <= c && c <= 'Z' {
        ((c as int) + 32) as char
    } else if c == '_' || c == '-' {
        '_'
    } else if (c as int) >= 128 && unicode_alphanumeric(c) {
        c
    } else {
        '_'
    }
}

/// Whether a segment may start a Java package segment as it stands.
pub open spec fn valid_segment_start(c: char) -> bool {
    ('a' <= c && c <= 'z') || ('A' <= c && c <= 'Z') || c == '_'
}

/// A non-empty segment of the package name, sanitised; an `a` is prepended
/// when it would not start with a letter or underscore.
pub open spec fn sanitized_segment(raw: Seq<char>) -> Seq<char> {
    let seg = raw.map_values(|c: char| sanitized_char(c));
    if valid_segment_start(seg[0]) { seg } else { seq!['a'] + seg }
}

/// The Java package name for a bundle identifier: its non-empty dot-separated
/// segments sanitised and rejoined with dots, or `com.waterui.app` when
/// there are none.
pub open spec fn sanitized_package(input: Seq<char>) -> Seq<char> {
    let segs = nonempty_pieces(input, '.');
    if segs.len() == 0 {
        "com.waterui.app"@
    } else {
        joined(segs.map_values(|r: Seq<char>| sanitized_segment(r)), "."@)
    }
}

fn sanitize_char(c: char) -> (r: char)
    ensures
        r == sanitized_char(c),
{
    if ('a' <= c && c <= 'z') || ('0' <= c && c <= '9') {
        c
    } else if 'A' <= c && c <= 'Z' {
        let lower = ((c as u32) + 32) as u8;
        assert(lower == (c as int) + 32);
        lower as char
    } else if c == '_' || c == '-' {
        '_'
    } else if (c as u32) >= 128 && is_alphanumeric(c) {
        c
    } else {
        '_'
    }
}

fn sanitize_segment(raw: &Vec<char>) -> (r: String)
    requires
        raw@.len() > 0,
    ensures
        r@ == sanitized_segment(raw@),
{
    let mut seg: Vec<char> = Vec::new();
    let mut i: usize = 0;
    while i < raw.len()
        invariant
            i <= raw@.len(),
            seg@ == raw@.take(i as int).map_values(|c: char| sanitized_char(c)),
        decreases raw@.len() - i,
    {
        seg.push(sanitize_char(raw[i]));
        i += 1;
        assert(seg@ =~= raw@.take(i as int).map_values(|c: char| sanitized_char(c)));
    }
    assert(raw@.take(i as int) =~= raw@);
    let first = seg[0];
    if ('a' <= first && first <= 'z') || ('A' <= first && first <= 'Z') || first == '_' {
        string_of(&seg)
    } else {
        let mut out: Vec<char> = Vec::new();
        out.push('a');
        push_all(&mut out, &seg);
        assert(out@ =~= seq!['a'] + seg@);
        string_of(&out)
    }
}

/// Turns a bundle identifier into a valid Java package name.
pub fn sanitize_package_name(input: &str) -> (r: String)
    ensures
        r@ == sanitized_package(input@),
{
    let chars = chars_of(input);
    let pieces = split_chars(&chars, '.');
    let segs = keep_nonempty(pieces);
    if segs.len() == 0 {
        return String::from_str("com.waterui.app");
    }
    let ghost sv = vviews(segs@);
    let mut parts: Vec<String> = Vec::new();
    let mut i: usize = 0;
    while i < segs.len()
        invariant
            sv == vviews(segs@),
            forall|j: int| 0 <= j < sv.len() ==> (#[trigger] sv[j]).len() > 0,
            i <= segs@.len(),
            parts@.len() == i,
            forall|j: int| 0 <= j < i ==> (#[trigger] parts@[j])@ == sanitized_segment(sv[j]),
        decreases segs@.len() - i,
    {
        assert(segs@[i as int]@ == sv[i as int]);
        parts.push(sanitize_segment(&segs[i]));
        i += 1;
    }
    assert(views(parts@) =~= sv.map_values(|r: Seq<char>| sanitized_segment(r)));
    join(&parts, ".")
}

/// The API levels tried when looking for NDK compilers: from the highest
/// known level, 35, down to `min_api`.
pub open spec fn api_levels(min_api: u32) -> Seq<u32> {
    if min_api > 35 {
        Seq::empty()
    } else {
        Seq::new((36 - min_api) as nat, |i: int| (35 - i) as u32)
    }
}

/// The API levels to try, highest first.
pub fn api_level_candidates(min_api: u32) -> (r: Vec<u32>)
    ensures
        r@ == api_levels(min_api),
{
    let mut r: Vec<u32> = Vec::new();
    if min_api > 35 {
        return r;
    }
    let count: u32 = 36 - min_api;
    for k in 0..count
        invariant
            count == 36 - min_api,
            r@.len() == k,
            forall|j: int| 0 <= j < r@.len() ==> r@[j] == 35 - j,
    {
        r.push(35 - k);
    }
    assert(r@ =~= api_levels(min_api));
    r
}

/// The NDK file name of a tool for a target at an API level, such as
/// `aarch64-linux-android21-clang`.
pub open spec fn versioned_tool_name(bin_prefix: Seq<char>, level: u32, tool: Seq<char>) -> Seq<char> {
    bin_prefix + decimal(level as nat) + "-"@ + tool
}

/// The unversioned NDK file name of a tool, such as `aarch64-linux-android-clang`.
pub open spec fn plain_tool_name(bin_prefix: Seq<char>, tool: Seq<char>) -> Seq<char> {
    bin_prefix + "-"@ + tool
}

/// The paths probed for an NDK tool, in order: one per API level, then the
/// unversioned name, all inside the toolchain's `bin` directory.
pub open spec fn tool_candidates(bin_dir: Seq<char>, bin_prefix: Seq<char>, levels: Seq<u32>, tool: Seq<char>) -> Seq<Seq<char>> {
    Seq::new(levels.len() + 1, |i: int| if i < levels.len() {
        pushed(bin_dir, versioned_tool_name(bin_prefix, levels[i], tool))
    } else {
        pushed(bin_dir, plain_tool_name(bin_prefix, tool))
    })
}

fn joined_path(dir: &str, name: &Vec<char>) -> (r: String)
    ensures
        r@ == pushed(dir@, name@),
{
    let mut buf = chars_of(dir);
    push_path(&mut buf, name);
    string_of(&buf)
}

/// The candidate paths of an NDK tool, in the order they are probed.
pub fn find_tool_candidates(toolchain_bin: &str, target: &AndroidTargetConfig, api_levels: &Vec<u32>, tool: &str) -> (r: Vec<String>)
    ensures
        views(r@) == tool_candidates(toolchain_bin@, target.bin_prefix@, api_levels@, tool@),
{
    proof {
        reveal_strlit("-");
    }
    let mut r: Vec<String> = Vec::new();
    let mut i: usize = 0;
    while i < api_levels.len()
        invariant
            i <= api_levels@.len(),
            r@.len() == i,
            forall|j: int| 0 <= j < i ==> (#[trigger] r@[j])@ == pushed(toolchain_bin@, versioned_tool_name(target.bin_prefix@, api_levels@[j], tool@)),
        decreases api_levels@.len() - i,
    {
        let level = api_levels[i];
        proof {
            reveal_strlit("-");
        }
        let mut name = chars_of(target.bin_prefix.as_str());
        let digits = decimal_chars(level as u64);
        assert(digits@ == decimal(level as nat));
        push_all(&mut name, &digits);
        name.push('-');
        let tool_chars = chars_of(tool);
        push_all(&mut name, &tool_chars);
        assert(name@ =~= target.bin_prefix@ + decimal(level as nat) + seq!['-'] + tool@);
        assert(name@ =~= versioned_tool_name(target.bin_prefix@, api_levels@[i as int], tool@));
        r.push(joined_path(toolchain_bin, &name));
        i += 1;
    }
    let mut name = chars_of(target.bin_prefix.as_str());
    name.push('-');
    let tool_chars = chars_of(tool);
    push_all(&mut name, &tool_chars);
    assert(name@ =~= plain_tool_name(target.bin_prefix@, tool@));
    r.push(joined_path(toolchain_bin, &name));
    assert(views(r@) =~= tool_candidates(toolchain_bin@, target.bin_prefix@, api_levels@, tool@));
    r
}

/// The value of a JVM options variable after making sure it holds `flag`:
/// the trimmed current value if one of its tokens already is the flag, the
/// flag alone if there is no current value or it is blank, and otherwise the
/// trimmed value followed by a space and the flag.
pub open spec fn with_jvm_flag(existing: Option<Seq<char>>, flag: Seq<char>) -> Seq<char> {
    match existing {
        None => flag,
        Some(cur) => {
            let t = trimmed(cur);
            if tokens(t).contains(flag) {
                t
            } else if t.len() == 0 {
                flag
            } else {
                t + " "@ + flag
            }
        },
    }
}

/// Adding a flag that holds no whitespace to a JVM options value a second
/// time changes nothing: the flag is then already one of the value's tokens.
pub proof fn lemma_jvm_flag_idempotent(existing: Option<Seq<char>>, flag: Seq<char>)
    requires
        forall|i: int| 0 <= i < flag.len() ==> !unicode_whitespace(#[trigger] flag[i]),
    ensures
        with_jvm_flag(Some(with_jvm_flag(existing, flag)), flag) == with_jvm_flag(existing, flag),
{
    let r = with_jvm_flag(existing, flag);
    if flag.len() > 0 {
        assert(!unicode_whitespace(flag[0]) && !unicode_whitespace(flag.last()));
        lemma_tokens_single(flag, Seq::empty());
        assert(Seq::<char>::empty() + flag =~= flag);
        assert(tokens(flag)[0] == flag);
    }
    lemma_trimmed_plain(flag);
    match existing {
        None => {}
        Some(cur) => {
            let t = trimmed(cur);
            lemma_trimmed_idempotent(cur);
            if tokens(t).contains(flag) {
            } else if t.len() == 0 {
            } else {
                reveal_strlit(" ");
                assert(unicode_whitespace(' '));
                assert(r == t + seq![' '] + flag);
                if flag.len() > 0 {
                    assert(r[0] == t[0]);
                    assert(r.last() == flag.last());
                    lemma_trimmed_plain(r);
                    lemma_tokens_around(t, ' ', flag, Seq::empty());
                    assert(tokens(r) == tokens(t) + tokens(flag));
                    assert(tokens(r)[tokens(t).len() as int] == flag);
                } else {
                    assert(r =~= t.push(' '));
                    assert(r.last() == ' ');
                    assert(r.drop_last() =~= t);
                    assert(r[0] == t[0]);
                    assert(leading_ws(r) == 0);
                    assert(trailing_ws(t) == 0);
                    assert(trailing_ws(r) == 1);
                    assert(trimmed(r) =~= t);
                }
            }
        },
    }
}

/// The JVM flag that makes Gradle and the JVMs it starts prefer IPv4.
pub open spec fn ipv4_jvm_flag() -> Seq<char> {
    "-Djava.net.preferIPv4Stack=true"@
}

/// The JVM options Gradle runs with: `GRADLE_OPTS` and `JAVA_TOOL_OPTIONS`,
/// each the current value with the IPv4 flag added unless already there.
pub open spec fn gradle_jvm_vars(gradle_opts: Option<Seq<char>>, java_tool_options: Option<Seq<char>>) -> Seq<(Seq<char>, Seq<char>)> {
    seq![
        ("GRADLE_OPTS"@, with_jvm_flag(gradle_opts, ipv4_jvm_flag())),
        ("JAVA_TOOL_OPTIONS"@, with_jvm_flag(java_tool_options, ipv4_jvm_flag())),
    ]
}

/// The environment variables the Gradle build of an Android app sets, from
/// the current values of `GRADLE_OPTS` and `JAVA_TOOL_OPTIONS`.
pub fn gradle_jvm_env(gradle_opts: Option<String>, java_tool_options: Option<String>) -> (r: Vec<(String, String)>)
    ensures
        pair_views(r@) == gradle_jvm_vars(crate::backend::opt_text(gradle_opts), crate::backend::opt_text(java_tool_options)),
{
    let ghost g = crate::backend::opt_text(gradle_opts);
    let ghost j = crate::backend::opt_text(java_tool_options);
    let flag = "-Djava.net.preferIPv4Stack=true";
    let mut r: Vec<(String, String)> = Vec::new();
    r.push((String::from_str("GRADLE_OPTS"), ensure_jvm_flag(gradle_opts, flag)));
    r.push((String::from_str("JAVA_TOOL_OPTIONS"), ensure_jvm_flag(java_tool_options, flag)));
    assert(pair_views(r@) =~= gradle_jvm_vars(g, j));
    r
}

/// Adds a flag to a JVM options value unless it is already there.
pub fn ensure_jvm_flag(existing: Option<String>, flag: &str) -> (r: String)
    ensures
        r@ == with_jvm_flag(match existing { Some(s) => Some(s@), None => None }, flag@),
{
    match existing {
        None => String::from_str(flag),
        Some(current) => {
            let cur = chars_of(current.as_str());
            let t = trim_chars(&cur);
            let toks = split_whitespace(&t);
            let flag_chars = chars_of(flag);
            let mut found = false;
            let mut i: usize = 0;
            while i < toks.len()
                invariant
                    i <= toks@.len(),
                    flag_chars@ == flag@,
                    found == exists|j: int| 0 <= j < i && #[trigger] vviews(toks@)[j] == flag@,
                decreases toks@.len() - i,
            {
                if same_chars(&toks[i], &flag_chars) {
                    assert(vviews(toks@)[i as int] == flag@);
                    found = true;
                }
                i += 1;
            }
            proof {
                if found {
                    let j = choose|j: int| 0 <= j < i && #[trigger] vviews(toks@)[j] == flag@;
                    assert(tokens(t@)[j] == flag@);
                } else {
                    assert forall|j: int| 0 <= j < tokens(t@).len() implies tokens(t@)[j] != flag@ by {
                        assert(vviews(toks@)[j] == tokens(t@)[j]);
                    }
                }
            }
            if found {
                string_of(&t)
            } else if t.len() == 0 {
                String::from_str(flag)
            } else {
                let mut out = t;
                out.push(' ');
                push_all(&mut out, &flag_chars);
                proof {
                    reveal_strlit(" ");
                }
                string_of(&out)
            }
        },
    }
}


/// The SDK directories the tool looks in, in order: `$ANDROID_HOME`,
/// `$ANDROID_SDK_ROOT`, then `Library/Android/sdk` and `Android/Sdk` under
/// `$HOME`, each only when the variable is set.
pub open spec fn sdk_root_candidates(android_home: Option<Seq<char>>, sdk_root: Option<Seq<char>>, home: Option<Seq<char>>) -> Seq<Seq<char>> {
    (match android_home { Some(p) => seq![p], None => Seq::empty() })
        + (match sdk_root { Some(p) => seq![p], None => Seq::empty() })
        + (match home {
            Some(h) => seq![pushed(h, "Library/Android/sdk"@), pushed(h, "Android/Sdk"@)],
            None => Seq::empty(),
        })
}

/// The optional string's view.
pub open spec fn opt_view(o: Option<String>) -> Option<Seq<char>> {
    match o {
        Some(s) => Some(s@),
        None => None,
    }
}

/// The SDK directories to look in, from the values of `ANDROID_HOME`,
/// `ANDROID_SDK_ROOT` and `HOME`.
pub fn android_sdk_root_candidates(android_home: Option<String>, sdk_root: Option<String>, home: Option<String>) -> (r: Vec<String>)
    ensures
        views(r@) == sdk_root_candidates(opt_view(android_home), opt_view(sdk_root), opt_view(home)),
{
    let mut r: Vec<String> = Vec::new();
    let ghost a = match opt_view(android_home) { Some(p) => seq![p], None => Seq::<Seq<char>>::empty() };
    let ghost b = match opt_view(sdk_root) { Some(p) => seq![p], None => Seq::<Seq<char>>::empty() };
    if let Some(p) = android_home {
        r.push(p);
    }
    assert(views(r@) =~= a);
    if let Some(p) = sdk_root {
        r.push(p);
    }
    assert(views(r@) =~= a + b);
    if let Some(h) = home {
        let lib = chars_of("Library/Android/sdk");
        let and = chars_of("Android/Sdk");
        r.push(joined_path(h.as_str(), &lib));
        r.push(joined_path(h.as_str(), &and));
    }
    assert(views(r@) =~= sdk_root_candidates(opt_view(android_home), opt_view(sdk_root), opt_view(home)));
    r
}

/// The candidates that exist, each kept once, in order.
pub open spec fn existing_distinct(candidates: Seq<Seq<char>>, present: Seq<bool>) -> Seq<Seq<char>>
    decreases candidates.len(),
{
    if candidates.len() == 0 {
        Seq::empty()
    } else {
        let n = candidates.len() - 1;
        let earlier = existing_distinct(candidates.drop_last(), present.take(n));
        if present[n] && !earlier.contains(candidates[n]) { earlier.push(candidates[n]) } else { earlier }
    }
}

/// The SDK directories that exist, without repeats; `present[i]` tells
/// whether `candidates[i]` exists.
pub fn android_sdk_roots(candidates: &Vec<String>, present: &Vec<bool>) -> (r: Vec<String>)
    requires
        present@.len() == candidates@.len(),
    ensures
        views(r@) == existing_distinct(views(candidates@), present@),
{
    let mut r: Vec<String> = Vec::new();
    let mut i: usize = 0;
    while i < candidates.len()
        invariant
            present@.len() == candidates@.len(),
            i <= candidates@.len(),
            views(r@) == existing_distinct(views(candidates@).take(i as int), present@.take(i as int)),
        decreases candidates@.len() - i,
    {
        proof {
            assert(views(candidates@).take(i + 1).drop_last() =~= views(candidates@).take(i as int));
            assert(present@.take(i + 1).take(i as int) =~= present@.take(i as int));
        }
        if present[i] && !contains_string(&r, candidates[i].as_str()) {
            let ghost before = views(r@);
            r.push(candidates[i].clone());
            assert(views(r@) =~= before.push(candidates@[i as int]@));
        }
        i += 1;
    }
    assert(views(candidates@).take(i as int) =~= views(candidates@));
    assert(present@.take(i as int) =~= present@);
    r
}

/// The SDK directory the tool uses: the first existing one.
pub fn resolve_android_sdk_path(roots: &Vec<String>) -> (r: Option<String>)
    ensures
        roots@.len() == 0 ==> r is None,
        roots@.len() > 0 ==> (r matches Some(p) && p@ == roots@[0]@),
{
    if roots.len() == 0 {
        None
    } else {
        Some(roots[0].clone())
    }
}

/// Where an SDK tool lives inside an SDK directory.
pub open spec fn tool_suffixes(tool: Seq<char>) -> Seq<Seq<char>> {
    if tool == "adb"@ {
        seq!["platform-tools/adb"@, "platform-tools/adb.exe"@]
    } else if tool == "emulator"@ {
        seq!["emulator/emulator"@, "emulator/emulator.exe"@]
    } else {
        Seq::empty()
    }
}

/// The paths probed for an SDK tool, in order: for each SDK directory, each
/// place the tool may live in it.
pub open spec fn sdk_tool_candidates(tool: Seq<char>, roots: Seq<Seq<char>>) -> Seq<Seq<char>>
    decreases roots.len(),
{
    if roots.len() == 0 {
        Seq::empty()
    } else {
        sdk_tool_candidates(tool, roots.drop_last()) + tool_suffixes(tool).map_values(|suf: Seq<char>| pushed(roots.last(), suf))
    }
}

/// The paths at which an SDK tool is looked for.
pub fn android_tool_candidates(tool: &str, roots: &Vec<String>) -> (r: Vec<String>)
    ensures
        views(r@) == sdk_tool_candidates(tool@, views(roots@)),
{
    let mut suffixes: Vec<Vec<char>> = Vec::new();
    if str_eq(tool, "adb") {
        suffixes.push(chars_of("platform-tools/adb"));
        suffixes.push(chars_of("platform-tools/adb.exe"));
    } else if str_eq(tool, "emulator") {
        suffixes.push(chars_of("emulator/emulator"));
        suffixes.push(chars_of("emulator/emulator.exe"));
    }
    assert(vviews(suffixes@) =~= tool_suffixes(tool@));
    let mut r: Vec<String> = Vec::new();
    let mut i: usize = 0;
    while i < roots.len()
        invariant
            i <= roots@.len(),
            vviews(suffixes@) == tool_suffixes(tool@),
            views(r@) == sdk_tool_candidates(tool@, views(roots@).take(i as int)),
        decreases roots@.len() - i,
    {
        let ghost before = views(r@);
        let mut more = paths_under(roots[i].as_str(), &suffixes);
        r.append(&mut more);
        assert(views(r@) =~= before + vviews(suffixes@).map_values(|suf: Seq<char>| pushed(roots@[i as int]@, suf)));
        assert(views(roots@).take(i + 1).drop_last() =~= views(roots@).take(i as int));
        i += 1;
    }
    assert(views(roots@).take(i as int) =~= views(roots@));
    r
}

fn paths_under(root: &str, names: &Vec<Vec<char>>) -> (r: Vec<String>)
    ensures
        views(r@) == vviews(names@).map_values(|suf: Seq<char>| pushed(root@, suf)),
{
    let mut r: Vec<String> = Vec::new();
    let mut k: usize = 0;
    while k < names.len()
        invariant
            k <= names@.len(),
            r@.len() == k,
            forall|j: int| 0 <= j < k ==> (#[trigger] r@[j])@ == pushed(root@, names@[j]@),
        decreases names@.len() - k,
    {
        r.push(joined_path(root, &names[k]));
        k += 1;
    }
    assert(views(r@) =~= vviews(names@).map_values(|suf: Seq<char>| pushed(root@, suf)));
    r
}

/// The first candidate that exists, if any.
pub open spec fn first_present(candidates: Seq<Seq<char>>, present: Seq<bool>) -> Option<Seq<char>>
    decreases candidates.len(),
{
    if candidates.len() == 0 {
        None
    } else if present[0] {
        Some(candidates[0])
    } else {
        first_present(candidates.skip(1), present.skip(1))
    }
}

/// Where an SDK tool is: where it was found on `PATH`, or else the first of
/// its SDK locations that exists; `present[i]` tells whether the `i`-th path
/// of [`android_tool_candidates`] exists.
pub fn find_android_tool(tool: &str, on_path: Option<String>, roots: &Vec<String>, present: &Vec<bool>) -> (r: Option<String>)
    requires
        present@.len() == sdk_tool_candidates(tool@, views(roots@)).len(),
    ensures
        on_path is Some ==> opt_view(r) == opt_view(on_path),
        on_path is None ==> opt_view(r) == first_present(sdk_tool_candidates(tool@, views(roots@)), present@),
{
    if on_path.is_some() {
        return on_path;
    }
    let candidates = android_tool_candidates(tool, roots);
    let ghost cv = views(candidates@);
    let mut i: usize = 0;
    assert(cv.skip(0) =~= cv);
    assert(present@.skip(0) =~= present@);
    while i < candidates.len()
        invariant
            on_path is None,
            cv == views(candidates@),
            cv == sdk_tool_candidates(tool@, views(roots@)),
            cv.len() == candidates@.len(),
            present@.len() == cv.len(),
            i <= cv.len(),
            first_present(cv, present@) == first_present(cv.skip(i as int), present@.skip(i as int)),
        decreases cv.len() - i,
    {
        assert(cv.skip(i as int).skip(1) =~= cv.skip(i + 1));
        assert(present@.skip(i as int).skip(1) =~= present@.skip(i + 1));
        if present[i] {
            assert(cv.skip(i as int)[0] == cv[i as int]);
            assert(present@.skip(i as int)[0] == present@[i as int]);
            assert(first_present(cv.skip(i as int), present@.skip(i as int)) == Some(cv[i as int]));
            let found = candidates[i].clone();
            assert(found@ == cv[i as int]);
            return Some(found);
        }
        i += 1;
    }
    None
}

/// The value of a string of ASCII digits.
pub open spec fn digits_value(d: Seq<char>) -> nat
    decreases d.len(),
{
    if d.len() == 0 {
        0
    } else {
        digits_value(d.drop_last()) * 10 + ((d.last() as nat) - ('0' as nat)) as nat
    }
}

/// The longest prefix of `s` made of ASCII digits.
pub open spec fn digit_prefix(s: Seq<char>) -> Seq<char>
    decreases s.len(),
{
    if s.len() > 0 && '0' <= s[0] && s[0] <= '9' { seq![s[0]] + digit_prefix(s.skip(1)) } else { Seq::empty() }
}

/// Position of the first occurrence of `c` in `s`.
pub open spec fn first_index(s: Seq<char>, c: char) -> Option<int>
    decreases s.len(),
{
    if s.len() == 0 {
        None
    } else if s[0] == c {
        Some(0)
    } else {
        match first_index(s.skip(1), c) {
            Some(i) => Some(i + 1),
            None => None,
        }
    }
}

/// The major Java version named on one line of `java -version` output: the
/// text between the first two double quotes, without a leading `1.`, read up
/// to its first non-digit; none when that is empty or does not fit in `u32`.
pub open spec fn java_major_in_line(line: Seq<char>) -> Option<u32> {
    match first_index(line, '"') {
        None => None,
        Some(a) => {
            let rest = line.skip(a + 1);
            match first_index(rest, '"') {
                None => None,
                Some(b) => {
                    let version = rest.take(b);
                    let body = if version.len() >= 2 && version[0] == '1' && version[1] == '.' { version.skip(2) } else { version };
                    let d = digit_prefix(body);
                    if d.len() > 0 && digits_value(d) <= u32::MAX { Some(digits_value(d) as u32) } else { None }
                },
            }
        },
    }
}

/// The major Java version of the first line of `java -version` output that names one.
pub open spec fn java_major(lines: Seq<Seq<char>>) -> Option<u32>
    decreases lines.len(),
{
    if lines.len() == 0 {
        None
    } else {
        match java_major_in_line(lines[0]) {
            Some(v) => Some(v),
            None => java_major(lines.skip(1)),
        }
    }
}

fn find_char_from(s: &Vec<char>, start: usize, c: char) -> (r: Option<usize>)
    requires
        start <= s@.len(),
    ensures
        r matches Some(i) ==> first_index(s@.skip(start as int), c) == Some(i - start) && start <= i < s.len(),
        r is None ==> first_index(s@.skip(start as int), c) is None,
{
    let mut i: usize = start;
    while i < s.len()
        invariant
            start <= i <= s@.len(),
            first_index(s@.skip(start as int), c) == match first_index(s@.skip(i as int), c) {
                Some(k) => Some(k + (i - start)),
                None => None,
            },
        decreases s@.len() - i,
    {
        assert(s@.skip(i as int).skip(1) =~= s@.skip(i + 1));
        if s[i] == c {
            return Some(i);
        }
        i += 1;
    }
    assert(s@.skip(i as int).len() == 0);
    None
}

proof fn lemma_digit_prefix_at(s: Seq<char>, k: int)
    requires
        0 <= k <= s.len(),
        forall|j: int| 0 <= j < k ==> '0' <= #[trigger] s[j] && s[j] <= '9',
    ensures
        k < s.len() && !('0' <= s[k] && s[k] <= '9') ==> digit_prefix(s) == s.take(k),
        k == s.len() ==> digit_prefix(s) == s,
        k < s.len() && '0' <= s[k] && s[k] <= '9' ==> digit_prefix(s).len() > k && digit_prefix(s).take(k + 1) == s.take(k + 1),
    decreases k,
{
    if k > 0 {
        assert forall|j: int| 0 <= j < k - 1 implies '0' <= #[trigger] s.skip(1)[j] && s.skip(1)[j] <= '9' by {
            assert(s.skip(1)[j] == s[j + 1]);
        }
        lemma_digit_prefix_at(s.skip(1), k - 1);
        assert(s.skip(1).take(k - 1) =~= s.take(k).skip(1));
        assert(seq![s[0]] + s.take(k).skip(1) =~= s.take(k));
        assert(seq![s[0]] + s.skip(1) =~= s);
        if k < s.len() {
            assert(s.skip(1)[k - 1] == s[k]);
            assert(s.skip(1).take(k) =~= s.take(k + 1).skip(1));
            assert(seq![s[0]] + s.take(k + 1).skip(1) =~= s.take(k + 1));
        }
    } else {
        if k < s.len() && '0' <= s[0] && s[0] <= '9' {
            assert((seq![s[0]] + digit_prefix(s.skip(1))).take(1) =~= s.take(1));
        }
    }
}

proof fn lemma_digits_value_grows(d: Seq<char>, k: int)
    requires
        0 <= k <= d.len(),
        forall|j: int| 0 <= j < d.len() ==> '0' <= #[trigger] d[j] && d[j] <= '9',
    ensures
        digits_value(d.take(k)) <= digits_value(d),
    decreases d.len() - k,
{
    if k < d.len() {
        lemma_digits_value_grows(d, k + 1);
        assert(d.take(k + 1).drop_last() =~= d.take(k));
    } else {
        assert(d.take(k) =~= d);
    }
}

/// Reads the major Java version from one line of `java -version` output.
pub fn java_major_of_line(line: &Vec<char>) -> (r: Option<u32>)
    ensures
        r == java_major_in_line(line@),
{
    let a = match find_char_from(line, 0, '"') {
        None => {
            assert(line@.skip(0) =~= line@);
            return None;
        },
        Some(a) => a,
    };
    assert(line@.skip(0) =~= line@);
    let b = match find_char_from(line, a + 1, '"') {
        None => return None,
        Some(b) => b,
    };
    let ghost rest = line@.skip(a + 1);
    let ghost version = rest.take(b - (a + 1));
    assert(version =~= line@.subrange(a + 1, b as int));
    let ghost body = if version.len() >= 2 && version[0] == '1' && version[1] == '.' { version.skip(2) } else { version };
    let mut start = a + 1;
    if b - start >= 2 && line[start] == '1' && line[start + 1] == '.' {
        start = start + 2;
    }
    assert(body =~= line@.subrange(start as int, b as int));
    assert(first_index(line@, '"') == Some(a as int));
    assert(first_index(rest, '"') == Some(b - (a + 1)));
    let r = leading_u32(line, start, b);
    assert(r == java_major_in_line(line@));
    r
}

/// The number written by the leading ASCII digits of `line[start..end]`,
/// if there is at least one digit and the number fits in `u32`.
fn leading_u32(line: &Vec<char>, start: usize, end: usize) -> (r: Option<u32>)
    requires
        start <= end <= line@.len(),
    ensures
        ({
            let d = digit_prefix(line@.subrange(start as int, end as int));
            r == if d.len() > 0 && digits_value(d) <= u32::MAX { Some(digits_value(d) as u32) } else { None }
        }),
{
    let ghost body = line@.subrange(start as int, end as int);
    let mut value: u64 = 0;
    let mut k: usize = start;
    assert(body.take(0) =~= Seq::<char>::empty());
    while k < end && '0' <= line[k] && line[k] <= '9'
        invariant
            start <= k <= end <= line@.len(),
            body == line@.subrange(start as int, end as int),
            forall|j: int| 0 <= j < k - start ==> '0' <= #[trigger] body[j] && body[j] <= '9',
            value == digits_value(body.take(k - start)),
            value <= u32::MAX,
        decreases end - k,
    {
        let d = (line[k] as u64) - ('0' as u64);
        assert(body[k - start] == line@[k as int]);
        assert(body.take(k + 1 - start).drop_last() =~= body.take(k - start));
        assert(digits_value(body.take(k + 1 - start)) == value * 10 + d);
        if value > 429496729 || (value == 429496729 && d > 5) {
            proof {
                lemma_digit_prefix_at(body, k - start);
                let dp = digit_prefix(body);
                assert forall|j: int| 0 <= j < dp.len() implies '0' <= #[trigger] dp[j] && dp[j] <= '9' by {
                    lemma_digit_prefix_digits(body, j);
                }
                lemma_digits_value_grows(dp, k + 1 - start);
                assert(dp.take(k + 1 - start) == body.take(k + 1 - start));
            }
            return None;
        }
        value = value * 10 + d;
        k += 1;
    }
    proof {
        lemma_digit_prefix_at(body, k - start);
        if k < end {
            assert(body[k - start] == line@[k as int]);
        }
        assert(digit_prefix(body) =~= body.take(k - start));
    }
    if k == start {
        return None;
    }
    Some(value as u32)
}

proof fn lemma_digit_prefix_digits(s: Seq<char>, j: int)
    requires
        0 <= j < digit_prefix(s).len(),
    ensures
        '0' <= digit_prefix(s)[j] && digit_prefix(s)[j] <= '9',
    decreases s.len(),
{
    if j > 0 {
        lemma_digit_prefix_digits(s.skip(1), j - 1);
    }
}

/// Reads the major Java version from the output of `java -version`.
pub fn java_major_from_output(output: &str) -> (r: Option<u32>)
    ensures
        r == java_major(lines(output@)),
{
    let chars = chars_of(output);
    let ls = split_lines(&chars);
    let ghost lv = vviews(ls@);
    let mut i: usize = 0;
    assert(lv.skip(0) =~= lv);
    while i < ls.len()
        invariant
            lv == vviews(ls@),
            lv == lines(output@),
            i <= lv.len(),
            java_major(lv) == java_major(lv.skip(i as int)),
        decreases lv.len() - i,
    {
        assert(lv.skip(i as int).skip(1) =~= lv.skip(i + 1));
        assert(lv.skip(i as int)[0] == ls@[i as int]@);
        match java_major_of_line(&ls[i]) {
            Some(v) => return Some(v),
            None => {},
        }
        i += 1;
    }
    None
}


/// Each build target is chosen once, and only for an ABI the device
/// reported.
pub proof fn lemma_preferred_triples_distinct(abis: Seq<Seq<char>>)
    ensures
        forall|i: int, j: int| 0 <= i < j < preferred_triples(abis).len()
            ==> preferred_triples(abis)[i] != preferred_triples(abis)[j],
        forall|i: int| #![trigger preferred_triples(abis)[i]] 0 <= i < preferred_triples(abis).len() ==> exists|k: int| 0 <= k < abis.len()
            && abi_triple(#[trigger] abis[k]) == Some(preferred_triples(abis)[i]),
    decreases abis.len(),
{
    if abis.len() > 0 {
        let rest = abis.drop_last();
        lemma_preferred_triples_distinct(rest);
        let p = preferred_triples(abis);
        let q = preferred_triples(rest);
        if let Some(t) = abi_triple(abis.last()) {
            if !q.contains(t) {
                assert forall|i: int| 0 <= i < q.len() implies q[i] != t by {
                    if q[i] == t {
                        assert(q.contains(t));
                    }
                }
            }
        }
        assert forall|i: int| #![trigger p[i]] 0 <= i < p.len() implies exists|k: int| 0 <= k < abis.len()
            && abi_triple(#[trigger] abis[k]) == Some(p[i]) by {
            if i < q.len() {
                let k = choose|k: int| 0 <= k < rest.len() && abi_triple(#[trigger] rest[k]) == Some(q[i]);
                assert(abis[k] == rest[k]);
            } else {
                assert(abis[abis.len() - 1] == abis.last());
            }
        }
    }
}

proof fn lemma_preferred_contains(abis: Seq<Seq<char>>, a: Seq<char>, t: Seq<char>)
    requires
        abis.contains(a),
        abi_triple(a) == Some(t),
    ensures
        preferred_triples(abis).contains(t),
    decreases abis.len(),
{
    let rest = abis.drop_last();
    let earlier = preferred_triples(rest);
    if abis.last() == a {
        if !earlier.contains(t) {
            assert(earlier.push(t)[earlier.len() as int] == t);
        }
    } else {
        let k = choose|k: int| 0 <= k < abis.len() && abis[k] == a;
        assert(k < abis.len() - 1);
        assert(rest[k] == a);
        lemma_preferred_contains(rest, a, t);
        let i = choose|i: int| 0 <= i < earlier.len() && earlier[i] == t;
        match abi_triple(abis.last()) {
            Some(u) => if !earlier.contains(u) {
                assert(earlier.push(u)[i] == t);
            },
            None => {},
        }
    }
}

/// Every build target chosen for a device is one of the four Android
/// targets the tool supports.
proof fn lemma_preferred_supported(abis: Seq<Seq<char>>)
    ensures
        forall|i: int| 0 <= i < preferred_triples(abis).len() ==> {
            let t = #[trigger] preferred_triples(abis)[i];
            t == "aarch64-linux-android"@ || t == "armv7-linux-androideabi"@ || t == "x86_64-linux-android"@
                || t == "i686-linux-android"@
        },
    decreases abis.len(),
{
    if abis.len() > 0 {
        let rest = abis.drop_last();
        lemma_preferred_supported(rest);
        let earlier = preferred_triples(rest);
        let p = preferred_triples(abis);
        assert forall|i: int| 0 <= i < p.len() implies {
            let t = #[trigger] p[i];
            t == "aarch64-linux-android"@ || t == "armv7-linux-androideabi"@ || t == "x86_64-linux-android"@
                || t == "i686-linux-android"@
        } by {
            if i < earlier.len() {
                assert(p[i] == earlier[i]);
            } else {
                assert(abi_triple(abis.last()) == Some(p[i]));
            }
        }
    }
}

proof fn lemma_abi_table()
    ensures
        abi_triple("arm64-v8a"@) == Some("aarch64-linux-android"@),
        abi_triple("arm64"@) == Some("aarch64-linux-android"@),
        abi_triple("armeabi-v7a"@) == Some("armv7-linux-androideabi"@),
        abi_triple("armeabi"@) == Some("armv7-linux-androideabi"@),
        abi_triple("x86_64"@) == Some("x86_64-linux-android"@),
        abi_triple("x86"@) == Some("i686-linux-android"@),
{
    reveal_strlit("arm64-v8a");
    reveal_strlit("arm64");
    reveal_strlit("armeabi-v7a");
    reveal_strlit("armeabi");
    reveal_strlit("x86_64");
    reveal_strlit("x86");
    assert("armeabi-v7a"@[3] != "arm64-v8a"@[3]);
    assert("armeabi-v7a"@[3] != "arm64"@[3]);
    assert("armeabi"@[3] != "arm64-v8a"@[3]);
    assert("armeabi"@[3] != "arm64"@[3]);
    assert("x86_64"@[0] != "arm64-v8a"@[0]);
    assert("x86_64"@[0] != "arm64"@[0]);
    assert("x86_64"@[0] != "armeabi-v7a"@[0]);
    assert("x86_64"@[0] != "armeabi"@[0]);
    assert("x86"@[0] != "arm64-v8a"@[0]);
    assert("x86"@[0] != "arm64"@[0]);
    assert("x86"@[0] != "armeabi-v7a"@[0]);
    assert("x86"@[0] != "armeabi"@[0]);
    assert("x86"@.len() != "x86_64"@.len());
}

/// The ABIs a device reports decide its build targets by a fixed table:
/// `arm64-v8a` (or `arm64`) is served by `aarch64-linux-android`,
/// `armeabi-v7a` (or `armeabi`) by `armv7-linux-androideabi`, `x86_64` by
/// `x86_64-linux-android` and `x86` by `i686-linux-android`. Whatever else the
/// device reports, each of these ABIs brings its target into the chosen
/// ones, and no other target is ever chosen.
pub proof fn lemma_abi_targets(abis: Seq<Seq<char>>)
    ensures
        abis.contains("arm64-v8a"@) ==> preferred_triples(abis).contains("aarch64-linux-android"@),
        abis.contains("arm64"@) ==> preferred_triples(abis).contains("aarch64-linux-android"@),
        abis.contains("armeabi-v7a"@) ==> preferred_triples(abis).contains("armv7-linux-androideabi"@),
        abis.contains("armeabi"@) ==> preferred_triples(abis).contains("armv7-linux-androideabi"@),
        abis.contains("x86_64"@) ==> preferred_triples(abis).contains("x86_64-linux-android"@),
        abis.contains("x86"@) ==> preferred_triples(abis).contains("i686-linux-android"@),
        forall|i: int| 0 <= i < preferred_triples(abis).len() ==> {
            let t = #[trigger] preferred_triples(abis)[i];
            t == "aarch64-linux-android"@ || t == "armv7-linux-androideabi"@ || t == "x86_64-linux-android"@
                || t == "i686-linux-android"@
        },
        abis.len() == 1 && abis[0] == "x86_64"@ ==> preferred_triples(abis) == seq!["x86_64-linux-android"@],
{
    lemma_abi_table();
    if abis.contains("arm64-v8a"@) {
        lemma_preferred_contains(abis, "arm64-v8a"@, "aarch64-linux-android"@);
    }
    if abis.contains("arm64"@) {
        lemma_preferred_contains(abis, "arm64"@, "aarch64-linux-android"@);
    }
    if abis.contains("armeabi-v7a"@) {
        lemma_preferred_contains(abis, "armeabi-v7a"@, "armv7-linux-androideabi"@);
    }
    if abis.contains("armeabi"@) {
        lemma_preferred_contains(abis, "armeabi"@, "armv7-linux-androideabi"@);
    }
    if abis.contains("x86_64"@) {
        lemma_preferred_contains(abis, "x86_64"@, "x86_64-linux-android"@);
    }
    if abis.contains("x86"@) {
        lemma_preferred_contains(abis, "x86"@, "i686-linux-android"@);
    }
    lemma_preferred_supported(abis);
    if abis.len() == 1 && abis[0] == "x86_64"@ {
        assert(abis.drop_last() =~= Seq::<Seq<char>>::empty());
        assert(abis.last() == "x86_64"@);
        assert(preferred_triples(abis.drop_last()) =~= Seq::<Seq<char>>::empty());
        assert(!Seq::<Seq<char>>::empty().contains("x86_64-linux-android"@));
        assert(preferred_triples(abis) =~= Seq::<Seq<char>>::empty().push("x86_64-linux-android"@));
        assert(Seq::<Seq<char>>::empty().push("x86_64-linux-android"@) =~= seq!["x86_64-linux-android"@]);
    }
}

/// Each SDK directory is kept once, and only if it exists.
pub proof fn lemma_sdk_roots_distinct(candidates: Seq<Seq<char>>, present: Seq<bool>)
    requires
        present.len() == candidates.len(),
    ensures
        forall|i: int, j: int| 0 <= i < j < existing_distinct(candidates, present).len()
            ==> existing_distinct(candidates, present)[i] != existing_distinct(candidates, present)[j],
        forall|i: int| #![trigger existing_distinct(candidates, present)[i]] 0 <= i < existing_distinct(candidates, present).len()
            ==> exists|k: int| 0 <= k < candidates.len() && present[k] && #[trigger] candidates[k] == existing_distinct(candidates, present)[i],
    decreases candidates.len(),
{
    if candidates.len() > 0 {
        let n = candidates.len() - 1;
        let rest = candidates.drop_last();
        let pr = present.take(n);
        lemma_sdk_roots_distinct(rest, pr);
        let e = existing_distinct(candidates, present);
        let q = existing_distinct(rest, pr);
        if !q.contains(candidates[n]) {
            assert forall|i: int| 0 <= i < q.len() implies q[i] != candidates[n] by {
                if q[i] == candidates[n] {
                    assert(q.contains(candidates[n]));
                }
            }
        }
        assert forall|i: int| #![trigger e[i]] 0 <= i < e.len() implies exists|k: int| 0 <= k < candidates.len()
            && present[k] && #[trigger] candidates[k] == e[i] by {
            if i < q.len() {
                let k = choose|k: int| 0 <= k < rest.len() && pr[k] && #[trigger] rest[k] == q[i];
                assert(candidates[k] == rest[k] && present[k] == pr[k]);
            }
        }
    }
}


proof fn lemma_sanitized_char_fixed(c: char)
    ensures
        sanitized_char(sanitized_char(c)) == sanitized_char(c),
        sanitized_char(c) != '.',
{
}

proof fn lemma_sanitized_segment_fixed(raw: Seq<char>)
    requires
        raw.len() > 0,
    ensures
        sanitized_segment(raw).len() > 0,
        !sanitized_segment(raw).contains('.'),
        sanitized_segment(sanitized_segment(raw)) == sanitized_segment(raw),
{
    let seg = raw.map_values(|c: char| sanitized_char(c));
    let out = sanitized_segment(raw);
    assert forall|i: int| 0 <= i < seg.len() implies sanitized_char(#[trigger] seg[i]) == seg[i] && seg[i] != '.' by {
        lemma_sanitized_char_fixed(raw[i]);
    }
    assert forall|i: int| 0 <= i < out.len() implies sanitized_char(#[trigger] out[i]) == out[i] && out[i] != '.' by {
        if !valid_segment_start(seg[0]) {
            if i > 0 {
                assert(out[i] == seg[i - 1]);
            }
        }
    }
    if out.contains('.') {
        let i = choose|i: int| 0 <= i < out.len() && out[i] == '.';
        assert(out[i] != '.');
    }
    let again = out.map_values(|c: char| sanitized_char(c));
    assert(again =~= out);
    assert(valid_segment_start(out[0]));
}

/// Sanitising a package name twice gives what sanitising it once gives:
/// a sanitised name is already a valid Java package name.
pub proof fn lemma_sanitize_idempotent(input: Seq<char>)
    ensures
        sanitized_package(sanitized_package(input)) == sanitized_package(input),
{
    let segs = nonempty_pieces(input, '.');
    let dot = seq!['.'];
    reveal_strlit(".");
    assert("."@ =~= dot);
    let parts = if segs.len() == 0 {
        reveal_strlit("com.waterui.app");
        let fallback = seq![seq!['c', 'o', 'm'], seq!['w', 'a', 't', 'e', 'r', 'u', 'i'], seq!['a', 'p', 'p']];
        reveal_with_fuel(joined, 3);
        assert(joined(fallback, dot) =~= "com.waterui.app"@);
        assert forall|i: int| 0 <= i < fallback.len() implies sanitized_segment(#[trigger] fallback[i]) == fallback[i] by {
            let f = fallback[i];
            assert(f.map_values(|c: char| sanitized_char(c)) =~= f);
        }
        assert(fallback.map_values(|r: Seq<char>| sanitized_segment(r)) =~= fallback);
        fallback
    } else {
        assert forall|i: int| 0 <= i < segs.len() implies (#[trigger] segs[i]).len() > 0 by {
            split(input, '.').lemma_filter_pred(|p: Seq<char>| p.len() > 0, i);
        }
        let mapped = segs.map_values(|r: Seq<char>| sanitized_segment(r));
        assert forall|i: int| 0 <= i < mapped.len() implies sanitized_segment(#[trigger] mapped[i]) == mapped[i] by {
            lemma_sanitized_segment_fixed(segs[i]);
        }
        assert(mapped.map_values(|r: Seq<char>| sanitized_segment(r)) =~= mapped);
        mapped
    };
    assert forall|i: int| 0 <= i < parts.len() implies !(#[trigger] parts[i]).contains('.') && parts[i].len() > 0 by {
        if segs.len() == 0 {
            assert(i == 0 || i == 1 || i == 2);
        } else {
            split(input, '.').lemma_filter_pred(|p: Seq<char>| p.len() > 0, i);
            lemma_sanitized_segment_fixed(segs[i]);
        }
    }
    assert(sanitized_package(input) == joined(parts, dot));
    lemma_split_joined(parts, '.');
    lemma_filter_nonempty_all(parts);
    assert(nonempty_pieces(joined(parts, dot), '.') == parts);
}

/// The prebuilt NDK host directories tried for a host system, in order:
/// Apple silicon and Intel Macs, ARM and x86 Linux, and Windows.
pub open spec fn ndk_host_tags(host_os: Seq<char>) -> Seq<Seq<char>> {
    if host_os == "macos"@ {
        seq!["darwin-arm64"@, "darwin-aarch64"@, "darwin-x86_64"@]
    } else if host_os == "linux"@ {
        seq!["linux-aarch64"@, "linux-x86_64"@]
    } else if host_os == "windows"@ {
        seq!["windows-x86_64"@]
    } else {
        Seq::empty()
    }
}

/// Where the NDK's LLVM tools may be, in the order they are tried.
pub fn ndk_bin_candidates(ndk_root: &str, host_os: &str) -> (r: Vec<String>)
    ensures
        views(r@) == ndk_host_tags(host_os@).map_values(|tag: Seq<char>| pushed(pushed(pushed(ndk_root@, "toolchains/llvm/prebuilt"@), tag), "bin"@)),
{
    let mut tags: Vec<&str> = Vec::new();
    if str_eq(host_os, "macos") {
        tags.push("darwin-arm64");
        tags.push("darwin-aarch64");
        tags.push("darwin-x86_64");
    } else if str_eq(host_os, "linux") {
        tags.push("linux-aarch64");
        tags.push("linux-x86_64");
    } else if str_eq(host_os, "windows") {
        tags.push("windows-x86_64");
    }
    assert(tags@.map_values(|t: &str| t@) =~= ndk_host_tags(host_os@));
    let prebuilt = joined_path(ndk_root, &chars_of("toolchains/llvm/prebuilt"));
    let bin = chars_of("bin");
    let mut r: Vec<String> = Vec::new();
    let mut i: usize = 0;
    while i < tags.len()
        invariant
            i <= tags@.len(),
            prebuilt@ == pushed(ndk_root@, "toolchains/llvm/prebuilt"@),
            bin@ == "bin"@,
            tags@.map_values(|t: &str| t@) == ndk_host_tags(host_os@),
            r@.len() == i,
            forall|j: int| 0 <= j < i ==> (#[trigger] r@[j])@ == pushed(pushed(prebuilt@, tags@[j]@), "bin"@),
        decreases tags@.len() - i,
    {
        let dir = joined_path(prebuilt.as_str(), &chars_of(tags[i]));
        r.push(joined_path(dir.as_str(), &bin));
        i += 1;
    }
    assert(views(r@) =~= ndk_host_tags(host_os@).map_values(|tag: Seq<char>| pushed(pushed(pushed(ndk_root@, "toolchains/llvm/prebuilt"@), tag), "bin"@)));
    r
}

/// The newest Java release the Android build supports.
pub open spec fn max_supported_java() -> u32 {
    21
}

/// The first Java home whose release is known and, when `limited`, at most
/// the supported one; when `skip_empty`, empty paths are passed over.
pub open spec fn first_java_home(homes: Seq<(Seq<char>, Option<u32>)>, limited: bool, skip_empty: bool) -> Option<Seq<char>>
    decreases homes.len(),
{
    if homes.len() == 0 {
        None
    } else if !(skip_empty && homes[0].0.len() == 0) && homes[0].1 is Some
        && (!limited || homes[0].1->0 <= max_supported_java()) {
        Some(homes[0].0)
    } else {
        first_java_home(homes.skip(1), limited, skip_empty)
    }
}

fn scan_java_homes(homes: &Vec<(String, Option<u32>)>, limited: bool, skip_empty: bool) -> (r: Option<String>)
    ensures
        opt_view(r) == first_java_home(homes@.map_values(|h: (String, Option<u32>)| (h.0@, h.1)), limited, skip_empty),
{
    let ghost hv = homes@.map_values(|h: (String, Option<u32>)| (h.0@, h.1));
    let mut i: usize = 0;
    assert(hv.skip(0) =~= hv);
    while i < homes.len()
        invariant
            hv == homes@.map_values(|h: (String, Option<u32>)| (h.0@, h.1)),
            i <= homes@.len(),
            first_java_home(hv, limited, skip_empty) == first_java_home(hv.skip(i as int), limited, skip_empty),
        decreases homes@.len() - i,
    {
        assert(hv.skip(i as int).skip(1) =~= hv.skip(i + 1));
        assert(hv.skip(i as int)[0] == hv[i as int]);
        let path = &homes[i].0;
        let fits = match homes[i].1 {
            Some(v) => !limited || v <= 21,
            None => false,
        };
        if !(skip_empty && path.unicode_len() == 0) && fits {
            return Some(path.clone());
        }
        i += 1;
    }
    None
}

/// The Java installation the Gradle build uses: the first of `JAVA_HOME`
/// and `ANDROID_JAVA_HOME` whose release is known and supported, or else the
/// first installation the system reports (non-empty, release known). Each
/// home comes with the major release read from it.
pub fn pick_java_home(configured: &Vec<(String, Option<u32>)>, installed: &Vec<(String, Option<u32>)>) -> (r: Option<String>)
    ensures
        opt_view(r) == (match first_java_home(configured@.map_values(|h: (String, Option<u32>)| (h.0@, h.1)), true, false) {
            Some(p) => Some(p),
            None => first_java_home(installed@.map_values(|h: (String, Option<u32>)| (h.0@, h.1)), false, true),
        }),
{
    match scan_java_homes(configured, true, false) {
        Some(p) => Some(p),
        None => scan_java_homes(installed, false, true),
    }
}

/// The Gradle task and the APK it produces, relative to the Android project.
pub fn gradle_outputs(release: bool) -> (r: (&'static str, &'static str))
    ensures
        r.0@ == (if release { "assembleRelease"@ } else { "assembleDebug"@ }),
        r.1@ == (if release { "app/build/outputs/apk/release/app-release.apk"@ } else { "app/build/outputs/apk/debug/app-debug.apk"@ }),
{
    if release {
        ("assembleRelease", "app/build/outputs/apk/release/app-release.apk")
    } else {
        ("assembleDebug", "app/build/outputs/apk/debug/app-debug.apk")
    }
}

/// The Gradle wrapper to run on the host.
pub fn gradlew_executable(windows: bool) -> (r: &'static str)
    ensures
        r@ == (if windows { "gradlew.bat"@ } else { "./gradlew"@ }),
{
    if windows { "gradlew.bat" } else { "./gradlew" }
}

/// `local.properties` naming the SDK directory.
pub fn sdk_local_properties(sdk_path: &str) -> (r: String)
    ensures
        r@ == "sdk.dir="@ + sdk_path@ + "\n"@,
{
    let mut r = String::from_str("sdk.dir=");
    r.append(sdk_path);
    r.append("\n");
    r
}

/// The search path with `dir` first; unless `always`, an entry already in
/// the list leaves it unchanged.
pub open spec fn path_with_first(entries: Seq<Seq<char>>, dir: Seq<char>, always: bool) -> Seq<Seq<char>> {
    if !always && entries.contains(dir) { entries } else { seq![dir] + entries }
}

/// Puts a directory at the front of a search path: always for the NDK's
/// tools, only when missing for Java's.
pub fn prepend_path_entry(entries: &Vec<String>, dir: &str, always: bool) -> (r: Vec<String>)
    ensures
        views(r@) == path_with_first(views(entries@), dir@, always),
{
    let mut found = false;
    let mut i: usize = 0;
    while i < entries.len()
        invariant
            i <= entries@.len(),
            found <==> exists|j: int| 0 <= j < i && #[trigger] views(entries@)[j] == dir@,
        decreases entries@.len() - i,
    {
        if str_eq(entries[i].as_str(), dir) {
            assert(views(entries@)[i as int] == dir@);
            found = true;
        }
        i += 1;
    }
    if !always && found {
        proof {
            let j = choose|j: int| 0 <= j < i && #[trigger] views(entries@)[j] == dir@;
            assert(views(entries@)[j] == dir@);
            assert(views(entries@).contains(dir@));
        }
        return entries.clone();
    }
    let mut r: Vec<String> = Vec::new();
    r.push(String::from_str(dir));
    let mut k: usize = 0;
    while k < entries.len()
        invariant
            k <= entries@.len(),
            views(r@) == seq![dir@] + views(entries@).take(k as int),
        decreases entries@.len() - k,
    {
        let ghost before = views(r@);
        let e = entries[k].clone();
        assert(e@ == views(entries@)[k as int]);
        r.push(e);
        assert(views(r@) =~= before.push(e@));
        k += 1;
        assert(views(r@) =~= seq![dir@] + views(entries@).take(k as int));
    }
    assert(views(entries@).take(k as int) =~= views(entries@));
    r
}

/// Checks a target that an Android build asks for: it must be one the build
/// supports and, when the installed Rust targets are known, installed.
pub fn check_android_target(triple: &str, installed: Option<&Vec<String>>) -> (r: Result<AndroidTargetConfig, String>)
    ensures
        target_spec(triple@) is None ==> (r matches Err(m) && m@ == "Unsupported Android target `"@ + triple@ + "`"@),
        target_spec(triple@) matches Some(t) ==> match installed {
            Some(list) => if views(list@).contains(t.0) {
                r matches Ok(c) && c.view_tuple() == t
            } else {
                r matches Err(m) && m@ == "Rust target `"@ + t.0 + "` is not installed. Run `rustup target add "@ + t.0 + "` and retry."@
            },
            None => r matches Ok(c) && c.view_tuple() == t,
        },
{
    let target = match target_by_triple(triple) {
        Some(t) => t,
        None => {
            let mut m = String::from_str("Unsupported Android target `");
            m.append(triple);
            m.append("`");
            return Err(m);
        },
    };
    match installed {
        Some(list) => {
            let mut found = false;
            let mut i: usize = 0;
            while i < list.len()
                invariant
                    i <= list@.len(),
                    found <==> exists|j: int| 0 <= j < i && #[trigger] views(list@)[j] == target.triple@,
                decreases list@.len() - i,
            {
                if str_eq(list[i].as_str(), target.triple.as_str()) {
                    assert(views(list@)[i as int] == target.triple@);
                    found = true;
                }
                i += 1;
            }
            if !found {
                let mut m = String::from_str("Rust target `");
                m.append(target.triple.as_str());
                m.append("` is not installed. Run `rustup target add ");
                m.append(target.triple.as_str());
                m.append("` and retry.");
                return Err(m);
            }
            proof {
                let j = choose|j: int| 0 <= j < i && #[trigger] views(list@)[j] == target.triple@;
                assert(views(list@)[j] == target.triple@);
            }
            Ok(target)
        },
        None => Ok(target),
    }
}

/// The value of `ANDROID_BUILD_TARGETS`: the configured triples joined by
/// commas; an error when none was configured.
pub fn android_build_targets_value(configured: &Vec<String>) -> (r: Result<String, String>)
    ensures
        configured@.len() == 0 ==> (r matches Err(m) && m@ == "No Android Rust targets were configured."@),
        configured@.len() > 0 ==> (r matches Ok(v) && v@ == joined(views(configured@), ","@)),
{
    if configured.len() == 0 {
        Err(String::from_str("No Android Rust targets were configured."))
    } else {
        Ok(join(configured, ","))
    }
}

/// The C++ compiler for a target: the one found in the NDK, or else the C
/// compiler's path with `++` appended when that file exists.
pub fn clang_pp_choice(found: Option<String>, clang: &str, fallback_exists: bool) -> (r: Option<String>)
    ensures
        found is Some ==> opt_view(r) == opt_view(found),
        found is None && fallback_exists ==> opt_view(r) == Some(clang@ + "++"@),
        found is None && !fallback_exists ==> r is None,
{
    match found {
        Some(f) => Some(f),
        None => {
            if fallback_exists {
                let mut p = String::from_str(clang);
                p.append("++");
                Some(p)
            } else {
                None
            }
        },
    }
}

/// The compiler environment of a target for cargo and the `cc` crate: the
/// triple with underscores names the variables, upper-cased for cargo's;
/// the archiver and ranlib entries appear when those tools exist.
pub open spec fn toolchain_env_of(triple: Seq<char>, clang: Seq<char>, clang_pp: Seq<char>, ar: Option<Seq<char>>, ranlib: Option<Seq<char>>) -> Seq<(Seq<char>, Seq<char>)> {
    let t = replaced(triple, "-"@, "_"@);
    let up = ascii_upper(t);
    seq![("CC_"@ + t, clang), ("CXX_"@ + t, clang_pp)]
        + (match ar { Some(a) => seq![("AR_"@ + t, a), ("CARGO_TARGET_"@ + up + "_AR"@, a)], None => Seq::empty() })
        + (match ranlib { Some(r) => seq![("RANLIB_"@ + t, r)], None => Seq::empty() })
        + seq![("CARGO_TARGET_"@ + up + "_LINKER"@, clang)]
}

fn concat_str(a: &str, b: &str, c: &str) -> (r: String)
    ensures
        r@ == a@ + b@ + c@,
{
    let mut r = String::from_str(a);
    r.append(b);
    r.append(c);
    r
}

/// The environment variables that point a target's build at the NDK tools.
pub fn target_toolchain_env(triple: &str, clang: &str, clang_pp: &str, ar: Option<&str>, ranlib: Option<&str>) -> (r: Vec<(String, String)>)
    ensures
        pair_views(r@) == toolchain_env_of(triple@, clang@, clang_pp@,
            match ar { Some(a) => Some(a@), None => None }, match ranlib { Some(x) => Some(x@), None => None }),
{
    proof {
        reveal_strlit("-");
    }
    let t = replace_all(triple, "-", "_");
    let up = string_of(&to_ascii_uppercase(t.as_str()));
    let mut r: Vec<(String, String)> = Vec::new();
    r.push((concat_str("CC_", t.as_str(), ""), String::from_str(clang)));
    r.push((concat_str("CXX_", t.as_str(), ""), String::from_str(clang_pp)));
    match ar {
        Some(a) => {
            r.push((concat_str("AR_", t.as_str(), ""), String::from_str(a)));
            r.push((concat_str("CARGO_TARGET_", up.as_str(), "_AR"), String::from_str(a)));
        },
        None => {},
    }
    match ranlib {
        Some(x) => {
            r.push((concat_str("RANLIB_", t.as_str(), ""), String::from_str(x)));
        },
        None => {},
    }
    r.push((concat_str("CARGO_TARGET_", up.as_str(), "_LINKER"), String::from_str(clang)));
    proof {
        reveal_strlit("");
    }
    assert(pair_views(r@) =~= toolchain_env_of(triple@, clang@, clang_pp@,
        match ar { Some(a) => Some(a@), None => None }, match ranlib { Some(x) => Some(x@), None => None }));
    r
}

/// How an Android project is adjusted when its bundle identifier is not a
/// valid Java package: the package to use, and where the sources are and
/// should be (relative to the Android project).
pub struct PackageFix {
    pub sanitized: String,
    pub original_dir: String,
    pub sanitized_dir: String,
}

/// The adjustment an Android project needs for its bundle identifier: none
/// when the identifier is already a valid package; otherwise the valid
/// package and the source directories named after each.
pub fn android_package_fix(bundle_identifier: &str) -> (r: Option<PackageFix>)
    ensures
        sanitized_package(bundle_identifier@) == bundle_identifier@ ==> r is None,
        sanitized_package(bundle_identifier@) != bundle_identifier@ ==> (r matches Some(f)
            && f.sanitized@ == sanitized_package(bundle_identifier@)
            && f.original_dir@ == pushed("app/src/main/java"@, replaced(bundle_identifier@, "."@, "/"@))
            && f.sanitized_dir@ == pushed("app/src/main/java"@, replaced(sanitized_package(bundle_identifier@), "."@, "/"@))),
{
    proof {
        reveal_strlit(".");
        reveal_strlit("/");
    }
    let sanitized = sanitize_package_name(bundle_identifier);
    if str_eq(sanitized.as_str(), bundle_identifier) {
        return None;
    }
    let orig_rel = replace_all(bundle_identifier, ".", "/");
    let san_rel = replace_all(sanitized.as_str(), ".", "/");
    let original_dir = joined_path("app/src/main/java", &chars_of(orig_rel.as_str()));
    let sanitized_dir = joined_path("app/src/main/java", &chars_of(san_rel.as_str()));
    Some(PackageFix { sanitized, original_dir, sanitized_dir })
}

/// Putting a directory first in a search path only when it is missing is
/// idempotent: a second time leaves the path as the first time made it.
pub proof fn lemma_path_entry_once(entries: Seq<Seq<char>>, dir: Seq<char>)
    ensures
        path_with_first(path_with_first(entries, dir, false), dir, false) == path_with_first(entries, dir, false),
{
    if !entries.contains(dir) {
        let once = seq![dir] + entries;
        assert(once[0] == dir);
        assert(once.contains(dir));
    }
}

} // verus!
