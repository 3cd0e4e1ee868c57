//! Backend versions: reading release tags, choosing the release to update
//! to, compatibility of dependency versions, rewriting the Swift package
//! requirement, and the reports of backend commands.

use vstd::prelude::*;
use crate::text::{chars_of, concat2, decimal, decimal_string, join, lines, occurs_at, split, split_chars, split_lines, str_eq, string_of, views, vviews, push_all};

verus! {

/// A backend platform.
#[derive(Clone, Copy, Debug, PartialEq, Eq, Structural)]
pub enum BackendChoice {
    Web,
    Apple,
    Android,
}

/// The name of a backend.
pub open spec fn backend_label(choice: BackendChoice) -> Seq<char> {
    match choice {
        BackendChoice::Web => "Web"@,
        BackendChoice::Apple => "Apple"@,
        BackendChoice::Android => "Android"@,
    }
}

impl BackendChoice {
    /// The backend's name as shown to users.
    pub fn label(self) -> (r: &'static str)
        ensures
            r@ == backend_label(self),
    {
        match self {
            BackendChoice::Web => "Web",
            BackendChoice::Apple => "Apple",
            BackendChoice::Android => "Android",
        }
    }
}

/// The platforms a backend serves.
pub open spec fn backend_target_names(choice: BackendChoice) -> Seq<Seq<char>> {
    match choice {
        BackendChoice::Android => seq!["Android"@],
        BackendChoice::Apple => seq!["macOS"@, "iOS"@, "iPadOS"@, "watchOS"@, "tvOS"@, "visionOS"@],
        BackendChoice::Web => seq!["Web"@],
    }
}

/// The platforms a backend serves.
pub fn backend_targets(choice: BackendChoice) -> (r: Vec<String>)
    ensures
        views(r@) == backend_target_names(choice),
{
    let mut r: Vec<String> = Vec::new();
    match choice {
        BackendChoice::Android => {
            r.push(String::from_str("Android"));
        },
        BackendChoice::Apple => {
            r.push(String::from_str("macOS"));
            r.push(String::from_str("iOS"));
            r.push(String::from_str("iPadOS"));
            r.push(String::from_str("watchOS"));
            r.push(String::from_str("tvOS"));
            r.push(String::from_str("visionOS"));
        },
        BackendChoice::Web => {
            r.push(String::from_str("Web"));
        },
    }
    assert(views(r@) =~= backend_target_names(choice));
    r
}

/// A semantic version: numeric core, pre-release and build metadata text.
pub struct Version {
    pub major: u64,
    pub minor: u64,
    pub patch: u64,
    pub pre: String,
    pub build: String,
}

/// A version as plain values.
pub type VersionTuple = (u64, u64, u64, Seq<char>, Seq<char>);

impl Version {
    /// The version as plain values.
    pub open spec fn view_tuple(&self) -> VersionTuple {
        (self.major, self.minor, self.patch, self.pre@, self.build@)
    }

    /// A copy of this version.
    pub fn duplicate(&self) -> (r: Version)
        ensures
            r.view_tuple() == self.view_tuple(),
    {
        Version { major: self.major, minor: self.minor, patch: self.patch, pre: self.pre.clone(), build: self.build.clone() }
    }
}

/// The views of a list of versions.
pub open spec fn version_views(v: Seq<Version>) -> Seq<VersionTuple> {
    v.map_values(|x: Version| x.view_tuple())
}

/// What `semver::Version::parse` gives for a text: the parts of the version,
/// or none when the text is not a semantic version.
pub uninterp spec fn semver_parse(text: Seq<char>) -> Option<VersionTuple>;

/// Parses a semantic version.
///
/// Calls `semver::Version::parse` and hands back its numeric parts and the
/// text of its pre-release and build parts; the result is named, not restated.
#[verifier::external_body]
pub fn parse_version(text: &str) -> (r: Option<Version>)
    ensures
        r matches Some(v) ==> semver_parse(text@) == Some(v.view_tuple()),
        r is None ==> semver_parse(text@) is None,
{
    match semver::Version::parse(text) {
        Ok(v) => Some(Version {
            major: v.major,
            minor: v.minor,
            patch: v.patch,
            pre: v.pre.as_str().to_string(),
            build: v.build.as_str().to_string(),
        }),
        Err(_) => None,
    }
}

/// The precedence `semver` gives two pre-release texts: negative, zero or
/// positive as the first is lower than, equal to or higher than the second.
pub uninterp spec fn prerelease_order(a: Seq<char>, b: Seq<char>) -> int;

/// The order `semver` gives two build-metadata texts, in the same encoding.
pub uninterp spec fn build_order(a: Seq<char>, b: Seq<char>) -> int;

/// Compares two pre-release texts.
///
/// Calls `Ord::cmp` on the two `semver::Prerelease` values and reports the
/// outcome as -1, 0 or 1; text that is not a valid pre-release compares equal
/// to everything. The contract names the outcome and states that comparing
/// in the other direction gives its negation, as `Ord` requires.
#[verifier::external_body]
fn compare_prerelease(a: &str, b: &str) -> (r: i8)
    ensures
        r == prerelease_order(a@, b@),
        r == -prerelease_order(b@, a@),
        -1 <= r <= 1,
{
    match (semver::Prerelease::new(a), semver::Prerelease::new(b)) {
        (Ok(x), Ok(y)) => match x.cmp(&y) {
            std::cmp::Ordering::Less => -1,
            std::cmp::Ordering::Equal => 0,
            std::cmp::Ordering::Greater => 1,
        },
        _ => 0,
    }
}

/// Compares two build-metadata texts.
///
/// Calls `Ord::cmp` on the two `semver::BuildMetadata` values and reports the
/// outcome as -1, 0 or 1; text that is not valid build metadata compares
/// equal to everything. The contract names the outcome and states that
/// comparing in the other direction gives its negation, as `Ord` requires.
#[verifier::external_body]
fn compare_build(a: &str, b: &str) -> (r: i8)
    ensures
        r == build_order(a@, b@),
        r == -build_order(b@, a@),
        -1 <= r <= 1,
{
    match (semver::BuildMetadata::new(a), semver::BuildMetadata::new(b)) {
        (Ok(x), Ok(y)) => match x.cmp(&y) {
            std::cmp::Ordering::Less => -1,
            std::cmp::Ordering::Equal => 0,
            std::cmp::Ordering::Greater => 1,
        },
        _ => 0,
    }
}

/// The order of two versions as `semver::Version` orders them: by major,
/// minor and patch number, then pre-release, then build metadata; negative,
/// zero or positive.
pub open spec fn version_order(a: VersionTuple, b: VersionTuple) -> int {
    if a.0 != b.0 {
        if a.0 < b.0 { -1 } else { 1 }
    } else if a.1 != b.1 {
        if a.1 < b.1 { -1 } else { 1 }
    } else if a.2 != b.2 {
        if a.2 < b.2 { -1 } else { 1 }
    } else if prerelease_order(a.3, b.3) != 0 {
        prerelease_order(a.3, b.3)
    } else {
        build_order(a.4, b.4)
    }
}

/// Compares two versions: -1, 0 or 1.
pub fn compare_versions(a: &Version, b: &Version) -> (r: i8)
    ensures
        r == version_order(a.view_tuple(), b.view_tuple()),
        r == -version_order(b.view_tuple(), a.view_tuple()),
        -1 <= r <= 1,
{
    if a.major != b.major {
        if a.major < b.major { -1 } else { 1 }
    } else if a.minor != b.minor {
        if a.minor < b.minor { -1 } else { 1 }
    } else if a.patch != b.patch {
        if a.patch < b.patch { -1 } else { 1 }
    } else {
        let p = compare_prerelease(a.pre.as_str(), b.pre.as_str());
        if p != 0 {
            p
        } else {
            compare_build(a.build.as_str(), b.build.as_str())
        }
    }
}

/// The text of a version, as `semver::Version` displays it:
/// `major.minor.patch`, then `-pre` and `+build` when present.
pub open spec fn version_text(v: VersionTuple) -> Seq<char> {
    decimal(v.0 as nat) + "."@ + decimal(v.1 as nat) + "."@ + decimal(v.2 as nat)
        + (if v.3.len() > 0 { "-"@ + v.3 } else { Seq::empty() })
        + (if v.4.len() > 0 { "+"@ + v.4 } else { Seq::empty() })
}

impl Version {
    /// Writes the version as text.
    pub fn to_text(&self) -> (r: String)
        ensures
            r@ == version_text(self.view_tuple()),
    {
        proof {
            reveal_strlit(".");
            reveal_strlit("-");
            reveal_strlit("+");
            reveal_strlit("");
        }
        let mut r = decimal_string(self.major);
        r.append(".");
        let minor = decimal_string(self.minor);
        r.append(minor.as_str());
        r.append(".");
        let patch = decimal_string(self.patch);
        r.append(patch.as_str());
        if self.pre.unicode_len() > 0 {
            r.append("-");
            r.append(self.pre.as_str());
        }
        if self.build.unicode_len() > 0 {
            r.append("+");
            r.append(self.build.as_str());
        }
        r
    }
}

/// The first seven characters of a commit hash, or all of a shorter one.
pub open spec fn short_hash(hash: Seq<char>) -> Seq<char> {
    if hash.len() <= 7 { hash } else { hash.take(7) }
}

/// Abbreviates a commit hash to seven characters.
pub fn short_commit(hash: &str) -> (r: String)
    ensures
        r@ == short_hash(hash@),
{
    let n = hash.unicode_len();
    if n <= 7 {
        String::from_str(hash)
    } else {
        String::from_str(hash.substring_char(0, 7))
    }
}

/// The best of the candidates seen so far: `best` replaced by each later
/// candidate that orders above it.
pub open spec fn best_of(best: Option<VersionTuple>, c: VersionTuple) -> Option<VersionTuple> {
    match best {
        None => Some(c),
        Some(b) => if version_order(c, b) > 0 { Some(c) } else { best },
    }
}

/// The releases newer than `current`, scanned in order: the best one with
/// the same major version (compatible) and the best one with another major
/// version (potentially breaking).
pub open spec fn select_versions(current: VersionTuple, available: Seq<VersionTuple>) -> (Option<VersionTuple>, Option<VersionTuple>)
    decreases available.len(),
{
    if available.len() == 0 {
        (None, None)
    } else {
        let (compatible, incompatible) = select_versions(current, available.drop_last());
        let c = available.last();
        if version_order(c, current) <= 0 {
            (compatible, incompatible)
        } else if c.0 == current.0 {
            (best_of(compatible, c), incompatible)
        } else {
            (compatible, best_of(incompatible, c))
        }
    }
}

/// The views of an optional version.
pub open spec fn opt_version_view(v: Option<Version>) -> Option<VersionTuple> {
    match v {
        Some(x) => Some(x.view_tuple()),
        None => None,
    }
}

/// Chooses the release to update to: the newest release above `current`
/// with the same major version, and the newest release above it with a
/// different major version, which is reported but not installed.
pub fn select_compatible_version(current: &Version, available: &Vec<Version>) -> (r: (Option<Version>, Option<Version>))
    ensures
        (opt_version_view(r.0), opt_version_view(r.1)) == select_versions(current.view_tuple(), version_views(available@)),
{
    let mut compatible: Option<Version> = None;
    let mut incompatible: Option<Version> = None;
    let mut i: usize = 0;
    while i < available.len()
        invariant
            i <= available@.len(),
            (opt_version_view(compatible), opt_version_view(incompatible))
                == select_versions(current.view_tuple(), version_views(available@).take(i as int)),
        decreases available@.len() - i,
    {
        let candidate = &available[i];
        proof {
            let t = version_views(available@).take(i + 1);
            assert(t.drop_last() =~= version_views(available@).take(i as int));
            assert(t.last() == candidate.view_tuple());
        }
        if compare_versions(candidate, current) <= 0 {
        } else if candidate.major == current.major {
            let replace = match &compatible {
                None => true,
                Some(best) => compare_versions(candidate, best) > 0,
            };
            if replace {
                compatible = Some(candidate.duplicate());
            }
        } else {
            let replace = match &incompatible {
                None => true,
                Some(best) => compare_versions(candidate, best) > 0,
            };
            if replace {
                incompatible = Some(candidate.duplicate());
            }
        }
        i += 1;
    }
    assert(version_views(available@).take(i as int) =~= version_views(available@));
    (compatible, incompatible)
}

/// Whether the installed version satisfies a requirement: for a `0.x`
/// requirement the same minor version and not older; otherwise the same
/// major version and not older.
pub open spec fn compatible_with(current: VersionTuple, required: VersionTuple) -> bool {
    if required.0 == 0 {
        current.0 == 0 && current.1 == required.1 && version_order(current, required) >= 0
    } else {
        current.0 == required.0 && version_order(current, required) >= 0
    }
}

/// Whether the installed version satisfies a requirement.
pub fn semver_compatible(current: &Version, required: &Version) -> (r: bool)
    ensures
        r == compatible_with(current.view_tuple(), required.view_tuple()),
{
    if required.major == 0 {
        current.major == 0 && current.minor == required.minor && compare_versions(current, required) >= 0
    } else {
        current.major == required.major && compare_versions(current, required) >= 0
    }
}


/// Whether `s` starts with `p`.
pub open spec fn starts_with(s: Seq<char>, p: Seq<char>) -> bool {
    s.len() >= p.len() && s.take(p.len() as int) == p
}

/// Whether `s` ends with `p`.
pub open spec fn ends_with(s: Seq<char>, p: Seq<char>) -> bool {
    s.len() >= p.len() && s.skip(s.len() - p.len()) == p
}

pub(crate) fn has_prefix(s: &Vec<char>, p: &Vec<char>) -> (r: bool)
    ensures
        r == starts_with(s@, p@),
{
    if p.len() > s.len() {
        return false;
    }
    let r = occurs_at(s, 0, p);
    assert(s@.subrange(0, p@.len() as int) =~= s@.take(p@.len() as int));
    r
}

pub(crate) fn has_suffix(s: &Vec<char>, p: &Vec<char>) -> (r: bool)
    ensures
        r == ends_with(s@, p@),
{
    if p.len() > s.len() {
        return false;
    }
    let start = s.len() - p.len();
    let r = occurs_at(s, start, p);
    assert(s@.subrange(start as int, start + p@.len()) =~= s@.skip(start as int));
    r
}

pub(crate) fn chars_from(s: &Vec<char>, start: usize) -> (r: Vec<char>)
    requires
        start <= s@.len(),
    ensures
        r@ == s@.skip(start as int),
{
    let mut r: Vec<char> = Vec::new();
    let mut i = start;
    while i < s.len()
        invariant
            start <= i <= s@.len(),
            r@ == s@.subrange(start as int, i as int),
        decreases s@.len() - i,
    {
        r.push(s[i]);
        i += 1;
        assert(r@ =~= s@.subrange(start as int, i as int));
    }
    assert(r@ =~= s@.skip(start as int));
    r
}

/// The tag name a line of `git ls-remote --tags` output lists, with the
/// release prefix removed; none for lines without a reference, references
/// outside `refs/tags/`, peeled `^{}` entries and tags without the prefix.
pub open spec fn line_tag(line: Seq<char>, prefix: Seq<char>) -> Option<Seq<char>> {
    let fields = split(line, '\t');
    if fields.len() < 2 {
        None
    } else if !starts_with(fields[1], "refs/tags/"@) {
        None
    } else {
        let tag = fields[1].skip(10);
        if ends_with(tag, "^{}"@) || !starts_with(tag, prefix) {
            None
        } else {
            Some(tag.skip(prefix.len() as int))
        }
    }
}

/// The tag names listed, each once, in the order they first appear.
pub open spec fn listed_tags(lines: Seq<Seq<char>>, prefix: Seq<char>) -> Seq<Seq<char>>
    decreases lines.len(),
{
    if lines.len() == 0 {
        Seq::empty()
    } else {
        let earlier = listed_tags(lines.drop_last(), prefix);
        match line_tag(lines.last(), prefix) {
            Some(t) => if earlier.contains(t) { earlier } else { earlier.push(t) },
            None => earlier,
        }
    }
}

/// The versions among the tag names, in order; names that are not semantic
/// versions are left out.
pub open spec fn parsed_versions(tags: Seq<Seq<char>>) -> Seq<VersionTuple>
    decreases tags.len(),
{
    if tags.len() == 0 {
        Seq::empty()
    } else {
        let earlier = parsed_versions(tags.drop_last());
        match semver_parse(tags.last()) {
            Some(v) => earlier.push(v),
            None => earlier,
        }
    }
}

/// Consecutive versions never go down.
pub open spec fn ascending(v: Seq<VersionTuple>) -> bool {
    forall|i: int| 0 <= i < v.len() - 1 ==> version_order(#[trigger] v[i], v[i + 1]) <= 0
}

/// The tag name of one line of `git ls-remote --tags` output.
pub fn tag_of_line(line: &Vec<char>, prefix: &Vec<char>) -> (r: Option<Vec<char>>)
    ensures
        r matches Some(t) ==> line_tag(line@, prefix@) == Some(t@),
        r is None ==> line_tag(line@, prefix@) is None,
{
    let fields = split_chars(line, '\t');
    if fields.len() < 2 {
        return None;
    }
    let refs = chars_of("refs/tags/");
    let peeled = chars_of("^{}");
    proof {
        reveal_strlit("refs/tags/");
    }
    if !has_prefix(&fields[1], &refs) {
        return None;
    }
    let tag = chars_from(&fields[1], 10);
    if has_suffix(&tag, &peeled) || !has_prefix(&tag, prefix) {
        return None;
    }
    Some(chars_from(&tag, prefix.len()))
}

fn contains_chars_vec(v: &Vec<Vec<char>>, t: &Vec<char>) -> (b: bool)
    ensures
        b == vviews(v@).contains(t@),
{
    let mut i: usize = 0;
    while i < v.len()
        invariant
            i <= v@.len(),
            forall|j: int| 0 <= j < i ==> vviews(v@)[j] != t@,
        decreases v@.len() - i,
    {
        if crate::text::same_chars(&v[i], t) {
            assert(vviews(v@)[i as int] == t@);
            return true;
        }
        i += 1;
    }
    false
}

/// The release versions listed in `git ls-remote --tags` output for tags
/// named `prefix` + version, in ascending order.
///
/// Each distinct tag name counts once; names that are not semantic versions
/// are skipped. The result holds exactly the parsed versions, each as often
/// as its tag is listed, with no version lower than the one before it.
pub fn release_versions(output: &str, prefix: &str) -> (r: Vec<Version>)
    ensures
        version_views(r@).to_multiset() == parsed_versions(listed_tags(lines(output@), prefix@)).to_multiset(),
        ascending(version_views(r@)),
{
    let chars = chars_of(output);
    let ls = split_lines(&chars);
    let pre = chars_of(prefix);
    let mut tags: Vec<Vec<char>> = Vec::new();
    let mut i: usize = 0;
    while i < ls.len()
        invariant
            pre@ == prefix@,
            i <= ls@.len(),
            vviews(ls@) == lines(output@),
            vviews(tags@) == listed_tags(vviews(ls@).take(i as int), prefix@),
        decreases ls@.len() - i,
    {
        proof {
            let t = vviews(ls@).take(i + 1);
            assert(t.drop_last() =~= vviews(ls@).take(i as int));
            assert(t.last() == ls@[i as int]@);
        }
        match tag_of_line(&ls[i], &pre) {
            Some(t) => {
                if !contains_chars_vec(&tags, &t) {
                    let ghost before = vviews(tags@);
                    tags.push(t);
                    assert(vviews(tags@) =~= before.push(tags@[before.len() as int]@));
                }
            },
            None => {},
        }
        i += 1;
    }
    assert(vviews(ls@).take(i as int) =~= vviews(ls@));
    let mut versions: Vec<Version> = Vec::new();
    let mut k: usize = 0;
    assert(version_views(versions@) =~= Seq::<VersionTuple>::empty());
    assert(vviews(tags@).take(0) =~= Seq::<Seq<char>>::empty());
    assert(parsed_versions(vviews(tags@).take(0)) =~= Seq::<VersionTuple>::empty());
    while k < tags.len()
        invariant
            k <= tags@.len(),
            vviews(tags@) == listed_tags(lines(output@), prefix@),
            version_views(versions@).to_multiset() == parsed_versions(vviews(tags@).take(k as int)).to_multiset(),
            ascending(version_views(versions@)),
        decreases tags@.len() - k,
    {
        proof {
            let t = vviews(tags@).take(k + 1);
            assert(t.drop_last() =~= vviews(tags@).take(k as int));
            assert(t.last() == tags@[k as int]@);
        }
        let text = string_of(&tags[k]);
        match parse_version(text.as_str()) {
            Some(v) => {
                proof {
                    broadcast use vstd::seq_lib::to_multiset_build;
                    assert(parsed_versions(vviews(tags@).take(k + 1)) == parsed_versions(vviews(tags@).take(k as int)).push(v.view_tuple()));
                }
                insert_ascending(&mut versions, v);
            },
            None => {},
        }
        k += 1;
    }
    assert(vviews(tags@).take(k as int) =~= vviews(tags@));
    versions
}

/// Inserts a version after every version that does not order above it.
fn insert_ascending(versions: &mut Vec<Version>, v: Version)
    requires
        ascending(version_views(old(versions)@)),
    ensures
        ascending(version_views(final(versions)@)),
        version_views(final(versions)@).to_multiset() == version_views(old(versions)@).to_multiset().insert(v.view_tuple()),
{
    let ghost s = version_views(versions@);
    let mut k: usize = versions.len();
    while k > 0 && compare_versions(&v, &versions[k - 1]) < 0
        invariant
            k <= versions@.len(),
            s == version_views(versions@),
            ascending(s),
            k < versions@.len() ==> version_order(v.view_tuple(), s[k as int]) < 0,
        decreases k,
    {
        k -= 1;
    }
    proof {
        if k > 0 {
            assert(version_order(s[k - 1], v.view_tuple()) <= 0);
        }
    }
    let ghost x = v.view_tuple();
    versions.insert(k, v);
    proof {
        broadcast use vstd::seq_lib::to_multiset_insert;
        let s2 = version_views(versions@);
        assert(s2 =~= s.insert(k as int, x));
        assert forall|i: int| 0 <= i < s2.len() - 1 implies version_order(#[trigger] s2[i], s2[i + 1]) <= 0 by {
            if i < k - 1 {
                assert(s2[i] == s[i] && s2[i + 1] == s[i + 1]);
            } else if i == k - 1 {
            } else if i == k {
            } else {
                assert(s2[i] == s[i - 1] && s2[i + 1] == s[i]);
            }
        }
    }
}


/// The outcome of updating a backend.
#[derive(Clone, Copy, Debug, PartialEq, Eq, Structural)]
pub enum BackendUpdateStatus {
    Updated,
    UpToDate,
    Incompatible,
    Skipped,
}

/// What a backend update or upgrade did.
pub struct BackendUpdateReport {
    pub backend: String,
    pub status: BackendUpdateStatus,
    pub from_version: Option<String>,
    pub to_version: Option<String>,
    pub message: Option<String>,
}

/// The optional string's view.
pub open spec fn opt_text(o: Option<String>) -> Option<Seq<char>> {
    match o {
        Some(s) => Some(s@),
        None => None,
    }
}

impl BackendUpdateReport {
    /// A report for a backend with the given status and nothing else recorded.
    pub fn new(choice: BackendChoice, status: BackendUpdateStatus) -> (r: BackendUpdateReport)
        ensures
            r.backend@ == backend_label(choice),
            r.status == status,
            r.from_version is None,
            r.to_version is None,
            r.message is None,
    {
        BackendUpdateReport {
            backend: String::from_str(choice.label()),
            status,
            from_version: None,
            to_version: None,
            message: None,
        }
    }
}

/// The message and whether anything changed when the Android dev backend is
/// synchronised from commit `previous` to commit `current`.
pub open spec fn android_dev_outcome(previous: Option<Seq<char>>, current: Option<Seq<char>>) -> (Seq<char>, bool) {
    match (previous, current) {
        (Some(p), Some(n)) => if p == n {
            ("Android dev backend already at commit "@ + short_hash(n) + ". No changes applied."@, false)
        } else {
            ("Android dev backend updated ("@ + short_hash(p) + " → "@ + short_hash(n) + ")."@, true)
        },
        (None, Some(n)) => ("Android dev backend pinned to commit "@ + short_hash(n) + "."@, true),
        _ => ("Synchronized dev backend from the latest upstream commit."@, true),
    }
}

/// Describes a synchronisation of the Android dev backend.
pub fn android_dev_update_message(previous: &Option<String>, current: &Option<String>) -> (r: (String, bool))
    ensures
        (r.0@, r.1) == android_dev_outcome(opt_text(*previous), opt_text(*current)),
{
    match (previous, current) {
        (Some(p), Some(n)) => {
            if str_eq(p.as_str(), n.as_str()) {
                let mut m = String::from_str("Android dev backend already at commit ");
                m.append(short_commit(n.as_str()).as_str());
                m.append(". No changes applied.");
                (m, false)
            } else {
                let mut m = String::from_str("Android dev backend updated (");
                m.append(short_commit(p.as_str()).as_str());
                m.append(" → ");
                m.append(short_commit(n.as_str()).as_str());
                m.append(").");
                (m, true)
            }
        },
        (None, Some(n)) => {
            let mut m = String::from_str("Android dev backend pinned to commit ");
            m.append(short_commit(n.as_str()).as_str());
            m.append(".");
            (m, true)
        },
        _ => (String::from_str("Synchronized dev backend from the latest upstream commit."), true),
    }
}

/// The message and whether anything changed when the Apple dev backend is
/// pinned to `revision`, having been at `previous`.
pub open spec fn apple_dev_outcome(previous: Option<Seq<char>>, revision: Seq<char>) -> (Seq<char>, bool) {
    match previous {
        Some(p) => if p == revision {
            ("Apple dev backend already pinned to commit "@ + short_hash(revision) + ". No changes applied."@, false)
        } else {
            ("Apple dev backend updated ("@ + short_hash(p) + " → "@ + short_hash(revision) + ")."@, true)
        },
        None => ("Apple dev backend pinned to commit "@ + short_hash(revision) + "."@, true),
    }
}

/// Describes pinning the Apple dev backend to a revision.
pub fn apple_dev_update_message(previous: &Option<String>, revision: &str) -> (r: (String, bool))
    ensures
        (r.0@, r.1) == apple_dev_outcome(opt_text(*previous), revision@),
{
    match previous {
        Some(p) => {
            if str_eq(p.as_str(), revision) {
                let mut m = String::from_str("Apple dev backend already pinned to commit ");
                m.append(short_commit(revision).as_str());
                m.append(". No changes applied.");
                (m, false)
            } else {
                let mut m = String::from_str("Apple dev backend updated (");
                m.append(short_commit(p.as_str()).as_str());
                m.append(" → ");
                m.append(short_commit(revision).as_str());
                m.append(").");
                (m, true)
            }
        },
        None => {
            let mut m = String::from_str("Apple dev backend pinned to commit ");
            m.append(short_commit(revision).as_str());
            m.append(".");
            (m, true)
        },
    }
}

/// The warning for a newer release with another major version.
pub open spec fn breaking_release_message(choice: BackendChoice, newer: Seq<char>) -> Seq<char> {
    if choice == BackendChoice::Android {
        "A newer, potentially breaking Android backend (v"@ + newer + ") is available. Update the CLI to evaluate migrating."@
    } else {
        "A newer Apple backend major version (v"@ + newer + ") is available but may be incompatible. Update the CLI or review release notes before upgrading."@
    }
}

/// The plan for updating a released backend from version `current`, listed
/// as `current_text`: the release to install, if any, and the report.
pub open spec fn release_update_plan(
    choice: BackendChoice,
    current_text: Seq<char>,
    current: VersionTuple,
    available: Seq<VersionTuple>,
    install: Option<VersionTuple>,
    status: BackendUpdateStatus,
    from: Option<Seq<char>>,
    to: Option<Seq<char>>,
    message: Option<Seq<char>>,
) -> bool {
    let (compatible, incompatible) = select_versions(current, available);
    match compatible {
        Some(c) => install == Some(c) && status == BackendUpdateStatus::Updated && from == Some(current_text)
            && to == Some(version_text(c)) && message is None,
        None => install is None && from is None && to is None && match incompatible {
            Some(n) => status == BackendUpdateStatus::Incompatible && message == Some(breaking_release_message(choice, version_text(n))),
            None => status == BackendUpdateStatus::UpToDate && message is None,
        },
    }
}

/// Decides how to update a released backend: install the newest compatible
/// release, warn about a newer breaking one, or report it up to date.
pub fn plan_release_update(choice: BackendChoice, current_text: &str, current: &Version, available: &Vec<Version>)
    -> (r: (Option<Version>, BackendUpdateReport))
    ensures
        r.1.backend@ == backend_label(choice),
        release_update_plan(choice, current_text@, current.view_tuple(), version_views(available@),
            opt_version_view(r.0), r.1.status, opt_text(r.1.from_version), opt_text(r.1.to_version), opt_text(r.1.message)),
{
    let (compatible, incompatible) = select_compatible_version(current, available);
    match compatible {
        Some(c) => {
            let mut report = BackendUpdateReport::new(choice, BackendUpdateStatus::Updated);
            report.from_version = Some(String::from_str(current_text));
            report.to_version = Some(c.to_text());
            (Some(c), report)
        },
        None => {
            match incompatible {
                Some(n) => {
                    let mut report = BackendUpdateReport::new(choice, BackendUpdateStatus::Incompatible);
                    let newer = n.to_text();
                    let message = match choice {
                        BackendChoice::Android => {
                            let mut m = String::from_str("A newer, potentially breaking Android backend (v");
                            m.append(newer.as_str());
                            m.append(") is available. Update the CLI to evaluate migrating.");
                            m
                        },
                        _ => {
                            let mut m = String::from_str("A newer Apple backend major version (v");
                            m.append(newer.as_str());
                            m.append(") is available but may be incompatible. Update the CLI or review release notes before upgrading.");
                            m
                        },
                    };
                    report.message = Some(message);
                    (None, report)
                },
                None => (None, BackendUpdateReport::new(choice, BackendUpdateStatus::UpToDate)),
            }
        },
    }
}

/// The first position at or after `start` where `p` occurs in `s`.
pub open spec fn find_from(s: Seq<char>, p: Seq<char>, start: int) -> Option<int>
    decreases s.len() + 1 - start,
{
    if start < 0 || start + p.len() > s.len() {
        None
    } else if s.subrange(start, start + p.len()) == p {
        Some(start)
    } else {
        find_from(s, p, start + 1)
    }
}

/// The position just after the last newline before `end`, or 0.
pub open spec fn line_start(s: Seq<char>, end: int) -> int
    decreases end,
{
    if end <= 0 {
        0
    } else if s[end - 1] == '\n' {
        end
    } else {
        line_start(s, end - 1)
    }
}

fn find_chars_from(s: &Vec<char>, p: &Vec<char>, start: usize) -> (r: Option<usize>)
    requires
        start <= s@.len(),
    ensures
        r matches Some(i) ==> find_from(s@, p@, start as int) == Some(i as int) && i + p.len() <= s.len(),
        r is None ==> find_from(s@, p@, start as int) is None,
{
    if p.len() == 0 {
        assert(s@.subrange(start as int, start as int) =~= p@);
        return Some(start);
    }
    let mut i = start;
    while i <= s.len() && p.len() <= s.len() - i
        invariant
            p@.len() > 0,
            start <= i,
            i <= s@.len() + 1,
            find_from(s@, p@, start as int) == find_from(s@, p@, i as int),
        decreases s@.len() + 1 - i,
    {
        if occurs_at(s, i, p) {
            return Some(i);
        }
        i += 1;
    }
    None
}

fn line_start_of(s: &Vec<char>, end: usize) -> (r: usize)
    requires
        end <= s@.len(),
    ensures
        r == line_start(s@, end as int),
        r <= end,
{
    let mut e = end;
    while e > 0 && s[e - 1] != '\n'
        invariant
            e <= end <= s@.len(),
            line_start(s@, end as int) == line_start(s@, e as int),
        decreases e,
    {
        e -= 1;
    }
    e
}

/// How an Xcode project should depend on the Apple backend package.
pub enum SwiftRequirement {
    Branch(String),
    Release(String),
    Revision(String),
}

/// Why the Swift package requirement could not be rewritten.
#[derive(Clone, Copy, Debug, PartialEq, Eq, Structural)]
pub enum SwiftRewriteError {
    /// The project file names no package repository.
    MissingPackageReference,
    /// No requirement block follows the package repository.
    MissingRequirementBlock,
    /// The requirement block is not closed.
    MalformedRequirementBlock,
}

/// The requirement block for a requirement, indented like the one it replaces.
pub open spec fn requirement_block(indent: Seq<char>, req: SwiftRequirement) -> Seq<char> {
    match req {
        SwiftRequirement::Branch(b) => indent + "requirement = {\n"@ + indent + "\tkind = branch;\n"@ + indent + "\tbranch = \""@ + b@ + "\";\n"@ + indent + "};\n"@,
        SwiftRequirement::Release(v) => indent + "requirement = {\n"@ + indent + "\tkind = upToNextMajorVersion;\n"@ + indent + "\tminimumVersion = \""@ + v@ + "\";\n"@ + indent + "};\n"@,
        SwiftRequirement::Revision(r) => indent + "requirement = {\n"@ + indent + "\tkind = revision;\n"@ + indent + "\trevision = \""@ + r@ + "\";\n"@ + indent + "};\n"@,
    }
}

/// The project file with the first requirement block after the package
/// repository replaced, from its line's start up to and including its
/// closing `};`, by the block for `req`.
pub open spec fn rewritten_requirement(contents: Seq<char>, req: SwiftRequirement) -> Result<Seq<char>, SwiftRewriteError> {
    match find_from(contents, "repositoryURL"@, 0) {
        None => Err(SwiftRewriteError::MissingPackageReference),
        Some(repo) => match find_from(contents, "requirement = {"@, repo) {
            None => Err(SwiftRewriteError::MissingRequirementBlock),
            Some(req_idx) => match find_from(contents, "};"@, req_idx) {
                None => Err(SwiftRewriteError::MalformedRequirementBlock),
                Some(close) => {
                    let start = line_start(contents, req_idx);
                    Ok(contents.take(req_idx) + requirement_block(contents.subrange(start, req_idx), req) + contents.skip(close + 2))
                },
            },
        },
    }
}

/// Rewrites the Swift package requirement in the text of a `project.pbxproj`.
pub fn rewrite_swift_requirement(contents: &str, requirement: SwiftRequirement) -> (r: Result<String, SwiftRewriteError>)
    ensures
        match (r, rewritten_requirement(contents@, requirement)) {
            (Ok(t), Ok(u)) => t@ == u,
            (Err(e), Err(f)) => e == f,
            _ => false,
        },
{
    let s = chars_of(contents);
    let repo_marker = chars_of("repositoryURL");
    let req_marker = chars_of("requirement = {");
    let close_marker = chars_of("};");
    let repo_idx = match find_chars_from(&s, &repo_marker, 0) {
        None => return Err(SwiftRewriteError::MissingPackageReference),
        Some(i) => i,
    };
    let req_idx = match find_chars_from(&s, &req_marker, repo_idx) {
        None => return Err(SwiftRewriteError::MissingRequirementBlock),
        Some(i) => i,
    };
    proof {
        reveal_strlit("};");
    }
    assert(close_marker@.len() == 2);
    let close = match find_chars_from(&s, &close_marker, req_idx) {
        None => return Err(SwiftRewriteError::MalformedRequirementBlock),
        Some(i) => i,
    };
    assert(close + close_marker.len() <= s.len());
    let block_end = close + close_marker.len();
    let indent_start = line_start_of(&s, req_idx);
    let mut indent_chars: Vec<char> = Vec::new();
    let mut k = indent_start;
    while k < req_idx
        invariant
            indent_start <= k <= req_idx <= s@.len(),
            indent_chars@ == s@.subrange(indent_start as int, k as int),
        decreases req_idx - k,
    {
        indent_chars.push(s[k]);
        k += 1;
        assert(indent_chars@ =~= s@.subrange(indent_start as int, k as int));
    }
    let indent = string_of(&indent_chars);
    let ind = indent.as_str();
    let mut block = String::from_str(ind);
    block.append("requirement = {\n");
    block.append(ind);
    match &requirement {
        SwiftRequirement::Branch(b) => {
            block.append("\tkind = branch;\n");
            block.append(ind);
            block.append("\tbranch = \"");
            block.append(b.as_str());
        },
        SwiftRequirement::Release(v) => {
            block.append("\tkind = upToNextMajorVersion;\n");
            block.append(ind);
            block.append("\tminimumVersion = \"");
            block.append(v.as_str());
        },
        SwiftRequirement::Revision(rv) => {
            block.append("\tkind = revision;\n");
            block.append(ind);
            block.append("\trevision = \"");
            block.append(rv.as_str());
        },
    }
    block.append("\";\n");
    block.append(ind);
    block.append("};\n");
    let mut out: Vec<char> = Vec::new();
    let mut j: usize = 0;
    while j < req_idx
        invariant
            j <= req_idx <= s@.len(),
            out@ == s@.take(j as int),
        decreases req_idx - j,
    {
        out.push(s[j]);
        j += 1;
        assert(out@ =~= s@.take(j as int));
    }
    let block_chars = chars_of(block.as_str());
    push_all(&mut out, &block_chars);
    let tail = chars_from(&s, block_end);
    push_all(&mut out, &tail);
    Ok(string_of(&out))
}


/// What the project configuration records about one backend.
pub struct BackendSettings {
    pub dev: bool,
    pub version: Option<String>,
    pub revision: Option<String>,
    pub branch: Option<String>,
    pub project_path: String,
}

/// One configured backend, as `backend list` reports it.
pub struct BackendListEntry {
    pub backend: String,
    pub version: Option<String>,
    pub dev: bool,
    pub targets: Vec<String>,
    pub project_path: String,
}

/// The configured backends of a project.
pub struct BackendListReport {
    pub entries: Vec<BackendListEntry>,
}

/// The version shown for a backend: for a dev install of the Apple backend
/// its revision, else its branch, else `dev`; for a dev install of the
/// Android backend `dev`; otherwise the recorded release.
pub open spec fn listed_version(choice: BackendChoice, b: BackendSettings) -> Option<Seq<char>> {
    if b.dev && choice == BackendChoice::Apple {
        match b.revision {
            Some(r) => Some(r@),
            None => match b.branch {
                Some(br) => Some(br@),
                None => Some("dev"@),
            },
        }
    } else if b.dev && choice == BackendChoice::Android {
        Some("dev"@)
    } else {
        opt_text(b.version)
    }
}

/// The list entry of a configured backend.
pub open spec fn entry_matches(e: BackendListEntry, choice: BackendChoice, b: BackendSettings, dev_dependencies: bool) -> bool {
    &&& e.backend@ == backend_label(choice)
    &&& opt_text(e.version) == listed_version(choice, b)
    &&& e.dev == (b.dev || dev_dependencies)
    &&& views(e.targets@) == backend_target_names(choice)
    &&& e.project_path@ == b.project_path@
}

fn clone_opt(o: &Option<String>) -> (r: Option<String>)
    ensures
        opt_text(r) == opt_text(*o),
{
    match o {
        Some(s) => Some(s.clone()),
        None => None,
    }
}

fn list_entry(choice: BackendChoice, b: &BackendSettings, dev_dependencies: bool) -> (e: BackendListEntry)
    ensures
        entry_matches(e, choice, *b, dev_dependencies),
{
    let version = if b.dev && choice == BackendChoice::Apple {
        match &b.revision {
            Some(r) => Some(r.clone()),
            None => match &b.branch {
                Some(br) => Some(br.clone()),
                None => Some(String::from_str("dev")),
            },
        }
    } else if b.dev && choice == BackendChoice::Android {
        Some(String::from_str("dev"))
    } else {
        clone_opt(&b.version)
    };
    BackendListEntry {
        backend: String::from_str(choice.label()),
        version,
        dev: b.dev || dev_dependencies,
        targets: backend_targets(choice),
        project_path: b.project_path.clone(),
    }
}

/// The configured backends of a project, in the order Apple, Android, Web;
/// backends that are not configured are left out.
pub fn list_entries(
    swift: &Option<BackendSettings>,
    android: &Option<BackendSettings>,
    web: &Option<BackendSettings>,
    dev_dependencies: bool,
) -> (r: BackendListReport)
    ensures
        r.entries@.len() == (if swift is Some { 1int } else { 0 }) + (if android is Some { 1int } else { 0 }) + (if web is Some { 1int } else { 0 }),
        *swift matches Some(b) ==> entry_matches(r.entries@[0], BackendChoice::Apple, b, dev_dependencies),
        *android matches Some(b) ==> entry_matches(r.entries@[if swift is Some { 1int } else { 0 }], BackendChoice::Android, b, dev_dependencies),
        *web matches Some(b) ==> entry_matches(r.entries@[r.entries@.len() - 1], BackendChoice::Web, b, dev_dependencies),
{
    let mut entries: Vec<BackendListEntry> = Vec::new();
    if let Some(b) = swift {
        entries.push(list_entry(BackendChoice::Apple, b, dev_dependencies));
    }
    if let Some(b) = android {
        entries.push(list_entry(BackendChoice::Android, b, dev_dependencies));
    }
    if let Some(b) = web {
        entries.push(list_entry(BackendChoice::Web, b, dev_dependencies));
    }
    BackendListReport { entries }
}

/// A dependency entry of `Cargo.toml`, as far as the version check reads it.
pub enum ManifestDependency {
    /// No such dependency.
    Missing,
    /// A plain version string.
    Text(String),
    /// A table: whether it has a `git` key, and its `version` if that is a string.
    Table { has_git: bool, version: Option<String> },
    /// Any other value.
    Other,
}

/// What the version check knows of a dependency.
pub enum DependencySpec {
    Version(Version),
    Git,
    Other,
    Missing,
}

/// The dependency kind a manifest entry gives: a parsable version, a git
/// dependency, an entry that cannot be read, or none.
pub open spec fn dependency_kind(d: ManifestDependency) -> Option<Option<VersionTuple>> {
    match d {
        ManifestDependency::Missing => None,
        ManifestDependency::Text(t) => Some(semver_parse(t@)),
        ManifestDependency::Table { has_git, version } => if has_git {
            Some(None)
        } else {
            match version {
                Some(v) => Some(semver_parse(v@)),
                None => Some(None),
            }
        },
        ManifestDependency::Other => Some(None),
    }
}

/// Classifies a dependency entry.
pub fn dependency_spec_from_value(value: &ManifestDependency) -> (r: DependencySpec)
    ensures
        *value is Missing <==> r is Missing,
        (*value matches ManifestDependency::Table { has_git, .. } && has_git) <==> r is Git,
        r matches DependencySpec::Version(v) ==> dependency_kind(*value) == Some(Some(v.view_tuple())),
        r is Other ==> dependency_kind(*value) == Some(None::<VersionTuple>) && !(*value matches ManifestDependency::Table { has_git, .. } && has_git),
        dependency_kind(*value) matches Some(Some(_)) ==> r is Version,
{
    match value {
        ManifestDependency::Missing => DependencySpec::Missing,
        ManifestDependency::Text(t) => match parse_version(t.as_str()) {
            Some(v) => DependencySpec::Version(v),
            None => DependencySpec::Other,
        },
        ManifestDependency::Table { has_git, version } => {
            if *has_git {
                DependencySpec::Git
            } else {
                match version {
                    Some(t) => match parse_version(t.as_str()) {
                        Some(v) => DependencySpec::Version(v),
                        None => DependencySpec::Other,
                    },
                    None => DependencySpec::Other,
                }
            }
        },
        ManifestDependency::Other => DependencySpec::Other,
    }
}

/// What to do about the `waterui-ffi` dependency before a backend upgrade.
pub enum FfiCompatDecision {
    /// The dependency already satisfies the backend.
    Compatible,
    /// The check cannot tell; the upgrade goes on with this warning.
    Unknown(String),
    /// The dependencies must be updated but the user has not confirmed it.
    ConfirmationRequired(String),
    /// The dependencies are to be updated, after asking this question
    /// unless the user confirmed beforehand.
    Upgrade(Option<String>),
}

/// The decision on the `waterui-ffi` dependency.
pub open spec fn ffi_decision_spec(
    kind: Option<Option<VersionTuple>>,
    has_git: bool,
    required: VersionTuple,
    label: Seq<char>,
    json: bool,
    yes: bool,
    latest: Seq<char>,
    d: FfiCompatDecision,
) -> bool {
    match kind {
        None => d matches FfiCompatDecision::Unknown(m) && m@ == "waterui-ffi dependency not found in Cargo.toml; skipping compatibility check."@,
        Some(None) => if has_git {
            d is Compatible
        } else {
            d matches FfiCompatDecision::Unknown(m) && m@ == "Unable to determine waterui-ffi version in Cargo.toml; skipping compatibility check."@
        },
        Some(Some(v)) => if compatible_with(v, required) {
            d is Compatible
        } else if json && !yes {
            d matches FfiCompatDecision::ConfirmationRequired(m)
                && m@ == label + " backend upgrade requires updating Cargo dependencies. Re-run with --yes to confirm."@
        } else if yes {
            d matches FfiCompatDecision::Upgrade(q) && q is None
        } else {
            d matches FfiCompatDecision::Upgrade(q) && q matches Some(t)
                && t@ == label + " backend requires waterui-ffi v"@ + version_text(required) + ". Update waterui and waterui-ffi to v"@ + latest + "?"@
        },
    }
}

/// Decides whether the project's `waterui-ffi` dependency must be updated
/// for a backend that requires `required`; `latest` is the version the
/// dependencies would be updated to.
pub fn ffi_compat_decision(dependency: &ManifestDependency, required: &Version, choice: BackendChoice, json: bool, yes: bool, latest: &str)
    -> (r: FfiCompatDecision)
    ensures
        ffi_decision_spec(dependency_kind(*dependency),
            *dependency matches ManifestDependency::Table { has_git, .. } && has_git,
            required.view_tuple(), backend_label(choice), json, yes, latest@, r),
{
    let spec = dependency_spec_from_value(dependency);
    match spec {
        DependencySpec::Version(v) => {
            if semver_compatible(&v, required) {
                FfiCompatDecision::Compatible
            } else if json && !yes {
                let mut m = String::from_str(choice.label());
                m.append(" backend upgrade requires updating Cargo dependencies. Re-run with --yes to confirm.");
                FfiCompatDecision::ConfirmationRequired(m)
            } else if yes {
                FfiCompatDecision::Upgrade(None)
            } else {
                let mut q = String::from_str(choice.label());
                q.append(" backend requires waterui-ffi v");
                q.append(required.to_text().as_str());
                q.append(". Update waterui and waterui-ffi to v");
                q.append(latest);
                q.append("?");
                FfiCompatDecision::Upgrade(Some(q))
            }
        },
        DependencySpec::Git => FfiCompatDecision::Compatible,
        DependencySpec::Other => FfiCompatDecision::Unknown(String::from_str("Unable to determine waterui-ffi version in Cargo.toml; skipping compatibility check.")),
        DependencySpec::Missing => FfiCompatDecision::Unknown(String::from_str("waterui-ffi dependency not found in Cargo.toml; skipping compatibility check.")),
    }
}


/// The release chosen for an update is newer than the installed one and has
/// its major version; the release reported as possibly breaking is newer and
/// has another major version; both are among the available releases.
pub proof fn lemma_selected_versions(current: VersionTuple, available: Seq<VersionTuple>)
    ensures
        select_versions(current, available).0 matches Some(c) ==> version_order(c, current) > 0 && c.0 == current.0 && available.contains(c),
        select_versions(current, available).1 matches Some(c) ==> version_order(c, current) > 0 && c.0 != current.0 && available.contains(c),
    decreases available.len(),
{
    if available.len() > 0 {
        let rest = available.drop_last();
        lemma_selected_versions(current, rest);
        let c = available.last();
        assert(available[available.len() - 1] == c);
        assert forall|x: VersionTuple| rest.contains(x) implies available.contains(x) by {
            let i = choose|i: int| 0 <= i < rest.len() && rest[i] == x;
            assert(available[i] == x);
        }
    }
}

/// Whether the numeric part of `a` (major, minor, patch) is at most that
/// of `b`, compared component by component from the major version down.
pub open spec fn core_at_most(a: VersionTuple, b: VersionTuple) -> bool {
    a.0 < b.0 || (a.0 == b.0 && (a.1 < b.1 || (a.1 == b.1 && a.2 <= b.2)))
}

proof fn lemma_order_core(a: VersionTuple, b: VersionTuple)
    ensures
        version_order(a, b) > 0 ==> core_at_most(b, a),
        version_order(a, b) <= 0 ==> core_at_most(a, b),
{
}

/// Updating picks the newest releases: of the available releases newer
/// than `current`, the one chosen to install has the highest version number
/// among those with the current major version, and the one reported as
/// potentially breaking has the highest version number among those with
/// another major version; each is chosen whenever such a release exists.
pub proof fn lemma_selected_newest(current: VersionTuple, available: Seq<VersionTuple>)
    ensures
        forall|i: int| 0 <= i < available.len() && version_order(#[trigger] available[i], current) > 0 && available[i].0 == current.0
            ==> (select_versions(current, available).0 matches Some(c) && core_at_most(available[i], c)),
        forall|i: int| 0 <= i < available.len() && version_order(#[trigger] available[i], current) > 0 && available[i].0 != current.0
            ==> (select_versions(current, available).1 matches Some(c) && core_at_most(available[i], c)),
    decreases available.len(),
{
    if available.len() > 0 {
        let rest = available.drop_last();
        lemma_selected_newest(current, rest);
        let (cp, ic) = select_versions(current, rest);
        let last = available.last();
        match cp {
            Some(b) => lemma_order_core(last, b),
            None => {},
        }
        match ic {
            Some(b) => lemma_order_core(last, b),
            None => {},
        }
        assert forall|i: int| 0 <= i < available.len() && version_order(#[trigger] available[i], current) > 0 && available[i].0 == current.0
            implies (select_versions(current, available).0 matches Some(c) && core_at_most(available[i], c)) by {
            if i < rest.len() {
                assert(available[i] == rest[i]);
            }
        }
        assert forall|i: int| 0 <= i < available.len() && version_order(#[trigger] available[i], current) > 0 && available[i].0 != current.0
            implies (select_versions(current, available).1 matches Some(c) && core_at_most(available[i], c)) by {
            if i < rest.len() {
                assert(available[i] == rest[i]);
            }
        }
    }
}

/// Each release tag is listed once.
pub proof fn lemma_listed_tags_distinct(lines: Seq<Seq<char>>, prefix: Seq<char>)
    ensures
        forall|i: int, j: int| 0 <= i < j < listed_tags(lines, prefix).len()
            ==> listed_tags(lines, prefix)[i] != listed_tags(lines, prefix)[j],
    decreases lines.len(),
{
    if lines.len() > 0 {
        lemma_listed_tags_distinct(lines.drop_last(), prefix);
        let q = listed_tags(lines.drop_last(), prefix);
        if let Some(t) = line_tag(lines.last(), prefix) {
            if !q.contains(t) {
                assert forall|i: int| 0 <= i < q.len() implies q[i] != t by {
                    if q[i] == t {
                        assert(q.contains(t));
                    }
                }
            }
        }
    }
}

/// The newest listed release of a backend, the last of the ascending list;
/// an error when there is none.
pub fn latest_release(choice: BackendChoice, available: &Vec<Version>) -> (r: Result<Version, String>)
    ensures
        available@.len() == 0 ==> (r matches Err(m) && m@ == "No "@ + backend_label(choice) + " backend releases available"@),
        available@.len() > 0 ==> (r matches Ok(v) && v.view_tuple() == available@.last().view_tuple()),
{
    if available.len() == 0 {
        let mut m = String::from_str("No ");
        m.append(choice.label());
        m.append(" backend releases available");
        Err(m)
    } else {
        Ok(available[available.len() - 1].duplicate())
    }
}

/// How the check of the project's `waterui-ffi` dependency ended.
pub enum UpgradeOutcome {
    /// Nothing had to change.
    Compatible,
    /// The dependencies were updated, as the message says.
    Upgraded(String),
    /// The user declined, as the message says.
    Cancelled(String),
}

/// The report of an upgrade to the latest release, and whether the upgrade
/// goes ahead: skipped with the message when the dependency update was
/// declined, otherwise updated from the recorded version to the latest,
/// with the dependency message if there was one.
pub fn upgrade_report(choice: BackendChoice, previous: Option<String>, latest: &Version, outcome: UpgradeOutcome) -> (r: (bool, BackendUpdateReport))
    ensures
        r.1.backend@ == backend_label(choice),
        match outcome {
            UpgradeOutcome::Cancelled(m) => !r.0 && r.1.status == BackendUpdateStatus::Skipped
                && opt_text(r.1.message) == Some(m@) && r.1.from_version is None && r.1.to_version is None,
            UpgradeOutcome::Upgraded(m) => r.0 && r.1.status == BackendUpdateStatus::Updated
                && opt_text(r.1.from_version) == opt_text(previous)
                && opt_text(r.1.to_version) == Some(version_text(latest.view_tuple()))
                && opt_text(r.1.message) == Some(m@),
            UpgradeOutcome::Compatible => r.0 && r.1.status == BackendUpdateStatus::Updated
                && opt_text(r.1.from_version) == opt_text(previous)
                && opt_text(r.1.to_version) == Some(version_text(latest.view_tuple()))
                && r.1.message is None,
        },
{
    match outcome {
        UpgradeOutcome::Cancelled(m) => {
            let mut report = BackendUpdateReport::new(choice, BackendUpdateStatus::Skipped);
            report.message = Some(m);
            (false, report)
        },
        UpgradeOutcome::Upgraded(m) => {
            let mut report = BackendUpdateReport::new(choice, BackendUpdateStatus::Updated);
            report.from_version = previous;
            report.to_version = Some(latest.to_text());
            report.message = Some(m);
            (true, report)
        },
        UpgradeOutcome::Compatible => {
            let mut report = BackendUpdateReport::new(choice, BackendUpdateStatus::Updated);
            report.from_version = previous;
            report.to_version = Some(latest.to_text());
            (true, report)
        },
    }
}

/// Why `backend update` or `backend upgrade` refuses a project in local dev
/// mode: its backends come from the checkout at `path`.
pub open spec fn dev_mode_refusal(verb: Seq<char>, path: Seq<char>) -> Seq<char> {
    "Backend "@ + verb + " is not available for projects using local dev mode.\n\nYour project is configured with a local WaterUI repository path at:\n  "@
        + path + "\n\nIn local dev mode, backends are referenced directly from the WaterUI repository.\nTo update backends, simply pull the latest changes in your WaterUI repository:\n\ncd "@
        + path + "\ngit pull\ngit submodule update --recursive"@
}

/// What `backend update` (or, with `upgrade`, `backend upgrade`) says before
/// touching anything: projects in local dev mode are refused, then the web
/// backend, which has nothing to update.
pub open spec fn backend_change_refusal(waterui_path: Option<Seq<char>>, backend: BackendChoice, upgrade: bool) -> Option<Seq<char>> {
    let verb = if upgrade { "upgrade"@ } else { "update"@ };
    match waterui_path {
        Some(p) => Some(dev_mode_refusal(verb, p)),
        None => if backend == BackendChoice::Web {
            Some(if upgrade {
                "Web backend upgrade is not supported yet."@
            } else {
                "Web backend update is not supported yet. Please update the CLI when a new template is available."@
            })
        } else {
            None
        },
    }
}

/// Checks whether a backend of a project may be updated or upgraded, from the
/// local checkout the project names, if any.
pub fn backend_change_precheck(waterui_path: &Option<String>, backend: BackendChoice, upgrade: bool) -> (r: Result<(), String>)
    ensures
        r is Ok <==> backend_change_refusal(opt_text(*waterui_path), backend, upgrade) is None,
        r matches Err(m) ==> backend_change_refusal(opt_text(*waterui_path), backend, upgrade) == Some(m@),
{
    match waterui_path {
        Some(p) => {
            let mut m = String::from_str("Backend ");
            m.append(if upgrade { "upgrade" } else { "update" });
            m.append(" is not available for projects using local dev mode.\n\nYour project is configured with a local WaterUI repository path at:\n  ");
            m.append(p.as_str());
            m.append("\n\nIn local dev mode, backends are referenced directly from the WaterUI repository.\nTo update backends, simply pull the latest changes in your WaterUI repository:\n\ncd ");
            m.append(p.as_str());
            m.append("\ngit pull\ngit submodule update --recursive");
            Err(m)
        },
        None => match backend {
            BackendChoice::Web => if upgrade {
                Err(String::from_str("Web backend upgrade is not supported yet."))
            } else {
                Err(String::from_str("Web backend update is not supported yet. Please update the CLI when a new template is available."))
            },
            _ => Ok(()),
        },
    }
}

/// The branch the Apple dev backend follows: the recorded one, else `dev`.
pub open spec fn apple_dev_branch_of(settings: BackendSettings) -> Seq<char> {
    match settings.branch {
        Some(b) => b@,
        None => "dev"@,
    }
}

/// The branch whose head the Apple dev backend is pinned to.
pub fn apple_dev_branch(settings: &BackendSettings) -> (r: String)
    ensures
        r@ == apple_dev_branch_of(*settings),
{
    match &settings.branch {
        Some(b) => b.clone(),
        None => String::from_str("dev"),
    }
}

/// Pins the Apple dev backend to `revision`, the head of its branch: the
/// saved settings keep the project path, record the branch and the revision
/// and no release, and are in dev mode; the report goes from the previous
/// revision to this one, `Updated` when it moved and `UpToDate` otherwise.
pub fn apple_dev_update(settings: &BackendSettings, revision: &str) -> (r: (BackendSettings, BackendUpdateReport))
    ensures
        r.0.project_path@ == settings.project_path@,
        r.0.dev,
        r.0.version is None,
        opt_text(r.0.revision) == Some(revision@),
        opt_text(r.0.branch) == Some(apple_dev_branch_of(*settings)),
        r.1.backend@ == backend_label(BackendChoice::Apple),
        opt_text(r.1.from_version) == opt_text(settings.revision),
        opt_text(r.1.to_version) == Some(revision@),
        opt_text(r.1.message) == Some(apple_dev_outcome(opt_text(settings.revision), revision@).0),
        r.1.status == (if apple_dev_outcome(opt_text(settings.revision), revision@).1 {
            BackendUpdateStatus::Updated
        } else {
            BackendUpdateStatus::UpToDate
        }),
{
    let (message, changed) = apple_dev_update_message(&settings.revision, revision);
    let status = if changed { BackendUpdateStatus::Updated } else { BackendUpdateStatus::UpToDate };
    let mut report = BackendUpdateReport::new(BackendChoice::Apple, status);
    report.from_version = clone_opt(&settings.revision);
    report.to_version = Some(String::from_str(revision));
    report.message = Some(message);
    let saved = BackendSettings {
        dev: true,
        version: None,
        revision: Some(String::from_str(revision)),
        branch: Some(apple_dev_branch(settings)),
        project_path: settings.project_path.clone(),
    };
    (saved, report)
}

/// The recorded release of the Apple backend, parsed: refused when none is
/// recorded or when it is not a semantic version.
pub fn apple_current_release(settings: &BackendSettings) -> (r: Result<(String, Version), String>)
    ensures
        settings.version is None ==> (r matches Err(m) && m@ == "Apple backend version is unknown. Re-create the backend to refresh metadata."@),
        settings.version matches Some(v) ==> match semver_parse(v@) {
            None => r matches Err(m) && m@ == "failed to parse Apple backend version "@ + v@,
            Some(t) => r matches Ok((text, parsed)) && text@ == v@ && parsed.view_tuple() == t,
        },
{
    match &settings.version {
        None => Err(String::from_str("Apple backend version is unknown. Re-create the backend to refresh metadata.")),
        Some(v) => match parse_version(v.as_str()) {
            None => {
                let mut m = String::from_str("failed to parse Apple backend version ");
                m.append(v.as_str());
                Err(m)
            },
            Some(parsed) => Ok((v.clone(), parsed)),
        },
    }
}

/// The Apple backend settings saved after a release update: when a release
/// is installed they record it and leave dev mode, the branch and the
/// revision; otherwise they stay as they were.
pub fn apple_release_settings(settings: &BackendSettings, install: &Option<Version>) -> (r: BackendSettings)
    ensures
        r.project_path@ == settings.project_path@,
        install matches Some(v) ==> opt_text(r.version) == Some(version_text(v.view_tuple())) && !r.dev
            && r.branch is None && r.revision is None,
        install is None ==> opt_text(r.version) == opt_text(settings.version) && r.dev == settings.dev
            && opt_text(r.branch) == opt_text(settings.branch) && opt_text(r.revision) == opt_text(settings.revision),
{
    match install {
        Some(v) => BackendSettings {
            dev: false,
            version: Some(v.to_text()),
            revision: None,
            branch: None,
            project_path: settings.project_path.clone(),
        },
        None => BackendSettings {
            dev: settings.dev,
            version: clone_opt(&settings.version),
            revision: clone_opt(&settings.revision),
            branch: clone_opt(&settings.branch),
            project_path: settings.project_path.clone(),
        },
    }
}

} // verus!
