//! Toolchain checks and installations: what is reported when a toolchain is
//! missing, how installation steps are collected into a report, and the
//! checks for the CMake and web toolchains.

use vstd::prelude::*;
use crate::text::{join, joined, str_eq, chars_of, lines, split_lines, trim_chars, trimmed, views, vviews, same_chars};

verus! {

/// A toolchain that cannot be fixed automatically.
pub struct UnfixableToolchain {
    message: String,
    suggestion: String,
}

impl UnfixableToolchain {
    /// Why the toolchain cannot be fixed.
    pub closed spec fn message_view(&self) -> Seq<char> {
        self.message@
    }

    /// How to fix the toolchain by hand.
    pub closed spec fn suggestion_view(&self) -> Seq<char> {
        self.suggestion@
    }

    /// Creates the error from its message and suggestion.
    pub fn new(message: &str, suggestion: &str) -> (r: UnfixableToolchain)
        ensures
            r.message_view() == message@,
            r.suggestion_view() == suggestion@,
    {
        UnfixableToolchain { message: String::from_str(message), suggestion: String::from_str(suggestion) }
    }

    /// Why the toolchain cannot be fixed.
    pub fn message(&self) -> (r: &str)
        ensures
            r@ == self.message_view(),
    {
        self.message.as_str()
    }

    /// How to fix the toolchain by hand.
    pub fn suggestion(&self) -> (r: &str)
        ensures
            r@ == self.suggestion_view(),
    {
        self.suggestion.as_str()
    }

    /// The error as it is displayed.
    pub fn to_text(&self) -> (r: String)
        ensures
            r@ == "Unfixable toolchain: "@ + self.message_view() + "\n Suggestion: "@ + self.suggestion_view(),
    {
        let mut r = String::from_str("Unfixable toolchain: ");
        r.append(self.message.as_str());
        r.append("\n Suggestion: ");
        r.append(self.suggestion.as_str());
        r
    }
}

/// The state of a toolchain that is not ready.
pub enum ToolchainError<I> {
    /// The toolchain cannot be fixed automatically.
    Unfixable(UnfixableToolchain),
    /// The toolchain is missing components that this installation provides.
    Fixable(I),
}

impl<I> ToolchainError<I> {
    /// Whether the toolchain can be fixed automatically.
    pub fn is_fixable(&self) -> (r: bool)
        ensures
            r == (self is Fixable),
    {
        match self {
            ToolchainError::Fixable(_) => true,
            ToolchainError::Unfixable(_) => false,
        }
    }

    /// A toolchain that the installation fixes.
    pub fn fixable(install: I) -> (r: ToolchainError<I>)
        ensures
            r == ToolchainError::<I>::Fixable(install),
    {
        ToolchainError::Fixable(install)
    }

    /// A toolchain that cannot be fixed automatically.
    pub fn unfixable(message: &str, suggestion: &str) -> (r: ToolchainError<I>)
        ensures
            r matches ToolchainError::Unfixable(u) && u.message_view() == message@ && u.suggestion_view() == suggestion@,
    {
        ToolchainError::Unfixable(UnfixableToolchain::new(message, suggestion))
    }
}

/// What an installation report holds: the completed steps and the warnings.
pub type ReportView = (Seq<Seq<char>>, Seq<Seq<char>>);

/// Two reports combined: the steps and the warnings of the first, then those of the second.
pub open spec fn merged(a: ReportView, b: ReportView) -> ReportView {
    (a.0 + b.0, a.1 + b.1)
}

/// The steps an installation completed and the warnings it raised.
pub struct InstallationReport {
    pub completed: Vec<String>,
    pub warnings: Vec<String>,
}

impl InstallationReport {
    /// The report as plain values.
    pub open spec fn view_pair(&self) -> ReportView {
        (views(self.completed@), views(self.warnings@))
    }

    /// A report with no step and no warning.
    pub fn empty() -> (r: InstallationReport)
        ensures
            r.view_pair() == (Seq::<Seq<char>>::empty(), Seq::<Seq<char>>::empty()),
    {
        let r = InstallationReport { completed: Vec::new(), warnings: Vec::new() };
        assert(r.view_pair().0 =~= Seq::<Seq<char>>::empty());
        assert(r.view_pair().1 =~= Seq::<Seq<char>>::empty());
        r
    }

    /// A report of one completed step.
    pub fn completed(step: &str) -> (r: InstallationReport)
        ensures
            r.view_pair() == (seq![step@], Seq::<Seq<char>>::empty()),
    {
        let mut completed: Vec<String> = Vec::new();
        completed.push(String::from_str(step));
        let r = InstallationReport { completed, warnings: Vec::new() };
        assert(r.view_pair().0 =~= seq![step@]);
        assert(r.view_pair().1 =~= Seq::<Seq<char>>::empty());
        r
    }

    /// Records a completed step.
    pub fn add_completed(&mut self, step: &str)
        ensures
            final(self).view_pair() == (old(self).view_pair().0.push(step@), old(self).view_pair().1),
    {
        self.completed.push(String::from_str(step));
        assert(views(self.completed@) =~= views(old(self).completed@).push(step@));
    }

    /// Records a warning.
    pub fn add_warning(&mut self, warning: &str)
        ensures
            final(self).view_pair() == (old(self).view_pair().0, old(self).view_pair().1.push(warning@)),
    {
        self.warnings.push(String::from_str(warning));
        assert(views(self.warnings@) =~= views(old(self).warnings@).push(warning@));
    }

    /// Appends the steps and warnings of another report.
    pub fn merge(&mut self, other: InstallationReport)
        ensures
            final(self).view_pair() == merged(old(self).view_pair(), other.view_pair()),
    {
        let mut c = other.completed;
        let mut w = other.warnings;
        self.completed.append(&mut c);
        self.warnings.append(&mut w);
        assert(views(self.completed@) =~= views(old(self).completed@) + views(other.completed@));
        assert(views(self.warnings@) =~= views(old(self).warnings@) + views(other.warnings@));
    }

    /// The report as it is displayed: `Nothing installed`, or one line per
    /// completed step and then one per warning.
    pub fn to_text(&self) -> (r: String)
        ensures
            r@ == report_text(self.view_pair()),
    {
        if self.completed.len() == 0 && self.warnings.len() == 0 {
            return String::from_str("Nothing installed");
        }
        let mut r = String::new();
        let mut i: usize = 0;
        while i < self.completed.len()
            invariant
                i <= self.completed@.len(),
                r@ == bullet_lines(views(self.completed@).take(i as int), "  ✓ "@),
            decreases self.completed@.len() - i,
        {
            r.append("  ✓ ");
            r.append(self.completed[i].as_str());
            r.append("\n");
            i += 1;
            assert(views(self.completed@).take(i as int).drop_last() =~= views(self.completed@).take(i - 1));
        }
        assert(views(self.completed@).take(i as int) =~= views(self.completed@));
        let ghost head = r@;
        let mut k: usize = 0;
        while k < self.warnings.len()
            invariant
                k <= self.warnings@.len(),
                r@ == head + bullet_lines(views(self.warnings@).take(k as int), "  ⚠ "@),
            decreases self.warnings@.len() - k,
        {
            r.append("  ⚠ ");
            r.append(self.warnings[k].as_str());
            r.append("\n");
            k += 1;
            assert(views(self.warnings@).take(k as int).drop_last() =~= views(self.warnings@).take(k - 1));
        }
        assert(views(self.warnings@).take(k as int) =~= views(self.warnings@));
        r
    }
}

/// Each item on a line of its own, after the marker.
pub open spec fn bullet_lines(items: Seq<Seq<char>>, marker: Seq<char>) -> Seq<char>
    decreases items.len(),
{
    if items.len() == 0 {
        Seq::empty()
    } else {
        bullet_lines(items.drop_last(), marker) + marker + items.last() + "\n"@
    }
}

/// The displayed text of a report.
pub open spec fn report_text(r: ReportView) -> Seq<char> {
    if r.0.len() == 0 && r.1.len() == 0 {
        "Nothing installed"@
    } else {
        bullet_lines(r.0, "  ✓ "@) + bullet_lines(r.1, "  ⚠ "@)
    }
}

/// Merging an empty report changes nothing, on either side.
pub proof fn lemma_merge_empty(r: ReportView)
    ensures
        merged(r, (Seq::empty(), Seq::empty())) == r,
        merged((Seq::empty(), Seq::empty()), r) == r,
{
    assert(r.0 + Seq::<Seq<char>>::empty() =~= r.0);
    assert(r.1 + Seq::<Seq<char>>::empty() =~= r.1);
    assert(Seq::<Seq<char>>::empty() + r.0 =~= r.0);
    assert(Seq::<Seq<char>>::empty() + r.1 =~= r.1);
}

/// Merging reports is associative: the order of the steps and of the
/// warnings does not depend on how the merges are grouped.
pub proof fn lemma_merge_associative(a: ReportView, b: ReportView, c: ReportView)
    ensures
        merged(merged(a, b), c) == merged(a, merged(b, c)),
{
    assert(a.0 + b.0 + c.0 =~= a.0 + (b.0 + c.0));
    assert(a.1 + b.1 + c.1 =~= a.1 + (b.1 + c.1));
}

/// A report says `Nothing installed` exactly when it records nothing.
pub proof fn lemma_nothing_installed(r: ReportView)
    ensures
        (report_text(r) == "Nothing installed"@) <== (r.0.len() == 0 && r.1.len() == 0),
        (r.0.len() > 0) ==> report_text(r).len() > 0,
{
    if r.0.len() > 0 {
        lemma_bullet_lines_nonempty(r.0, "  ✓ "@);
    }
}

proof fn lemma_bullet_lines_nonempty(items: Seq<Seq<char>>, marker: Seq<char>)
    requires
        items.len() > 0,
    ensures
        bullet_lines(items, marker).len() > 0,
{
    reveal_strlit("\n");
}

/// The CMake toolchain.
pub struct Cmake {}

/// Installing CMake.
pub struct CmakeInstallation {}

/// Why CMake could not be installed.
pub enum FailToInstallCmake {
    BrewNotFound,
    Other(String),
    UnsupportedPlatform,
}

impl FailToInstallCmake {
    /// The error as it is displayed.
    pub fn to_text(&self) -> (r: String)
        ensures
            r@ == match self {
                FailToInstallCmake::BrewNotFound => "Homebrew not found. Please install Homebrew to proceed."@,
                FailToInstallCmake::Other(m) => "Failed to install CMake via Homebrew: "@ + m@,
                FailToInstallCmake::UnsupportedPlatform => "Automatic installation of CMake is not supported on this platform. Please install CMake manually."@,
            },
    {
        match self {
            FailToInstallCmake::BrewNotFound => String::from_str("Homebrew not found. Please install Homebrew to proceed."),
            FailToInstallCmake::Other(m) => {
                let mut r = String::from_str("Failed to install CMake via Homebrew: ");
                r.append(m.as_str());
                r
            },
            FailToInstallCmake::UnsupportedPlatform => String::from_str("Automatic installation of CMake is not supported on this platform. Please install CMake manually."),
        }
    }
}

impl Cmake {
    /// The check of the CMake toolchain, given whether `cmake` is on `PATH`:
    /// missing CMake can be installed.
    pub fn check(&self, cmake_found: bool) -> (r: Result<(), ToolchainError<CmakeInstallation>>)
        ensures
            cmake_found <==> r is Ok,
            !cmake_found ==> r matches Err(ToolchainError::Fixable(_)),
    {
        if cmake_found {
            Ok(())
        } else {
            Err(ToolchainError::fixable(CmakeInstallation {}))
        }
    }
}

impl CmakeInstallation {
    /// The outcome of installing CMake, given the host and the Homebrew
    /// results: only macOS installs it, through Homebrew.
    pub fn install_outcome(&self, on_macos: bool, brew_found: bool, brew_result: Result<(), String>) -> (r: Result<(), FailToInstallCmake>)
        ensures
            !on_macos ==> r matches Err(FailToInstallCmake::UnsupportedPlatform),
            on_macos && !brew_found ==> r matches Err(FailToInstallCmake::BrewNotFound),
            on_macos && brew_found ==> match brew_result {
                Ok(()) => r is Ok,
                Err(m) => r matches Err(FailToInstallCmake::Other(n)) && n@ == m@,
            },
    {
        if !on_macos {
            return Err(FailToInstallCmake::UnsupportedPlatform);
        }
        if !brew_found {
            return Err(FailToInstallCmake::BrewNotFound);
        }
        match brew_result {
            Ok(()) => Ok(()),
            Err(m) => Err(FailToInstallCmake::Other(m)),
        }
    }
}

/// The web toolchain: `wasm-bindgen` and the `wasm32-unknown-unknown` target.
pub struct WebToolchain {}

/// Installing the web toolchain, which is not automated.
pub struct WebToolchainInstall {}

impl WebToolchainInstall {
    /// Why the web toolchain cannot be installed automatically.
    pub fn install_error(&self) -> (r: &'static str)
        ensures
            r@ == "Auto-fix is not implemented for web toolchain. Install `wasm-bindgen-cli` and add Rust target `wasm32-unknown-unknown`."@,
    {
        "Auto-fix is not implemented for web toolchain. Install `wasm-bindgen-cli` and add Rust target `wasm32-unknown-unknown`."
    }
}

/// What `rustup target list --installed` gave: it could not run, it
/// failed, or it printed this output.
pub enum TargetListing {
    NotRun,
    Failed,
    Listed(String),
}

/// Whether an installed-target listing names the wasm target on a line of its own.
pub open spec fn lists_wasm_target(output: Seq<char>) -> bool {
    exists|i: int| 0 <= i < lines(output).len() && trimmed(#[trigger] lines(output)[i]) == "wasm32-unknown-unknown"@
}

impl WebToolchain {
    /// The check of the web toolchain, given whether `wasm-bindgen` was found
    /// and what listing the installed Rust targets gave.
    pub fn check(&self, wasm_bindgen_found: bool, listing: &TargetListing) -> (r: Result<(), ToolchainError<WebToolchainInstall>>)
        ensures
            !wasm_bindgen_found ==> r matches Err(ToolchainError::Fixable(_)),
            wasm_bindgen_found ==> match listing {
                TargetListing::NotRun => r matches Err(ToolchainError::Unfixable(u))
                    && u.message_view() == "Failed to run rustup"@
                    && u.suggestion_view() == "Install rustup and run: rustup target add wasm32-unknown-unknown"@,
                TargetListing::Failed => r matches Err(ToolchainError::Unfixable(u))
                    && u.message_view() == "Failed to query installed Rust targets"@
                    && u.suggestion_view() == "Run: rustup target add wasm32-unknown-unknown"@,
                TargetListing::Listed(out) => if lists_wasm_target(out@) { r is Ok } else { r matches Err(ToolchainError::Fixable(_)) },
            },
    {
        if !wasm_bindgen_found {
            return Err(ToolchainError::fixable(WebToolchainInstall {}));
        }
        match listing {
            TargetListing::NotRun => Err(ToolchainError::unfixable("Failed to run rustup", "Install rustup and run: rustup target add wasm32-unknown-unknown")),
            TargetListing::Failed => Err(ToolchainError::unfixable("Failed to query installed Rust targets", "Run: rustup target add wasm32-unknown-unknown")),
            TargetListing::Listed(out) => {
                let chars = chars_of(out.as_str());
                let ls = split_lines(&chars);
                let wasm = chars_of("wasm32-unknown-unknown");
                let mut i: usize = 0;
                while i < ls.len()
                    invariant
                        wasm_bindgen_found,
                        *listing matches TargetListing::Listed(o) && o@ == out@,
                        i <= ls@.len(),
                        vviews(ls@) == lines(out@),
                        wasm@ == "wasm32-unknown-unknown"@,
                        forall|j: int| 0 <= j < i ==> trimmed(#[trigger] lines(out@)[j]) != "wasm32-unknown-unknown"@,
                    decreases ls@.len() - i,
                {
                    let t = trim_chars(&ls[i]);
                    assert(ls@[i as int]@ == lines(out@)[i as int]);
                    if same_chars(&t, &wasm) {
                        assert(trimmed(lines(out@)[i as int]) == "wasm32-unknown-unknown"@);
                        return Ok(());
                    }
                    i += 1;
                }
                Err(ToolchainError::fixable(WebToolchainInstall {}))
            },
        }
    }
}

/// The rustup installation step.
pub struct Rustup {}

impl Rustup {
    /// What the step installs.
    pub fn description(&self) -> (r: &'static str)
        ensures
            r@ == "rustup (Rust toolchain manager)"@,
    {
        "rustup (Rust toolchain manager)"
    }
}

/// The Rust toolchain a build needs: its target triples, by their text.
pub struct Rust {
    pub targets: Vec<String>,
}

/// The targets not among the installed ones, in order.
pub open spec fn missing_of(targets: Seq<Seq<char>>, installed: Seq<Seq<char>>) -> Seq<Seq<char>> {
    targets.filter(|t: Seq<char>| !installed.contains(t))
}

/// What the Rust check reports: nothing when ready, else what is missing.
pub open spec fn rust_check_result(has_rustc: bool, has_rustup: bool, missing: Seq<Seq<char>>) -> Option<Seq<char>> {
    if !has_rustc {
        Some("Rust is not installed"@)
    } else if !has_rustup {
        Some("rustup (Rust toolchain manager) is not installed"@)
    } else if missing.len() > 0 {
        Some("Missing Rust targets: "@ + joined(missing, ", "@))
    } else {
        None
    }
}

impl Rust {
    /// The toolchain for one target.
    pub fn new(target: String) -> (r: Rust)
        ensures
            views(r.targets@) == seq![target@],
    {
        let mut targets: Vec<String> = Vec::new();
        targets.push(target);
        assert(views(targets@) =~= seq![target@]);
        Rust { targets }
    }

    /// The toolchain for several targets.
    pub fn new_with_targets(targets: Vec<String>) -> (r: Rust)
        ensures
            views(r.targets@) == views(targets@),
    {
        Rust { targets }
    }

    /// The toolchain's name.
    pub fn name(&self) -> (r: &'static str)
        ensures
            r@ == "Rust"@,
    {
        "Rust"
    }

    /// The targets that are not installed, given the installed ones.
    pub fn missing_targets(&self, installed: &Vec<String>) -> (r: Vec<String>)
        ensures
            views(r@) == missing_of(views(self.targets@), views(installed@)),
    {
        let ghost tv = views(self.targets@);
        let ghost iv = views(installed@);
        let mut r: Vec<String> = Vec::new();
        let mut i: usize = 0;
        while i < self.targets.len()
            invariant
                tv == views(self.targets@),
                iv == views(installed@),
                i <= tv.len(),
                views(r@) == missing_of(tv.take(i as int), iv),
            decreases tv.len() - i,
        {
            let mut found = false;
            let mut k: usize = 0;
            while k < installed.len()
                invariant
                    iv == views(installed@),
                    i < tv.len(),
                    tv == views(self.targets@),
                    k <= iv.len(),
                    found <==> exists|j: int| 0 <= j < k && #[trigger] iv[j] == tv[i as int],
                decreases iv.len() - k,
            {
                if str_eq(installed[k].as_str(), self.targets[i].as_str()) {
                    assert(iv[k as int] == tv[i as int]);
                    found = true;
                }
                k += 1;
            }
            proof {
                assert(tv.take(i + 1).drop_last() =~= tv.take(i as int));
                assert(tv.take(i + 1).last() == tv[i as int]);
                reveal(Seq::filter);
                if found {
                    let j = choose|j: int| 0 <= j < k && #[trigger] iv[j] == tv[i as int];
                    assert(iv.contains(tv[i as int]));
                } else {
                    assert(!iv.contains(tv[i as int]));
                }
            }
            if !found {
                let ghost before = views(r@);
                let t = self.targets[i].clone();
                r.push(t);
                assert(views(r@) =~= before.push(tv[i as int]));
            }
            i += 1;
        }
        assert(tv.take(i as int) =~= tv);
        r
    }

    /// Checks the toolchain: the compiler, then rustup, then the targets.
    pub fn check(&self, has_rustc: bool, has_rustup: bool, installed: &Vec<String>) -> (r: Result<(), String>)
        ensures
            match rust_check_result(has_rustc, has_rustup, missing_of(views(self.targets@), views(installed@))) {
                None => r is Ok,
                Some(m) => r matches Err(e) && e@ == m,
            },
    {
        if !has_rustc {
            return Err(String::from_str("Rust is not installed"));
        }
        if !has_rustup {
            return Err(String::from_str("rustup (Rust toolchain manager) is not installed"));
        }
        let missing = self.missing_targets(installed);
        if missing.len() > 0 {
            let mut m = String::from_str("Missing Rust targets: ");
            m.append(join(&missing, ", ").as_str());
            return Err(m);
        }
        Ok(())
    }
}

} // verus!
