//! Which bundles the Hub runs: the hot-updated copies installed under
//! `~/.tako/desktop-bundles/node_modules/tako-desktop-bundles/`, where they
//! are enabled, usable and not older than the application, or else the
//! copies built into the application.
use vstd::prelude::*;

use std::path::PathBuf;

use crate::paths::{home_dir, path_view, AppPath, AppPathView};
use crate::text::{opt_str_view, opt_string_view, str_eq, views};
use crate::version::{is_version_gte, version_gte};

verus! {

/// The parts of the hot-update directory below the home directory.
pub open spec fn external_dir_parts() -> Seq<Seq<char>> {
    seq![".tako"@, "desktop-bundles"@, "node_modules"@, "tako-desktop-bundles"@]
}

/// The hot-update directory below `home`.
pub fn external_bundle_dir_under(home: PathBuf) -> (r: AppPath)
    ensures
        r@ == path_view(home, external_dir_parts()),
{
    let r = AppPath::new(home, &[".tako", "desktop-bundles", "node_modules", "tako-desktop-bundles"]);
    assert(views(seq![".tako", "desktop-bundles", "node_modules", "tako-desktop-bundles"])
        =~= external_dir_parts());
    r
}

/// The path of a file inside the hot-update directory below `home`.
pub fn external_file_under(home: PathBuf, file: &str) -> (r: AppPath)
    ensures
        r@ == path_view(home, external_dir_parts().push(file@)),
{
    let r = AppPath::new(
        home,
        &[".tako", "desktop-bundles", "node_modules", "tako-desktop-bundles", file],
    );
    assert(views(
        seq![".tako", "desktop-bundles", "node_modules", "tako-desktop-bundles", file],
    ) =~= external_dir_parts().push(file@));
    r
}

/// The hot-update directory, or `None` where the home directory is not
/// known.
pub fn external_bundle_dir() -> (r: Option<AppPath>)
    ensures
        r matches Some(p) ==> p@.parts == external_dir_parts(),
{
    match home_dir() {
        Some(h) => Some(external_bundle_dir_under(h)),
        None => None,
    }
}

/// The hot-update `package.json`, or `None` where the home directory is not
/// known.
pub fn external_package_json() -> (r: Option<AppPath>)
    ensures
        r matches Some(p) ==> p@.parts == external_dir_parts().push("package.json"@),
{
    match home_dir() {
        Some(h) => Some(external_file_under(h, "package.json")),
        None => None,
    }
}

/// Hot-updated bundles are skipped in debug builds, and in release builds
/// where `TAKO_DEV_BUNDLES` is `1`.
pub open spec fn spec_should_skip_external(debug_build: bool, dev_bundles: Option<Seq<char>>) -> bool {
    debug_build || dev_bundles == Some("1"@)
}

/// Whether hot-updated bundles are skipped, given whether this is a debug
/// build and the value of `TAKO_DEV_BUNDLES` (`None` where it is unset or
/// not Unicode).
pub fn should_skip_external(debug_build: bool, dev_bundles: Option<&str>) -> (r: bool)
    ensures
        r == spec_should_skip_external(
            debug_build,
            match dev_bundles {
                Some(v) => Some(v@),
                None => None,
            },
        ),
{
    if debug_build {
        return true;
    }
    match dev_bundles {
        Some(v) => str_eq(v, "1"),
        None => false,
    }
}

/// What `serde_json` finds under `key` in the JSON text `content`: the
/// string there, or `None` where the text is not JSON or holds no string
/// under that key at its top level.
pub uninterp spec fn spec_json_string_field(content: Seq<char>, key: Seq<char>) -> Option<Seq<char>>;

/// The string under `key` at the top level of the JSON text `content`.
///
/// Trusted: calls `serde_json::from_str::<serde_json::Value>`, then
/// `Value::get` and `Value::as_str` on what it parsed; the result is named
/// by `spec_json_string_field`, a function of the text and the key alone.
#[verifier::external_body]
fn json_string_field(content: &str, key: &str) -> (r: Option<String>)
    ensures
        match r {
            Some(s) => spec_json_string_field(content@, key@) == Some(s@),
            None => spec_json_string_field(content@, key@) is None,
        },
{
    let parsed: serde_json::Value = serde_json::from_str(content).ok()?;
    parsed.get(key)?.as_str().map(|s| s.to_string())
}

/// The version that a hot-update `package.json` (where it could be read)
/// declares.
pub open spec fn spec_external_version(package_json: Option<Seq<char>>) -> Option<Seq<char>> {
    match package_json {
        Some(c) => spec_json_string_field(c, "version"@),
        None => None,
    }
}

/// The version declared by the hot-update `package.json`, given its text
/// (`None` where it could not be read).
pub fn read_external_version(package_json: Option<&str>) -> (r: Option<String>)
    ensures
        opt_string_view(r) == spec_external_version(opt_str_view(package_json)),
{
    match package_json {
        Some(c) => json_string_field(c, "version"),
        None => None,
    }
}

/// The version of the hot-updated bundles: none where they are skipped,
/// otherwise the one their `package.json` declares.
pub fn get_external_bundle_version(skip_external: bool, package_json: Option<&str>) -> (r: Option<
    String,
>)
    ensures
        opt_string_view(r) == if skip_external {
            None
        } else {
            spec_external_version(opt_str_view(package_json))
        },
{
    if skip_external {
        return None;
    }
    read_external_version(package_json)
}

/// Whether the hot-updated bundles are preferred: only where they are not
/// skipped, their version is known, and it is at least the application's
/// (or the application's version is not known).
pub open spec fn spec_should_use_external(
    skip_external: bool,
    external_version: Option<Seq<char>>,
    app_version: Option<Seq<char>>,
) -> bool {
    if skip_external {
        false
    } else {
        match external_version {
            None => false,
            Some(e) => match app_version {
                Some(a) => version_gte(e, a),
                None => true,
            },
        }
    }
}

/// Whether the hot-updated bundles are preferred over the built-in ones,
/// given whether they are skipped, the text of their `package.json` (where
/// it could be read) and the application's version.
pub fn should_use_external(
    skip_external: bool,
    package_json: Option<&str>,
    app_version: Option<&str>,
) -> (r: bool)
    ensures
        r == spec_should_use_external(
            skip_external,
            spec_external_version(opt_str_view(package_json)),
            opt_str_view(app_version),
        ),
{
    if skip_external {
        return false;
    }
    let ext = match read_external_version(package_json) {
        Some(v) => v,
        None => return false,
    };
    match app_version {
        Some(a) => is_version_gte(ext.as_str(), a),
        None => true,
    }
}

/// Hot-updated bundles of the same version as the application are preferred
/// (where they are not skipped): "at least the built-in version" includes
/// equal.
pub proof fn lemma_same_version_prefers_external(v: Seq<char>)
    ensures
        spec_should_use_external(false, Some(v), Some(v)),
{
    crate::version::lemma_version_gte_reflexive(v);
}

/// In development (a debug build, or `TAKO_DEV_BUNDLES=1`) hot-updated
/// bundles are never preferred, whatever their version.
pub proof fn lemma_dev_mode_uses_builtin(
    debug_build: bool,
    dev_bundles: Option<Seq<char>>,
    external_version: Option<Seq<char>>,
    app_version: Option<Seq<char>>,
)
    requires
        debug_build || dev_bundles == Some("1"@),
    ensures
        !spec_should_use_external(
            spec_should_skip_external(debug_build, dev_bundles),
            external_version,
            app_version,
        ),
{
}

/// What the launcher found at a bundle's path.
#[derive(Debug, Clone, Copy, PartialEq, Eq, Structural)]
pub struct BundleProbe {
    /// Whether the path exists.
    pub exists: bool,
    /// Whether it holds an `index.html`.
    pub has_index_html: bool,
    /// Its size in bytes, where its metadata could be read.
    pub size: Option<u64>,
}

/// A bundle is usable where its path exists and, for the web pages
/// (`web-dist`), it holds an `index.html`, for a script, it is not empty.
pub open spec fn spec_validate_bundle(name: Seq<char>, probe: BundleProbe) -> bool {
    if !probe.exists {
        false
    } else if name == "web-dist"@ {
        probe.has_index_html
    } else {
        match probe.size {
            Some(n) => n > 0,
            None => false,
        }
    }
}

/// Only the web pages (`web-dist`) must hold an `index.html`: every other
/// bundle is usable exactly when it exists and its size is known and
/// positive, whatever is said of an `index.html`; and nothing is usable
/// where it does not exist.
pub proof fn lemma_other_bundles_need_only_content(name: Seq<char>, probe: BundleProbe, index_html: bool)
    ensures
        !probe.exists ==> !spec_validate_bundle(name, probe),
        name != "web-dist"@ ==> (spec_validate_bundle(name, probe) <==> (probe.exists
            && (probe.size matches Some(n) && n > 0))),
        name != "web-dist"@ ==> spec_validate_bundle(name, probe) == spec_validate_bundle(
            name,
            BundleProbe { has_index_html: index_html, ..probe },
        ),
        name == "web-dist"@ ==> (spec_validate_bundle(name, probe) <==> (probe.exists
            && probe.has_index_html)),
{
}

/// Whether a bundle found at a path is usable.
pub fn validate_bundle(name: &str, probe: BundleProbe) -> (r: bool)
    ensures
        r == spec_validate_bundle(name@, probe),
{
    if !probe.exists {
        return false;
    }
    if str_eq(name, "web-dist") {
        return probe.has_index_html;
    }
    match probe.size {
        Some(n) => n > 0,
        None => false,
    }
}

/// What looking up a bundle asks of the launcher next.
pub enum LookupStep {
    /// Check the hot-updated copy at this path.
    ProbeExternal(AppPath),
    /// Find the application's resource directory.
    FindResourceDir,
    /// Check whether the built-in copy exists at this path.
    ProbeBuiltin(AppPath),
    /// The home directory is not known, so the hot-updated copy cannot be
    /// found; the launcher cannot go on.
    HomeUnknown,
    /// The lookup is over.
    Done(Result<AppPath, String>),
}

/// Where a lookup is.
#[derive(Debug, Clone, Copy, PartialEq, Eq, Structural)]
pub enum LookupStage {
    ProbingExternal,
    FindingResourceDir,
    ProbingBuiltin,
    Over,
}

/// Looking up one bundle by name; it keeps the path whose check it asked
/// for, which is the answer where the check succeeds.
pub struct BundleLookup {
    name: String,
    stage: LookupStage,
    candidate: Option<AppPath>,
}

/// The message where resolving the resource directory failed.
pub open spec fn spec_resource_dir_error(detail: Seq<char>) -> Seq<char> {
    "Cannot resolve resource dir: "@ + detail
}

/// The message where a bundle is nowhere to be found.
pub open spec fn spec_not_found(name: Seq<char>) -> Seq<char> {
    "Bundle '"@ + name + "' not found in external or built-in resources"@
}

/// A path is the hot-updated copy of bundle `name`: `name` inside the
/// external bundle directory under some home directory.
pub open spec fn is_external_copy(p: AppPathView, name: Seq<char>) -> bool {
    p.parts == external_dir_parts().push(name)
}

/// A path is the built-in copy of bundle `name`: `resources/NAME` inside
/// some resource directory.
pub open spec fn is_builtin_copy(p: AppPathView, name: Seq<char>) -> bool {
    p.parts == seq!["resources"@, name]
}

impl BundleLookup {
    /// The name of the bundle looked up.
    pub closed spec fn name(&self) -> Seq<char> {
        self.name@
    }

    /// Where the lookup is.
    pub closed spec fn stage(&self) -> LookupStage {
        self.stage
    }

    /// The path whose check the lookup asked for last, if any.
    pub closed spec fn candidate(&self) -> Option<AppPathView> {
        match self.candidate {
            Some(p) => Some(p@),
            None => None,
        }
    }

    /// Where the lookup is.
    pub fn current_stage(&self) -> (r: LookupStage)
        ensures
            r == self.stage(),
    {
        self.stage
    }

    /// The path kept is there while a check is under way: the hot-updated
    /// copy while that is checked, the built-in copy while that is.
    pub closed spec fn wf(&self) -> bool {
        &&& self.stage == LookupStage::ProbingExternal ==> (self.candidate matches Some(p)
            && is_external_copy(p@, self.name@))
        &&& self.stage == LookupStage::ProbingBuiltin ==> (self.candidate matches Some(p)
            && is_builtin_copy(p@, self.name@))
    }

    /// Begins looking up `name`, given whether hot-updated bundles are
    /// preferred and the home directory: the hot-updated copy is checked
    /// first where they are preferred, otherwise the built-in one is looked
    /// for.
    pub fn start_with_home(name: &str, use_external: bool, home: Option<PathBuf>) -> (r: (
        BundleLookup,
        LookupStep,
    ))
        ensures
            r.0.wf(),
            r.0.name() == name@,
            !use_external ==> r.1 is FindResourceDir && r.0.stage()
                == LookupStage::FindingResourceDir,
            use_external ==> match home {
                Some(h) => (r.1 matches LookupStep::ProbeExternal(p) && p@ == path_view(
                    h,
                    external_dir_parts().push(name@),
                )) && r.0.stage() == LookupStage::ProbingExternal && r.0.candidate() == Some(
                    path_view(h, external_dir_parts().push(name@)),
                ),
                None => r.1 is HomeUnknown && r.0.stage() == LookupStage::Over,
            },
    {
        let n = String::from_str(name);
        if !use_external {
            return (
                BundleLookup { name: n, stage: LookupStage::FindingResourceDir, candidate: None },
                LookupStep::FindResourceDir,
            );
        }
        match home {
            Some(h) => {
                let p = external_file_under(h, name);
                let kept = p.duplicate();
                (
                    BundleLookup { name: n, stage: LookupStage::ProbingExternal, candidate: Some(kept) },
                    LookupStep::ProbeExternal(p),
                )
            },
            None => (
                BundleLookup { name: n, stage: LookupStage::Over, candidate: None },
                LookupStep::HomeUnknown,
            ),
        }
    }

    /// Begins looking up `name`, asking for the home directory only where
    /// hot-updated bundles are preferred.
    pub fn start(name: &str, use_external: bool) -> (r: (BundleLookup, LookupStep))
        ensures
            r.0.wf(),
            r.0.name() == name@,
            !use_external ==> r.1 is FindResourceDir && r.0.stage()
                == LookupStage::FindingResourceDir,
            use_external ==> (r.1 matches LookupStep::ProbeExternal(p) && p@.parts
                == external_dir_parts().push(name@) && r.0.stage() == LookupStage::ProbingExternal
                && r.0.candidate() == Some(p@)) || (r.1 is HomeUnknown && r.0.stage()
                == LookupStage::Over),
    {
        if use_external {
            Self::start_with_home(name, true, home_dir())
        } else {
            Self::start_with_home(name, false, None)
        }
    }

    /// Takes what was found at the hot-updated copy whose check was asked
    /// for: that copy is the answer where it is usable, otherwise the
    /// built-in copy is looked for.
    pub fn on_external(&mut self, probe: BundleProbe) -> (r: LookupStep)
        requires
            old(self).wf(),
            old(self).stage() == LookupStage::ProbingExternal,
        ensures
            final(self).wf(),
            final(self).name() == old(self).name(),
            spec_validate_bundle(old(self).name(), probe) ==> (r matches LookupStep::Done(Ok(p))
                && Some(p@) == old(self).candidate() && is_external_copy(p@, old(self).name()))
                && final(self).stage() == LookupStage::Over,
            !spec_validate_bundle(old(self).name(), probe) ==> r is FindResourceDir
                && final(self).stage() == LookupStage::FindingResourceDir,
    {
        let kept = self.candidate.take();
        match kept {
            Some(p) => {
                if validate_bundle(self.name.as_str(), probe) {
                    self.stage = LookupStage::Over;
                    LookupStep::Done(Ok(p))
                } else {
                    self.stage = LookupStage::FindingResourceDir;
                    LookupStep::FindResourceDir
                }
            },
            None => {
                self.stage = LookupStage::FindingResourceDir;
                LookupStep::FindResourceDir
            },
        }
    }

    /// Takes the application's resource directory, or the error in finding
    /// it: the built-in copy is `resources/NAME` inside it.
    pub fn on_resource_dir(&mut self, dir: Result<PathBuf, String>) -> (r: LookupStep)
        requires
            old(self).wf(),
            old(self).stage() == LookupStage::FindingResourceDir,
        ensures
            final(self).wf(),
            final(self).name() == old(self).name(),
            match dir {
                Ok(d) => (r matches LookupStep::ProbeBuiltin(p) && p@ == path_view(
                    d,
                    seq!["resources"@, old(self).name()],
                )) && final(self).stage() == LookupStage::ProbingBuiltin && final(self).candidate()
                    == Some(path_view(d, seq!["resources"@, old(self).name()])),
                Err(e) => (r matches LookupStep::Done(Err(m)) && m@ == spec_resource_dir_error(
                    e@,
                )) && final(self).stage() == LookupStage::Over,
            },
    {
        match dir {
            Ok(d) => {
                self.stage = LookupStage::ProbingBuiltin;
                let name = self.name.as_str();
                let p = AppPath::new(d, &["resources", name]);
                assert(views(seq!["resources", name]) =~= seq!["resources"@, self.name@]);
                self.candidate = Some(p.duplicate());
                LookupStep::ProbeBuiltin(p)
            },
            Err(e) => {
                self.stage = LookupStage::Over;
                LookupStep::Done(
                    Err(String::from_str("Cannot resolve resource dir: ").concat(e.as_str())),
                )
            },
        }
    }

    /// Takes whether the built-in copy whose check was asked for exists: it
    /// is the answer where it does; otherwise the bundle is missing.
    pub fn on_builtin(&mut self, exists: bool) -> (r: LookupStep)
        requires
            old(self).wf(),
            old(self).stage() == LookupStage::ProbingBuiltin,
        ensures
            final(self).wf(),
            final(self).stage() == LookupStage::Over,
            exists ==> (r matches LookupStep::Done(Ok(p)) && Some(p@) == old(self).candidate()
                && is_builtin_copy(p@, old(self).name())),
            !exists ==> (r matches LookupStep::Done(Err(m)) && m@ == spec_not_found(
                old(self).name(),
            )),
    {
        self.stage = LookupStage::Over;
        let kept = self.candidate.take();
        match kept {
            Some(p) if exists => LookupStep::Done(Ok(p)),
            _ => LookupStep::Done(
                Err(String::from_str("Bundle '").concat(self.name.as_str()).concat(
                    "' not found in external or built-in resources",
                )),
            ),
        }
    }
}

} // verus!
