//! Shared domain types: identifiers, build events, recorded builds and diffs.

use vstd::prelude::*;
use crate::text::{owned, push_char, push_signed_decimal, push_str, same_text, signed_decimal};
use crate::time::Duration;

verus! {

broadcast use vstd::string::group_string_axioms;

/// Identifier of a recorded build, issued by the database.
#[derive(Debug, Clone, Copy, PartialEq, Eq, Structural, Hash)]
pub struct BuildId(pub i64);

impl BuildId {
    /// The display form `#<id>`, e.g. `#42`.
    pub fn to_string(&self) -> (s: String)
        ensures
            s@ == seq!['#'] + signed_decimal(self.0 as int),
    {
        let mut s = String::new();
        push_char(&mut s, '#');
        push_signed_decimal(&mut s, self.0 as i128);
        s
    }
}

/// Identifies a crate being compiled; `version` is absent for some path
/// dependencies and workspace members.
#[derive(Debug, PartialEq, Eq, Hash)]
pub struct CrateId {
    pub name: String,
    pub version: Option<String>,
}

/// The text of an optional string.
pub open spec fn opt_text(o: Option<String>) -> Option<Seq<char>> {
    match o {
        Some(s) => Some(s@),
        None => None,
    }
}

impl View for CrateId {
    type V = (Seq<char>, Option<Seq<char>>);

    open spec fn view(&self) -> (Seq<char>, Option<Seq<char>>) {
        (self.name@, opt_text(self.version))
    }
}

/// A copy of an optional string.
pub fn clone_opt_string(o: &Option<String>) -> (r: Option<String>)
    ensures
        r == *o,
{
    match o {
        Some(s) => Some(s.clone()),
        None => None,
    }
}

/// Whether two optional strings hold the same text.
pub fn same_opt_text(a: &Option<String>, b: &Option<String>) -> (r: bool)
    ensures
        r == (opt_text(*a) == opt_text(*b)),
{
    match (a, b) {
        (Some(x), Some(y)) => same_text(x, y),
        (None, None) => true,
        _ => false,
    }
}

impl Clone for CrateId {
    fn clone(&self) -> (r: Self)
        ensures
            r == *self,
    {
        CrateId { name: self.name.clone(), version: clone_opt_string(&self.version) }
    }
}

/// The display form of a crate: `name vVERSION`, or the bare name.
pub open spec fn crate_id_text(id: (Seq<char>, Option<Seq<char>>)) -> Seq<char> {
    match id.1 {
        Some(v) => id.0 + seq![' ', 'v'] + v,
        None => id.0,
    }
}

impl CrateId {
    /// The display form, e.g. `serde v1.0.210` or `my-crate`.
    pub fn to_string(&self) -> (s: String)
        ensures
            s@ == crate_id_text(self@),
    {
        let mut s = self.name.clone();
        match &self.version {
            Some(v) => {
                push_str(&mut s, " v");
                push_str(&mut s, v.as_str());
                proof { reveal_strlit(" v"); }
                assert(s@ =~= crate_id_text(self@));
            },
            None => {},
        }
        s
    }

    /// Whether both identifiers name the same crate and version.
    pub fn same_as(&self, other: &CrateId) -> (r: bool)
        ensures
            r == (self@ == other@),
    {
        same_text(&self.name, &other.name) && same_opt_text(&self.version, &other.version)
    }
}

/// The kind of target being compiled.
#[derive(Debug, Clone, Copy, PartialEq, Eq, Structural, Hash)]
pub enum CrateKind {
    Lib,
    Bin,
    BuildScript,
    ProcMacro,
    Test,
    Example,
    Bench,
    Unknown,
}

/// The display name of a target kind.
pub open spec fn kind_text(k: CrateKind) -> Seq<char> {
    match k {
        CrateKind::Lib => "lib"@,
        CrateKind::Bin => "bin"@,
        CrateKind::BuildScript => "build-script"@,
        CrateKind::ProcMacro => "proc-macro"@,
        CrateKind::Test => "test"@,
        CrateKind::Example => "example"@,
        CrateKind::Bench => "bench"@,
        CrateKind::Unknown => "unknown"@,
    }
}

impl CrateKind {
    /// The display name, e.g. `build-script`.
    pub fn as_str(&self) -> (s: &'static str)
        ensures
            s@ == kind_text(*self),
    {
        match self {
            CrateKind::Lib => "lib",
            CrateKind::Bin => "bin",
            CrateKind::BuildScript => "build-script",
            CrateKind::ProcMacro => "proc-macro",
            CrateKind::Test => "test",
            CrateKind::Example => "example",
            CrateKind::Bench => "bench",
            CrateKind::Unknown => "unknown",
        }
    }

    /// The display name as an owned string.
    pub fn to_string(&self) -> (s: String)
        ensures
            s@ == kind_text(*self),
    {
        owned(self.as_str())
    }
}

/// The build profile Cargo builds with.
#[derive(Debug, Clone, Copy, PartialEq, Eq, Structural, Hash)]
pub enum BuildProfile {
    Dev,
    Release,
    Custom,
}

/// The display name of a profile.
pub open spec fn profile_text(p: BuildProfile) -> Seq<char> {
    match p {
        BuildProfile::Dev => "dev"@,
        BuildProfile::Release => "release"@,
        BuildProfile::Custom => "custom"@,
    }
}

impl BuildProfile {
    /// The display name: `dev`, `release` or `custom`.
    pub fn as_str(&self) -> (s: &'static str)
        ensures
            s@ == profile_text(*self),
    {
        match self {
            BuildProfile::Dev => "dev",
            BuildProfile::Release => "release",
            BuildProfile::Custom => "custom",
        }
    }

    /// The display name as an owned string.
    pub fn to_string(&self) -> (s: String)
        ensures
            s@ == profile_text(*self),
    {
        owned(self.as_str())
    }
}

/// Severity of a compiler diagnostic.
#[derive(Debug, Clone, Copy, PartialEq, Eq, Structural, Hash)]
pub enum MessageLevel {
    Warning,
    Error,
    Note,
}

/// A copy of a list of strings.
pub fn clone_strings(v: &Vec<String>) -> (r: Vec<String>)
    ensures
        r@ == v@,
{
    let mut r: Vec<String> = Vec::new();
    let mut i: usize = 0;
    while i < v.len()
        invariant
            i <= v.len(),
            r@ == v@.take(i as int),
        decreases v.len() - i,
    {
        r.push(v[i].clone());
        i = i + 1;
        assert(r@ =~= v@.take(i as int));
    }
    assert(v@.take(v.len() as int) =~= v@);
    r
}

/// An event of a build, in the order the parser emits them: one
/// `BuildStarted`, then compilation events and diagnostics, then one
/// `BuildFinished`.
#[derive(Debug)]
pub enum BuildEvent {
    /// The build began.
    BuildStarted {
        /// When the build started (RFC 3339).
        at: String,
        /// Git commit of the workspace, when known.
        commit_hash: Option<String>,
        /// Arguments forwarded to `cargo build`.
        cargo_args: Vec<String>,
        profile: BuildProfile,
    },
    /// A crate began compiling.
    CompilationStarted {
        crate_id: CrateId,
        kind: CrateKind,
        /// When the compilation started (RFC 3339).
        at: String,
    },
    /// A crate finished compiling.
    CompilationFinished {
        crate_id: CrateId,
        kind: CrateKind,
        started_at: String,
        finished_at: String,
        /// Wall-clock compilation time.
        duration: Duration,
    },
    /// A diagnostic from the compiler for a crate.
    CompilerMessage {
        crate_id: CrateId,
        level: MessageLevel,
        text: String,
    },
    /// The build ended.
    BuildFinished {
        success: bool,
        total_duration: Duration,
        /// When the build finished (RFC 3339).
        at: String,
    },
}

/// The identity of a crate as text: name and optional version.
pub type CrateIdView = (Seq<char>, Option<Seq<char>>);

/// The texts of a list of strings.
pub open spec fn texts(v: Seq<String>) -> Seq<Seq<char>> {
    v.map_values(|s: String| s@)
}

/// A build event with its texts as character sequences and its durations
/// in nanoseconds.
pub enum EventView {
    BuildStarted {
        at: Seq<char>,
        commit_hash: Option<Seq<char>>,
        cargo_args: Seq<Seq<char>>,
        profile: BuildProfile,
    },
    CompilationStarted { crate_id: CrateIdView, kind: CrateKind, at: Seq<char> },
    CompilationFinished {
        crate_id: CrateIdView,
        kind: CrateKind,
        started_at: Seq<char>,
        finished_at: Seq<char>,
        duration: nat,
    },
    CompilerMessage { crate_id: CrateIdView, level: MessageLevel, text: Seq<char> },
    BuildFinished { success: bool, total_duration: nat, at: Seq<char> },
}

impl View for BuildEvent {
    type V = EventView;

    open spec fn view(&self) -> EventView {
        match *self {
            BuildEvent::BuildStarted { at, commit_hash, cargo_args, profile } => EventView::BuildStarted {
                at: at@,
                commit_hash: opt_text(commit_hash),
                cargo_args: texts(cargo_args@),
                profile,
            },
            BuildEvent::CompilationStarted { crate_id, kind, at } => EventView::CompilationStarted {
                crate_id: crate_id@,
                kind,
                at: at@,
            },
            BuildEvent::CompilationFinished { crate_id, kind, started_at, finished_at, duration } =>
                EventView::CompilationFinished {
                crate_id: crate_id@,
                kind,
                started_at: started_at@,
                finished_at: finished_at@,
                duration: duration.spec_nanos(),
            },
            BuildEvent::CompilerMessage { crate_id, level, text } => EventView::CompilerMessage {
                crate_id: crate_id@,
                level,
                text: text@,
            },
            BuildEvent::BuildFinished { success, total_duration, at } => EventView::BuildFinished {
                success,
                total_duration: total_duration.spec_nanos(),
                at: at@,
            },
        }
    }
}

/// The views of a list of events.
pub open spec fn event_views(v: Seq<BuildEvent>) -> Seq<EventView> {
    v.map_values(|e: BuildEvent| e@)
}

impl Clone for BuildEvent {
    fn clone(&self) -> (r: Self)
        ensures
            r@ == self@,
    {
        match self {
            BuildEvent::BuildStarted { at, commit_hash, cargo_args, profile } => BuildEvent::BuildStarted {
                at: at.clone(),
                commit_hash: clone_opt_string(commit_hash),
                cargo_args: clone_strings(cargo_args),
                profile: *profile,
            },
            BuildEvent::CompilationStarted { crate_id, kind, at } => BuildEvent::CompilationStarted {
                crate_id: crate_id.clone(),
                kind: *kind,
                at: at.clone(),
            },
            BuildEvent::CompilationFinished { crate_id, kind, started_at, finished_at, duration } =>
                BuildEvent::CompilationFinished {
                    crate_id: crate_id.clone(),
                    kind: *kind,
                    started_at: started_at.clone(),
                    finished_at: finished_at.clone(),
                    duration: *duration,
                },
            BuildEvent::CompilerMessage { crate_id, level, text } => BuildEvent::CompilerMessage {
                crate_id: crate_id.clone(),
                level: *level,
                text: text.clone(),
            },
            BuildEvent::BuildFinished { success, total_duration, at } => BuildEvent::BuildFinished {
                success: *success,
                total_duration: *total_duration,
                at: at.clone(),
            },
        }
    }
}

/// A recorded build as stored in the `builds` table.
#[derive(Debug)]
pub struct Build {
    pub id: BuildId,
    /// RFC 3339 start time.
    pub started_at: String,
    /// RFC 3339 end time; absent while unfinished or when interrupted.
    pub finished_at: Option<String>,
    pub commit_hash: Option<String>,
    /// The cargo arguments, as a JSON array.
    pub cargo_args: String,
    /// Profile name (`dev`, `release`, `custom`).
    pub profile: String,
    /// Whether the build succeeded; absent while unfinished.
    pub success: Option<bool>,
    /// Total wall-clock time; absent while unfinished.
    pub total_duration: Option<Duration>,
}

impl Clone for Build {
    fn clone(&self) -> (r: Self)
        ensures
            r == *self,
    {
        Build {
            id: self.id,
            started_at: self.started_at.clone(),
            finished_at: clone_opt_string(&self.finished_at),
            commit_hash: clone_opt_string(&self.commit_hash),
            cargo_args: self.cargo_args.clone(),
            profile: self.profile.clone(),
            success: self.success,
            total_duration: self.total_duration,
        }
    }
}

/// One crate compilation as stored in the `crate_compilations` table.
#[derive(Debug)]
pub struct CrateCompilation {
    pub build_id: BuildId,
    pub crate_id: CrateId,
    /// Target kind name (`lib`, `bin`, `build-script`, ...).
    pub kind: String,
    pub started_at: String,
    pub finished_at: String,
    pub duration: Duration,
}

impl Clone for CrateCompilation {
    fn clone(&self) -> (r: Self)
        ensures
            r == *self,
    {
        CrateCompilation {
            build_id: self.build_id,
            crate_id: self.crate_id.clone(),
            kind: self.kind.clone(),
            started_at: self.started_at.clone(),
            finished_at: self.finished_at.clone(),
            duration: self.duration,
        }
    }
}

/// A build together with all of its crate compilations.
#[derive(Debug)]
pub struct BuildDetails {
    pub build: Build,
    pub compilations: Vec<CrateCompilation>,
}

/// Statistics of a crate's past compilation times.
#[derive(Debug)]
pub struct Baseline {
    pub crate_id: CrateId,
    /// Number of past compilations the statistics come from.
    pub sample_count: u32,
    pub mean: Duration,
    /// Population standard deviation.
    pub std_dev: Duration,
    pub min: Duration,
    pub max: Duration,
}

impl Clone for Baseline {
    fn clone(&self) -> (r: Self)
        ensures
            r == *self,
    {
        Baseline {
            crate_id: self.crate_id.clone(),
            sample_count: self.sample_count,
            mean: self.mean,
            std_dev: self.std_dev,
            min: self.min,
            max: self.max,
        }
    }
}

/// How a duration changed between two builds.
#[derive(Debug, Clone, Copy, PartialEq, Eq, Structural)]
pub struct DurationChange {
    pub before: Duration,
    pub after: Duration,
    /// `after - before` in whole milliseconds (positive: slower).
    pub abs_delta_ms: i64,
}

/// How one crate changed between two builds.
#[derive(Debug)]
pub enum CrateChange {
    /// Only in the later build.
    Added { crate_id: CrateId, duration: Duration },
    /// Only in the earlier build.
    Removed { crate_id: CrateId, duration: Duration },
    /// In both builds, with a delta above the noise threshold.
    Changed { crate_id: CrateId, change: DurationChange },
    /// In both builds, with a negligible delta.
    Unchanged { crate_id: CrateId, duration: Duration },
}

/// The result of comparing two builds.
#[derive(Debug)]
pub struct BuildDiff {
    pub before: BuildId,
    pub after: BuildId,
    pub total_change: DurationChange,
    /// Per-crate changes, biggest impact first.
    pub crate_changes: Vec<CrateChange>,
    /// Crate names on the critical path of the earlier build.
    pub critical_path_before: Vec<String>,
    /// Crate names on the critical path of the later build.
    pub critical_path_after: Vec<String>,
}

/// A failure reported by a build repository.
#[derive(Debug)]
pub struct RepoError {
    pub message: String,
}

} // verus!
