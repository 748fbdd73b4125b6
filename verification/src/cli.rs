//! The command line: its commands, the build profile it infers from the
//! arguments forwarded to Cargo, the parts of the `ls` and `diff` output
//! that carry no fractions, and the stable JSON shapes of that output.
//!
//! Durations in the JSON shapes are whole milliseconds; build ids are plain
//! integers so they can be handed back to `diff`.

use vstd::prelude::*;
use crate::model::{
    Build, BuildDiff, BuildProfile, CrateChange, CrateId, DurationChange, clone_opt_string,
    clone_strings, opt_text, texts,
};
use crate::text::{byte_cut_ok, byte_prefix, leading_bytes, push_str, string_is};
use crate::time::NANOS_PER_MILLI;

verus! {

/// The parsed command line.
#[derive(Debug)]
pub struct Cli {
    pub command: Command,
}

/// The commands.
#[derive(Debug)]
pub enum Command {
    /// Run a build and record it.
    Record { cargo_args: Vec<String> },
    /// Run a build with the live dashboard, and record it.
    Watch { cargo_args: Vec<String> },
    /// List the most recent builds.
    Ls { last: usize },
    /// Compare two recorded builds.
    Diff { before: i64, after: i64 },
}

/// How many builds `ls` lists when not told.
pub const DEFAULT_LS_LAST: usize = 10;

/// The profile Cargo builds with for these arguments: `release` when
/// `--release` is among them, else `dev`.
pub open spec fn profile_of(args: Seq<Seq<char>>) -> BuildProfile {
    if args.contains("--release"@) {
        BuildProfile::Release
    } else {
        BuildProfile::Dev
    }
}

/// The build is a release build exactly when `--release` is one of the
/// arguments, wherever it stands; otherwise it is a dev build.
pub proof fn law_release_anywhere(args: Seq<Seq<char>>)
    ensures
        (profile_of(args) == BuildProfile::Release) <==> exists|i: int|
            0 <= i < args.len() && #[trigger] args[i] == "--release"@,
        (profile_of(args) == BuildProfile::Dev) <==> forall|i: int|
            0 <= i < args.len() ==> #[trigger] args[i] != "--release"@,
{
}

/// Infers the build profile from the arguments forwarded to Cargo:
/// `Release` when one of them is exactly `--release`, else `Dev`.
pub fn infer_profile(cargo_args: &Vec<String>) -> (p: BuildProfile)
    ensures
        p == profile_of(texts(cargo_args@)),
        (p == BuildProfile::Release) <==> exists|i: int|
            0 <= i < cargo_args@.len() && #[trigger] cargo_args@[i]@ == "--release"@,
        p == BuildProfile::Release || p == BuildProfile::Dev,
{
    proof {
        law_release_anywhere(texts(cargo_args@));
        assert forall|i: int| 0 <= i < cargo_args@.len() implies #[trigger] texts(cargo_args@)[i] == cargo_args@[i]@ by {}
    }
    let mut i: usize = 0;
    while i < cargo_args.len()
        invariant
            i <= cargo_args@.len(),
            forall|k: int| 0 <= k < i ==> cargo_args@[k]@ != "--release"@,
        decreases cargo_args.len() - i,
    {
        if string_is(&cargo_args[i], "--release") {
            assert(texts(cargo_args@)[i as int] == "--release"@);
            return BuildProfile::Release;
        }
        i = i + 1;
    }
    assert(!texts(cargo_args@).contains("--release"@));
    BuildProfile::Dev
}

/// The `Status` column of `ls`.
pub open spec fn status_text(success: Option<bool>) -> Seq<char> {
    match success {
        Some(true) => "ok"@,
        Some(false) => "FAIL"@,
        None => "???"@,
    }
}

/// The `Status` column of `ls`: `ok`, `FAIL`, or `???` while unfinished.
pub fn status_label(success: Option<bool>) -> (s: &'static str)
    ensures
        s@ == status_text(success),
{
    match success {
        Some(true) => "ok",
        Some(false) => "FAIL",
        None => "???",
    }
}

/// How many bytes of the start time the `Started` column of `ls` shows.
pub const STARTED_COLUMN_BYTES: usize = 19;

/// The `Started` column of `ls`: the first 19 bytes of the start time
/// (date and time without fractions or zone), all of it when shorter.
pub fn started_column(build: &Build) -> (s: &str)
    requires
        byte_cut_ok(build.started_at@, STARTED_COLUMN_BYTES as nat),
    ensures
        s@ == byte_prefix(build.started_at@, STARTED_COLUMN_BYTES as nat),
{
    leading_bytes(build.started_at.as_str(), STARTED_COLUMN_BYTES)
}

/// Names joined by ` → `.
pub open spec fn arrow_joined(names: Seq<Seq<char>>) -> Seq<char>
    decreases names.len(),
{
    if names.len() == 0 {
        Seq::empty()
    } else if names.len() == 1 {
        names[0]
    } else {
        arrow_joined(names.drop_last()) + " → "@ + names.last()
    }
}

/// A critical path as `diff` prints it: the names joined by ` → `.
pub fn join_path(names: &Vec<String>) -> (s: String)
    ensures
        s@ == arrow_joined(texts(names@)),
{
    let mut s = String::new();
    let mut i: usize = 0;
    while i < names.len()
        invariant
            i <= names@.len(),
            s@ == arrow_joined(texts(names@).take(i as int)),
        decreases names.len() - i,
    {
        let ghost t = texts(names@);
        if i > 0 {
            push_str(&mut s, " → ");
        }
        push_str(&mut s, names[i].as_str());
        i = i + 1;
        assert(t.take(i as int).drop_last() =~= t.take(i - 1));
    }
    assert(texts(names@).take(names@.len() as int) =~= texts(names@));
    s
}

// ---- JSON shapes ------------------------------------------------------------

/// The envelope of `ls` in JSON.
#[derive(Debug)]
pub struct LsJson {
    pub builds: Vec<BuildJson>,
}

/// A recorded build in JSON: the id without `#`, the duration in whole
/// milliseconds.
#[derive(Debug)]
pub struct BuildJson {
    pub id: i64,
    pub started_at: String,
    pub finished_at: Option<String>,
    pub commit_hash: Option<String>,
    pub cargo_args: String,
    pub profile: String,
    pub success: Option<bool>,
    pub duration_ms: Option<u128>,
}

/// Whole milliseconds of a span of `nanos` nanoseconds.
pub open spec fn whole_millis(nanos: nat) -> nat {
    nanos / (NANOS_PER_MILLI as nat)
}

/// Whether `j` is the JSON shape of `b`.
pub open spec fn is_build_json(j: BuildJson, b: Build) -> bool {
    &&& j.id == b.id.0
    &&& j.started_at@ == b.started_at@
    &&& opt_text(j.finished_at) == opt_text(b.finished_at)
    &&& opt_text(j.commit_hash) == opt_text(b.commit_hash)
    &&& j.cargo_args@ == b.cargo_args@
    &&& j.profile@ == b.profile@
    &&& j.success == b.success
    &&& j.duration_ms == (match b.total_duration {
        Some(d) => Some(whole_millis(d.spec_nanos()) as u128),
        None => None,
    })
}

impl BuildJson {
    /// The JSON shape of a recorded build.
    pub fn from_build(b: &Build) -> (j: BuildJson)
        ensures
            is_build_json(j, *b),
    {
        BuildJson {
            id: b.id.0,
            started_at: b.started_at.clone(),
            finished_at: clone_opt_string(&b.finished_at),
            commit_hash: clone_opt_string(&b.commit_hash),
            cargo_args: b.cargo_args.clone(),
            profile: b.profile.clone(),
            success: b.success,
            duration_ms: match b.total_duration {
                Some(d) => Some(d.as_millis()),
                None => None,
            },
        }
    }
}

impl LsJson {
    /// The JSON envelope of a list of builds, in the same order.
    pub fn from_builds(builds: &Vec<Build>) -> (j: LsJson)
        ensures
            j.builds@.len() == builds@.len(),
            forall|i: int| 0 <= i < builds@.len() ==> is_build_json(#[trigger] j.builds@[i], builds@[i]),
    {
        let mut out: Vec<BuildJson> = Vec::new();
        let mut i: usize = 0;
        while i < builds.len()
            invariant
                i <= builds@.len(),
                out@.len() == i,
                forall|k: int| 0 <= k < i ==> is_build_json(#[trigger] out@[k], builds@[k]),
            decreases builds.len() - i,
        {
            out.push(BuildJson::from_build(&builds[i]));
            i = i + 1;
        }
        LsJson { builds: out }
    }
}

/// A crate identifier in JSON.
#[derive(Debug)]
pub struct CrateIdJson {
    pub name: String,
    pub version: Option<String>,
}

impl CrateIdJson {
    /// The JSON shape of a crate identifier.
    pub fn from_crate_id(c: &CrateId) -> (j: CrateIdJson)
        ensures
            j.name@ == c.name@,
            opt_text(j.version) == opt_text(c.version),
    {
        CrateIdJson { name: c.name.clone(), version: clone_opt_string(&c.version) }
    }
}

/// How a duration changed, in JSON: whole milliseconds before and after,
/// and the signed delta.
#[derive(Debug)]
pub struct DurationChangeJson {
    pub before_ms: u128,
    pub after_ms: u128,
    pub delta_ms: i64,
}

/// Whether `j` is the JSON shape of `c`.
pub open spec fn is_change_json(j: DurationChangeJson, c: DurationChange) -> bool {
    &&& j.before_ms == whole_millis(c.before.spec_nanos())
    &&& j.after_ms == whole_millis(c.after.spec_nanos())
    &&& j.delta_ms == c.abs_delta_ms
}

impl DurationChangeJson {
    /// The JSON shape of a duration change.
    pub fn from_change(c: &DurationChange) -> (j: DurationChangeJson)
        ensures
            is_change_json(j, *c),
    {
        DurationChangeJson {
            before_ms: c.before.as_millis(),
            after_ms: c.after.as_millis(),
            delta_ms: c.abs_delta_ms,
        }
    }
}

/// A crate change in JSON, tagged by its kind.
#[derive(Debug)]
pub enum CrateChangeJson {
    Added { crate_id: CrateIdJson, duration_ms: u128 },
    Removed { crate_id: CrateIdJson, duration_ms: u128 },
    Changed { crate_id: CrateIdJson, change: DurationChangeJson },
    Unchanged { crate_id: CrateIdJson, duration_ms: u128 },
}

/// Whether `j` names the crate `c`.
pub open spec fn is_crate_json(j: CrateIdJson, c: CrateId) -> bool {
    j.name@ == c.name@ && opt_text(j.version) == opt_text(c.version)
}

/// Whether `j` is the JSON shape of `c`.
pub open spec fn is_crate_change_json(j: CrateChangeJson, c: CrateChange) -> bool {
    match (j, c) {
        (
            CrateChangeJson::Added { crate_id: jc, duration_ms },
            CrateChange::Added { crate_id, duration },
        ) => is_crate_json(jc, crate_id) && duration_ms == whole_millis(duration.spec_nanos()),
        (
            CrateChangeJson::Removed { crate_id: jc, duration_ms },
            CrateChange::Removed { crate_id, duration },
        ) => is_crate_json(jc, crate_id) && duration_ms == whole_millis(duration.spec_nanos()),
        (
            CrateChangeJson::Changed { crate_id: jc, change: jch },
            CrateChange::Changed { crate_id, change },
        ) => is_crate_json(jc, crate_id) && is_change_json(jch, change),
        (
            CrateChangeJson::Unchanged { crate_id: jc, duration_ms },
            CrateChange::Unchanged { crate_id, duration },
        ) => is_crate_json(jc, crate_id) && duration_ms == whole_millis(duration.spec_nanos()),
        _ => false,
    }
}

impl CrateChangeJson {
    /// The JSON shape of a crate change, of the same kind.
    pub fn from_change(c: &CrateChange) -> (j: CrateChangeJson)
        ensures
            is_crate_change_json(j, *c),
    {
        match c {
            CrateChange::Added { crate_id, duration } => CrateChangeJson::Added {
                crate_id: CrateIdJson::from_crate_id(crate_id),
                duration_ms: duration.as_millis(),
            },
            CrateChange::Removed { crate_id, duration } => CrateChangeJson::Removed {
                crate_id: CrateIdJson::from_crate_id(crate_id),
                duration_ms: duration.as_millis(),
            },
            CrateChange::Changed { crate_id, change } => CrateChangeJson::Changed {
                crate_id: CrateIdJson::from_crate_id(crate_id),
                change: DurationChangeJson::from_change(change),
            },
            CrateChange::Unchanged { crate_id, duration } => CrateChangeJson::Unchanged {
                crate_id: CrateIdJson::from_crate_id(crate_id),
                duration_ms: duration.as_millis(),
            },
        }
    }
}

/// A build comparison in JSON.
#[derive(Debug)]
pub struct DiffJson {
    pub before: i64,
    pub after: i64,
    pub total: DurationChangeJson,
    pub crate_changes: Vec<CrateChangeJson>,
    pub critical_path_before: Vec<String>,
    pub critical_path_after: Vec<String>,
}

impl DiffJson {
    /// The JSON shape of a build comparison, changes in the same order.
    pub fn from_diff(d: &BuildDiff) -> (j: DiffJson)
        ensures
            j.before == d.before.0,
            j.after == d.after.0,
            is_change_json(j.total, d.total_change),
            j.crate_changes@.len() == d.crate_changes@.len(),
            forall|i: int|
                0 <= i < d.crate_changes@.len() ==> is_crate_change_json(
                    #[trigger] j.crate_changes@[i],
                    d.crate_changes@[i],
                ),
            texts(j.critical_path_before@) == texts(d.critical_path_before@),
            texts(j.critical_path_after@) == texts(d.critical_path_after@),
    {
        let mut changes: Vec<CrateChangeJson> = Vec::new();
        let mut i: usize = 0;
        while i < d.crate_changes.len()
            invariant
                i <= d.crate_changes@.len(),
                changes@.len() == i,
                forall|k: int|
                    0 <= k < i ==> is_crate_change_json(#[trigger] changes@[k], d.crate_changes@[k]),
            decreases d.crate_changes.len() - i,
        {
            changes.push(CrateChangeJson::from_change(&d.crate_changes[i]));
            i = i + 1;
        }
        let before_path = clone_strings(&d.critical_path_before);
        let after_path = clone_strings(&d.critical_path_after);
        DiffJson {
            before: d.before.0,
            after: d.after.0,
            total: DurationChangeJson::from_change(&d.total_change),
            crate_changes: changes,
            critical_path_before: before_path,
            critical_path_after: after_path,
        }
    }
}

} // verus!
