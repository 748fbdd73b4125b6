//! Recording builds: the repository interface, what gets recorded for each
//! event, and the statistics of past compile times.

use vstd::prelude::*;
use crate::isqrt::{is_isqrt, isqrt};
use crate::model::{
    Baseline, Build, BuildDetails, BuildEvent, BuildId, BuildProfile, CrateCompilation, CrateId,
    CrateIdView, EventView, RepoError, kind_text, opt_text, texts,
};
use crate::time::Duration;

verus! {

/// Storage of recorded builds.
///
/// Implementations report failures as [`RepoError`].
pub trait BuildRepository {
    /// Creates a build record and returns its id (on `BuildStarted`).
    /// `cargo_args` is the JSON text of the argument list.
    fn begin_build(
        &self,
        started_at: &str,
        commit_hash: Option<&str>,
        cargo_args: &str,
        profile: &BuildProfile,
    ) -> Result<BuildId, RepoError>;

    /// Records one crate compilation (on `CompilationFinished`).
    fn record_compilation(
        &self,
        build_id: BuildId,
        crate_id: &CrateId,
        kind: &str,
        started_at: &str,
        finished_at: &str,
        duration: Duration,
    ) -> Result<(), RepoError>;

    /// Completes a build record (on `BuildFinished`).
    fn finalize_build(
        &self,
        build_id: BuildId,
        finished_at: &str,
        success: bool,
        total_duration: Duration,
    ) -> Result<(), RepoError>;

    /// Up to `limit` builds, most recent start first.
    fn list_builds(&self, limit: usize) -> Result<Vec<Build>, RepoError>;

    /// A build with all of its compilations, or `None` when no build has
    /// that id.
    fn fetch_build(&self, id: BuildId) -> Result<Option<BuildDetails>, RepoError>;

    /// The statistics of a crate's recorded compile times, or `None` when
    /// there are none.
    fn fetch_baseline(&self, crate_name: &str) -> Result<Option<Baseline>, RepoError>;

    /// Deletes a build and its compilations; deleting an unknown id is not
    /// an error.
    fn delete_build(&self, id: BuildId) -> Result<(), RepoError>;
}

// ---- rows ------------------------------------------------------------------

/// A row of the `builds` table, as stored.
#[derive(Debug)]
pub struct BuildRow {
    pub id: i64,
    pub started_at: String,
    pub finished_at: Option<String>,
    pub commit_hash: Option<String>,
    pub cargo_args: String,
    pub profile: String,
    /// 1 for success, 0 for failure, absent while unfinished.
    pub success: Option<i32>,
    pub total_duration_ms: Option<i64>,
}

/// A row of the `crate_compilations` table, as stored.
#[derive(Debug)]
pub struct CompilationRow {
    pub build_id: i64,
    pub crate_name: String,
    pub crate_version: Option<String>,
    pub kind: String,
    pub started_at: String,
    pub finished_at: String,
    pub duration_ms: i64,
}

/// The number of nanoseconds in a stored millisecond count (read as an
/// unsigned number).
pub open spec fn stored_ms_nanos(ms: i64) -> nat {
    ((ms as u64) as nat) * 1_000_000
}

impl Build {
    /// The build a stored row describes: `success` is any non-zero flag,
    /// durations are whole milliseconds.
    pub fn from_row(row: BuildRow) -> (b: Build)
        ensures
            b.id == BuildId(row.id),
            b.started_at == row.started_at,
            b.finished_at == row.finished_at,
            b.commit_hash == row.commit_hash,
            b.cargo_args == row.cargo_args,
            b.profile == row.profile,
            b.success == (match row.success {
                Some(s) => Some(s != 0),
                None => None,
            }),
            match (b.total_duration, row.total_duration_ms) {
                (Some(d), Some(ms)) => d.spec_nanos() == stored_ms_nanos(ms),
                (None, None) => true,
                _ => false,
            },
    {
        Build {
            id: BuildId(row.id),
            started_at: row.started_at,
            finished_at: row.finished_at,
            commit_hash: row.commit_hash,
            cargo_args: row.cargo_args,
            profile: row.profile,
            success: match row.success {
                Some(s) => Some(s != 0),
                None => None,
            },
            total_duration: match row.total_duration_ms {
                Some(ms) => Some(Duration::from_millis(#[verifier::truncate] (ms as u64))),
                None => None,
            },
        }
    }
}

impl CrateCompilation {
    /// The compilation a stored row describes.
    pub fn from_row(row: CompilationRow) -> (c: CrateCompilation)
        ensures
            c.build_id == BuildId(row.build_id),
            c.crate_id.name == row.crate_name,
            c.crate_id.version == row.crate_version,
            c.kind == row.kind,
            c.started_at == row.started_at,
            c.finished_at == row.finished_at,
            c.duration.spec_nanos() == stored_ms_nanos(row.duration_ms),
    {
        CrateCompilation {
            build_id: BuildId(row.build_id),
            crate_id: CrateId { name: row.crate_name, version: row.crate_version },
            kind: row.kind,
            started_at: row.started_at,
            finished_at: row.finished_at,
            duration: Duration::from_millis(#[verifier::truncate] (row.duration_ms as u64)),
        }
    }
}

// ---- baselines -------------------------------------------------------------

/// Aggregates of a crate's recorded compile times (in milliseconds): how
/// many there are, their sum, the sum of their squares, the least and the
/// greatest.
#[derive(Debug, Clone, Copy)]
pub struct BaselineRow {
    pub count: i64,
    pub sum_ms: i64,
    pub sum_sq_ms: i64,
    pub min_ms: i64,
    pub max_ms: i64,
}

/// The mean in whole milliseconds: the sum divided by the count, rounded
/// down, and zero when the sum is not positive.
pub open spec fn baseline_mean_ms(a: BaselineRow) -> nat {
    if a.sum_ms <= 0 {
        0
    } else {
        (a.sum_ms / a.count) as nat
    }
}

/// `n·Σx² − (Σx)²`, the population variance times `n²` (zero when the
/// aggregates would make it negative).
pub open spec fn scaled_variance(a: BaselineRow) -> nat {
    let v = a.count * a.sum_sq_ms - a.sum_ms * a.sum_ms;
    if v > 0 {
        v as nat
    } else {
        0
    }
}

proof fn lemma_product_bounds(n: i64, q: i64, s: i64)
    by (nonlinear_arith)
    requires
        n > 0,
    ensures
        -0x4000_0000_0000_0000_0000_0000_0000_0000 < n * q < 0x4000_0000_0000_0000_0000_0000_0000_0000,
        0 <= s * s <= 0x4000_0000_0000_0000_0000_0000_0000_0000,
{
    assert(n * q <= n * 0x7fff_ffff_ffff_ffff);
    assert(n * q >= n * -0x8000_0000_0000_0000);
    assert(n * 0x7fff_ffff_ffff_ffff <= 0x7fff_ffff_ffff_ffff * 0x7fff_ffff_ffff_ffff);
    assert(n * -0x8000_0000_0000_0000 >= 0x7fff_ffff_ffff_ffff * -0x8000_0000_0000_0000);
    assert(s * s <= 0x8000_0000_0000_0000 * 0x8000_0000_0000_0000);
}

/// The baseline of a crate from the aggregates of its recorded compile
/// times: `None` when there are none; otherwise the sample count (capped
/// at `u32::MAX`), the mean rounded down to a millisecond, the population
/// standard deviation rounded down to a millisecond, and the least and
/// greatest time.
pub fn baseline_from_aggregates(crate_name: String, a: BaselineRow) -> (r: Option<Baseline>)
    ensures
        a.count <= 0 ==> r is None,
        a.count > 0 ==> (r matches Some(b) && {
            &&& b.crate_id.name == crate_name
            &&& b.crate_id.version is None
            &&& b.sample_count == (if a.count > u32::MAX { u32::MAX as int } else { a.count as int })
            &&& b.mean.spec_nanos() == baseline_mean_ms(a) * 1_000_000
            &&& a.sum_ms > 0 ==> baseline_mean_ms(a) * a.count <= a.sum_ms < (baseline_mean_ms(a) + 1) * a.count
            &&& exists|root: nat|
                is_isqrt(scaled_variance(a), root) && b.std_dev.spec_nanos() == (root / (a.count as nat))
                    * 1_000_000
            &&& b.min.spec_nanos() == stored_ms_nanos(a.min_ms)
            &&& b.max.spec_nanos() == stored_ms_nanos(a.max_ms)
        }),
{
    if a.count <= 0 {
        return None;
    }
    let mean_ms: u64 = if a.sum_ms <= 0 {
        0
    } else {
        (a.sum_ms / a.count) as u64
    };
    proof {
        lemma_product_bounds(a.count, a.sum_sq_ms, a.sum_ms);
    }
    let v: i128 = (a.count as i128) * (a.sum_sq_ms as i128) - (a.sum_ms as i128) * (a.sum_ms as i128);
    let scaled: u128 = if v > 0 {
        v as u128
    } else {
        0
    };
    let root = isqrt(scaled);
    let std_ms: u64 = root / (a.count as u64);
    let sample_count: u32 = if a.count > 0xffff_ffff {
        0xffff_ffff
    } else {
        a.count as u32
    };
    let b = Baseline {
        crate_id: CrateId { name: crate_name, version: None },
        sample_count,
        mean: Duration::from_millis(mean_ms),
        std_dev: Duration::from_millis(std_ms),
        min: Duration::from_millis(#[verifier::truncate] (a.min_ms as u64)),
        max: Duration::from_millis(#[verifier::truncate] (a.max_ms as u64)),
    };
    proof {
        assert(scaled as nat == scaled_variance(a));
        assert(is_isqrt(scaled_variance(a), root as nat));
        if a.sum_ms > 0 {
            law_baseline_mean_is_average(a);
        }
    }
    Some(b)
}

/// The baseline's mean is the average of the recorded times rounded down
/// to a whole millisecond: `count` means add up to at most the sum, and
/// `count` means one millisecond longer add up to more than it.
pub proof fn law_baseline_mean_is_average(a: BaselineRow)
    requires
        a.count > 0,
        a.sum_ms > 0,
    ensures
        baseline_mean_ms(a) * a.count <= a.sum_ms,
        a.sum_ms < (baseline_mean_ms(a) + 1) * a.count,
{
    let n = a.count as int;
    let s = a.sum_ms as int;
    let m = s / n;
    assert(m * n <= s && s < (m + 1) * n) by (nonlinear_arith)
        requires
            n > 0,
            s > 0,
            m == s / n,
    ;
    assert(baseline_mean_ms(a) == m);
}

// ---- what gets recorded ----------------------------------------------------

/// The lowercase hexadecimal digit of `n` (below 16).
pub open spec fn hex_digit(n: nat) -> char {
    if n < 10 {
        (48 + n) as char
    } else {
        (87 + n) as char
    }
}

/// How a character stands inside a JSON string written by `serde_json`:
/// `"` and `\` escaped by a backslash, backspace, tab, line feed, form
/// feed and carriage return as `\b \t \n \f \r`, the other control
/// characters below U+0020 as `\u00XX`, everything else as itself.
pub open spec fn json_escaped_char(c: char) -> Seq<char> {
    if c == '"' {
        seq!['\\', '"']
    } else if c == '\\' {
        seq!['\\', '\\']
    } else if c == '\u{8}' {
        seq!['\\', 'b']
    } else if c == '\t' {
        seq!['\\', 't']
    } else if c == '\n' {
        seq!['\\', 'n']
    } else if c == '\u{c}' {
        seq!['\\', 'f']
    } else if c == '\r' {
        seq!['\\', 'r']
    } else if (c as nat) < 32 {
        seq!['\\', 'u', '0', '0', hex_digit((c as nat) / 16), hex_digit((c as nat) % 16)]
    } else {
        seq![c]
    }
}

/// A text as the body of a JSON string.
pub open spec fn json_escaped(s: Seq<char>) -> Seq<char>
    decreases s.len(),
{
    if s.len() == 0 {
        Seq::empty()
    } else {
        json_escaped(s.drop_last()) + json_escaped_char(s.last())
    }
}

/// The quoted JSON strings of `items`, separated by commas.
pub open spec fn json_items(items: Seq<Seq<char>>) -> Seq<char>
    decreases items.len(),
{
    if items.len() == 0 {
        Seq::empty()
    } else if items.len() == 1 {
        seq!['"'] + json_escaped(items[0]) + seq!['"']
    } else {
        json_items(items.drop_last()) + seq![','] + seq!['"'] + json_escaped(items.last()) + seq!['"']
    }
}

/// The JSON text of a list of strings, as `serde_json::to_string` writes
/// it: compact, `[` and `]` around the quoted items.
pub open spec fn json_string_list(items: Seq<Seq<char>>) -> Seq<char> {
    seq!['['] + json_items(items) + seq![']']
}

/// Declares `serde_json::Error` to the verifier.
#[verifier::external_type_specification]
#[verifier::external_body]
pub struct ExJsonError(serde_json::Error);

/// Calls `serde_json::to_string` on a list of strings. Its documentation
/// says it fails only when a `Serialize` impl fails or a map has
/// non-string keys, neither of which a list of strings has: it succeeds,
/// with the compact text `json_string_list` of the list's texts.
#[verifier::external_body]
fn encode_string_list(items: &Vec<String>) -> (r: Result<String, serde_json::Error>)
    ensures
        r is Ok,
        r matches Ok(s) ==> s@ == json_string_list(texts(items@)),
{
    serde_json::to_string(items)
}

/// Why recording a build failed.
#[derive(Debug)]
pub enum PersistError {
    /// The event stream ended before its `BuildStarted`.
    StreamClosedBeforeStart,
    /// The first event was not `BuildStarted`.
    FirstEventNotBuildStarted(BuildEvent),
    /// The repository failed.
    Repository(RepoError),
}

/// A repository call the recorder asks for.
#[derive(Debug)]
pub enum PersistAction {
    /// `begin_build` with these arguments.
    Begin { started_at: String, commit_hash: Option<String>, cargo_args: String, profile: BuildProfile },
    /// `record_compilation` with these arguments.
    Record {
        build_id: BuildId,
        crate_id: CrateId,
        kind: String,
        started_at: String,
        finished_at: String,
        duration: Duration,
    },
    /// `finalize_build` with these arguments; the build is then complete.
    Finalize { build_id: BuildId, finished_at: String, success: bool, total_duration: Duration },
    /// Nothing to store for this event.
    Skip,
}

/// A repository call with its arguments as texts.
pub enum ActionView {
    Begin { started_at: Seq<char>, commit_hash: Option<Seq<char>>, cargo_args: Seq<char>, profile: BuildProfile },
    Record {
        build_id: BuildId,
        crate_id: CrateIdView,
        kind: Seq<char>,
        started_at: Seq<char>,
        finished_at: Seq<char>,
        duration: nat,
    },
    Finalize { build_id: BuildId, finished_at: Seq<char>, success: bool, total_duration: nat },
    Skip,
}

impl View for PersistAction {
    type V = ActionView;

    open spec fn view(&self) -> ActionView {
        match *self {
            PersistAction::Begin { started_at, commit_hash, cargo_args, profile } => ActionView::Begin {
                started_at: started_at@,
                commit_hash: opt_text(commit_hash),
                cargo_args: cargo_args@,
                profile,
            },
            PersistAction::Record { build_id, crate_id, kind, started_at, finished_at, duration } =>
                ActionView::Record {
                build_id,
                crate_id: crate_id@,
                kind: kind@,
                started_at: started_at@,
                finished_at: finished_at@,
                duration: duration.spec_nanos(),
            },
            PersistAction::Finalize { build_id, finished_at, success, total_duration } => ActionView::Finalize {
                build_id,
                finished_at: finished_at@,
                success,
                total_duration: total_duration.spec_nanos(),
            },
            PersistAction::Skip => ActionView::Skip,
        }
    }
}

/// What a later event of the stream makes the recorder do, for the build
/// `id`: a finished compilation is recorded, the end of the build
/// finalizes it, anything else is skipped.
pub open spec fn next_action(id: BuildId, e: EventView) -> ActionView {
    match e {
        EventView::CompilationFinished { crate_id, kind, started_at, finished_at, duration } => ActionView::Record {
            build_id: id,
            crate_id,
            kind: kind_text(kind),
            started_at,
            finished_at,
            duration,
        },
        EventView::BuildFinished { success, total_duration, at } => ActionView::Finalize {
            build_id: id,
            finished_at: at,
            success,
            total_duration,
        },
        _ => ActionView::Skip,
    }
}

/// What the first event of a stream makes the recorder do: `BuildStarted`
/// begins a build record (with the arguments as JSON text); anything else
/// is an error, and so is a stream that ends at once.
pub fn first_action(first: Option<BuildEvent>) -> (r: Result<PersistAction, PersistError>)
    ensures
        match first {
            None => r matches Err(PersistError::StreamClosedBeforeStart),
            Some(BuildEvent::BuildStarted { at, commit_hash, cargo_args, profile }) => r matches Ok(a)
                && a@ == (ActionView::Begin {
                    started_at: at@,
                    commit_hash: opt_text(commit_hash),
                    cargo_args: json_string_list(texts(cargo_args@)),
                    profile,
                }),
            Some(e) => r matches Err(PersistError::FirstEventNotBuildStarted(got)) && got == e,
        },
{
    match first {
        None => Err(PersistError::StreamClosedBeforeStart),
        Some(BuildEvent::BuildStarted { at, commit_hash, cargo_args, profile }) => {
            let json = encode_string_list(&cargo_args).unwrap();
            Ok(PersistAction::Begin { started_at: at, commit_hash, cargo_args: json, profile })
        },
        Some(e) => Err(PersistError::FirstEventNotBuildStarted(e)),
    }
}

/// What a later event makes the recorder do for the build `id` (see
/// [`next_action`]).
pub fn event_action(id: BuildId, event: BuildEvent) -> (a: PersistAction)
    ensures
        a@ == next_action(id, event@),
{
    match event {
        BuildEvent::CompilationFinished { crate_id, kind, started_at, finished_at, duration } => PersistAction::Record {
            build_id: id,
            crate_id,
            kind: kind.to_string(),
            started_at,
            finished_at,
            duration,
        },
        BuildEvent::BuildFinished { success, total_duration, at } => PersistAction::Finalize {
            build_id: id,
            finished_at: at,
            success,
            total_duration,
        },
        _ => PersistAction::Skip,
    }
}

/// Makes the repository call an action asks for. A successful `Begin`
/// gives the new build's id; the other calls give nothing. A repository
/// failure is returned as `Repository`; `Skip` calls nothing and succeeds.
pub fn perform<R: BuildRepository>(repo: &R, action: &PersistAction) -> (r: Result<Option<BuildId>, PersistError>)
    ensures
        r matches Ok(Some(_)) ==> action is Begin,
        action is Begin ==> (r matches Ok(x) ==> x is Some),
        r matches Err(e) ==> e is Repository,
        action is Skip ==> r matches Ok(None),
{
    match action {
        PersistAction::Begin { started_at, commit_hash, cargo_args, profile } => {
            let hash = match commit_hash {
                Some(h) => Some(h.as_str()),
                None => None,
            };
            match repo.begin_build(started_at.as_str(), hash, cargo_args.as_str(), profile) {
                Ok(id) => Ok(Some(id)),
                Err(e) => Err(PersistError::Repository(e)),
            }
        },
        PersistAction::Record { build_id, crate_id, kind, started_at, finished_at, duration } => {
            match repo.record_compilation(
                *build_id,
                crate_id,
                kind.as_str(),
                started_at.as_str(),
                finished_at.as_str(),
                *duration,
            ) {
                Ok(()) => Ok(None),
                Err(e) => Err(PersistError::Repository(e)),
            }
        },
        PersistAction::Finalize { build_id, finished_at, success, total_duration } => {
            match repo.finalize_build(*build_id, finished_at.as_str(), *success, *total_duration) {
                Ok(()) => Ok(None),
                Err(e) => Err(PersistError::Repository(e)),
            }
        },
        PersistAction::Skip => Ok(None),
    }
}

// ---- the recorder over a whole stream ----------------------------------------

/// The repository calls the recorder makes for the events that follow
/// `BuildStarted`, for the build `id`: one per event, and none after the
/// first `BuildFinished` (whose call finalizes the build).
pub open spec fn recorder_actions(id: BuildId, evs: Seq<EventView>) -> Seq<ActionView>
    decreases evs.len(),
{
    if evs.len() == 0 {
        seq![]
    } else if evs[0] is BuildFinished {
        seq![next_action(id, evs[0])]
    } else {
        seq![next_action(id, evs[0])] + recorder_actions(id, evs.drop_first())
    }
}

/// The `Record` calls among `acts`, in order.
pub open spec fn record_calls(acts: Seq<ActionView>) -> Seq<ActionView>
    decreases acts.len(),
{
    if acts.len() == 0 {
        seq![]
    } else if acts[0] is Record {
        seq![acts[0]] + record_calls(acts.drop_first())
    } else {
        record_calls(acts.drop_first())
    }
}

/// One `Record` call for the build `id` per finished compilation among
/// `evs`, in order, each with that compilation's crate, kind, times and
/// duration.
pub open spec fn records_of(id: BuildId, evs: Seq<EventView>) -> Seq<ActionView>
    decreases evs.len(),
{
    if evs.len() == 0 {
        seq![]
    } else if evs[0] is CompilationFinished {
        seq![next_action(id, evs[0])] + records_of(id, evs.drop_first())
    } else {
        records_of(id, evs.drop_first())
    }
}

/// The recorder's stream law. Over events without a `BuildFinished`, it
/// makes one call per event, records every finished compilation once and
/// in order, and never finalizes the build (which then stays unfinished).
/// A `BuildFinished` is the last event it acts on, and its call finalizes
/// the build with the event's outcome and times.
pub proof fn law_recorder_stream(id: BuildId, evs: Seq<EventView>)
    ensures
        recorder_actions(id, evs).len() <= evs.len(),
        (forall|i: int| 0 <= i < evs.len() ==> !(#[trigger] evs[i] is BuildFinished)) ==> {
            &&& recorder_actions(id, evs).len() == evs.len()
            &&& record_calls(recorder_actions(id, evs)) == records_of(id, evs)
            &&& forall|j: int|
                0 <= j < recorder_actions(id, evs).len() ==> !(#[trigger] recorder_actions(id, evs)[j] is Finalize)
        },
        forall|j: int|
            0 <= j < recorder_actions(id, evs).len() && #[trigger] recorder_actions(id, evs)[j] is Finalize
                ==> j == recorder_actions(id, evs).len() - 1 && evs[j] is BuildFinished
                && recorder_actions(id, evs)[j] == next_action(id, evs[j]),
        forall|k: int|
            0 <= k < records_of(id, evs).len() ==> #[trigger] records_of(id, evs)[k] is Record,
    decreases evs.len(),
{
    if evs.len() > 0 {
        let rest = evs.drop_first();
        law_recorder_stream(id, rest);
        let a = next_action(id, evs[0]);
        let acts = recorder_actions(id, evs);
        if !(evs[0] is BuildFinished) {
            let racts = recorder_actions(id, rest);
            assert(acts == seq![a] + racts);
            assert(acts.drop_first() =~= racts);
            assert forall|j: int| 0 <= j < acts.len() && #[trigger] acts[j] is Finalize implies j == acts.len() - 1
                && evs[j] is BuildFinished && acts[j] == next_action(id, evs[j]) by {
                assert(j > 0);
                assert(acts[j] == racts[j - 1]);
                assert(evs[j] == rest[j - 1]);
            }
            if forall|i: int| 0 <= i < evs.len() ==> !(#[trigger] evs[i] is BuildFinished) {
                assert forall|i: int| 0 <= i < rest.len() implies !(#[trigger] rest[i] is BuildFinished) by {
                    assert(rest[i] == evs[i + 1]);
                }
                assert forall|j: int| 0 <= j < acts.len() implies !(#[trigger] acts[j] is Finalize) by {
                    if j > 0 {
                        assert(acts[j] == racts[j - 1]);
                    }
                }
            }
        }
        let rr = records_of(id, rest);
        assert forall|k: int| 0 <= k < records_of(id, evs).len() implies #[trigger] records_of(id, evs)[k] is Record by {
            if evs[0] is CompilationFinished {
                if k > 0 {
                    assert(records_of(id, evs)[k] == rr[k - 1]);
                }
            } else {
                assert(records_of(id, evs) == rr);
            }
        }
    }
}

// ---- the end of a run ------------------------------------------------------

/// How a recording run ended.
#[derive(Debug, Clone, Copy, PartialEq, Eq, Structural)]
pub enum RunEnd {
    /// The build stays recorded.
    Recorded(BuildId),
    /// The user interrupted the run (Ctrl-C or `q`); the build was deleted so
    /// that its partial timings do not enter the baselines.
    Interrupted(BuildId),
}

/// What the end of a run asks of the repository.
#[derive(Debug, Clone, Copy, PartialEq, Eq, Structural)]
pub enum EndAction {
    /// Nothing: the build stays recorded.
    Keep(BuildId),
    /// `delete_build` of this build: the run was interrupted.
    Delete(BuildId),
}

/// What the end of a run asks for: deleting the build when the user
/// interrupted the run, keeping it otherwise.
pub fn end_action(id: BuildId, interrupted: bool) -> (a: EndAction)
    ensures
        a == (if interrupted {
            EndAction::Delete(id)
        } else {
            EndAction::Keep(id)
        }),
{
    if interrupted {
        EndAction::Delete(id)
    } else {
        EndAction::Keep(id)
    }
}

/// Ends a recording run as [`end_action`] asks: an interrupted run's build
/// is deleted with `delete_build` (and nothing else is asked of `repo`); a
/// completed run's build is kept without touching `repo`.
pub fn finish_run<R: BuildRepository>(repo: &R, id: BuildId, interrupted: bool) -> (r: Result<RunEnd, RepoError>)
    ensures
        !interrupted ==> r == Ok::<RunEnd, RepoError>(RunEnd::Recorded(id)),
        interrupted ==> (r matches Ok(e) ==> e == RunEnd::Interrupted(id)),
{
    match end_action(id, interrupted) {
        EndAction::Keep(kept) => Ok(RunEnd::Recorded(kept)),
        EndAction::Delete(gone) => match repo.delete_build(gone) {
            Ok(()) => Ok(RunEnd::Interrupted(gone)),
            Err(e) => Err(e),
        },
    }
}

/// The line printed at the end of a run.
pub open spec fn run_end_text(e: RunEnd) -> Seq<char> {
    match e {
        RunEnd::Recorded(id) => "Build "@ + seq!['#'] + crate::text::signed_decimal(id.0 as int) + " recorded."@,
        RunEnd::Interrupted(_) => "Build interrupted — not recorded."@,
    }
}

/// The line printed at the end of a run: `Build #N recorded.`, or
/// `Build interrupted — not recorded.`.
pub fn run_end_message(e: RunEnd) -> (s: String)
    ensures
        s@ == run_end_text(e),
{
    match e {
        RunEnd::Recorded(id) => {
            let mut s = crate::text::owned("Build ");
            let t = id.to_string();
            crate::text::push_str(&mut s, t.as_str());
            crate::text::push_str(&mut s, " recorded.");
            s
        },
        RunEnd::Interrupted(_) => crate::text::owned("Build interrupted — not recorded."),
    }
}

} // verus!
