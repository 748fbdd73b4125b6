//! The dashboard's state.
//!
//! The state follows the build's events: crates compiling now, the last few
//! that finished, the build's metadata and the latest system reading.
//! Verdicts are set by the event loop (see the `dashboard` module).

use std::collections::VecDeque;

use vstd::prelude::*;
use crate::anomaly::AnomalyVerdict;
use crate::clock::{elapsed_since, now};
use crate::model::{
    BuildEvent, BuildId, BuildProfile, CrateId, CrateIdView, CrateKind, clone_opt_string, opt_text,
};
use crate::time::Duration;

verus! {

/// How many finished compilations the dashboard keeps.
pub const MAX_RECENT: usize = 5;

/// A reading of the machine's load.
#[derive(Debug, Clone, Copy, PartialEq, Eq, Structural)]
pub struct SystemSnapshot {
    /// CPU use over all cores, in tenths of a percent (755 is 75.5%).
    pub cpu_usage_tenths: u32,
    /// Memory in use, in bytes.
    pub mem_used_bytes: u64,
    /// Total memory, in bytes.
    pub mem_total_bytes: u64,
}

/// A crate that is compiling now.
#[derive(Debug)]
pub struct ActiveCompilation {
    pub crate_id: CrateId,
    pub kind: CrateKind,
    /// When the compilation started, by the monotonic clock.
    pub started_at: std::time::Instant,
    /// Verdict so far; `Unknown` until the event loop classifies it.
    pub verdict: AnomalyVerdict,
}

impl ActiveCompilation {
    /// The time since the compilation started.
    pub fn elapsed(&self) -> Duration {
        elapsed_since(&self.started_at)
    }
}

/// A crate compilation that finished.
#[derive(Debug)]
pub struct FinishedCompilation {
    pub crate_id: CrateId,
    pub kind: CrateKind,
    pub duration: Duration,
    /// Verdict against the baseline; `Unknown` until classified.
    pub verdict: AnomalyVerdict,
}

/// Everything the dashboard shows.
#[derive(Debug)]
pub struct TuiState {
    /// The database id of the build, once known.
    pub build_id: Option<BuildId>,
    pub profile: Option<BuildProfile>,
    pub commit_hash: Option<String>,
    /// When the build started, by the monotonic clock.
    pub started_at: Option<std::time::Instant>,
    /// Crates compiling now, each crate at most once.
    pub active: Vec<ActiveCompilation>,
    /// The last finished compilations, oldest first, at most `MAX_RECENT`.
    pub recent: VecDeque<FinishedCompilation>,
    /// How many compilations have finished.
    pub finished_count: usize,
    /// The latest system reading.
    pub system: Option<SystemSnapshot>,
    /// Whether the build succeeded, once it ended.
    pub build_result: Option<bool>,
    pub total_duration: Option<Duration>,
}

/// An active compilation as crate, kind and verdict.
pub type ActiveView = (CrateIdView, CrateKind, AnomalyVerdict);

/// A finished compilation as crate, kind, time in nanoseconds and verdict.
pub type RecentView = (CrateIdView, CrateKind, nat, AnomalyVerdict);

/// The views of the active compilations.
pub open spec fn active_views(s: Seq<ActiveCompilation>) -> Seq<ActiveView> {
    s.map_values(|a: ActiveCompilation| (a.crate_id@, a.kind, a.verdict))
}

/// The views of the finished compilations.
pub open spec fn recent_views(s: Seq<FinishedCompilation>) -> Seq<RecentView> {
    s.map_values(|f: FinishedCompilation| (f.crate_id@, f.kind, f.duration.spec_nanos(), f.verdict))
}

/// When each active compilation started, in order.
pub open spec fn start_instants(s: Seq<ActiveCompilation>) -> Seq<std::time::Instant> {
    s.map_values(|a: ActiveCompilation| a.started_at)
}

/// The first position of `key` among the active compilations.
pub open spec fn find_active(s: Seq<ActiveView>, key: CrateIdView) -> Option<int>
    decreases s.len(),
{
    if s.len() == 0 {
        None
    } else if s[0].0 == key {
        Some(0)
    } else {
        match find_active(s.drop_first(), key) {
            Some(i) => Some(i + 1),
            None => None,
        }
    }
}

/// The last position of `key` among the finished compilations.
pub open spec fn find_recent_last(s: Seq<RecentView>, key: CrateIdView) -> Option<int>
    decreases s.len(),
{
    if s.len() == 0 {
        None
    } else if s.last().0 == key {
        Some(s.len() - 1)
    } else {
        find_recent_last(s.drop_last(), key)
    }
}

/// The finished compilations after the last one of `key` got the verdict
/// `v` (unchanged when none is of `key`).
pub open spec fn verdict_set(s: Seq<RecentView>, key: CrateIdView, v: AnomalyVerdict) -> Seq<RecentView> {
    match find_recent_last(s, key) {
        Some(i) => s.update(i, (s[i].0, s[i].1, s[i].2, v)),
        None => s,
    }
}

proof fn lemma_find_recent_last(s: Seq<RecentView>, key: CrateIdView)
    ensures
        find_recent_last(s, key) matches Some(i) ==> 0 <= i < s.len() && s[i].0 == key && forall|j: int|
            i < j < s.len() ==> s[j].0 != key,
        find_recent_last(s, key) is None ==> forall|j: int| 0 <= j < s.len() ==> s[j].0 != key,
    decreases s.len(),
{
    if s.len() > 0 && s.last().0 != key {
        lemma_find_recent_last(s.drop_last(), key);
        assert forall|j: int| 0 <= j < s.len() - 1 implies s[j] == s.drop_last()[j] by {}
    }
}

/// Setting a finished compilation's verdict changes exactly the most
/// recent entry of that crate, and only its verdict; with no entry of the
/// crate nothing changes.
pub proof fn law_verdict_set_last_match(s: Seq<RecentView>, key: CrateIdView, v: AnomalyVerdict)
    ensures
        verdict_set(s, key, v).len() == s.len(),
        forall|j: int|
            0 <= j < s.len() ==> {
                let last_match = s[j].0 == key && forall|k: int| j < k < s.len() ==> s[k].0 != key;
                &&& last_match ==> #[trigger] verdict_set(s, key, v)[j] == (s[j].0, s[j].1, s[j].2, v)
                &&& !last_match ==> verdict_set(s, key, v)[j] == s[j]
            },
{
    lemma_find_recent_last(s, key);
    assert forall|j: int| 0 <= j < s.len() implies {
        let last_match = s[j].0 == key && forall|k: int| j < k < s.len() ==> s[k].0 != key;
        &&& last_match ==> #[trigger] verdict_set(s, key, v)[j] == (s[j].0, s[j].1, s[j].2, v)
        &&& !last_match ==> verdict_set(s, key, v)[j] == s[j]
    } by {
        match find_recent_last(s, key) {
            Some(i) => {
                if s[j].0 == key && (forall|k: int| j < k < s.len() ==> s[k].0 != key) {
                    if j < i {
                        assert(s[i].0 != key);
                    }
                    if j > i {
                        assert(s[j].0 != key);
                    }
                } else if j == i {
                    assert(forall|k: int| j < k < s.len() ==> s[k].0 != key);
                }
            },
            None => {},
        }
    }
}

/// Whether no crate is active twice.
pub open spec fn distinct_active(s: Seq<ActiveView>) -> bool {
    forall|i: int, j: int| 0 <= i < j < s.len() ==> s[i].0 != s[j].0
}

/// The active compilations after `key` (of kind `kind`) started:
/// replaces an earlier start of the same crate, else appends.
pub open spec fn active_after_start(s: Seq<ActiveView>, key: CrateIdView, kind: CrateKind) -> Seq<ActiveView> {
    match find_active(s, key) {
        Some(i) => s.update(i, (key, kind, AnomalyVerdict::Unknown)),
        None => s.push((key, kind, AnomalyVerdict::Unknown)),
    }
}

/// The active compilations after `key` finished.
pub open spec fn active_after_finish(s: Seq<ActiveView>, key: CrateIdView) -> Seq<ActiveView> {
    match find_active(s, key) {
        Some(i) => s.remove(i),
        None => s,
    }
}

/// The finished compilations after one more: the oldest is dropped when
/// `MAX_RECENT` are kept already.
pub open spec fn recent_after_finish(s: Seq<RecentView>, entry: RecentView) -> Seq<RecentView> {
    if s.len() >= MAX_RECENT {
        s.drop_first().push(entry)
    } else {
        s.push(entry)
    }
}

proof fn lemma_find_active(s: Seq<ActiveView>, key: CrateIdView, i: int)
    requires
        0 <= i <= s.len(),
        forall|k: int| 0 <= k < i ==> s[k].0 != key,
    ensures
        find_active(s, key) == (match find_active(s.skip(i), key) {
            Some(m) => Some(m + i),
            None => None,
        }),
    decreases i,
{
    if i == 0 {
        assert(s.skip(0) =~= s);
        match find_active(s, key) {
            Some(m) => {},
            None => {},
        }
    } else {
        lemma_find_active(s, key, i - 1);
        assert(s.skip(i - 1)[0] == s[i - 1]);
        assert(s.skip(i - 1).drop_first() =~= s.skip(i));
    }
}

proof fn lemma_find_active_some(s: Seq<ActiveView>, key: CrateIdView)
    ensures
        find_active(s, key) matches Some(i) ==> 0 <= i < s.len() && s[i].0 == key,
        find_active(s, key) is None ==> forall|k: int| 0 <= k < s.len() ==> s[k].0 != key,
    decreases s.len(),
{
    if s.len() > 0 && s[0].0 != key {
        lemma_find_active_some(s.drop_first(), key);
        if find_active(s, key) is None {
            assert forall|k: int| 0 <= k < s.len() implies s[k].0 != key by {
                if k > 0 {
                    assert(s[k] == s.drop_first()[k - 1]);
                }
            }
        }
    }
}

impl TuiState {
    /// The invariant: no crate is active twice, and at most `MAX_RECENT`
    /// finished compilations are kept.
    pub open spec fn wf(&self) -> bool {
        &&& distinct_active(active_views(self.active@))
        &&& self.recent@.len() <= MAX_RECENT
    }

    /// An empty dashboard.
    pub fn new() -> (s: TuiState)
        ensures
            s.wf(),
            s.build_id is None,
            s.profile is None,
            s.commit_hash is None,
            s.started_at is None,
            s.active@.len() == 0,
            s.recent@.len() == 0,
            s.finished_count == 0,
            s.system is None,
            s.build_result is None,
            s.total_duration is None,
    {
        TuiState {
            build_id: None,
            profile: None,
            commit_hash: None,
            started_at: None,
            active: Vec::new(),
            recent: VecDeque::new(),
            finished_count: 0,
            system: None,
            build_result: None,
            total_duration: None,
        }
    }

    fn active_index(&self, key: &CrateId) -> (r: Option<usize>)
        ensures
            match r {
                Some(i) => find_active(active_views(self.active@), key@) == Some(i as int) && i < self.active@.len(),
                None => find_active(active_views(self.active@), key@) is None,
            },
    {
        let ghost s = active_views(self.active@);
        let mut i: usize = 0;
        while i < self.active.len()
            invariant
                i <= self.active@.len(),
                s == active_views(self.active@),
                forall|k: int| 0 <= k < i ==> s[k].0 != key@,
            decreases self.active.len() - i,
        {
            if self.active[i].crate_id.same_as(key) {
                proof {
                    lemma_find_active(s, key@, i as int);
                    assert(s.skip(i as int)[0] == s[i as int]);
                }
                return Some(i);
            }
            i = i + 1;
        }
        proof {
            lemma_find_active(s, key@, i as int);
        }
        None
    }

    /// Updates the state with one build event and returns the crates whose
    /// compilation the event finished (for which a verdict is owed).
    ///
    /// - `BuildStarted` records profile, commit and the start time;
    /// - `CompilationStarted` makes the crate active, replacing an earlier
    ///   start of the same crate;
    /// - `CompilationFinished` removes the crate from the active ones,
    ///   counts it, appends it to the finished ones (dropping the oldest
    ///   beyond `MAX_RECENT`) and returns it;
    /// - `BuildFinished` records the outcome and clears the active ones;
    /// - a compiler message changes nothing.
    pub fn apply_event(&mut self, event: &BuildEvent) -> (finished: Vec<CrateId>)
        requires
            old(self).wf(),
            event is CompilationFinished ==> old(self).finished_count < usize::MAX,
        ensures
            final(self).wf(),
            final(self).build_id == old(self).build_id,
            final(self).system == old(self).system,
            match *event {
                BuildEvent::BuildStarted { commit_hash, profile, .. } => {
                    &&& start_instants(final(self).active@) == start_instants(old(self).active@)
                    &&& final(self).profile == Some(profile)
                    &&& opt_text(final(self).commit_hash) == opt_text(commit_hash)
                    &&& final(self).started_at is Some
                    &&& active_views(final(self).active@) == active_views(old(self).active@)
                    &&& recent_views(final(self).recent@) == recent_views(old(self).recent@)
                    &&& final(self).finished_count == old(self).finished_count
                    &&& final(self).build_result == old(self).build_result
                    &&& final(self).total_duration == old(self).total_duration
                    &&& finished@.len() == 0
                },
                BuildEvent::CompilationStarted { crate_id, kind, .. } => {
                    &&& active_views(final(self).active@) == active_after_start(
                        active_views(old(self).active@),
                        crate_id@,
                        kind,
                    )
                    &&& unchanged_except_active(*old(self), *final(self))
                    &&& finished@.len() == 0
                    &&& start_instants(final(self).active@) == (match find_active(
                        active_views(old(self).active@),
                        crate_id@,
                    ) {
                        Some(i) => start_instants(old(self).active@).update(i, final(self).active@[i].started_at),
                        None => start_instants(old(self).active@).push(final(self).active@.last().started_at),
                    })
                },
                BuildEvent::CompilationFinished { crate_id, kind, duration, .. } => {
                    &&& active_views(final(self).active@) == active_after_finish(
                        active_views(old(self).active@),
                        crate_id@,
                    )
                    &&& start_instants(final(self).active@) == (match find_active(
                        active_views(old(self).active@),
                        crate_id@,
                    ) {
                        Some(i) => start_instants(old(self).active@).remove(i),
                        None => start_instants(old(self).active@),
                    })
                    &&& recent_views(final(self).recent@) == recent_after_finish(
                        recent_views(old(self).recent@),
                        (crate_id@, kind, duration.spec_nanos(), AnomalyVerdict::Unknown),
                    )
                    &&& final(self).finished_count == old(self).finished_count + 1
                    &&& final(self).profile == old(self).profile
                    &&& final(self).commit_hash == old(self).commit_hash
                    &&& final(self).started_at == old(self).started_at
                    &&& final(self).build_result == old(self).build_result
                    &&& final(self).total_duration == old(self).total_duration
                    &&& finished@.len() == 1
                    &&& finished@[0]@ == crate_id@
                },
                BuildEvent::BuildFinished { success, total_duration, .. } => {
                    &&& final(self).build_result == Some(success)
                    &&& final(self).total_duration == Some(total_duration)
                    &&& final(self).active@.len() == 0
                    &&& recent_views(final(self).recent@) == recent_views(old(self).recent@)
                    &&& final(self).finished_count == old(self).finished_count
                    &&& final(self).profile == old(self).profile
                    &&& final(self).commit_hash == old(self).commit_hash
                    &&& final(self).started_at == old(self).started_at
                    &&& finished@.len() == 0
                },
                BuildEvent::CompilerMessage { .. } => {
                    &&& active_views(final(self).active@) == active_views(old(self).active@)
                    &&& start_instants(final(self).active@) == start_instants(old(self).active@)
                    &&& unchanged_except_active(*old(self), *final(self))
                    &&& finished@.len() == 0
                },
            },
    {
        match event {
            BuildEvent::BuildStarted { commit_hash, profile, .. } => {
                self.profile = Some(*profile);
                self.commit_hash = clone_opt_string(commit_hash);
                self.started_at = Some(now());
                Vec::new()
            },
            BuildEvent::CompilationStarted { crate_id, kind, .. } => {
                let entry = ActiveCompilation {
                    crate_id: crate_id.clone(),
                    kind: *kind,
                    started_at: now(),
                    verdict: AnomalyVerdict::Unknown,
                };
                let ghost before = active_views(self.active@);
                let ghost starts_before = start_instants(self.active@);
                proof {
                    lemma_find_active_some(before, crate_id@);
                }
                match self.active_index(crate_id) {
                    Some(i) => {
                        self.active.set(i, entry);
                        assert(start_instants(self.active@) =~= starts_before.update(
                            i as int,
                            self.active@[i as int].started_at,
                        ));
                        assert(active_views(self.active@) =~= before.update(
                            i as int,
                            (crate_id@, *kind, AnomalyVerdict::Unknown),
                        ));
                    },
                    None => {
                        self.active.push(entry);
                        assert(start_instants(self.active@) =~= starts_before.push(self.active@.last().started_at));
                        assert(active_views(self.active@) =~= before.push(
                            (crate_id@, *kind, AnomalyVerdict::Unknown),
                        ));
                    },
                }
                Vec::new()
            },
            BuildEvent::CompilationFinished { crate_id, kind, duration, .. } => {
                let ghost before = active_views(self.active@);
                let ghost starts_before = start_instants(self.active@);
                let ghost recent_before = recent_views(self.recent@);
                proof {
                    lemma_find_active_some(before, crate_id@);
                }
                match self.active_index(crate_id) {
                    Some(i) => {
                        self.active.remove(i);
                        assert(start_instants(self.active@) =~= starts_before.remove(i as int));
                        assert(active_views(self.active@) =~= before.remove(i as int));
                    },
                    None => {},
                }
                self.finished_count = self.finished_count + 1;
                if self.recent.len() >= MAX_RECENT {
                    self.recent.pop_front();
                    assert(recent_views(self.recent@) =~= recent_before.drop_first());
                }
                self.recent.push_back(
                    FinishedCompilation {
                        crate_id: crate_id.clone(),
                        kind: *kind,
                        duration: *duration,
                        verdict: AnomalyVerdict::Unknown,
                    },
                );
                assert(recent_views(self.recent@) =~= recent_after_finish(
                    recent_before,
                    (crate_id@, *kind, duration.spec_nanos(), AnomalyVerdict::Unknown),
                ));
                let mut out: Vec<CrateId> = Vec::new();
                out.push(crate_id.clone());
                out
            },
            BuildEvent::BuildFinished { success, total_duration, .. } => {
                self.build_result = Some(*success);
                self.total_duration = Some(*total_duration);
                self.active.clear();
                Vec::new()
            },
            BuildEvent::CompilerMessage { .. } => Vec::new(),
        }
    }

    /// Sets the verdict of the most recent finished compilation of
    /// `crate_id`; nothing changes when none is kept.
    pub fn set_verdict(&mut self, crate_id: &CrateId, verdict: AnomalyVerdict)
        requires
            old(self).wf(),
        ensures
            final(self).wf(),
            recent_views(final(self).recent@) == verdict_set(recent_views(old(self).recent@), crate_id@, verdict),
            active_views(final(self).active@) == active_views(old(self).active@),
            start_instants(final(self).active@) == start_instants(old(self).active@),
            unchanged_except_recent(*old(self), *final(self)),
    {
        let ghost rv = recent_views(self.recent@);
        match self.recent_index_last(crate_id) {
            Some(i) => {
                if let Some(old_entry) = self.recent.remove(i) {
                    self.recent.insert(
                        i,
                        FinishedCompilation {
                            crate_id: old_entry.crate_id,
                            kind: old_entry.kind,
                            duration: old_entry.duration,
                            verdict,
                        },
                    );
                }
                assert(recent_views(self.recent@) =~= rv.update(
                    i as int,
                    (rv[i as int].0, rv[i as int].1, rv[i as int].2, verdict),
                ));
            },
            None => {},
        }
    }

    fn recent_index_last(&self, key: &CrateId) -> (r: Option<usize>)
        ensures
            match r {
                Some(i) => find_recent_last(recent_views(self.recent@), key@) == Some(i as int)
                    && i < self.recent@.len(),
                None => find_recent_last(recent_views(self.recent@), key@) is None,
            },
    {
        let ghost rv = recent_views(self.recent@);
        let mut i: usize = self.recent.len();
        assert(rv.take(i as int) =~= rv);
        while i > 0
            invariant
                i <= self.recent@.len(),
                rv == recent_views(self.recent@),
                find_recent_last(rv, key@) == find_recent_last(rv.take(i as int), key@),
            decreases i,
        {
            assert(rv.take(i as int).last() == rv[i - 1]);
            if self.recent[i - 1].crate_id.same_as(key) {
                return Some(i - 1);
            }
            assert(rv.take(i as int).drop_last() =~= rv.take(i - 1));
            i = i - 1;
        }
        assert(rv.take(0) =~= Seq::<RecentView>::empty());
        None
    }

    /// Sets the in-progress verdict of the active compilation of
    /// `crate_id`; nothing changes when the crate is not active.
    pub fn set_in_progress_verdict(&mut self, crate_id: &CrateId, verdict: AnomalyVerdict)
        requires
            old(self).wf(),
        ensures
            final(self).wf(),
            active_views(final(self).active@) == (match find_active(active_views(old(self).active@), crate_id@) {
                Some(i) => active_views(old(self).active@).update(
                    i,
                    (active_views(old(self).active@)[i].0, active_views(old(self).active@)[i].1, verdict),
                ),
                None => active_views(old(self).active@),
            }),
            recent_views(final(self).recent@) == recent_views(old(self).recent@),
            start_instants(final(self).active@) == start_instants(old(self).active@),
            unchanged_except_active(*old(self), *final(self)),
    {
        match self.active_index(crate_id) {
            Some(i) => self.set_active_verdict_at(i, verdict),
            None => {},
        }
    }

    /// Sets the verdict of the active compilation at `i`.
    pub(crate) fn set_active_verdict_at(&mut self, i: usize, verdict: AnomalyVerdict)
        requires
            old(self).wf(),
            i < old(self).active@.len(),
        ensures
            final(self).wf(),
            active_views(final(self).active@) == active_views(old(self).active@).update(
                i as int,
                (active_views(old(self).active@)[i as int].0, active_views(old(self).active@)[i as int].1, verdict),
            ),
            recent_views(final(self).recent@) == recent_views(old(self).recent@),
            start_instants(final(self).active@) == start_instants(old(self).active@),
            unchanged_except_active(*old(self), *final(self)),
    {
        let ghost av = active_views(self.active@);
        let ghost st = start_instants(self.active@);
        let old_entry = self.active.remove(i);
        self.active.insert(
            i,
            ActiveCompilation {
                crate_id: old_entry.crate_id,
                kind: old_entry.kind,
                started_at: old_entry.started_at,
                verdict,
            },
        );
        assert(active_views(self.active@) =~= av.update(i as int, (av[i as int].0, av[i as int].1, verdict)));
        assert(start_instants(self.active@) =~= st);
    }

    /// Replaces the system reading.
    pub fn update_system(&mut self, snapshot: SystemSnapshot)
        requires
            old(self).wf(),
        ensures
            final(self).wf(),
            final(self).system == Some(snapshot),
            active_views(final(self).active@) == active_views(old(self).active@),
            recent_views(final(self).recent@) == recent_views(old(self).recent@),
            final(self).build_id == old(self).build_id,
            final(self).build_result == old(self).build_result,
            final(self).finished_count == old(self).finished_count,
    {
        self.system = Some(snapshot);
    }

    /// Records the database id of the build.
    pub fn set_build_id(&mut self, id: BuildId)
        requires
            old(self).wf(),
        ensures
            final(self).wf(),
            final(self).build_id == Some(id),
            active_views(final(self).active@) == active_views(old(self).active@),
            recent_views(final(self).recent@) == recent_views(old(self).recent@),
            final(self).system == old(self).system,
            final(self).build_result == old(self).build_result,
            final(self).finished_count == old(self).finished_count,
    {
        self.build_id = Some(id);
    }

    /// The time since the build started, once it started.
    pub fn elapsed(&self) -> (r: Option<Duration>)
        ensures
            r is Some == self.started_at is Some,
    {
        match &self.started_at {
            Some(t) => Some(elapsed_since(t)),
            None => None,
        }
    }

    /// Whether the build has ended.
    pub fn is_finished(&self) -> (r: bool)
        ensures
            r == self.build_result is Some,
    {
        self.build_result.is_some()
    }
}

impl Default for TuiState {
    /// An empty dashboard.
    fn default() -> (s: Self)
        ensures
            s.wf(),
            s.build_id is None,
            s.profile is None,
            s.commit_hash is None,
            s.started_at is None,
            s.active@.len() == 0,
            s.recent@.len() == 0,
            s.finished_count == 0,
            s.system is None,
            s.build_result is None,
            s.total_duration is None,
    {
        TuiState::new()
    }
}

/// Everything but the active compilations is as it was.
pub open spec fn unchanged_except_active(a: TuiState, b: TuiState) -> bool {
    &&& b.build_id == a.build_id
    &&& b.profile == a.profile
    &&& b.commit_hash == a.commit_hash
    &&& b.started_at == a.started_at
    &&& recent_views(b.recent@) == recent_views(a.recent@)
    &&& b.finished_count == a.finished_count
    &&& b.system == a.system
    &&& b.build_result == a.build_result
    &&& b.total_duration == a.total_duration
}

/// Everything but the finished compilations is as it was.
pub open spec fn unchanged_except_recent(a: TuiState, b: TuiState) -> bool {
    &&& b.build_id == a.build_id
    &&& b.profile == a.profile
    &&& b.commit_hash == a.commit_hash
    &&& b.started_at == a.started_at
    &&& b.finished_count == a.finished_count
    &&& b.system == a.system
    &&& b.build_result == a.build_result
    &&& b.total_duration == a.total_duration
}

/// A crate that starts and then finishes compiling leaves the active
/// compilations as they were before it started.
pub proof fn law_start_then_finish(s: Seq<ActiveView>, key: CrateIdView, kind: CrateKind)
    requires
        find_active(s, key) is None,
    ensures
        active_after_finish(active_after_start(s, key, kind), key) == s,
{
    let t = s.push((key, kind, AnomalyVerdict::Unknown));
    lemma_find_active_some(s, key);
    lemma_find_active(t, key, s.len() as int);
    assert(t.skip(s.len() as int) =~= seq![(key, kind, AnomalyVerdict::Unknown)]);
    assert(find_active(seq![(key, kind, AnomalyVerdict::Unknown)], key) == Some(0int));
    assert(t.remove(s.len() as int) =~= s);
}

/// The dashboard keeps at most `MAX_RECENT` finished compilations, the
/// newest last: after a finish the new entry is last, and the length is
/// the old one plus one, capped at `MAX_RECENT`.
pub proof fn law_recent_capped(s: Seq<RecentView>, entry: RecentView)
    requires
        s.len() <= MAX_RECENT,
    ensures
        recent_after_finish(s, entry).len() == (if s.len() < MAX_RECENT {
            s.len() + 1
        } else {
            MAX_RECENT as nat
        }),
        recent_after_finish(s, entry).last() == entry,
{
}

} // verus!
