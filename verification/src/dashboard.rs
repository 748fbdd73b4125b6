//! The decisions of the dashboard's event loop: baselines looked up once
//! per crate, verdicts for finished and running compilations, and the keys
//! that end the dashboard.
//!
//! The loop itself (waiting on events, the clock tick, the keyboard and the
//! terminal) runs outside; it calls these functions with what it received.

use vstd::prelude::*;
use crate::anomaly::{
    AnomalyVerdict, DEFAULT_THRESHOLD_SIGMA_MILLI, classify, classify_in_progress,
    classify_in_progress_spec, classify_spec, deref_baseline,
};
use crate::model::{Baseline, BuildEvent, RepoError, opt_text};
use crate::persist::BuildRepository;
use crate::text::same_text;
use crate::time::Duration;
use crate::tui::{
    ActiveView, RecentView, TuiState, active_after_finish, active_after_start, active_views,
    find_recent_last, recent_after_finish, recent_views, unchanged_except_active,
};

verus! {

/// The baselines looked up so far, by crate name. A name is looked up in
/// the repository at most once; a failed lookup counts as "no baseline".
pub struct BaselineCache {
    entries: Vec<(String, Option<Baseline>)>,
}

/// The map a list of (name, baseline) entries describes.
pub open spec fn entries_map(s: Seq<(String, Option<Baseline>)>) -> Map<Seq<char>, Option<Baseline>>
    decreases s.len(),
{
    if s.len() == 0 {
        Map::empty()
    } else {
        entries_map(s.drop_last()).insert(s.last().0@, s.last().1)
    }
}

/// Whether no name occurs twice among the entries.
pub open spec fn distinct_names(s: Seq<(String, Option<Baseline>)>) -> bool {
    forall|i: int, j: int| 0 <= i < j < s.len() ==> s[i].0@ != s[j].0@
}

proof fn lemma_entries_lookup(s: Seq<(String, Option<Baseline>)>, k: Seq<char>)
    requires
        distinct_names(s),
    ensures
        (forall|i: int| 0 <= i < s.len() ==> s[i].0@ != k) ==> !entries_map(s).contains_key(k),
        forall|i: int|
            0 <= i < s.len() && s[i].0@ == k ==> entries_map(s).contains_key(k) && entries_map(s)[k]
                == s[i].1,
    decreases s.len(),
{
    if s.len() > 0 {
        let t = s.drop_last();
        lemma_entries_lookup(t, k);
        assert forall|i: int| 0 <= i < t.len() implies t[i] == s[i] by {}
    }
}

impl View for BaselineCache {
    type V = Map<Seq<char>, Option<Baseline>>;

    closed spec fn view(&self) -> Map<Seq<char>, Option<Baseline>> {
        entries_map(self.entries@)
    }
}

impl BaselineCache {
    #[verifier::type_invariant]
    spec fn names_distinct(&self) -> bool {
        distinct_names(self.entries@)
    }

    /// An empty cache.
    pub fn new() -> (c: BaselineCache)
        ensures
            c@ == Map::<Seq<char>, Option<Baseline>>::empty(),
    {
        BaselineCache { entries: Vec::new() }
    }

    fn position(&self, name: &String) -> (r: Option<usize>)
        ensures
            match r {
                Some(i) => i < self.entries@.len() && self.entries@[i as int].0@ == name@,
                None => forall|i: int| 0 <= i < self.entries@.len() ==> self.entries@[i].0@ != name@,
            },
    {
        let mut i: usize = 0;
        while i < self.entries.len()
            invariant
                i <= self.entries@.len(),
                forall|k: int| 0 <= k < i ==> self.entries@[k].0@ != name@,
            decreases self.entries.len() - i,
        {
            if same_text(&self.entries[i].0, name) {
                return Some(i);
            }
            i = i + 1;
        }
        None
    }

    /// The cached answer for `name`: `None` when `name` was never looked up,
    /// else `Some` of the baseline (which itself may be absent).
    pub fn get(&self, name: &String) -> (r: Option<Option<Baseline>>)
        ensures
            r == (if self@.contains_key(name@) {
                Some(self@[name@])
            } else {
                None
            }),
    {
        proof {
            use_type_invariant(self);
            lemma_entries_lookup(self.entries@, name@);
        }
        match self.position(name) {
            Some(i) => {
                let b = match &self.entries[i].1 {
                    Some(b) => Some(b.clone()),
                    None => None,
                };
                Some(b)
            },
            None => None,
        }
    }

    /// Records the repository's answer for `name` unless an answer is cached
    /// already, and returns the baseline now cached for `name`: the cached
    /// one, else the fetched one, where a failed lookup counts as none.
    pub fn record(&mut self, name: &String, fetched: Result<Option<Baseline>, RepoError>) -> (r: Option<Baseline>)
        ensures
            r == (if old(self)@.contains_key(name@) {
                old(self)@[name@]
            } else {
                match fetched {
                    Ok(b) => b,
                    Err(_) => None,
                }
            }),
            final(self)@ == old(self)@.insert(name@, r),
    {
        proof {
            use_type_invariant(&*self);
            lemma_entries_lookup(self.entries@, name@);
        }
        match self.position(name) {
            Some(i) => {
                let r = match &self.entries[i].1 {
                    Some(b) => Some(b.clone()),
                    None => None,
                };
                assert(self@.insert(name@, r) =~= self@);
                r
            },
            None => {
                let r = match fetched {
                    Ok(b) => b,
                    Err(_) => None,
                };
                let copy = match &r {
                    Some(b) => Some(b.clone()),
                    None => None,
                };
                let ghost before = self.entries@;
                let mut entries: Vec<(String, Option<Baseline>)> = Vec::new();
                std::mem::swap(&mut entries, &mut self.entries);
                entries.push((name.clone(), copy));
                proof {
                    assert(entries@.drop_last() =~= before);
                }
                self.entries = entries;
                r
            },
        }
    }

    /// The baseline of the crate `name`, looked up in `repo` the first time
    /// it is asked for and taken from the cache afterwards. A failed lookup
    /// counts as no baseline, and is not retried.
    pub fn cached_baseline<R: BuildRepository>(&mut self, repo: &R, name: &String) -> (r: Option<Baseline>)
        ensures
            final(self)@ == old(self)@.insert(name@, r),
            old(self)@.contains_key(name@) ==> r == old(self)@[name@],
    {
        match self.get(name) {
            Some(cached) => {
                assert(self@.insert(name@, cached) =~= self@);
                cached
            },
            None => {
                let fetched = repo.fetch_baseline(name.as_str());
                self.record(name, fetched)
            },
        }
    }
}

/// The baseline an optional owned baseline lends.
fn lend(b: &Option<Baseline>) -> (r: Option<&Baseline>)
    ensures
        deref_baseline(r) == *b,
{
    match b {
        Some(x) => Some(x),
        None => None,
    }
}

/// The finished compilations after `event` when its compilation (if it
/// finished one) got the verdict `verdict`.
pub open spec fn recent_after_handled(
    s: Seq<RecentView>,
    event: BuildEvent,
    verdict: AnomalyVerdict,
) -> Seq<RecentView> {
    match event {
        BuildEvent::CompilationFinished { crate_id, kind, duration, .. } => recent_after_finish(
            s,
            (crate_id@, kind, duration.spec_nanos(), verdict),
        ),
        _ => s,
    }
}

/// The active compilations after `event`.
pub open spec fn active_after_event(s: Seq<ActiveView>, event: BuildEvent) -> Seq<ActiveView> {
    match event {
        BuildEvent::CompilationStarted { crate_id, kind, .. } => active_after_start(s, crate_id@, kind),
        BuildEvent::CompilationFinished { crate_id, .. } => active_after_finish(s, crate_id@),
        BuildEvent::BuildFinished { .. } => Seq::empty(),
        _ => s,
    }
}

/// Applies one build event to the dashboard. A compilation it finishes is
/// classified against its crate's baseline (by name, through `cache`) with
/// the default threshold, and the verdict is set on the finished entry.
pub fn handle_event<R: BuildRepository>(
    state: &mut TuiState,
    cache: &mut BaselineCache,
    repo: &R,
    event: &BuildEvent,
)
    requires
        old(state).wf(),
        event is CompilationFinished ==> old(state).finished_count < usize::MAX,
    ensures
        final(state).wf(),
        active_views(final(state).active@) == active_after_event(active_views(old(state).active@), *event),
        final(state).build_id == old(state).build_id,
        final(state).system == old(state).system,
        match *event {
            BuildEvent::CompilationFinished { crate_id, duration, .. } => {
                &&& final(cache)@ == old(cache)@.insert(crate_id.name@, final(cache)@[crate_id.name@])
                &&& old(cache)@.contains_key(crate_id.name@) ==> final(cache)@[crate_id.name@]
                    == old(cache)@[crate_id.name@]
                &&& recent_views(final(state).recent@) == recent_after_handled(
                    recent_views(old(state).recent@),
                    *event,
                    classify_spec(
                        duration.spec_nanos(),
                        final(cache)@[crate_id.name@],
                        DEFAULT_THRESHOLD_SIGMA_MILLI as nat,
                    ),
                )
                &&& final(state).finished_count == old(state).finished_count + 1
                &&& final(state).build_result == old(state).build_result
                &&& final(state).total_duration == old(state).total_duration
                &&& final(state).profile == old(state).profile
                &&& final(state).commit_hash == old(state).commit_hash
                &&& final(state).started_at == old(state).started_at
            },
            BuildEvent::BuildFinished { success, total_duration, .. } => {
                &&& final(cache)@ == old(cache)@
                &&& recent_views(final(state).recent@) == recent_views(old(state).recent@)
                &&& final(state).build_result == Some(success)
                &&& final(state).total_duration == Some(total_duration)
                &&& final(state).finished_count == old(state).finished_count
                &&& final(state).profile == old(state).profile
                &&& final(state).commit_hash == old(state).commit_hash
                &&& final(state).started_at == old(state).started_at
            },
            BuildEvent::BuildStarted { profile, commit_hash, .. } => {
                &&& final(cache)@ == old(cache)@
                &&& recent_views(final(state).recent@) == recent_views(old(state).recent@)
                &&& final(state).profile == Some(profile)
                &&& opt_text(final(state).commit_hash) == opt_text(commit_hash)
                &&& final(state).started_at is Some
                &&& final(state).build_result == old(state).build_result
                &&& final(state).total_duration == old(state).total_duration
                &&& final(state).finished_count == old(state).finished_count
            },
            _ => {
                &&& final(cache)@ == old(cache)@
                &&& unchanged_except_active(*old(state), *final(state))
            },
        },
{
    let ghost recent_before = recent_views(state.recent@);
    let ghost active_before = active_views(state.active@);
    let _finished = state.apply_event(event);
    match event {
        BuildEvent::CompilationFinished { crate_id, duration, kind, .. } => {
            let baseline = cache.cached_baseline(repo, &crate_id.name);
            let verdict = classify(*duration, lend(&baseline), DEFAULT_THRESHOLD_SIGMA_MILLI);
            let ghost rv = recent_views(state.recent@);
            proof {
                assert(rv.last().0 == crate_id@);
                assert(find_recent_last(rv, crate_id@) == Some(rv.len() - 1));
            }
            state.set_verdict(crate_id, verdict);
            assert(recent_views(state.recent@) =~= recent_after_finish(
                recent_before,
                (crate_id@, *kind, duration.spec_nanos(), verdict),
            ));
        },
        _ => {},
    }
}

/// Re-classifies every compiling crate by the time it has been compiling,
/// against its baseline (by name, through `cache`) with the default
/// threshold. Returns the elapsed times it used, one per active compilation
/// in order; the clock decides them.
pub fn refresh_in_progress<R: BuildRepository>(
    state: &mut TuiState,
    cache: &mut BaselineCache,
    repo: &R,
) -> (elapsed: Vec<Duration>)
    requires
        old(state).wf(),
    ensures
        final(state).wf(),
        elapsed@.len() == old(state).active@.len(),
        active_views(final(state).active@).len() == active_views(old(state).active@).len(),
        forall|i: int|
            0 <= i < elapsed@.len() ==> final(cache)@.contains_key(
                #[trigger] active_views(old(state).active@)[i].0.0,
            ),
        forall|i: int|
            0 <= i < elapsed@.len() ==> #[trigger] active_views(final(state).active@)[i] == (
                active_views(old(state).active@)[i].0,
                active_views(old(state).active@)[i].1,
                classify_in_progress_spec(
                    elapsed@[i].spec_nanos(),
                    final(cache)@[active_views(old(state).active@)[i].0.0],
                    DEFAULT_THRESHOLD_SIGMA_MILLI as nat,
                ),
            ),
        forall|k: Seq<char>| #[trigger]
            old(cache)@.contains_key(k) ==> final(cache)@.contains_key(k) && final(cache)@[k]
                == old(cache)@[k],
        recent_views(final(state).recent@) == recent_views(old(state).recent@),
        unchanged_except_active(*old(state), *final(state)),
{
    let ghost av0 = active_views(state.active@);
    let ghost cache0 = cache@;
    let ghost state0 = *state;
    let mut out: Vec<Duration> = Vec::new();
    let mut i: usize = 0;
    while i < state.active.len()
        invariant
            state.wf(),
            i <= state.active@.len(),
            out@.len() == i,
            state.active@.len() == av0.len(),
            av0 == active_views(state0.active@),
            active_views(state.active@).len() == av0.len(),
            forall|j: int| i <= j < av0.len() ==> #[trigger] active_views(state.active@)[j] == av0[j],
            forall|j: int| 0 <= j < i ==> cache@.contains_key(#[trigger] av0[j].0.0),
            forall|j: int|
                0 <= j < i ==> #[trigger] active_views(state.active@)[j] == (
                    av0[j].0,
                    av0[j].1,
                    classify_in_progress_spec(
                        out@[j].spec_nanos(),
                        cache@[av0[j].0.0],
                        DEFAULT_THRESHOLD_SIGMA_MILLI as nat,
                    ),
                ),
            forall|k: Seq<char>| #[trigger]
                cache0.contains_key(k) ==> cache@.contains_key(k) && cache@[k] == cache0[k],
            recent_views(state.recent@) == recent_views(state0.recent@),
            unchanged_except_active(state0, *state),
        decreases state.active.len() - i,
    {
        let e = state.active[i].elapsed();
        let ghost before = cache@;
        let ghost name = state.active@[i as int].crate_id.name@;
        let baseline = cache.cached_baseline(repo, &state.active[i].crate_id.name);
        let verdict = classify_in_progress(e, lend(&baseline), DEFAULT_THRESHOLD_SIGMA_MILLI);
        assert(active_views(state.active@)[i as int] == av0[i as int]);
        assert(name == av0[i as int].0.0);
        let ghost mid = active_views(state.active@);
        state.set_active_verdict_at(i, verdict);
        out.push(e);
        proof {
            assert(state.active@.len() == active_views(state.active@).len());
            assert forall|k: Seq<char>| before.contains_key(k) implies cache@.contains_key(k)
                && cache@[k] == before[k] by {}
            assert forall|j: int| 0 <= j < i + 1 implies cache@.contains_key(#[trigger] av0[j].0.0) by {
                if j < i {
                    assert(before.contains_key(av0[j].0.0));
                }
            }
            assert forall|j: int|
                0 <= j < i + 1 implies #[trigger] active_views(state.active@)[j] == (
                    av0[j].0,
                    av0[j].1,
                    classify_in_progress_spec(
                        out@[j].spec_nanos(),
                        cache@[av0[j].0.0],
                        DEFAULT_THRESHOLD_SIGMA_MILLI as nat,
                    ),
                ) by {
                if j < i {
                    assert(mid[j] == active_views(state.active@)[j]);
                    assert(before.contains_key(av0[j].0.0));
                }
            }
        }
        i = i + 1;
    }
    out
}

/// A key the dashboard reacts to.
#[derive(Debug, Clone, Copy, PartialEq, Eq, Structural)]
pub enum Key {
    Char(char),
    /// Any key that is not a character.
    Other,
}

/// Whether a key press ends the dashboard: `q` or `Q`, or `c` or `C` with
/// Control held (in raw mode Ctrl-C arrives as a key, not as a signal).
pub fn is_quit_key(key: Key, ctrl: bool) -> (r: bool)
    ensures
        r == (key == Key::Char('q') || key == Key::Char('Q') || (ctrl && (key == Key::Char('c')
            || key == Key::Char('C')))),
{
    match key {
        Key::Char('q') | Key::Char('Q') => true,
        Key::Char('c') | Key::Char('C') => ctrl,
        _ => false,
    }
}

} // verus!
