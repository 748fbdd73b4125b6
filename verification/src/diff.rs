//! Comparing two recorded builds, and the critical path of a build.

use vstd::prelude::*;
use crate::model::{
    BuildDetails, BuildDiff, BuildId, CrateChange, CrateCompilation, CrateId, CrateIdView,
    DurationChange, RepoError,
};
use crate::order::{is_stable_desc_order, lemma_covers, listed, stable_desc_order};
use crate::persist::BuildRepository;
use crate::time::{Duration, MAX_NANOS};

verus! {

/// Two crate times within this many milliseconds of each other count as
/// unchanged (timing noise).
pub const UNCHANGED_THRESHOLD_MS: i64 = 5;

/// A duration in whole milliseconds.
pub open spec fn ms(d: Duration) -> int {
    (d.spec_nanos() / 1_000_000) as int
}

/// Whether a duration's millisecond count fits in an `i64`.
pub open spec fn ms_in_range(d: Duration) -> bool {
    ms(d) <= i64::MAX
}

/// How much longer `after` is than `before`, in whole milliseconds.
pub open spec fn delta_ms(before: Duration, after: Duration) -> int {
    ms(after) - ms(before)
}

/// The change from `before` to `after`: both durations, and the signed
/// difference of their millisecond counts (positive: slower).
pub fn duration_change(before: Duration, after: Duration) -> (c: DurationChange)
    requires
        ms_in_range(before),
        ms_in_range(after),
    ensures
        c.before == before,
        c.after == after,
        c.abs_delta_ms == delta_ms(before, after),
{
    let b = before.as_millis() as i64;
    let a = after.as_millis() as i64;
    DurationChange { before, after, abs_delta_ms: a - b }
}

/// The relative change of `c` as the fraction `delta / before` of whole
/// milliseconds (times 100 it is the percentage), or `None` when `before`
/// is under one millisecond, where the percentage counts as zero.
pub fn pct_fraction(c: &DurationChange) -> (r: Option<(i64, u128)>)
    ensures
        match r {
            None => ms(c.before) == 0,
            Some((num, den)) => den == ms(c.before) && den > 0 && num == c.abs_delta_ms,
        },
{
    let before_ms = c.before.as_millis();
    if before_ms == 0 {
        None
    } else {
        Some((c.abs_delta_ms, before_ms))
    }
}

// ---- per-crate changes -----------------------------------------------------

/// A crate change with texts as character sequences and durations in
/// nanoseconds.
pub enum ChangeView {
    Added { crate_id: CrateIdView, duration: nat },
    Removed { crate_id: CrateIdView, duration: nat },
    Changed { crate_id: CrateIdView, before: nat, after: nat, delta_ms: int },
    Unchanged { crate_id: CrateIdView, duration: nat },
}

impl View for CrateChange {
    type V = ChangeView;

    open spec fn view(&self) -> ChangeView {
        match *self {
            CrateChange::Added { crate_id, duration } => ChangeView::Added {
                crate_id: crate_id@,
                duration: duration.spec_nanos(),
            },
            CrateChange::Removed { crate_id, duration } => ChangeView::Removed {
                crate_id: crate_id@,
                duration: duration.spec_nanos(),
            },
            CrateChange::Changed { crate_id, change } => ChangeView::Changed {
                crate_id: crate_id@,
                before: change.before.spec_nanos(),
                after: change.after.spec_nanos(),
                delta_ms: change.abs_delta_ms as int,
            },
            CrateChange::Unchanged { crate_id, duration } => ChangeView::Unchanged {
                crate_id: crate_id@,
                duration: duration.spec_nanos(),
            },
        }
    }
}

impl Clone for CrateChange {
    fn clone(&self) -> (r: Self)
        ensures
            r@ == self@,
    {
        match self {
            CrateChange::Added { crate_id, duration } => CrateChange::Added {
                crate_id: crate_id.clone(),
                duration: *duration,
            },
            CrateChange::Removed { crate_id, duration } => CrateChange::Removed {
                crate_id: crate_id.clone(),
                duration: *duration,
            },
            CrateChange::Changed { crate_id, change } => CrateChange::Changed {
                crate_id: crate_id.clone(),
                change: *change,
            },
            CrateChange::Unchanged { crate_id, duration } => CrateChange::Unchanged {
                crate_id: crate_id.clone(),
                duration: *duration,
            },
        }
    }
}

/// The duration of the last compilation of `key` in `comps` (a later
/// record of the same crate replaces an earlier one).
pub open spec fn last_duration(comps: Seq<CrateCompilation>, key: CrateIdView) -> Option<Duration>
    decreases comps.len(),
{
    if comps.len() == 0 {
        None
    } else if comps.last().crate_id@ == key {
        Some(comps.last().duration)
    } else {
        last_duration(comps.drop_last(), key)
    }
}

/// The crates of a list of compilations.
pub open spec fn ids(comps: Seq<CrateCompilation>) -> Seq<CrateIdView> {
    comps.map_values(|c: CrateCompilation| c.crate_id@)
}

/// The distinct elements of `s`, in the order they first appear.
pub open spec fn first_appearances(s: Seq<CrateIdView>) -> Seq<CrateIdView>
    decreases s.len(),
{
    if s.len() == 0 {
        seq![]
    } else {
        let d = first_appearances(s.drop_last());
        if d.contains(s.last()) {
            d
        } else {
            d.push(s.last())
        }
    }
}

/// The crates of either build: those of the earlier build in order, then
/// those only in the later one.
pub open spec fn diff_keys(before: Seq<CrateCompilation>, after: Seq<CrateCompilation>) -> Seq<CrateIdView> {
    first_appearances(ids(before) + ids(after))
}

/// The absolute value of `x`.
pub open spec fn abs(x: int) -> int {
    if x < 0 {
        -x
    } else {
        x
    }
}

/// How `key` changed, given its time in the earlier build `b` and in the
/// later build `a`.
pub open spec fn classify_change(key: CrateIdView, b: Option<Duration>, a: Option<Duration>) -> ChangeView {
    match (b, a) {
        (Some(b), Some(a)) => if abs(delta_ms(b, a)) > UNCHANGED_THRESHOLD_MS {
            ChangeView::Changed { crate_id: key, before: b.spec_nanos(), after: a.spec_nanos(), delta_ms: delta_ms(b, a) }
        } else {
            ChangeView::Unchanged { crate_id: key, duration: a.spec_nanos() }
        },
        (Some(b), None) => ChangeView::Removed { crate_id: key, duration: b.spec_nanos() },
        (None, Some(a)) => ChangeView::Added { crate_id: key, duration: a.spec_nanos() },
        (None, None) => ChangeView::Unchanged { crate_id: key, duration: 0 },
    }
}

/// The change of every crate of either build, in the order of
/// [`diff_keys`].
pub open spec fn unsorted_changes(before: Seq<CrateCompilation>, after: Seq<CrateCompilation>) -> Seq<ChangeView> {
    diff_keys(before, after).map_values(
        |k: CrateIdView| classify_change(k, last_duration(before, k), last_duration(after, k)),
    )
}

/// How much a change matters: the size of the delta for a changed crate,
/// the crate's time for an added or removed one, nothing for an unchanged
/// one.
pub open spec fn magnitude(c: ChangeView) -> u128 {
    match c {
        ChangeView::Changed { delta_ms, .. } => abs(delta_ms) as u128,
        ChangeView::Added { duration, .. } => (duration / 1_000_000) as u128,
        ChangeView::Removed { duration, .. } => (duration / 1_000_000) as u128,
        ChangeView::Unchanged { .. } => 0,
    }
}

/// `s` reordered along the positions `p`.
pub open spec fn reorder<T>(s: Seq<T>, p: Seq<usize>) -> Seq<T> {
    p.map_values(|i: usize| s[i as int])
}

/// The views of a list of changes.
pub open spec fn change_views(v: Seq<CrateChange>) -> Seq<ChangeView> {
    v.map_values(|c: CrateChange| c@)
}

/// Whether every compilation's time fits the millisecond range.
pub open spec fn comps_in_range(comps: Seq<CrateCompilation>) -> bool {
    forall|i: int| 0 <= i < comps.len() ==> ms_in_range(#[trigger] comps[i].duration)
}

proof fn lemma_last_duration_in_range(comps: Seq<CrateCompilation>, key: CrateIdView)
    requires
        comps_in_range(comps),
    ensures
        last_duration(comps, key) matches Some(d) ==> ms_in_range(d),
    decreases comps.len(),
{
    if comps.len() > 0 {
        assert(comps.last() == comps[comps.len() - 1]);
        if comps.last().crate_id@ != key {
            assert forall|i: int| 0 <= i < comps.drop_last().len() implies ms_in_range(
                #[trigger] comps.drop_last()[i].duration,
            ) by {
                assert(comps.drop_last()[i] == comps[i]);
            }
            lemma_last_duration_in_range(comps.drop_last(), key);
        }
    }
}

fn last_duration_of(comps: &Vec<CrateCompilation>, key: &CrateId) -> (r: Option<Duration>)
    ensures
        r == last_duration(comps@, key@),
{
    let mut i: usize = comps.len();
    assert(comps@.take(i as int) =~= comps@);
    while i > 0
        invariant
            i <= comps@.len(),
            last_duration(comps@, key@) == last_duration(comps@.take(i as int), key@),
        decreases i,
    {
        assert(comps@.take(i as int).last() == comps@[i - 1]);
        if comps[i - 1].crate_id.same_as(key) {
            return Some(comps[i - 1].duration);
        }
        assert(comps@.take(i as int).drop_last() =~= comps@.take(i - 1));
        i = i - 1;
    }
    None
}

spec fn key_views(keys: Seq<CrateId>) -> Seq<CrateIdView> {
    keys.map_values(|c: CrateId| c@)
}

fn contains_key(keys: &Vec<CrateId>, key: &CrateId) -> (r: bool)
    ensures
        r == key_views(keys@).contains(key@),
{
    let mut i: usize = 0;
    while i < keys.len()
        invariant
            i <= keys@.len(),
            forall|k: int| 0 <= k < i ==> keys@[k]@ != key@,
        decreases keys.len() - i,
    {
        if keys[i].same_as(key) {
            assert(key_views(keys@)[i as int] == key@);
            return true;
        }
        i = i + 1;
    }
    proof {
        if key_views(keys@).contains(key@) {
            let k = choose|k: int| 0 <= k < key_views(keys@).len() && key_views(keys@)[k] == key@;
            assert(keys@[k]@ == key@);
        }
    }
    false
}

fn add_new_keys(keys: &mut Vec<CrateId>, comps: &Vec<CrateCompilation>, Ghost(prefix): Ghost<Seq<CrateIdView>>)
    requires
        key_views(old(keys)@) == first_appearances(prefix),
    ensures
        key_views(final(keys)@) == first_appearances(prefix + ids(comps@)),
{
    let mut i: usize = 0;
    assert(prefix + ids(comps@).take(0) =~= prefix);
    while i < comps.len()
        invariant
            i <= comps@.len(),
            key_views(keys@) == first_appearances(prefix + ids(comps@).take(i as int)),
        decreases comps.len() - i,
    {
        let ghost s = prefix + ids(comps@).take(i + 1);
        assert(s.drop_last() =~= prefix + ids(comps@).take(i as int));
        assert(s.last() == comps@[i as int].crate_id@);
        if !contains_key(keys, &comps[i].crate_id) {
            keys.push(comps[i].crate_id.clone());
            assert(key_views(keys@) =~= first_appearances(s));
        }
        i = i + 1;
    }
    assert(ids(comps@).take(comps@.len() as int) =~= ids(comps@));
}

fn change_for(key: &CrateId, b: Option<Duration>, a: Option<Duration>) -> (c: CrateChange)
    requires
        b matches Some(d) ==> ms_in_range(d),
        a matches Some(d) ==> ms_in_range(d),
    ensures
        c@ == classify_change(key@, b, a),
        magnitude(c@) <= i64::MAX,
{
    match (b, a) {
        (Some(b), Some(a)) => {
            let change = duration_change(b, a);
            let d = change.abs_delta_ms;
            let abs_d = if d < 0 {
                -d
            } else {
                d
            };
            if abs_d > UNCHANGED_THRESHOLD_MS {
                CrateChange::Changed { crate_id: key.clone(), change }
            } else {
                CrateChange::Unchanged { crate_id: key.clone(), duration: a }
            }
        },
        (Some(b), None) => CrateChange::Removed { crate_id: key.clone(), duration: b },
        (None, Some(a)) => CrateChange::Added { crate_id: key.clone(), duration: a },
        (None, None) => CrateChange::Unchanged { crate_id: key.clone(), duration: Duration::zero() },
    }
}

fn magnitude_of(c: &CrateChange) -> (m: u128)
    ensures
        m == magnitude(c@),
{
    match c {
        CrateChange::Changed { change, .. } => {
            let d = change.abs_delta_ms as i128;
            if d < 0 {
                (-d) as u128
            } else {
                d as u128
            }
        },
        CrateChange::Added { duration, .. } => duration.as_millis(),
        CrateChange::Removed { duration, .. } => duration.as_millis(),
        CrateChange::Unchanged { .. } => 0,
    }
}

/// The change of every crate that appears in either list of compilations,
/// the biggest change first (ties keep the order of [`diff_keys`]).
pub fn build_crate_changes(before: &Vec<CrateCompilation>, after: &Vec<CrateCompilation>) -> (r: Vec<CrateChange>)
    requires
        comps_in_range(before@),
        comps_in_range(after@),
    ensures
        exists|p: Seq<usize>|
            is_stable_desc_order(unsorted_changes(before@, after@).map_values(|c: ChangeView| magnitude(c)), p)
                && change_views(r@) == reorder(unsorted_changes(before@, after@), p),
        forall|i: int, j: int|
            0 <= i < j < r@.len() && r@[i]@ is Changed && r@[j]@ is Changed ==> abs(#[trigger] r@[i]@->delta_ms)
                >= abs(#[trigger] r@[j]@->delta_ms),
{
    let mut keys: Vec<CrateId> = Vec::new();
    assert(key_views(keys@) =~= first_appearances(Seq::empty()));
    add_new_keys(&mut keys, before, Ghost(Seq::empty()));
    assert(Seq::<CrateIdView>::empty() + ids(before@) =~= ids(before@));
    add_new_keys(&mut keys, after, Ghost(ids(before@)));
    let ghost unsorted = unsorted_changes(before@, after@);
    assert(key_views(keys@) == diff_keys(before@, after@));

    let mut changes: Vec<CrateChange> = Vec::new();
    let mut mags: Vec<u128> = Vec::new();
    let mut i: usize = 0;
    while i < keys.len()
        invariant
            i <= keys@.len(),
            key_views(keys@) == diff_keys(before@, after@),
            unsorted == unsorted_changes(before@, after@),
            comps_in_range(before@),
            comps_in_range(after@),
            changes@.len() == i,
            mags@.len() == i,
            forall|k: int| 0 <= k < i ==> #[trigger] changes@[k]@ == unsorted[k],
            forall|k: int| 0 <= k < i ==> #[trigger] mags@[k] == magnitude(unsorted[k]),
        decreases keys.len() - i,
    {
        let key = &keys[i];
        let b = last_duration_of(before, key);
        let a = last_duration_of(after, key);
        proof {
            lemma_last_duration_in_range(before@, key@);
            lemma_last_duration_in_range(after@, key@);
            assert(key_views(keys@)[i as int] == key@);
        }
        let c = change_for(key, b, a);
        mags.push(magnitude_of(&c));
        changes.push(c);
        i = i + 1;
    }
    let order = stable_desc_order(&mags);
    assert(mags@ =~= unsorted.map_values(|c: ChangeView| magnitude(c)));
    let mut r: Vec<CrateChange> = Vec::new();
    let mut j: usize = 0;
    while j < order.len()
        invariant
            j <= order@.len(),
            is_stable_desc_order(mags@, order@),
            changes@.len() == unsorted.len(),
            mags@.len() == unsorted.len(),
            forall|k: int| 0 <= k < changes@.len() ==> #[trigger] changes@[k]@ == unsorted[k],
            r@.len() == j,
            forall|k: int| 0 <= k < j ==> #[trigger] r@[k]@ == unsorted[order@[k] as int],
        decreases order.len() - j,
    {
        let c = changes[order[j]].clone();
        r.push(c);
        j = j + 1;
    }
    assert(change_views(r@) =~= reorder(unsorted, order@));
    proof {
        law_crate_changes(before@, after@, order@, change_views(r@));
        assert forall|i: int, j: int|
            0 <= i < j < r@.len() && r@[i]@ is Changed && r@[j]@ is Changed implies abs(#[trigger] r@[i]@->delta_ms)
                >= abs(#[trigger] r@[j]@->delta_ms) by {
            assert(change_views(r@)[i] == r@[i]@);
            assert(change_views(r@)[j] == r@[j]@);
        }
    }
    r
}

// ---- critical path ---------------------------------------------------------

/// The compile times of a list of compilations, in nanoseconds.
pub open spec fn durations(comps: Seq<CrateCompilation>) -> Seq<u128> {
    comps.map_values(|c: CrateCompilation| c.duration.spec_nanos() as u128)
}

/// The crate names of `comps` taken along the positions `p`.
pub open spec fn names_along(comps: Seq<CrateCompilation>, p: Seq<usize>) -> Seq<Seq<char>> {
    p.map_values(|i: usize| comps[i as int].crate_id.name@)
}

/// The crate names of the compilations, longest compile time first (ties
/// keep their order). This stands for the critical path until dependency
/// edges are known: the slowest crates dominate any chain they sit on.
pub fn compute_critical_path(compilations: &[CrateCompilation]) -> (r: Vec<String>)
    ensures
        exists|p: Seq<usize>|
            is_stable_desc_order(durations(compilations@), p) && r@.map_values(|s: String| s@) == names_along(compilations@, p),
{
    let mut keys: Vec<u128> = Vec::new();
    let mut i: usize = 0;
    while i < compilations.len()
        invariant
            i <= compilations@.len(),
            keys@ == durations(compilations@).take(i as int),
        decreases compilations.len() - i,
    {
        keys.push(compilations[i].duration.as_nanos());
        i = i + 1;
        assert(keys@ =~= durations(compilations@).take(i as int));
    }
    assert(keys@ =~= durations(compilations@));
    let order = stable_desc_order(&keys);
    let mut r: Vec<String> = Vec::new();
    let mut j: usize = 0;
    while j < order.len()
        invariant
            j <= order@.len(),
            is_stable_desc_order(keys@, order@),
            keys@.len() == compilations@.len(),
            r@.len() == j,
            forall|k: int| 0 <= k < j ==> #[trigger] r@[k]@ == compilations@[order@[k] as int].crate_id.name@,
        decreases order.len() - j,
    {
        r.push(compilations[order[j]].crate_id.name.clone());
        j = j + 1;
    }
    assert(r@.map_values(|s: String| s@) =~= names_along(compilations@, order@));
    r
}

// ---- the whole diff --------------------------------------------------------

/// A duration, or zero when absent.
pub open spec fn total_or_zero(d: Option<Duration>) -> nat {
    match d {
        Some(x) => x.spec_nanos(),
        None => 0,
    }
}

/// Whether every time in a build fits the millisecond range.
pub open spec fn details_in_range(d: BuildDetails) -> bool {
    &&& (d.build.total_duration matches Some(t) ==> ms_in_range(t))
    &&& comps_in_range(d.compilations@)
}

/// Why two builds could not be compared.
#[derive(Debug)]
pub enum DiffError {
    /// No build has this id.
    NotFound(BuildId),
    /// A time recorded for this build is beyond the millisecond range.
    OutOfRange(BuildId),
    /// The repository failed.
    Repository(RepoError),
}

fn total_of(d: &BuildDetails) -> (t: Duration)
    ensures
        t.spec_nanos() == total_or_zero(d.build.total_duration),
        d.build.total_duration matches Some(x) ==> t == x,
{
    match d.build.total_duration {
        Some(t) => t,
        None => Duration::zero(),
    }
}

/// Whether `d` is the comparison of the builds `db` (id `before_id`) and
/// `da` (id `after_id`): their ids, the change of their total times (an
/// unfinished build counts as zero), every crate's change in the stable
/// order of impact, and each build's critical path.
pub open spec fn is_diff_of(d: BuildDiff, before_id: BuildId, after_id: BuildId, db: BuildDetails, da: BuildDetails) -> bool {
    &&& (d.before == before_id)
    &&& (d.after == after_id)
    &&& (d.total_change.before.spec_nanos() == total_or_zero(db.build.total_duration))
    &&& (d.total_change.after.spec_nanos() == total_or_zero(da.build.total_duration))
    &&& (d.total_change.abs_delta_ms == delta_ms(d.total_change.before, d.total_change.after))
    &&& (exists|p: Seq<usize>|
        is_stable_desc_order(
            unsorted_changes(db.compilations@, da.compilations@).map_values(|c: ChangeView| magnitude(c)),
            p,
        ) && change_views(d.crate_changes@) == reorder(unsorted_changes(db.compilations@, da.compilations@), p))
    &&& (exists|p: Seq<usize>|
        is_stable_desc_order(durations(db.compilations@), p) && d.critical_path_before@.map_values(
            |s: String| s@,
        ) == names_along(db.compilations@, p))
    &&& (exists|p: Seq<usize>|
        is_stable_desc_order(durations(da.compilations@), p) && d.critical_path_after@.map_values(
            |s: String| s@,
        ) == names_along(da.compilations@, p))
}

/// The comparison of two builds: their ids, the change of their total
/// times (an unfinished build counts as zero), the change of every crate
/// (see [`build_crate_changes`]) and the critical path of each.
pub fn diff_details(before_id: BuildId, after_id: BuildId, before: &BuildDetails, after: &BuildDetails) -> (d: BuildDiff)
    requires
        details_in_range(*before),
        details_in_range(*after),
    ensures
        is_diff_of(d, before_id, after_id, *before, *after),
{
    let crate_changes = build_crate_changes(&before.compilations, &after.compilations);
    let tb = total_of(before);
    let ta = total_of(after);
    proof {
        assert(ms_in_range(tb));
        assert(ms_in_range(ta));
    }
    let total_change = duration_change(tb, ta);
    let critical_path_before = compute_critical_path(before.compilations.as_slice());
    let critical_path_after = compute_critical_path(after.compilations.as_slice());
    BuildDiff { before: before_id, after: after_id, total_change, crate_changes, critical_path_before, critical_path_after }
}

/// Whether every time in a build fits the millisecond range.
pub fn check_details_in_range(d: &BuildDetails) -> (r: bool)
    ensures
        r == details_in_range(*d),
{
    match d.build.total_duration {
        Some(t) => {
            if t.as_millis() > 0x7fff_ffff_ffff_ffff {
                return false;
            }
        },
        None => {},
    }
    let mut i: usize = 0;
    while i < d.compilations.len()
        invariant
            i <= d.compilations@.len(),
            forall|k: int| 0 <= k < i ==> ms_in_range(#[trigger] d.compilations@[k].duration),
        decreases d.compilations.len() - i,
    {
        if d.compilations[i].duration.as_millis() > 0x7fff_ffff_ffff_ffff {
            return false;
        }
        i = i + 1;
    }
    true
}

/// What a fetched build gives the comparison: a repository failure, a
/// missing build (`NotFound`), a build with a time beyond the millisecond
/// range (`OutOfRange`), or the build itself.
pub open spec fn fetched_outcome(id: BuildId, fetched: Result<Option<BuildDetails>, RepoError>) -> Result<BuildDetails, DiffError> {
    match fetched {
        Err(e) => Err(DiffError::Repository(e)),
        Ok(None) => Err(DiffError::NotFound(id)),
        Ok(Some(d)) => if details_in_range(d) {
            Ok(d)
        } else {
            Err(DiffError::OutOfRange(id))
        },
    }
}

/// The build that the repository's answer for `id` gives the comparison,
/// or why it gives none (see [`fetched_outcome`]).
pub fn details_for_diff(id: BuildId, fetched: Result<Option<BuildDetails>, RepoError>) -> (r: Result<BuildDetails, DiffError>)
    ensures
        r == fetched_outcome(id, fetched),
{
    match fetched {
        Err(e) => Err(DiffError::Repository(e)),
        Ok(None) => Err(DiffError::NotFound(id)),
        Ok(Some(d)) => if check_details_in_range(&d) {
            Ok(d)
        } else {
            Err(DiffError::OutOfRange(id))
        },
    }
}

/// Whether `r` is what comparing the builds `before` and `after` gives when
/// the repository answered `fb` and `fa` for them: the first failure (the
/// earlier build's first), else the comparison of the two builds.
pub open spec fn is_diff_outcome(
    r: Result<BuildDiff, DiffError>,
    before: BuildId,
    after: BuildId,
    fb: Result<Option<BuildDetails>, RepoError>,
    fa: Result<Option<BuildDetails>, RepoError>,
) -> bool {
    match fetched_outcome(before, fb) {
        Err(e) => r == Err::<BuildDiff, DiffError>(e),
        Ok(db) => match fetched_outcome(after, fa) {
            Err(e) => r == Err::<BuildDiff, DiffError>(e),
            Ok(da) => r matches Ok(d) && is_diff_of(d, before, after, db, da),
        },
    }
}

/// Compares the builds `before` and `after` given the repository's answers
/// `b` and `a` for them (see [`is_diff_outcome`]).
pub fn diff_from_fetched(
    before: BuildId,
    after: BuildId,
    b: Result<Option<BuildDetails>, RepoError>,
    a: Result<Option<BuildDetails>, RepoError>,
) -> (r: Result<BuildDiff, DiffError>)
    ensures
        is_diff_outcome(r, before, after, b, a),
{
    let db = match details_for_diff(before, b) {
        Ok(d) => d,
        Err(e) => return Err(e),
    };
    let da = match details_for_diff(after, a) {
        Ok(d) => d,
        Err(e) => return Err(e),
    };
    Ok(diff_details(before, after, &db, &da))
}

/// Fetches the build `before` from `repo`, then (when that gives a build)
/// the build `after`, and compares them: the result is what
/// [`diff_from_fetched`] gives for the repository's answers.
pub fn compute_diff<R: BuildRepository>(repo: &R, before: BuildId, after: BuildId) -> (r: Result<BuildDiff, DiffError>)
    ensures
        exists|fb: Result<Option<BuildDetails>, RepoError>, fa: Result<Option<BuildDetails>, RepoError>|
            is_diff_outcome(r, before, after, fb, fa),
{
    let fb = repo.fetch_build(before);
    let ghost gfb = fb;
    let b = match details_for_diff(before, fb) {
        Ok(d) => d,
        Err(e) => {
            let r = Err(e);
            assert(is_diff_outcome(r, before, after, gfb, Ok(None)));
            return r;
        },
    };
    let fa = repo.fetch_build(after);
    let ghost gfa = fa;
    let r = diff_from_fetched(before, after, Ok(Some(b)), fa);
    assert(is_diff_outcome(r, before, after, gfb, gfa));
    r
}

proof fn lemma_last_duration_some(comps: Seq<CrateCompilation>, key: CrateIdView)
    ensures
        last_duration(comps, key) is Some <==> ids(comps).contains(key),
    decreases comps.len(),
{
    if comps.len() > 0 {
        lemma_last_duration_some(comps.drop_last(), key);
        assert(ids(comps).drop_last() =~= ids(comps.drop_last()));
        assert(ids(comps).last() == comps.last().crate_id@);
        if ids(comps).contains(key) {
            let j = choose|j: int| 0 <= j < ids(comps).len() && ids(comps)[j] == key;
            if j < comps.len() - 1 {
                assert(ids(comps.drop_last())[j] == key);
            }
        }
        if ids(comps.drop_last()).contains(key) {
            let j = choose|j: int| 0 <= j < ids(comps.drop_last()).len() && ids(comps.drop_last())[j] == key;
            assert(ids(comps)[j] == key);
        }
    }
}

proof fn lemma_first_appearances_within(s: Seq<CrateIdView>, k: CrateIdView)
    ensures
        first_appearances(s).contains(k) ==> s.contains(k),
    decreases s.len(),
{
    if s.len() > 0 {
        lemma_first_appearances_within(s.drop_last(), k);
        let d = first_appearances(s.drop_last());
        if first_appearances(s).contains(k) {
            if d.contains(k) {
                let j = choose|j: int| 0 <= j < s.drop_last().len() && s.drop_last()[j] == k;
                assert(s[j] == k);
            } else {
                assert(k == s.last());
                assert(s[s.len() - 1] == k);
            }
        }
    }
}

/// Comparing a build with itself reports every crate as unchanged.
pub proof fn law_self_comparison_unchanged(comps: Seq<CrateCompilation>)
    ensures
        forall|i: int|
            0 <= i < unsorted_changes(comps, comps).len() ==> #[trigger] unsorted_changes(comps, comps)[i] is Unchanged,
        forall|d: Duration| delta_ms(d, d) == 0,
{
}

/// A crate is reported added exactly when only the later build compiled
/// it, and removed exactly when only the earlier one did.
pub proof fn law_added_and_removed(before: Seq<CrateCompilation>, after: Seq<CrateCompilation>)
    ensures
        forall|i: int|
            0 <= i < unsorted_changes(before, after).len() ==> {
                let k = diff_keys(before, after)[i];
                &&& (#[trigger] unsorted_changes(before, after)[i] is Added <==> !ids(before).contains(k)
                    && ids(after).contains(k))
                &&& (unsorted_changes(before, after)[i] is Removed <==> ids(before).contains(k)
                    && !ids(after).contains(k))
            },
{
    assert forall|i: int| 0 <= i < unsorted_changes(before, after).len() implies {
        let k = diff_keys(before, after)[i];
        &&& (#[trigger] unsorted_changes(before, after)[i] is Added <==> !ids(before).contains(k)
            && ids(after).contains(k))
        &&& (unsorted_changes(before, after)[i] is Removed <==> ids(before).contains(k)
            && !ids(after).contains(k))
    } by {
        let k = diff_keys(before, after)[i];
        lemma_last_duration_some(before, k);
        lemma_last_duration_some(after, k);
        lemma_first_appearances_within(ids(before) + ids(after), k);
        assert(diff_keys(before, after).contains(k));
        let s = ids(before) + ids(after);
        let j = choose|j: int| 0 <= j < s.len() && s[j] == k;
        if j < ids(before).len() {
            assert(ids(before)[j] == k);
        } else {
            assert(ids(after)[j - ids(before).len()] == k);
        }
    }
}

proof fn lemma_first_appearances(s: Seq<CrateIdView>)
    ensures
        forall|k: CrateIdView| #[trigger] first_appearances(s).contains(k) <==> s.contains(k),
        first_appearances(s).no_duplicates(),
    decreases s.len(),
{
    if s.len() > 0 {
        let t = s.drop_last();
        lemma_first_appearances(t);
        let d = first_appearances(t);
        assert forall|k: CrateIdView| #[trigger] first_appearances(s).contains(k) <==> s.contains(k) by {
            lemma_first_appearances_within(s, k);
            if s.contains(k) {
                let j = choose|j: int| 0 <= j < s.len() && s[j] == k;
                if j < s.len() - 1 {
                    assert(t[j] == k);
                    assert(t.contains(k));
                    assert(d.contains(k));
                    if !d.contains(s.last()) {
                        let m = choose|m: int| 0 <= m < d.len() && d[m] == k;
                        assert(d.push(s.last())[m] == k);
                    }
                } else {
                    assert(k == s.last());
                    if !d.contains(s.last()) {
                        assert(d.push(s.last())[d.len() as int] == k);
                    }
                }
            }
        }
        if !d.contains(s.last()) {
            let e = d.push(s.last());
            assert forall|i: int, j: int| 0 <= i < e.len() && 0 <= j < e.len() && i != j implies e[i] != e[j] by {
                if i < d.len() && j < d.len() {
                } else if i == d.len() {
                    assert(d[j] == e[j]);
                } else {
                    assert(d[i] == e[i]);
                }
            }
        }
    }
}

/// The crate a change is about.
pub open spec fn change_crate(c: ChangeView) -> CrateIdView {
    match c {
        ChangeView::Added { crate_id, .. } => crate_id,
        ChangeView::Removed { crate_id, .. } => crate_id,
        ChangeView::Changed { crate_id, .. } => crate_id,
        ChangeView::Unchanged { crate_id, .. } => crate_id,
    }
}

/// The crates that a list of changes is about, in order.
pub open spec fn change_crates(r: Seq<ChangeView>) -> Seq<CrateIdView> {
    r.map_values(|c: ChangeView| change_crate(c))
}

/// The changes of two builds name every crate of either build exactly once,
/// and each crate's change follows from its (last recorded) times: only in
/// the later build, added; only in the earlier, removed; in both, changed
/// when the times differ by more than `UNCHANGED_THRESHOLD_MS` milliseconds,
/// unchanged otherwise.
pub proof fn law_one_change_per_crate(before: Seq<CrateCompilation>, after: Seq<CrateCompilation>)
    ensures
        forall|k: CrateIdView|
            (ids(before).contains(k) || ids(after).contains(k)) <==> #[trigger] diff_keys(before, after).contains(k),
        diff_keys(before, after).no_duplicates(),
        unsorted_changes(before, after).len() == diff_keys(before, after).len(),
        forall|i: int|
            0 <= i < unsorted_changes(before, after).len() ==> {
                let k = diff_keys(before, after)[i];
                &&& change_crate(#[trigger] unsorted_changes(before, after)[i]) == k
                &&& unsorted_changes(before, after)[i] == classify_change(
                    k,
                    last_duration(before, k),
                    last_duration(after, k),
                )
            },
{
    let s = ids(before) + ids(after);
    lemma_first_appearances(s);
    assert forall|k: CrateIdView|
        (ids(before).contains(k) || ids(after).contains(k)) <==> #[trigger] diff_keys(before, after).contains(k) by {
        if ids(before).contains(k) {
            let j = choose|j: int| 0 <= j < ids(before).len() && ids(before)[j] == k;
            assert(s[j] == k);
        }
        if ids(after).contains(k) {
            let j = choose|j: int| 0 <= j < ids(after).len() && ids(after)[j] == k;
            assert(s[j + ids(before).len()] == k);
        }
        if s.contains(k) {
            let j = choose|j: int| 0 <= j < s.len() && s[j] == k;
            if j < ids(before).len() {
                assert(ids(before)[j] == k);
            } else {
                assert(ids(after)[j - ids(before).len()] == k);
            }
        }
    }
}

/// The changes come out ordered by impact, largest first: by the size of
/// the delta for a changed crate, the crate's whole milliseconds for an
/// added or removed one, zero for an unchanged one.
pub proof fn law_changes_by_impact(u: Seq<ChangeView>, p: Seq<usize>)
    requires
        is_stable_desc_order(u.map_values(|c: ChangeView| magnitude(c)), p),
    ensures
        reorder(u, p).len() == u.len(),
        forall|i: int, j: int|
            0 <= i < j < reorder(u, p).len() ==> magnitude(#[trigger] reorder(u, p)[i]) >= magnitude(
                #[trigger] reorder(u, p)[j],
            ),
{
    let keys = u.map_values(|c: ChangeView| magnitude(c));
    assert forall|i: int, j: int| 0 <= i < j < reorder(u, p).len() implies magnitude(#[trigger] reorder(u, p)[i])
        >= magnitude(#[trigger] reorder(u, p)[j]) by {
        assert(keys[p[i] as int] >= keys[p[j] as int]);
    }
}

/// Comparing two builds reports every crate of either build exactly once,
/// each with the change that follows from its (last recorded) times, and
/// the report comes out ordered by impact, largest first. `p` is the order
/// in which [`build_crate_changes`] lists the changes of [`diff_keys`].
pub proof fn law_crate_changes(
    before: Seq<CrateCompilation>,
    after: Seq<CrateCompilation>,
    p: Seq<usize>,
    r: Seq<ChangeView>,
)
    requires
        is_stable_desc_order(unsorted_changes(before, after).map_values(|c: ChangeView| magnitude(c)), p),
        r == reorder(unsorted_changes(before, after), p),
    ensures
        forall|k: CrateIdView|
            (ids(before).contains(k) || ids(after).contains(k)) <==> #[trigger] change_crates(r).contains(k),
        forall|i: int, j: int|
            0 <= i < j < r.len() ==> change_crate(#[trigger] r[i]) != change_crate(#[trigger] r[j]),
        forall|i: int|
            0 <= i < r.len() ==> #[trigger] r[i] == classify_change(
                change_crate(r[i]),
                last_duration(before, change_crate(r[i])),
                last_duration(after, change_crate(r[i])),
            ),
        forall|i: int, j: int| 0 <= i < j < r.len() ==> magnitude(#[trigger] r[i]) >= magnitude(#[trigger] r[j]),
        forall|i: int, j: int|
            0 <= i < j < r.len() && r[i] is Changed && r[j] is Changed ==> abs(#[trigger] r[i]->delta_ms) >= abs(
                #[trigger] r[j]->delta_ms,
            ),
{
    let u = unsorted_changes(before, after);
    let dk = diff_keys(before, after);
    let names = change_crates(r);
    law_one_change_per_crate(before, after);
    law_changes_by_impact(u, p);
    lemma_covers(p, u.len());
    assert forall|i: int| 0 <= i < r.len() implies change_crate(#[trigger] r[i]) == dk[p[i] as int] && r[i] == u[p[i] as int] by {
        assert(r[i] == u[p[i] as int]);
    }
    assert forall|k: CrateIdView|
        (ids(before).contains(k) || ids(after).contains(k)) <==> #[trigger] names.contains(k) by {
        if ids(before).contains(k) || ids(after).contains(k) {
            assert(dk.contains(k));
            let m = choose|m: int| 0 <= m < dk.len() && dk[m] == k;
            assert(listed(p, m));
            let i = choose|i: int| 0 <= i < p.len() && p[i] as int == m;
            assert(change_crate(r[i]) == k);
            assert(names[i] == k);
        }
        if names.contains(k) {
            let i = choose|i: int| 0 <= i < names.len() && names[i] == k;
            assert(change_crate(r[i]) == dk[p[i] as int]);
            assert(dk.contains(k));
        }
    }
    assert forall|i: int, j: int| 0 <= i < j < r.len() implies change_crate(#[trigger] r[i]) != change_crate(
        #[trigger] r[j],
    ) by {
        assert(change_crate(r[i]) == dk[p[i] as int]);
        assert(change_crate(r[j]) == dk[p[j] as int]);
        assert(p[i] != p[j]);
    }
    assert forall|i: int, j: int|
        0 <= i < j < r.len() && r[i] is Changed && r[j] is Changed implies abs(#[trigger] r[i]->delta_ms) >= abs(
            #[trigger] r[j]->delta_ms,
        ) by {
        lemma_changed_delta_bounded(before, after, p[i] as int);
        lemma_changed_delta_bounded(before, after, p[j] as int);
        law_changed_impact_is_delta_size(r[i]);
        law_changed_impact_is_delta_size(r[j]);
        assert(magnitude(r[i]) >= magnitude(r[j]));
    }
}

/// A changed crate's delta, in whole milliseconds, is no bigger than the
/// longest span there is.
proof fn lemma_changed_delta_bounded(before: Seq<CrateCompilation>, after: Seq<CrateCompilation>, m: int)
    requires
        0 <= m < unsorted_changes(before, after).len(),
    ensures
        unsorted_changes(before, after)[m] matches ChangeView::Changed { delta_ms, .. } ==> -(MAX_NANOS as int)
            <= delta_ms <= MAX_NANOS,
{
    let k = diff_keys(before, after)[m];
    match (last_duration(before, k), last_duration(after, k)) {
        (Some(b), Some(a)) => {
            b.law_nanos_in_range();
            a.law_nanos_in_range();
        },
        _ => {},
    }
}

/// The impact of a changed crate is the size of its delta, whichever way
/// the time moved: a crate that got 800 ms faster weighs as much as one
/// that got 800 ms slower.
pub proof fn law_changed_impact_is_delta_size(c: ChangeView)
    requires
        c matches ChangeView::Changed { delta_ms, .. } && -(u128::MAX as int) <= delta_ms <= u128::MAX,
    ensures
        c matches ChangeView::Changed { delta_ms, .. } && {
            &&& magnitude(c) >= delta_ms
            &&& magnitude(c) >= -delta_ms
            &&& (magnitude(c) == delta_ms || magnitude(c) == -delta_ms)
        },
{
}

} // verus!
