//! Classifying a compile time against a crate's history.
//!
//! A time is *slower* than usual when it exceeds `mean + k·σ`, *faster*
//! when it is below `mean - k·σ`, and *normal* in between (bounds
//! included). The multiplier `k` is given in thousandths: 2000 is 2σ.

use vstd::prelude::*;
use crate::model::Baseline;
use crate::time::{Duration, MAX_NANOS};

verus! {

/// The multiplier the dashboard uses: 2σ, in thousandths.
pub const DEFAULT_THRESHOLD_SIGMA_MILLI: u32 = 2000;

/// How a compile time compares with the crate's history.
#[derive(Debug, Clone, Copy, PartialEq, Eq, Structural, Hash)]
pub enum AnomalyVerdict {
    /// Within `mean ± k·σ`.
    Normal,
    /// Above `mean + k·σ`.
    Slower,
    /// Below `mean - k·σ`.
    Faster,
    /// No history to compare with.
    Unknown,
}

/// Whether `t` exceeds `mean + k·σ`, where `k` is `sigma_milli / 1000`
/// (all times in nanoseconds).
pub open spec fn above_upper(t: nat, mean: nat, std_dev: nat, sigma_milli: nat) -> bool {
    1000 * t > 1000 * mean + sigma_milli * std_dev
}

/// Whether `t` is below `mean - k·σ`, where `k` is `sigma_milli / 1000`.
pub open spec fn below_lower(t: nat, mean: nat, std_dev: nat, sigma_milli: nat) -> bool {
    1000 * t + sigma_milli * std_dev < 1000 * mean
}

/// The verdict for a finished compilation of length `t`.
pub open spec fn verdict_of(t: nat, mean: nat, std_dev: nat, sigma_milli: nat) -> AnomalyVerdict {
    if above_upper(t, mean, std_dev, sigma_milli) {
        AnomalyVerdict::Slower
    } else if below_lower(t, mean, std_dev, sigma_milli) {
        AnomalyVerdict::Faster
    } else {
        AnomalyVerdict::Normal
    }
}

/// The verdict of [`classify`].
pub open spec fn classify_spec(current: nat, baseline: Option<Baseline>, sigma_milli: nat) -> AnomalyVerdict {
    match baseline {
        None => AnomalyVerdict::Unknown,
        Some(b) => verdict_of(current, b.mean.spec_nanos(), b.std_dev.spec_nanos(), sigma_milli),
    }
}

/// The verdict of [`classify_in_progress`].
pub open spec fn classify_in_progress_spec(elapsed: nat, baseline: Option<Baseline>, sigma_milli: nat) -> AnomalyVerdict {
    match baseline {
        None => AnomalyVerdict::Unknown,
        Some(b) => if above_upper(elapsed, b.mean.spec_nanos(), b.std_dev.spec_nanos(), sigma_milli) {
            AnomalyVerdict::Slower
        } else {
            AnomalyVerdict::Normal
        },
    }
}

/// The optional value behind an optional reference.
pub open spec fn deref_baseline(b: Option<&Baseline>) -> Option<Baseline> {
    match b {
        Some(x) => Some(*x),
        None => None,
    }
}

proof fn lemma_bounds(t: u128, mean: u128, std_dev: u128, k: u128)
    by (nonlinear_arith)
    requires
        t <= MAX_NANOS,
        mean <= MAX_NANOS,
        std_dev <= MAX_NANOS,
        k <= u32::MAX,
    ensures
        1000 * t <= u128::MAX,
        1000 * mean + k * std_dev <= u128::MAX,
        1000 * t + k * std_dev <= u128::MAX,
{
    assert(k * std_dev <= (u32::MAX as int) * MAX_NANOS);
}

fn upper_exceeded(t: u128, mean: u128, std_dev: u128, k: u32) -> (r: bool)
    requires
        t <= MAX_NANOS,
        mean <= MAX_NANOS,
        std_dev <= MAX_NANOS,
    ensures
        r == above_upper(t as nat, mean as nat, std_dev as nat, k as nat),
{
    proof {
        lemma_bounds(t, mean, std_dev, k as u128);
    }
    1000 * t > 1000 * mean + (k as u128) * std_dev
}

fn lower_exceeded(t: u128, mean: u128, std_dev: u128, k: u32) -> (r: bool)
    requires
        t <= MAX_NANOS,
        mean <= MAX_NANOS,
        std_dev <= MAX_NANOS,
    ensures
        r == below_lower(t as nat, mean as nat, std_dev as nat, k as nat),
{
    proof {
        lemma_bounds(t, mean, std_dev, k as u128);
    }
    1000 * t + (k as u128) * std_dev < 1000 * mean
}

/// Classifies a finished compilation of length `current` against
/// `baseline`, with the multiplier `threshold_sigma_milli / 1000`:
/// `Unknown` without a baseline, `Slower` above `mean + k·σ`, `Faster`
/// below `mean - k·σ`, `Normal` otherwise.
pub fn classify(current: Duration, baseline: Option<&Baseline>, threshold_sigma_milli: u32) -> (v: AnomalyVerdict)
    ensures
        v == classify_spec(current.spec_nanos(), deref_baseline(baseline), threshold_sigma_milli as nat),
{
    match baseline {
        None => AnomalyVerdict::Unknown,
        Some(b) => {
            let t = current.as_nanos();
            let mean = b.mean.as_nanos();
            let sd = b.std_dev.as_nanos();
            if upper_exceeded(t, mean, sd, threshold_sigma_milli) {
                AnomalyVerdict::Slower
            } else if lower_exceeded(t, mean, sd, threshold_sigma_milli) {
                AnomalyVerdict::Faster
            } else {
                AnomalyVerdict::Normal
            }
        },
    }
}

/// Classifies a compilation still running after `elapsed`: it can only be
/// known to be `Slower` (above `mean + k·σ`); otherwise it is `Normal`, and
/// `Unknown` without a baseline.
pub fn classify_in_progress(elapsed: Duration, baseline: Option<&Baseline>, threshold_sigma_milli: u32) -> (v: AnomalyVerdict)
    ensures
        v == classify_in_progress_spec(elapsed.spec_nanos(), deref_baseline(baseline), threshold_sigma_milli as nat),
{
    match baseline {
        None => AnomalyVerdict::Unknown,
        Some(b) => {
            let t = elapsed.as_nanos();
            let mean = b.mean.as_nanos();
            let sd = b.std_dev.as_nanos();
            if upper_exceeded(t, mean, sd, threshold_sigma_milli) {
                AnomalyVerdict::Slower
            } else {
                AnomalyVerdict::Normal
            }
        },
    }
}

/// A longer compile time never gets a better classification. Once a time
/// is `Slower`, every longer time is too, and once a time is `Faster`,
/// every shorter one is too.
pub proof fn law_verdict_monotone(t1: nat, t2: nat, mean: nat, std_dev: nat, sigma_milli: nat)
    requires
        t1 <= t2,
    ensures
        verdict_of(t1, mean, std_dev, sigma_milli) is Slower ==> verdict_of(t2, mean, std_dev, sigma_milli) is Slower,
        verdict_of(t2, mean, std_dev, sigma_milli) is Faster ==> verdict_of(t1, mean, std_dev, sigma_milli) is Faster,
{
}

/// A running compilation is flagged `Slower` exactly when a compilation
/// that finished at the same time would be classified `Slower`; it is
/// never called `Faster`.
pub proof fn law_in_progress_agrees(t: nat, baseline: Option<Baseline>, sigma_milli: nat)
    ensures
        (classify_in_progress_spec(t, baseline, sigma_milli) is Slower) == (classify_spec(t, baseline, sigma_milli) is Slower),
        !(classify_in_progress_spec(t, baseline, sigma_milli) is Faster),
        (classify_in_progress_spec(t, baseline, sigma_milli) is Unknown) == (baseline is None),
{
}

/// The mean itself is always normal, and so are both bounds of the
/// interval `mean ± k·σ`.
pub proof fn law_bounds_are_normal(mean: nat, std_dev: nat, sigma_milli: nat)
    ensures
        verdict_of(mean, mean, std_dev, sigma_milli) is Normal,
        (1000 * mean + sigma_milli * std_dev) % 1000 == 0 ==> verdict_of(
            ((1000 * mean + sigma_milli * std_dev) / 1000) as nat,
            mean,
            std_dev,
            sigma_milli,
        ) is Normal,
        sigma_milli * std_dev <= 1000 * mean && (1000 * mean - sigma_milli * std_dev) % 1000 == 0
            ==> verdict_of(
            ((1000 * mean - sigma_milli * std_dev) / 1000) as nat,
            mean,
            std_dev,
            sigma_milli,
        ) is Normal,
{
    assert(0 <= sigma_milli * std_dev) by (nonlinear_arith);
}

} // verus!
