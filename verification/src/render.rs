//! The dashboard's text: durations, byte counts, verdict labels and the
//! lines of each section. Drawing them in a terminal happens outside.

use vstd::prelude::*;
use crate::anomaly::AnomalyVerdict;
use crate::model::{BuildId, BuildProfile, CrateId, crate_id_text, profile_text};
use crate::order::{is_stable_desc_order, stable_desc_order};
use crate::text::{
    byte_cut_ok, byte_prefix, decimal, decimal_string, digit_char, leading_bytes, pad_left,
    pad_right, padded_left, padded_right, push_char, push_decimal, push_str, signed_decimal,
};
use crate::time::{Duration, NANOS_PER_SEC};
use crate::tui::{SystemSnapshot, TuiState, active_views};

verus! {

/// Bytes in a kibibyte, mebibyte and gibibyte.
pub const KIB: u64 = 1024;
pub const MIB: u64 = 1_048_576;
pub const GIB: u64 = 1_073_741_824;

/// `n` as at least two digits, with a leading zero.
pub open spec fn two_digits(n: nat) -> Seq<char> {
    pad_left(decimal(n), 2, '0')
}

/// A number of seconds as `M:SS`, or `H:MM:SS` from one hour on.
pub open spec fn clock_text(total_secs: nat) -> Seq<char> {
    let h = total_secs / 3600;
    let m = (total_secs % 3600) / 60;
    let s = total_secs % 60;
    if h > 0 {
        decimal(h) + seq![':'] + two_digits(m) + seq![':'] + two_digits(s)
    } else {
        decimal(m) + seq![':'] + two_digits(s)
    }
}

/// The whole seconds of a span of `nanos` nanoseconds.
pub open spec fn whole_secs(nanos: nat) -> nat {
    nanos / (NANOS_PER_SEC as nat)
}

/// Formats the whole seconds of `d` as `M:SS` or `H:MM:SS`: 42 s is
/// `0:42`, 90 s is `1:30`, 3661 s is `1:01:01`.
pub fn format_duration(d: Duration) -> (s: String)
    ensures
        s@ == clock_text(whole_secs(d.spec_nanos())),
{
    let total = d.as_secs();
    let h = total / 3600;
    let m = (total % 3600) / 60;
    let sec = total % 60;
    let mut s = String::new();
    if h > 0 {
        push_decimal(&mut s, h as u128);
        push_char(&mut s, ':');
        push_two_digits(&mut s, m);
        push_char(&mut s, ':');
        push_two_digits(&mut s, sec);
    } else {
        push_decimal(&mut s, m as u128);
        push_char(&mut s, ':');
        push_two_digits(&mut s, sec);
    }
    s
}

fn push_two_digits(out: &mut String, n: u64)
    ensures
        final(out)@ == old(out)@ + two_digits(n as nat),
{
    let d = decimal_string(n as u128);
    let p = padded_left(&d, 2, '0');
    push_str(out, p.as_str());
}

/// `bytes / unit` rounded to tenths, ties to the even tenth: the tenths
/// count of the nearest one-decimal value.
pub open spec fn rounded_tenths(bytes: nat, unit: nat) -> nat
    recommends
        unit > 0,
{
    let q = (bytes * 10) / unit;
    let r = (bytes * 10) % unit;
    if 2 * r > unit || (2 * r == unit && q % 2 == 1) {
        q + 1
    } else {
        q
    }
}

/// A count of tenths as a one-decimal number, e.g. 755 as `75.5`.
pub open spec fn tenths_text(t: nat) -> Seq<char> {
    decimal(t / 10) + seq!['.', digit_char(t % 10)]
}

/// A byte count in the largest unit it reaches (GiB, MiB, KiB) with one
/// decimal, or in bytes below one KiB.
pub open spec fn bytes_text(bytes: nat) -> Seq<char> {
    if bytes >= GIB {
        tenths_text(rounded_tenths(bytes, GIB as nat)) + seq![' ', 'G', 'i', 'B']
    } else if bytes >= MIB {
        tenths_text(rounded_tenths(bytes, MIB as nat)) + seq![' ', 'M', 'i', 'B']
    } else if bytes >= KIB {
        tenths_text(rounded_tenths(bytes, KIB as nat)) + seq![' ', 'K', 'i', 'B']
    } else {
        decimal(bytes) + seq![' ', 'B']
    }
}

fn tenths_of(bytes: u64, unit: u64) -> (t: u128)
    requires
        unit > 0,
    ensures
        t == rounded_tenths(bytes as nat, unit as nat),
{
    let x = (bytes as u128) * 10;
    let q = x / (unit as u128);
    let r = x % (unit as u128);
    if 2 * r > unit as u128 || (2 * r == unit as u128 && q % 2 == 1) {
        q + 1
    } else {
        q
    }
}

/// Appends a count of tenths as a one-decimal number.
pub fn push_tenths(out: &mut String, t: u128)
    ensures
        final(out)@ == old(out)@ + tenths_text(t as nat),
{
    push_decimal(out, t / 10);
    push_char(out, '.');
    let d = decimal_string(t % 10);
    proof {
        reveal_with_fuel(decimal, 2);
    }
    assert(d@ == seq![digit_char((t % 10) as nat)]);
    push_str(out, d.as_str());
    assert(final(out)@ =~= old(out)@ + tenths_text(t as nat));
}

/// Formats a byte count in GiB, MiB or KiB with one decimal (ties go to
/// the even tenth), or in bytes below one KiB: 500 is `500 B`, 2048 is
/// `2.0 KiB`, 4 GiB is `4.0 GiB`.
pub fn format_bytes(bytes: u64) -> (s: String)
    ensures
        s@ == bytes_text(bytes as nat),
{
    let mut s = String::new();
    if bytes >= GIB {
        push_tenths(&mut s, tenths_of(bytes, GIB));
        push_str(&mut s, " GiB");
        proof { reveal_strlit(" GiB"); }
    } else if bytes >= MIB {
        push_tenths(&mut s, tenths_of(bytes, MIB));
        push_str(&mut s, " MiB");
        proof { reveal_strlit(" MiB"); }
    } else if bytes >= KIB {
        push_tenths(&mut s, tenths_of(bytes, KIB));
        push_str(&mut s, " KiB");
        proof { reveal_strlit(" KiB"); }
    } else {
        push_decimal(&mut s, bytes as u128);
        push_str(&mut s, " B");
        proof { reveal_strlit(" B"); }
    }
    assert(s@ =~= bytes_text(bytes as nat));
    s
}

/// The label of a verdict.
pub open spec fn verdict_text(v: AnomalyVerdict) -> Seq<char> {
    match v {
        AnomalyVerdict::Slower => "⚠ slower"@,
        AnomalyVerdict::Faster => "↓ faster"@,
        AnomalyVerdict::Normal => "· normal"@,
        AnomalyVerdict::Unknown => "? unknown"@,
    }
}

/// The short label of each classification, one of `⚠ slower`, `↓ faster`,
/// `· normal` and `? unknown`.
pub fn verdict_label(verdict: AnomalyVerdict) -> (s: &'static str)
    ensures
        s@ == verdict_text(verdict),
{
    match verdict {
        AnomalyVerdict::Slower => "⚠ slower",
        AnomalyVerdict::Faster => "↓ faster",
        AnomalyVerdict::Normal => "· normal",
        AnomalyVerdict::Unknown => "? unknown",
    }
}

/// The colour a line is drawn in.
#[derive(Debug, Clone, Copy, PartialEq, Eq, Structural)]
pub enum LineColor {
    Red,
    Green,
    /// The terminal's default colour.
    Reset,
    DarkGray,
}

/// The colour of a verdict.
pub open spec fn verdict_color_spec(v: AnomalyVerdict) -> LineColor {
    match v {
        AnomalyVerdict::Slower => LineColor::Red,
        AnomalyVerdict::Faster => LineColor::Green,
        AnomalyVerdict::Normal => LineColor::Reset,
        AnomalyVerdict::Unknown => LineColor::DarkGray,
    }
}

/// The colour a verdict is shown in: slower red, faster green, normal in
/// the default colour, unknown dark grey.
pub fn verdict_color(verdict: AnomalyVerdict) -> (c: LineColor)
    ensures
        c == verdict_color_spec(verdict),
{
    match verdict {
        AnomalyVerdict::Slower => LineColor::Red,
        AnomalyVerdict::Faster => LineColor::Green,
        AnomalyVerdict::Normal => LineColor::Reset,
        AnomalyVerdict::Unknown => LineColor::DarkGray,
    }
}


// ---- the dashboard's lines ---------------------------------------------------

/// A line of text and the colour it is drawn in.
#[derive(Debug)]
pub struct StyledLine {
    pub text: String,
    pub color: LineColor,
}

/// The lines as text and colour.
pub open spec fn line_views(s: Seq<StyledLine>) -> Seq<(Seq<char>, LineColor)> {
    s.map_values(|l: StyledLine| (l.text@, l.color))
}

/// The part of a commit hash the header shows: its first seven bytes (all
/// of it when shorter).
pub open spec fn commit_prefix(h: Seq<char>) -> Seq<char> {
    byte_prefix(h, 7)
}

/// Whether the header can cut the commit hash after its first seven bytes
/// without splitting a character (always so for a hexadecimal hash).
pub open spec fn commit_cut_ok(c: Option<String>) -> bool {
    match c {
        Some(h) => byte_cut_ok(h@, 7),
        None => true,
    }
}

/// The header's first line.
pub open spec fn title_text(
    id: Option<BuildId>,
    profile: Option<BuildProfile>,
    commit: Option<Seq<char>>,
    elapsed: Option<nat>,
) -> Seq<char> {
    "Build "@ + (match id {
        Some(i) => seq!['#'] + signed_decimal(i.0 as int),
        None => "?"@,
    }) + " ("@ + (match profile {
        Some(p) => profile_text(p),
        None => "dev"@,
    }) + ")  •  "@ + (match commit {
        Some(h) => "commit "@ + commit_prefix(h),
        None => "no commit"@,
    }) + "  •  elapsed "@ + (match elapsed {
        Some(n) => clock_text(whole_secs(n)),
        None => "0:00"@,
    })
}

/// The optional text of an optional string.
pub open spec fn opt_chars(o: Option<String>) -> Option<Seq<char>> {
    match o {
        Some(s) => Some(s@),
        None => None,
    }
}

/// The optional length of an optional duration, in nanoseconds.
pub open spec fn opt_nanos(o: Option<Duration>) -> Option<nat> {
    match o {
        Some(d) => Some(d.spec_nanos()),
        None => None,
    }
}

/// The header's first line: build id (`?` before it is known), profile
/// (`dev` before the build started), the commit's first seven bytes and the
/// time since the build started (`0:00` before), e.g.
/// `Build #42 (release)  •  commit abc1234  •  elapsed 0:28`.
pub fn title_line(state: &TuiState, elapsed: Option<Duration>) -> (s: String)
    requires
        commit_cut_ok(state.commit_hash),
    ensures
        s@ == title_text(state.build_id, state.profile, opt_chars(state.commit_hash), opt_nanos(elapsed)),
{
    let mut s = String::new();
    push_str(&mut s, "Build ");
    match state.build_id {
        Some(id) => {
            let t = id.to_string();
            push_str(&mut s, t.as_str());
        },
        None => push_str(&mut s, "?"),
    }
    push_str(&mut s, " (");
    match state.profile {
        Some(p) => push_str(&mut s, p.as_str()),
        None => push_str(&mut s, "dev"),
    }
    push_str(&mut s, ")  •  ");
    match &state.commit_hash {
        Some(h) => {
            push_str(&mut s, "commit ");
            let head = leading_bytes(h.as_str(), 7);
            push_str(&mut s, head);
        },
        None => push_str(&mut s, "no commit"),
    }
    push_str(&mut s, "  •  elapsed ");
    match elapsed {
        Some(d) => {
            let t = format_duration(d);
            push_str(&mut s, t.as_str());
        },
        None => push_str(&mut s, "0:00"),
    }
    assert(s@ =~= title_text(state.build_id, state.profile, opt_chars(state.commit_hash), opt_nanos(elapsed)));
    s
}

/// The header's second line.
pub open spec fn status_text(result: Option<bool>, total: Option<nat>, count: nat) -> Seq<char> {
    match result {
        Some(ok) => (if ok {
            "✓ Build succeeded"@
        } else {
            "✗ Build failed"@
        }) + "  in "@ + (match total {
            Some(n) => clock_text(whole_secs(n)),
            None => Seq::empty(),
        }) + "  ("@ + decimal(count) + " crates)"@,
        None => decimal(count) + " crates compiled"@,
    }
}

/// The header's second line: `N crates compiled` while the build runs;
/// once it ended, whether it succeeded, its total time and the count, e.g.
/// `✓ Build succeeded  in 0:30  (142 crates)`.
pub fn status_line(state: &TuiState) -> (s: String)
    ensures
        s@ == status_text(state.build_result, opt_nanos(state.total_duration), state.finished_count as nat),
{
    let mut s = String::new();
    match state.build_result {
        Some(ok) => {
            if ok {
                push_str(&mut s, "✓ Build succeeded");
            } else {
                push_str(&mut s, "✗ Build failed");
            }
            push_str(&mut s, "  in ");
            match state.total_duration {
                Some(d) => {
                    let t = format_duration(d);
                    push_str(&mut s, t.as_str());
                },
                None => {},
            }
            push_str(&mut s, "  (");
            push_decimal(&mut s, state.finished_count as u128);
            push_str(&mut s, " crates)");
        },
        None => {
            push_decimal(&mut s, state.finished_count as u128);
            push_str(&mut s, " crates compiled");
        },
    }
    assert(s@ =~= status_text(state.build_result, opt_nanos(state.total_duration), state.finished_count as nat));
    s
}

/// A compilation's line: marker, crate name padded to 32 characters, time
/// right-aligned in 6, and the verdict label.
pub open spec fn entry_text(marker: char, name: Seq<char>, nanos: nat, v: AnomalyVerdict) -> Seq<char> {
    seq![' ', ' ', marker, ' '] + pad_right(name, 32, ' ') + seq![' '] + pad_left(
        clock_text(whole_secs(nanos)),
        6,
        ' ',
    ) + seq![' ', ' ', ' '] + verdict_text(v)
}

fn entry_line(marker: char, id: &CrateId, d: Duration, v: AnomalyVerdict) -> (l: StyledLine)
    ensures
        l.text@ == entry_text(marker, crate_id_text(id@), d.spec_nanos(), v),
        l.color == verdict_color_spec(v),
{
    let mut s = String::new();
    push_char(&mut s, ' ');
    push_char(&mut s, ' ');
    push_char(&mut s, marker);
    push_char(&mut s, ' ');
    let name = id.to_string();
    let padded = padded_right(&name, 32, ' ');
    push_str(&mut s, padded.as_str());
    push_char(&mut s, ' ');
    let t = format_duration(d);
    let pt = padded_left(&t, 6, ' ');
    push_str(&mut s, pt.as_str());
    push_char(&mut s, ' ');
    push_char(&mut s, ' ');
    push_char(&mut s, ' ');
    push_str(&mut s, verdict_label(v));
    assert(s@ =~= entry_text(marker, crate_id_text(id@), d.spec_nanos(), v));
    StyledLine { text: s, color: verdict_color(v) }
}

/// The durations' lengths in nanoseconds, as sort keys.
pub open spec fn nanos_keys(s: Seq<Duration>) -> Seq<u128> {
    s.map_values(|d: Duration| d.spec_nanos() as u128)
}

/// The placeholder of the active section.
pub open spec fn no_active_text() -> Seq<char> {
    "  (no active compilations)"@
}

/// The lines of the active section, given each active compilation's
/// elapsed time (in the order of `state.active`): one line per compilation,
/// longest running first (ties keep their order), or a dark-grey
/// placeholder when nothing compiles.
pub fn active_lines(state: &TuiState, elapsed: &Vec<Duration>) -> (lines: Vec<StyledLine>)
    requires
        elapsed@.len() == state.active@.len(),
    ensures
        state.active@.len() == 0 ==> line_views(lines@) == seq![(no_active_text(), LineColor::DarkGray)],
        state.active@.len() > 0 ==> exists|p: Seq<usize>|
            {
                &&& is_stable_desc_order(nanos_keys(elapsed@), p)
                &&& lines@.len() == p.len()
                &&& forall|k: int|
                    0 <= k < p.len() ==> #[trigger] line_views(lines@)[k] == (
                        entry_text(
                            '▶',
                            crate_id_text(active_views(state.active@)[p[k] as int].0),
                            elapsed@[p[k] as int].spec_nanos(),
                            active_views(state.active@)[p[k] as int].2,
                        ),
                        verdict_color_spec(active_views(state.active@)[p[k] as int].2),
                    )
            },
{
    let mut lines: Vec<StyledLine> = Vec::new();
    if state.active.len() == 0 {
        lines.push(StyledLine { text: crate::text::owned("  (no active compilations)"), color: LineColor::DarkGray });
        assert(line_views(lines@) =~= seq![(no_active_text(), LineColor::DarkGray)]);
        return lines;
    }
    let mut keys: Vec<u128> = Vec::new();
    let mut i: usize = 0;
    while i < elapsed.len()
        invariant
            i <= elapsed@.len(),
            keys@ == nanos_keys(elapsed@).take(i as int),
        decreases elapsed.len() - i,
    {
        keys.push(elapsed[i].as_nanos());
        i = i + 1;
        assert(keys@ =~= nanos_keys(elapsed@).take(i as int));
    }
    assert(keys@ =~= nanos_keys(elapsed@));
    let order = stable_desc_order(&keys);
    let ghost av = active_views(state.active@);
    let mut k: usize = 0;
    while k < order.len()
        invariant
            is_stable_desc_order(nanos_keys(elapsed@), order@),
            elapsed@.len() == state.active@.len(),
            av == active_views(state.active@),
            k <= order@.len(),
            lines@.len() == k,
            forall|j: int|
                0 <= j < k ==> #[trigger] line_views(lines@)[j] == (
                    entry_text(
                        '▶',
                        crate_id_text(av[order@[j] as int].0),
                        elapsed@[order@[j] as int].spec_nanos(),
                        av[order@[j] as int].2,
                    ),
                    verdict_color_spec(av[order@[j] as int].2),
                ),
        decreases order.len() - k,
    {
        let idx = order[k];
        let a = &state.active[idx];
        let line = entry_line('▶', &a.crate_id, elapsed[idx], a.verdict);
        let ghost before = lines@;
        lines.push(line);
        proof {
            assert forall|j: int| 0 <= j < k + 1 implies #[trigger] line_views(lines@)[j] == (
                entry_text(
                    '▶',
                    crate_id_text(av[order@[j] as int].0),
                    elapsed@[order@[j] as int].spec_nanos(),
                    av[order@[j] as int].2,
                ),
                verdict_color_spec(av[order@[j] as int].2),
            ) by {
                if j < k {
                    assert(lines@[j] == before[j]);
                    assert(line_views(before)[j] == line_views(lines@)[j]);
                }
            }
        }
        k = k + 1;
    }
    lines
}

/// The placeholder of the finished section.
pub open spec fn no_recent_text() -> Seq<char> {
    "  (none yet)"@
}

/// The lines of the finished section: newest first, or a dark-grey
/// placeholder before anything finished.
pub fn recent_lines(state: &TuiState) -> (lines: Vec<StyledLine>)
    ensures
        state.recent@.len() == 0 ==> line_views(lines@) == seq![(no_recent_text(), LineColor::DarkGray)],
        state.recent@.len() > 0 ==> lines@.len() == state.recent@.len(),
        forall|k: int|
            0 <= k < state.recent@.len() ==> {
                let f = state.recent@[state.recent@.len() - 1 - k];
                #[trigger] line_views(lines@)[k] == (
                    entry_text('✓', crate_id_text(f.crate_id@), f.duration.spec_nanos(), f.verdict),
                    verdict_color_spec(f.verdict),
                )
            },
{
    let mut lines: Vec<StyledLine> = Vec::new();
    let n = state.recent.len();
    if n == 0 {
        lines.push(StyledLine { text: crate::text::owned("  (none yet)"), color: LineColor::DarkGray });
        assert(line_views(lines@) =~= seq![(no_recent_text(), LineColor::DarkGray)]);
        return lines;
    }
    let mut k: usize = 0;
    while k < n
        invariant
            n == state.recent@.len(),
            k <= n,
            lines@.len() == k,
            forall|j: int|
                0 <= j < k ==> {
                    let f = state.recent@[n - 1 - j];
                    #[trigger] line_views(lines@)[j] == (
                        entry_text('✓', crate_id_text(f.crate_id@), f.duration.spec_nanos(), f.verdict),
                        verdict_color_spec(f.verdict),
                    )
                },
        decreases n - k,
    {
        let f = &state.recent[n - 1 - k];
        let line = entry_line('✓', &f.crate_id, f.duration, f.verdict);
        let ghost before = lines@;
        let ghost lv = (line.text@, line.color);
        lines.push(line);
        assert(line_views(lines@)[k as int] == lv);
        proof {
            assert forall|j: int| 0 <= j < k + 1 implies {
                let f = state.recent@[n - 1 - j];
                #[trigger] line_views(lines@)[j] == (
                    entry_text('✓', crate_id_text(f.crate_id@), f.duration.spec_nanos(), f.verdict),
                    verdict_color_spec(f.verdict),
                )
            } by {
                if j < k {
                    assert(lines@[j] == before[j]);
                    assert(line_views(before)[j] == line_views(lines@)[j]);
                } else {
                    assert(state.recent@[n - 1 - j] == *f);
                }
            }
        }
        k = k + 1;
    }
    lines
}

/// The system section's line.
pub open spec fn system_text(snapshot: Option<SystemSnapshot>) -> Seq<char> {
    match snapshot {
        Some(s) => "  CPU: "@ + pad_left(tenths_text(s.cpu_usage_tenths as nat), 5, ' ') + "%   Memory: "@
            + bytes_text(s.mem_used_bytes as nat) + " / "@ + bytes_text(s.mem_total_bytes as nat),
        None => "  CPU: --   Memory: --"@,
    }
}

/// The system section's line: CPU use with one decimal, right-aligned in
/// five, and memory used over total, e.g.
/// `  CPU:  75.5%   Memory: 4.0 GiB / 16.0 GiB`; dashes before the first
/// reading.
pub fn system_line(snapshot: Option<SystemSnapshot>) -> (s: String)
    ensures
        s@ == system_text(snapshot),
{
    match snapshot {
        Some(snap) => {
            let mut s = String::new();
            push_str(&mut s, "  CPU: ");
            let mut cpu = String::new();
            push_tenths(&mut cpu, snap.cpu_usage_tenths as u128);
            let cpu_padded = padded_left(&cpu, 5, ' ');
            push_str(&mut s, cpu_padded.as_str());
            push_str(&mut s, "%   Memory: ");
            let used = format_bytes(snap.mem_used_bytes);
            push_str(&mut s, used.as_str());
            push_str(&mut s, " / ");
            let total = format_bytes(snap.mem_total_bytes);
            push_str(&mut s, total.as_str());
            assert(s@ =~= system_text(snapshot));
            s
        },
        None => crate::text::owned("  CPU: --   Memory: --"),
    }
}

} // verus!
