//! Turning Cargo's output lines into build events.
//!
//! Cargo writes one JSON object per line on stdout and plain progress lines
//! (`Compiling foo v0.1.0`) on stderr. The parser is a state machine: it is
//! fed one line at a time together with the time it was read, and answers
//! with the events that line produces. The first event of a build is
//! `BuildStarted` ([`start_event`]), the last is `BuildFinished`
//! ([`finish_event`]). In between, a `Compiling` line emits the start of
//! that crate's compilation and the crate's `compiler-artifact` message
//! emits its finish, timed from the `Compiling` line; an artifact with no
//! `Compiling` line before it emits a start and a finish of zero length.
//! Lines the parser does not understand produce nothing.

use vstd::prelude::*;
use crate::json::{Json, deref_opt, json_at, json_bool, json_get, opt_get, opt_str};
use crate::model::{BuildEvent, BuildProfile, CrateId, CrateIdView, CrateKind, EventView, MessageLevel, event_views, kind_text, opt_text, texts};
use crate::scan::{rfind, rfind_char, split_words, trim, trimmed_tail, words};
use crate::text::{from_chars, string_is, to_chars};
use crate::time::Duration;

verus! {

broadcast use vstd::string::group_string_axioms;

/// What the parser is configured with before a build starts.
#[derive(Debug)]
pub struct ParserConfig {
    /// Git commit hash of the workspace, when known.
    pub commit_hash: Option<String>,
    /// The arguments forwarded to `cargo build`.
    pub cargo_args: Vec<String>,
    pub profile: BuildProfile,
}

// ---- version strings -------------------------------------------------------

/// The version that a Cargo package id names:
/// - `"registry+https://...#name@1.0.15"` gives `1.0.15` (text after the last `@`);
/// - `"path+file:///tmp/foo#0.1.0"` gives `0.1.0` (text after the last `#`,
///   when it holds no `@`);
/// - `"name 0.1.0 (source)"` gives `0.1.0` (the second word).
/// The texts are trimmed; an empty id, or one that matches none of these,
/// gives nothing.
pub open spec fn version_of(p: Seq<char>) -> Option<Seq<char>> {
    if p.len() == 0 {
        None
    } else {
        let from_at = match rfind(p, '@') {
            Some(i) => if trim(p.skip(i + 1)).len() > 0 {
                Some(trim(p.skip(i + 1)))
            } else {
                None
            },
            None => None,
        };
        let from_hash = match rfind(p, '#') {
            Some(j) => if trim(p.skip(j + 1)).len() > 0 && !trim(p.skip(j + 1)).contains('@') {
                Some(trim(p.skip(j + 1)))
            } else {
                None
            },
            None => None,
        };
        if from_at is Some {
            from_at
        } else if from_hash is Some {
            from_hash
        } else if words(p).len() >= 2 {
            Some(words(p)[1])
        } else {
            None
        }
    }
}

fn contains_char(v: &Vec<char>, c: char) -> (r: bool)
    ensures
        r == v@.contains(c),
{
    let mut i: usize = 0;
    while i < v.len()
        invariant
            i <= v@.len(),
            forall|k: int| 0 <= k < i ==> v@[k] != c,
        decreases v.len() - i,
    {
        if v[i] == c {
            return true;
        }
        i = i + 1;
    }
    false
}

/// The version named by a Cargo package id (see [`version_of`]).
pub fn extract_version(package_id: &str) -> (r: Option<String>)
    ensures
        opt_text(r) == version_of(package_id@),
{
    let v = to_chars(package_id);
    if v.len() == 0 {
        return None;
    }
    let at = rfind_char(&v, '@');
    if let Some(i) = at {
        let t = trimmed_tail(&v, i + 1);
        if t.len() > 0 {
            return Some(from_chars(&t));
        }
    }
    let hash = rfind_char(&v, '#');
    if let Some(j) = hash {
        let a = trimmed_tail(&v, j + 1);
        if a.len() > 0 && !contains_char(&a, '@') {
            return Some(from_chars(&a));
        }
    }
    let parts = split_words(&v);
    if parts.len() >= 2 {
        proof {
            assert(parts@.map_values(|w: Vec<char>| w@)[1] == parts@[1]@);
        }
        return Some(from_chars(&parts[1]));
    }
    None
}

// ---- fields of a Cargo message ---------------------------------------------

/// The text of `package_id`, or the empty text.
pub open spec fn package_text(j: Json) -> Seq<char> {
    match opt_str(json_get(j, "package_id"@)) {
        Some(p) => p,
        None => seq![],
    }
}

/// The crate a message is about: `target.name`, with the version named by
/// `package_id`.
pub open spec fn crate_id_of(j: Json) -> Option<CrateIdView> {
    match opt_str(opt_get(json_get(j, "target"@), "name"@)) {
        Some(name) => Some((name, version_of(package_text(j)))),
        None => None,
    }
}

/// The first entry of `target.kind`, or the empty text.
pub open spec fn kind_name_of(j: Json) -> Seq<char> {
    let kinds = opt_get(json_get(j, "target"@), "kind"@);
    let first = match kinds {
        Some(k) => json_at(k, 0),
        None => None,
    };
    match opt_str(first) {
        Some(k) => k,
        None => seq![],
    }
}

/// The target kind that a Cargo kind name stands for.
pub open spec fn kind_from_name(k: Seq<char>) -> CrateKind {
    if k == "lib"@ {
        CrateKind::Lib
    } else if k == "bin"@ {
        CrateKind::Bin
    } else if k == "custom-build"@ {
        CrateKind::BuildScript
    } else if k == "proc-macro"@ {
        CrateKind::ProcMacro
    } else if k == "test"@ {
        CrateKind::Test
    } else if k == "example"@ {
        CrateKind::Example
    } else if k == "bench"@ {
        CrateKind::Bench
    } else {
        CrateKind::Unknown
    }
}

/// The name Cargo gives a target kind in its messages: the display name,
/// except that a build script is `custom-build`.
pub open spec fn cargo_kind_name(k: CrateKind) -> Seq<char> {
    match k {
        CrateKind::BuildScript => "custom-build"@,
        _ => kind_text(k),
    }
}

/// Every target kind is read back from the name Cargo gives it, and a name
/// that is read as a known kind is exactly that kind's Cargo name; so
/// distinct Cargo kind names give distinct kinds.
pub proof fn law_kind_names_round_trip()
    ensures
        forall|k: CrateKind| k != CrateKind::Unknown ==> #[trigger] kind_from_name(cargo_kind_name(k)) == k,
        forall|n: Seq<char>|
            #[trigger] kind_from_name(n) != CrateKind::Unknown ==> cargo_kind_name(kind_from_name(n)) == n,
{
    assert forall|k: CrateKind| k != CrateKind::Unknown implies #[trigger] kind_from_name(cargo_kind_name(k)) == k by {
        reveal_strlit("lib");
        reveal_strlit("bin");
        reveal_strlit("custom-build");
        reveal_strlit("proc-macro");
        reveal_strlit("test");
        reveal_strlit("example");
        reveal_strlit("bench");
        assert("bin"@[0] != "lib"@[0]);
        assert("test"@[0] != "bench"@[0]);
        assert("proc-macro"@[0] != "custom-build"@[0]);
        assert("bench"@[1] != "bin"@[1]);
        match k {
            CrateKind::Lib => {},
            CrateKind::Bin => {
                assert("bin"@ != "lib"@);
            },
            CrateKind::BuildScript => {
                assert("custom-build"@ != "lib"@);
                assert("custom-build"@ != "bin"@);
            },
            CrateKind::ProcMacro => {
                assert("proc-macro"@ != "lib"@);
                assert("proc-macro"@ != "bin"@);
                assert("proc-macro"@ != "custom-build"@);
            },
            CrateKind::Test => {
                assert("test"@ != "lib"@);
                assert("test"@ != "bin"@);
                assert("test"@ != "custom-build"@);
                assert("test"@ != "proc-macro"@);
            },
            CrateKind::Example => {
                assert("example"@ != "lib"@);
                assert("example"@ != "bin"@);
                assert("example"@ != "custom-build"@);
                assert("example"@ != "proc-macro"@);
                assert("example"@ != "test"@);
            },
            CrateKind::Bench => {
                assert("bench"@ != "lib"@);
                assert("bench"@ != "bin"@);
                assert("bench"@ != "custom-build"@);
                assert("bench"@ != "proc-macro"@);
                assert("bench"@ != "test"@);
                assert("bench"@ != "example"@);
            },
            CrateKind::Unknown => {},
        }
    }
}

/// The crate a Cargo message is about (see [`crate_id_of`]).
pub fn parse_crate_id(json: &Json) -> (r: Option<CrateId>)
    ensures
        match r {
            Some(c) => crate_id_of(*json) == Some(c@),
            None => crate_id_of(*json) is None,
        },
{
    let target = json.get("target");
    let name_value = match target {
        Some(t) => t.get("name"),
        None => None,
    };
    let name = match name_value {
        Some(n) => n.as_str(),
        None => None,
    };
    match name {
        Some(n) => {
            let package_id = match json.get("package_id") {
                Some(p) => p.as_str(),
                None => None,
            };
            let version = match package_id {
                Some(p) => extract_version(p.as_str()),
                None => extract_version(""),
            };
            proof {
                reveal_strlit("");
            }
            Some(CrateId { name: n.clone(), version })
        },
        None => None,
    }
}

/// The target kind of a Cargo message (see [`kind_name_of`], [`kind_from_name`]).
pub fn parse_crate_kind(json: &Json) -> (k: CrateKind)
    ensures
        k == kind_from_name(kind_name_of(*json)),
{
    let kinds = match json.get("target") {
        Some(t) => t.get("kind"),
        None => None,
    };
    let first = match kinds {
        Some(k) => k.at(0),
        None => None,
    };
    let name = match first {
        Some(f) => f.as_str(),
        None => None,
    };
    match name {
        Some(kname) => kind_from_string(kname),
        None => {
            let r = CrateKind::Unknown;
            proof {
                reveal_strlit("lib");
                reveal_strlit("bin");
                reveal_strlit("custom-build");
                reveal_strlit("proc-macro");
                reveal_strlit("test");
                reveal_strlit("example");
                reveal_strlit("bench");
                assert(kind_name_of(*json) == Seq::<char>::empty());
                assert(r == kind_from_name(kind_name_of(*json)));
            }
            r
        },
    }
}

fn kind_from_string(k: &String) -> (r: CrateKind)
    ensures
        r == kind_from_name(k@),
        r != CrateKind::Unknown ==> cargo_kind_name(r) == k@,
{
    proof {
        law_kind_names_round_trip();
    }
    if string_is(k, "lib") {
        CrateKind::Lib
    } else if string_is(k, "bin") {
        CrateKind::Bin
    } else if string_is(k, "custom-build") {
        CrateKind::BuildScript
    } else if string_is(k, "proc-macro") {
        CrateKind::ProcMacro
    } else if string_is(k, "test") {
        CrateKind::Test
    } else if string_is(k, "example") {
        CrateKind::Example
    } else if string_is(k, "bench") {
        CrateKind::Bench
    } else {
        CrateKind::Unknown
    }
}

/// The crate and target kind of a `compiler-artifact` message.
pub fn parse_target(json: &Json) -> (r: Option<(CrateId, CrateKind)>)
    ensures
        match r {
            Some((c, k)) => crate_id_of(*json) == Some(c@) && k == kind_from_name(kind_name_of(*json)),
            None => crate_id_of(*json) is None,
        },
{
    match parse_crate_id(json) {
        Some(c) => Some((c, parse_crate_kind(json))),
        None => None,
    }
}

// ---- the line-by-line state machine ---------------------------------------

/// A compilation whose `Compiling` progress line was seen: the crate, the
/// time the line was read and that time as RFC 3339 text.
pub type PendingView = (CrateIdView, nat, Seq<char>);

/// A compilation that has started and not yet finished.
#[derive(Debug)]
pub struct Pending {
    pub crate_id: CrateId,
    pub started: Duration,
    pub started_at: String,
}

impl View for Pending {
    type V = PendingView;

    open spec fn view(&self) -> PendingView {
        (self.crate_id@, self.started.spec_nanos(), self.started_at@)
    }
}

/// The views of a list of pending compilations.
pub open spec fn pending_views(v: Seq<Pending>) -> Seq<PendingView> {
    v.map_values(|p: Pending| p@)
}

/// The position of the first pending compilation of `key`.
pub open spec fn find_pending(s: Seq<PendingView>, key: CrateIdView) -> Option<int>
    decreases s.len(),
{
    if s.len() == 0 {
        None
    } else if s[0].0 == key {
        Some(0)
    } else {
        match find_pending(s.drop_first(), key) {
            Some(i) => Some(i + 1),
            None => None,
        }
    }
}

/// `s` with `key` recorded as started at `t` (`at` as text), replacing an
/// earlier start of the same crate.
pub open spec fn pending_put(s: Seq<PendingView>, key: CrateIdView, t: nat, at: Seq<char>) -> Seq<PendingView> {
    match find_pending(s, key) {
        Some(i) => s.update(i, (key, t, at)),
        None => s.push((key, t, at)),
    }
}

/// `s` without the start of `key`, and that start if there was one.
pub open spec fn pending_take(s: Seq<PendingView>, key: CrateIdView) -> (Seq<PendingView>, Option<PendingView>) {
    match find_pending(s, key) {
        Some(i) => (s.remove(i), Some(s[i])),
        None => (s, None),
    }
}

/// The crate that a progress line `Compiling NAME vVERSION ...` announces.
pub open spec fn compiling_crate(line: Seq<char>) -> Option<CrateIdView> {
    let w = words(line);
    if w.len() >= 3 && w[0] == "Compiling"@ && w[2].len() >= 2 && w[2][0] == 'v' {
        Some((w[1], Some(w[2].drop_first())))
    } else {
        None
    }
}

/// The severity that a diagnostic's `level` names; anything but `error`
/// and `warning` counts as a note.
pub open spec fn level_of(m: Json) -> MessageLevel {
    match opt_str(json_get(m, "level"@)) {
        Some(l) => if l == "error"@ {
            MessageLevel::Error
        } else if l == "warning"@ {
            MessageLevel::Warning
        } else {
            MessageLevel::Note
        },
        None => MessageLevel::Note,
    }
}

/// A diagnostic's `rendered` text, or the empty text.
pub open spec fn rendered_of(m: Json) -> Seq<char> {
    match opt_str(json_get(m, "rendered"@)) {
        Some(t) => t,
        None => seq![],
    }
}

/// The `success` flag of a `build-finished` message; false when absent or
/// not a boolean.
pub open spec fn success_of(j: Json) -> bool {
    match json_get(j, "success"@) {
        Some(v) => match json_bool(v) {
            Some(b) => b,
            None => false,
        },
        None => false,
    }
}

/// The effect of one line: the pending compilations afterwards, the events
/// it produces, and, for `build-finished`, whether the build succeeded.
///
/// `json` is the line parsed as JSON (absent when it is not JSON), `now`
/// the time the line was read in nanoseconds since the build started, and
/// `now_at` that time as RFC 3339 text.
pub open spec fn line_step(
    pending: Seq<PendingView>,
    line: Seq<char>,
    json: Option<Json>,
    now: nat,
    now_at: Seq<char>,
) -> (Seq<PendingView>, Seq<EventView>, Option<bool>) {
    match json {
        None => match compiling_crate(line) {
            Some(c) => (
                pending_put(pending, c, now, now_at),
                seq![EventView::CompilationStarted { crate_id: c, kind: CrateKind::Unknown, at: now_at }],
                None,
            ),
            None => (pending, seq![], None),
        },
        Some(j) => match opt_str(json_get(j, "reason"@)) {
            Some(r) => if r == "compiler-artifact"@ {
                match crate_id_of(j) {
                    Some(c) => {
                        let kind = kind_from_name(kind_name_of(j));
                        let (rest, found) = pending_take(pending, c);
                        match found {
                            Some(p) => (
                                rest,
                                seq![
                                    EventView::CompilationFinished {
                                        crate_id: c,
                                        kind,
                                        started_at: p.2,
                                        finished_at: now_at,
                                        duration: if now >= p.1 { (now - p.1) as nat } else { 0 },
                                    },
                                ],
                                None,
                            ),
                            None => (
                                rest,
                                seq![
                                    EventView::CompilationStarted { crate_id: c, kind, at: now_at },
                                    EventView::CompilationFinished {
                                        crate_id: c,
                                        kind,
                                        started_at: now_at,
                                        finished_at: now_at,
                                        duration: 0,
                                    },
                                ],
                                None,
                            ),
                        }
                    },
                    None => (pending, seq![], None),
                }
            } else if r == "compiler-message"@ {
                match (crate_id_of(j), json_get(j, "message"@)) {
                    (Some(c), Some(m)) => (
                        pending,
                        seq![EventView::CompilerMessage { crate_id: c, level: level_of(m), text: rendered_of(m) }],
                        None,
                    ),
                    _ => (pending, seq![], None),
                }
            } else if r == "build-finished"@ {
                (pending, seq![], Some(success_of(j)))
            } else {
                (pending, seq![], None)
            },
            None => (pending, seq![], None),
        },
    }
}

/// What one line produced.
#[derive(Debug)]
pub struct LineOutcome {
    /// Events to emit, in order.
    pub events: Vec<BuildEvent>,
    /// For a `build-finished` message, whether the build succeeded; the
    /// parser stops reading after it.
    pub finished: Option<bool>,
}

/// The parser's memory between lines: compilations that started and have
/// not finished.
#[derive(Debug)]
pub struct ParserState {
    pending: Vec<Pending>,
}

impl View for ParserState {
    type V = Seq<PendingView>;

    closed spec fn view(&self) -> Seq<PendingView> {
        pending_views(self.pending@)
    }
}

proof fn lemma_find_pending_skip(s: Seq<PendingView>, key: CrateIdView, i: int)
    requires
        0 <= i <= s.len(),
        forall|k: int| 0 <= k < i ==> s[k].0 != key,
    ensures
        find_pending(s, key) == (match find_pending(s.skip(i), key) {
            Some(m) => Some(m + i),
            None => None,
        }),
    decreases i,
{
    if i == 0 {
        assert(s.skip(0) =~= s);
        match find_pending(s, key) {
            Some(m) => {},
            None => {},
        }
    } else {
        lemma_find_pending_skip(s, key, i - 1);
        assert(s.skip(i - 1)[0] == s[i - 1]);
        assert(s.skip(i - 1).drop_first() =~= s.skip(i));
    }
}

/// The BuildStarted event that opens a build (`at` is the start time as
/// RFC 3339 text).
pub fn start_event(config: ParserConfig, at: String) -> (e: BuildEvent)
    ensures
        e@ == (EventView::BuildStarted {
            at: at@,
            commit_hash: opt_text(config.commit_hash),
            cargo_args: texts(config.cargo_args@),
            profile: config.profile,
        }),
{
    BuildEvent::BuildStarted {
        at,
        commit_hash: config.commit_hash,
        cargo_args: config.cargo_args,
        profile: config.profile,
    }
}

/// The BuildFinished event that closes a build. `success` is what the
/// `build-finished` message said, or false when the output ended without
/// one.
pub fn finish_event(success: bool, total_duration: Duration, at: String) -> (e: BuildEvent)
    ensures
        e@ == (EventView::BuildFinished { success, total_duration: total_duration.spec_nanos(), at: at@ }),
{
    BuildEvent::BuildFinished { success, total_duration, at }
}

impl ParserState {
    /// A parser that has seen no line yet.
    pub fn new() -> (s: ParserState)
        ensures
            s@ == Seq::<PendingView>::empty(),
    {
        let s = ParserState { pending: Vec::new() };
        assert(s@ =~= Seq::<PendingView>::empty());
        s
    }

    fn find(&self, key: &CrateId) -> (r: Option<usize>)
        ensures
            match r {
                Some(i) => find_pending(self@, key@) == Some(i as int) && i < self@.len(),
                None => find_pending(self@, key@) is None,
            },
    {
        let mut i: usize = 0;
        while i < self.pending.len()
            invariant
                i <= self.pending@.len(),
                self@ == pending_views(self.pending@),
                forall|k: int| 0 <= k < i ==> self@[k].0 != key@,
            decreases self.pending.len() - i,
        {
            if self.pending[i].crate_id.same_as(key) {
                proof {
                    lemma_find_pending_skip(self@, key@, i as int);
                    assert(self@.skip(i as int)[0] == self@[i as int]);
                }
                return Some(i);
            }
            i = i + 1;
        }
        proof {
            lemma_find_pending_skip(self@, key@, i as int);
        }
        None
    }

    fn put(&mut self, key: CrateId, t: Duration, at: &String)
        ensures
            final(self)@ == pending_put(old(self)@, key@, t.spec_nanos(), at@),
    {
        let entry = Pending { crate_id: key, started: t, started_at: at.clone() };
        match self.find(&entry.crate_id) {
            Some(i) => {
                self.pending.set(i, entry);
                assert(self@ =~= pending_put(old(self)@, entry.crate_id@, t.spec_nanos(), at@));
            },
            None => {
                self.pending.push(entry);
                assert(self@ =~= pending_put(old(self)@, entry.crate_id@, t.spec_nanos(), at@));
            },
        }
    }

    fn take(&mut self, key: &CrateId) -> (r: Option<Pending>)
        ensures
            (final(self)@, match r {
                Some(p) => Some(p@),
                None => None,
            }) == pending_take(old(self)@, key@),
    {
        match self.find(key) {
            Some(i) => {
                let p = self.pending.remove(i);
                assert(self@ =~= old(self)@.remove(i as int));
                Some(p)
            },
            None => None,
        }
    }

    /// Feeds one output line to the parser. `json` is the line parsed as
    /// JSON, when it is JSON; `now` is the time the line was read, measured
    /// from the start of the build, and `now_at` the same time as RFC 3339
    /// text.
    pub fn on_line(&mut self, line: &str, json: Option<&Json>, now: Duration, now_at: &String) -> (out: LineOutcome)
        ensures
            (final(self)@, event_views(out.events@), out.finished) == line_step(
                old(self)@,
                line@,
                deref_opt(json),
                now.spec_nanos(),
                now_at@,
            ),
    {
        proof {
            reveal_strlit("compiler-artifact");
            reveal_strlit("compiler-message");
            reveal_strlit("build-finished");
        }
        match json {
            None => {
                match parse_compiling_line(line) {
                    Some(c) => {
                        let started = c.clone();
                        self.put(c, now, now_at);
                        let mut events: Vec<BuildEvent> = Vec::new();
                        events.push(BuildEvent::CompilationStarted {
                            crate_id: started,
                            kind: CrateKind::Unknown,
                            at: now_at.clone(),
                        });
                        let out = LineOutcome { events, finished: None };
                        assert(event_views(out.events@) =~= line_step(
                            old(self)@,
                            line@,
                            None,
                            now.spec_nanos(),
                            now_at@,
                        ).1);
                        out
                    },
                    None => {
                        let out = LineOutcome { events: Vec::new(), finished: None };
                        assert(event_views(out.events@) =~= Seq::<EventView>::empty());
                        out
                    },
                }
            },
            Some(j) => {
                let reason = match j.get("reason") {
                    Some(r) => r.as_str(),
                    None => None,
                };
                let out = match reason {
                    Some(r) => if string_is(r, "compiler-artifact") {
                        self.on_artifact(j, now, now_at)
                    } else if string_is(r, "compiler-message") {
                        on_message(j)
                    } else if string_is(r, "build-finished") {
                        let success = match j.get("success") {
                            Some(v) => match v.as_bool() {
                                Some(b) => b,
                                None => false,
                            },
                            None => false,
                        };
                        LineOutcome { events: Vec::new(), finished: Some(success) }
                    } else {
                        LineOutcome { events: Vec::new(), finished: None }
                    },
                    None => LineOutcome { events: Vec::new(), finished: None },
                };
                assert(event_views(Seq::<BuildEvent>::empty()) =~= Seq::<EventView>::empty());
                out
            },
        }
    }

    fn on_artifact(&mut self, j: &Json, now: Duration, now_at: &String) -> (out: LineOutcome)
        requires
            opt_str(json_get(*j, "reason"@)) == Some("compiler-artifact"@),
        ensures
            (final(self)@, event_views(out.events@), out.finished) == line_step(
                old(self)@,
                seq![],
                Some(*j),
                now.spec_nanos(),
                now_at@,
            ),
    {
        match parse_target(j) {
            Some((c, kind)) => {
                let found = self.take(&c);
                let c2 = c.clone();
                let mut events: Vec<BuildEvent> = Vec::new();
                match found {
                    Some(p) => {
                        let d = now.saturating_sub(p.started);
                        events.push(
                            BuildEvent::CompilationFinished {
                                crate_id: c2,
                                kind,
                                started_at: p.started_at,
                                finished_at: now_at.clone(),
                                duration: d,
                            },
                        );
                    },
                    None => {
                        events.push(BuildEvent::CompilationStarted { crate_id: c, kind, at: now_at.clone() });
                        events.push(
                            BuildEvent::CompilationFinished {
                                crate_id: c2,
                                kind,
                                started_at: now_at.clone(),
                                finished_at: now_at.clone(),
                                duration: Duration::zero(),
                            },
                        );
                    },
                }
                let out = LineOutcome { events, finished: None };
                assert(event_views(out.events@) =~= line_step(
                    old(self)@,
                    seq![],
                    Some(*j),
                    now.spec_nanos(),
                    now_at@,
                ).1);
                out
            },
            None => {
                let out = LineOutcome { events: Vec::new(), finished: None };
                assert(event_views(out.events@) =~= Seq::<EventView>::empty());
                out
            },
        }
    }
}

fn on_message(j: &Json) -> (out: LineOutcome)
    ensures
        (event_views(out.events@), out.finished) == (match (crate_id_of(*j), json_get(*j, "message"@)) {
            (Some(c), Some(m)) => (
                seq![EventView::CompilerMessage { crate_id: c, level: level_of(m), text: rendered_of(m) }],
                None::<bool>,
            ),
            _ => (Seq::<EventView>::empty(), None::<bool>),
        }),
{
    let c = parse_crate_id(j);
    let m = j.get("message");
    match (c, m) {
        (Some(c), Some(m)) => {
            let level_text = match m.get("level") {
                Some(l) => l.as_str(),
                None => None,
            };
            proof {
                reveal_strlit("error");
                reveal_strlit("warning");
            }
            let level = match level_text {
                Some(l) => if string_is(l, "error") {
                    MessageLevel::Error
                } else if string_is(l, "warning") {
                    MessageLevel::Warning
                } else {
                    MessageLevel::Note
                },
                None => MessageLevel::Note,
            };
            let text = match m.get("rendered") {
                Some(t) => match t.as_str() {
                    Some(s) => s.clone(),
                    None => String::new(),
                },
                None => String::new(),
            };
            let mut events: Vec<BuildEvent> = Vec::new();
            events.push(BuildEvent::CompilerMessage { crate_id: c, level, text });
            let out = LineOutcome { events, finished: None };
            assert(event_views(out.events@) =~= seq![
                EventView::CompilerMessage { crate_id: c@, level: level_of(*m), text: rendered_of(*m) },
            ]);
            out
        },
        _ => {
            let out = LineOutcome { events: Vec::new(), finished: None };
            assert(event_views(out.events@) =~= Seq::<EventView>::empty());
            out
        },
    }
}

// ---- reading a line as JSON ------------------------------------------------

/// What `serde_json::from_str` reads from a line, as the library's JSON
/// tree; `None` when the line is not one JSON value.
pub uninterp spec fn json_of_line(line: Seq<char>) -> Option<Json>;

/// Declares `serde_json::Value` to the verifier.
#[verifier::external_type_specification]
#[verifier::external_body]
pub struct ExJsonValue(serde_json::Value);

/// Parses `line` with `serde_json::from_str` into a `serde_json::Value`
/// and converts it, variant for variant, into the library's JSON tree
/// (numbers keep the text `serde_json` prints for them). The result is
/// named `json_of_line`; nothing more is claimed of it.
#[verifier::external_body]
fn parse_json(line: &str) -> (r: Option<Json>)
    ensures
        r == json_of_line(line@),
{
    serde_json::from_str::<serde_json::Value>(line).ok().map(json_from_value)
}

/// The conversion `parse_json` applies: one `serde_json::Value` variant to
/// the `Json` variant of the same shape, members in the order `serde_json`
/// keeps them. It is part of `parse_json` and claims nothing of its own.
#[verifier::external_body]
fn json_from_value(v: serde_json::Value) -> Json {
    match v {
        serde_json::Value::Null => Json::Null,
        serde_json::Value::Bool(b) => Json::Bool(b),
        serde_json::Value::Number(n) => Json::Number(n.to_string()),
        serde_json::Value::String(t) => Json::Str(t),
        serde_json::Value::Array(a) => Json::Array(a.into_iter().map(json_from_value).collect()),
        serde_json::Value::Object(o) => Json::Object(o.into_iter().map(|(k, x)| (k, json_from_value(x))).collect()),
    }
}

impl ParserState {
    /// Feeds one output line to the parser, reading it as JSON first (a
    /// line that is not JSON may be a `Compiling` progress line). `now` is
    /// the time the line was read, measured from the start of the build,
    /// and `now_at` the same time as RFC 3339 text.
    pub fn parse_line(&mut self, line: &str, now: Duration, now_at: &String) -> (out: LineOutcome)
        ensures
            (final(self)@, event_views(out.events@), out.finished) == line_step(
                old(self)@,
                line@,
                json_of_line(line@),
                now.spec_nanos(),
                now_at@,
            ),
    {
        let json = parse_json(line);
        let r: Option<&Json> = match &json {
            Some(j) => Some(j),
            None => None,
        };
        self.on_line(line, r, now, now_at)
    }
}

/// The crate announced by a `Compiling NAME vVERSION ...` progress line.
pub fn parse_compiling_line(line: &str) -> (r: Option<CrateId>)
    ensures
        match r {
            Some(c) => compiling_crate(line@) == Some(c@),
            None => compiling_crate(line@) is None,
        },
{
    proof {
        reveal_strlit("Compiling");
    }
    let chars = to_chars(line);
    let w = split_words(&chars);
    proof {
        assert(w@.len() == words(line@).len());
    }
    if w.len() >= 3 {
        proof {
            assert(w@.map_values(|v: Vec<char>| v@)[0] == w@[0]@);
            assert(w@.map_values(|v: Vec<char>| v@)[1] == w@[1]@);
            assert(w@.map_values(|v: Vec<char>| v@)[2] == w@[2]@);
        }
        let first = from_chars(&w[0]);
        let third = &w[2];
        if string_is(&first, "Compiling") && third.len() >= 2 && third[0] == 'v' {
            let mut version: Vec<char> = Vec::new();
            let mut i: usize = 1;
            while i < third.len()
                invariant
                    1 <= i <= third@.len(),
                    version@ == third@.subrange(1, i as int),
                decreases third@.len() - i,
            {
                version.push(third[i]);
                i = i + 1;
                assert(version@ =~= third@.subrange(1, i as int));
            }
            assert(version@ =~= third@.drop_first());
            return Some(CrateId { name: from_chars(&w[1]), version: Some(from_chars(&version)) });
        }
    }
    None
}

// ---- the event stream of a whole build ------------------------------------

/// One line as the parser receives it: its text, the line parsed as JSON
/// when it is JSON, when it was read (nanoseconds since the build started)
/// and that time as RFC 3339 text.
pub type LineInput = (Seq<char>, Option<Json>, nat, Seq<char>);

/// The events that `inputs` produce from the state `pending`, and the
/// success flag of the `build-finished` message that ends them (false when
/// the output ends without one). Lines after `build-finished` are not read.
pub open spec fn run_lines(pending: Seq<PendingView>, inputs: Seq<LineInput>) -> (Seq<EventView>, bool)
    decreases inputs.len(),
{
    if inputs.len() == 0 {
        (seq![], false)
    } else {
        let (p2, evs, fin) = line_step(pending, inputs[0].0, inputs[0].1, inputs[0].2, inputs[0].3);
        match fin {
            Some(success) => (evs, success),
            None => {
                let (rest, success) = run_lines(p2, inputs.drop_first());
                (evs + rest, success)
            },
        }
    }
}

/// The whole event stream of a build: `BuildStarted`, the events of the
/// output lines, and `BuildFinished` (with the total time `total` and the
/// end time `end_at`).
pub open spec fn event_stream(
    config: ParserConfig,
    start_at: Seq<char>,
    inputs: Seq<LineInput>,
    total: nat,
    end_at: Seq<char>,
) -> Seq<EventView> {
    let (body, success) = run_lines(Seq::empty(), inputs);
    seq![
        EventView::BuildStarted {
            at: start_at,
            commit_hash: opt_text(config.commit_hash),
            cargo_args: texts(config.cargo_args@),
            profile: config.profile,
        },
    ] + body + seq![EventView::BuildFinished { success, total_duration: total, at: end_at }]
}

/// Whether `e` starts the compilation of `key` at the time `at`.
pub open spec fn is_start_of(e: EventView, key: CrateIdView, at: Seq<char>) -> bool {
    e matches EventView::CompilationStarted { crate_id, at: a, .. } && crate_id == key && a == at
}

/// Whether `s` holds a start of `key` at the time `at`.
pub open spec fn announced(s: Seq<EventView>, key: CrateIdView, at: Seq<char>) -> bool {
    exists|j: int| 0 <= j < s.len() && #[trigger] is_start_of(s[j], key, at)
}

/// Whether the event at `i` is no `CompilationFinished`, or one whose
/// compilation was started earlier in `s` (same crate, same start time).
pub open spec fn started_earlier(s: Seq<EventView>, i: int) -> bool {
    match s[i] {
        EventView::CompilationFinished { crate_id, started_at, .. } => announced(s.take(i), crate_id, started_at),
        _ => true,
    }
}

/// Every `CompilationFinished` of `s` comes after the start of its
/// compilation.
pub open spec fn finishes_follow_starts(s: Seq<EventView>) -> bool {
    forall|i: int| 0 <= i < s.len() ==> #[trigger] started_earlier(s, i)
}

/// `s` holds no build boundary.
pub open spec fn no_build_boundary(s: Seq<EventView>) -> bool {
    forall|i: int| 0 <= i < s.len() ==> !(#[trigger] s[i] is BuildStarted) && !(s[i] is BuildFinished)
}

/// Every pending compilation's start is among the events `s`.
pub open spec fn pending_announced(p: Seq<PendingView>, s: Seq<EventView>) -> bool {
    forall|k: int| 0 <= k < p.len() ==> announced(s, #[trigger] p[k].0, p[k].2)
}

proof fn lemma_announced_extend(s: Seq<EventView>, t: Seq<EventView>, key: CrateIdView, at: Seq<char>)
    requires
        announced(s, key, at),
    ensures
        announced(s + t, key, at),
        announced(t + s, key, at),
{
    let j = choose|j: int| 0 <= j < s.len() && #[trigger] is_start_of(s[j], key, at);
    assert((s + t)[j] == s[j]);
    assert((t + s)[t.len() + j] == s[j]);
}

proof fn lemma_find_pending_some(s: Seq<PendingView>, key: CrateIdView)
    ensures
        find_pending(s, key) matches Some(i) ==> 0 <= i < s.len() && s[i].0 == key,
    decreases s.len(),
{
    if s.len() > 0 && s[0].0 != key {
        lemma_find_pending_some(s.drop_first(), key);
    }
}

proof fn lemma_step_keeps_order(
    pending: Seq<PendingView>,
    e: Seq<EventView>,
    line: Seq<char>,
    json: Option<Json>,
    now: nat,
    now_at: Seq<char>,
)
    requires
        pending_announced(pending, e),
        finishes_follow_starts(e),
        no_build_boundary(e),
    ensures
        ({
            let (p2, evs, _fin) = line_step(pending, line, json, now, now_at);
            &&& pending_announced(p2, e + evs)
            &&& finishes_follow_starts(e + evs)
            &&& no_build_boundary(e + evs)
        }),
{
    let (p2, evs, _fin) = line_step(pending, line, json, now, now_at);
    let s = e + evs;
    assert forall|k: int| 0 <= k < pending.len() implies announced(s, #[trigger] pending[k].0, pending[k].2) by {
        lemma_announced_extend(e, evs, pending[k].0, pending[k].2);
    }
    assert forall|i: int| 0 <= i < s.len() implies !(#[trigger] s[i] is BuildStarted) && !(s[i] is BuildFinished) by {
        if i < e.len() {
            assert(s[i] == e[i]);
        } else {
            assert(s[i] == evs[i - e.len()]);
        }
    }
    assert forall|i: int| 0 <= i < s.len() implies #[trigger] started_earlier(s, i) by {
        if i < e.len() {
            assert(s[i] == e[i]);
            assert(s.take(i) =~= e.take(i));
            assert(started_earlier(e, i));
        } else {
            assert(s[i] == evs[i - e.len()]);
            match s[i] {
                EventView::CompilationFinished { crate_id, started_at, .. } => {
                    let c = crate_id;
                    lemma_find_pending_some(pending, c);
                    match find_pending(pending, c) {
                        Some(m) => {
                            assert(announced(s, pending[m].0, pending[m].2));
                            let j = choose|j: int| 0 <= j < s.len() && #[trigger] is_start_of(s[j], c, started_at);
                            assert(j < e.len()) by {
                                if j >= e.len() {
                                    assert(s[j] == evs[j - e.len()]);
                                }
                            }
                            assert(s.take(i)[j] == s[j]);
                        },
                        None => {
                            assert(i == e.len() + 1);
                            assert(s.take(i)[e.len() as int] == s[e.len() as int]);
                            assert(is_start_of(s.take(i)[e.len() as int], c, started_at));
                        },
                    }
                },
                _ => {},
            }
        }
    }
    assert forall|k: int| 0 <= k < p2.len() implies announced(s, #[trigger] p2[k].0, p2[k].2) by {
        if json is None && compiling_crate(line) is Some {
            let c = compiling_crate(line).unwrap();
            lemma_find_pending_some(pending, c);
            if p2[k] == (c, now, now_at) {
                assert(is_start_of(s[e.len() as int], c, now_at));
            } else {
                match find_pending(pending, c) {
                    Some(m) => {
                        assert(p2[k] == pending[k]);
                    },
                    None => {
                        assert(k < pending.len());
                        assert(p2[k] == pending[k]);
                    },
                }
            }
        } else {
            match json {
                Some(j) => {
                    if opt_str(json_get(j, "reason"@)) == Some("compiler-artifact"@) && crate_id_of(j) is Some {
                        let c = crate_id_of(j).unwrap();
                        match find_pending(pending, c) {
                            Some(m) => {
                                lemma_find_pending_some(pending, c);
                                if k < m {
                                    assert(p2[k] == pending[k]);
                                } else {
                                    assert(p2[k] == pending[k + 1]);
                                }
                            },
                            None => {
                                assert(p2[k] == pending[k]);
                            },
                        }
                    } else {
                        assert(p2[k] == pending[k]);
                    }
                },
                None => {
                    assert(p2[k] == pending[k]);
                },
            }
        }
    }
}

proof fn lemma_run_keeps_order(pending: Seq<PendingView>, e: Seq<EventView>, inputs: Seq<LineInput>)
    requires
        pending_announced(pending, e),
        finishes_follow_starts(e),
        no_build_boundary(e),
    ensures
        finishes_follow_starts(e + run_lines(pending, inputs).0),
        no_build_boundary(e + run_lines(pending, inputs).0),
    decreases inputs.len(),
{
    if inputs.len() == 0 {
        assert(e + run_lines(pending, inputs).0 =~= e);
    } else {
        let (p2, evs, fin) = line_step(pending, inputs[0].0, inputs[0].1, inputs[0].2, inputs[0].3);
        lemma_step_keeps_order(pending, e, inputs[0].0, inputs[0].1, inputs[0].2, inputs[0].3);
        if fin is None {
            let rest = run_lines(p2, inputs.drop_first()).0;
            lemma_run_keeps_order(p2, e + evs, inputs.drop_first());
            assert(e + (evs + rest) =~= (e + evs) + rest);
        }
    }
}

/// The order of a build's event stream: it opens with `BuildStarted`, ends
/// with `BuildFinished`, holds no other build boundary, and every
/// `CompilationFinished` comes after the `CompilationStarted` of the same
/// crate with the same start time (emitted when the crate's `Compiling`
/// line was read, or directly before the finish when there was none).
pub proof fn law_event_stream_order(
    config: ParserConfig,
    start_at: Seq<char>,
    inputs: Seq<LineInput>,
    total: nat,
    end_at: Seq<char>,
)
    ensures
        ({
            let s = event_stream(config, start_at, inputs, total, end_at);
            &&& s.len() >= 2
            &&& s[0] is BuildStarted
            &&& s.last() is BuildFinished
            &&& forall|i: int| 0 < i < s.len() - 1 ==> {
                &&& !(#[trigger] s[i] is BuildStarted)
                &&& !(s[i] is BuildFinished)
                &&& started_earlier(s, i)
            }
        }),
{
    let s = event_stream(config, start_at, inputs, total, end_at);
    let body = run_lines(Seq::empty(), inputs).0;
    let empty = Seq::<EventView>::empty();
    lemma_run_keeps_order(Seq::empty(), empty, inputs);
    assert(empty + body =~= body);
    assert forall|i: int| 0 < i < s.len() - 1 implies {
        &&& !(#[trigger] s[i] is BuildStarted)
        &&& !(s[i] is BuildFinished)
        &&& started_earlier(s, i)
    } by {
        assert(s[i] == body[i - 1]);
        assert(started_earlier(body, i - 1));
        assert(no_build_boundary(body));
        match s[i] {
            EventView::CompilationFinished { crate_id, started_at, .. } => {
                let t = body.take(i - 1);
                assert(announced(t, crate_id, started_at));
                let j = choose|j: int| 0 <= j < t.len() && #[trigger] is_start_of(t[j], crate_id, started_at);
                assert(s.take(i)[j + 1] == t[j]);
            },
            _ => {},
        }
    }
}

/// A JSON line whose `reason` is none of `compiler-artifact`,
/// `compiler-message` and `build-finished` (or that has none) produces no
/// event and leaves the parser as it was.
pub proof fn law_unknown_reason_ignored(
    pending: Seq<PendingView>,
    line: Seq<char>,
    j: Json,
    now: nat,
    now_at: Seq<char>,
)
    requires
        opt_str(json_get(j, "reason"@)) != Some("compiler-artifact"@),
        opt_str(json_get(j, "reason"@)) != Some("compiler-message"@),
        opt_str(json_get(j, "reason"@)) != Some("build-finished"@),
    ensures
        line_step(pending, line, Some(j), now, now_at) == (pending, Seq::<EventView>::empty(), None::<bool>),
{
}

/// A line that is not JSON emits an event only when it is a `Compiling`
/// progress line: then the start of that crate's compilation (its kind is
/// not known yet), which is also recorded as pending.
pub proof fn law_text_line_starts_only_progress(pending: Seq<PendingView>, line: Seq<char>, now: nat, now_at: Seq<char>)
    ensures
        line_step(pending, line, None, now, now_at).1 == (match compiling_crate(line) {
            Some(c) => seq![EventView::CompilationStarted { crate_id: c, kind: CrateKind::Unknown, at: now_at }],
            None => Seq::<EventView>::empty(),
        }),
        line_step(pending, line, None, now, now_at).2 is None,
{
}

} // verus!
