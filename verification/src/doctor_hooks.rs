//! The parts of the health report on the hooks and the tools.

use vstd::prelude::*;
use crate::agent::Agent;
use crate::doctor_checks::Severity;
use crate::doctor_data::{list, listed_upto};
use crate::doctor_report::{blank, Report, ReportView};
use crate::json::{opt_text, views, Json, JsonView};
use crate::mcp::TOOL_NAMES;
use crate::paths::{join_path, joined_path};
use crate::scan::{
    find, lines, lines_of, occurs_at, occurs_in, opt_string, starts_with, trim, trimmed,
};
use crate::text::{
    cat2, cat3, cat5, chars_of, is_white, repeat, repeated, same, text_between, texts, texts_push,
    white,
};

verus! {

/// The directory that plugins are installed in.
pub open spec fn plugins_dir(home: Seq<char>, a: Agent) -> Seq<char> {
    joined_path(home, a.dot("/plugins"@))
}

/// Those of the first `n` names that the plugin's directories have, as paths.
pub open spec fn own_dirs_upto(dir: Seq<char>, names: Seq<Seq<char>>, n: nat) -> Seq<Seq<char>>
    decreases n,
{
    if n == 0 {
        Seq::empty()
    } else if "clawket"@.is_prefix_of(names[n - 1]) {
        own_dirs_upto(dir, names, (n - 1) as nat).push(joined_path(dir, names[n - 1]))
    } else {
        own_dirs_upto(dir, names, (n - 1) as nat)
    }
}

/// The directories of the plugin: those in `dir` whose name begins with the
/// name of the program.
pub fn plugin_entries(dir: &str, names: &Vec<String>) -> (r: Vec<String>)
    ensures
        texts(r@) == own_dirs_upto(dir@, texts(names@), names@.len()),
{
    let mut out: Vec<String> = Vec::new();
    let mut i: usize = 0;
    assert(texts(out@) =~= Seq::empty());
    while i < names.len()
        invariant
            i <= names@.len(),
            texts(out@) == own_dirs_upto(dir@, texts(names@), i as nat),
        decreases names@.len() - i,
    {
        assert(texts(names@)[i as int] == names@[i as int]@);
        if starts_with(names[i].as_str(), "clawket") {
            let p = join_path(dir, names[i].as_str());
            proof {
                texts_push(out@, p);
            }
            out.push(p);
        }
        i = i + 1;
    }
    out
}

/// In each of the first `n` directories: the program's own directory, and the
/// directory itself.
pub open spec fn walked_upto(ancestors: Seq<Seq<char>>, n: nat) -> Seq<Seq<char>>
    decreases n,
{
    if n == 0 {
        Seq::empty()
    } else {
        walked_upto(ancestors, (n - 1) as nat).push(
            joined_path(ancestors[n - 1], "clawket"@),
        ).push(ancestors[n - 1])
    }
}

/// At most six.
pub open spec fn six_at_most(n: nat) -> nat {
    if n < 6 {
        n
    } else {
        6
    }
}

/// The places where the plugin may lie.
pub open spec fn plugin_roots(
    home: Option<Seq<char>>,
    names: Seq<Seq<char>>,
    ancestors: Seq<Seq<char>>,
    a: Agent,
) -> Seq<Seq<char>> {
    (match home {
        Some(h) => seq![
            joined_path(plugins_dir(h, a), "clawket"@),
            joined_path(plugins_dir(h, a), "cache/clawket"@),
        ] + own_dirs_upto(plugins_dir(h, a), names, names.len()),
        None => Seq::empty(),
    }) + walked_upto(ancestors, six_at_most(ancestors.len()))
}

/// The places where the plugin may lie, from the first to try to the last:
/// where plugins are installed, and from the current directory up to five
/// directories above it. `names` are the names in the directory that plugins
/// are installed in, `ancestors` the current directory and those above it.
pub fn plugin_root_candidates(
    home: Option<&str>,
    names: &Vec<String>,
    ancestors: &Vec<String>,
    a: &Agent,
) -> (r: Vec<String>)
    ensures
        texts(r@) == plugin_roots(opt_text(home), texts(names@), texts(ancestors@), *a),
{
    let mut out: Vec<String> = Vec::new();
    let ghost mut first: Seq<Seq<char>> = Seq::empty();
    if let Some(h) = home {
        let rel = a.hidden("/plugins");
        let dir = join_path(h, rel.as_str());
        out.push(join_path(dir.as_str(), "clawket"));
        out.push(join_path(dir.as_str(), "cache/clawket"));
        let mut own = plugin_entries(dir.as_str(), names);
        let ghost before = texts(out@);
        let ghost tail = texts(own@);
        out.append(&mut own);
        proof {
            assert(texts(out@) =~= before + tail);
            assert(before =~= seq![
                joined_path(plugins_dir(h@, *a), "clawket"@),
                joined_path(plugins_dir(h@, *a), "cache/clawket"@),
            ]);
        }
    }
    proof {
        first = texts(out@);
        assert(home is None ==> first =~= Seq::empty());
        assert(first + walked_upto(texts(ancestors@), 0) =~= first);
    }
    let mut i: usize = 0;
    while i < 6 && i < ancestors.len()
        invariant
            i <= 6,
            i <= ancestors@.len(),
            texts(out@) == first + walked_upto(texts(ancestors@), i as nat),
        decreases ancestors@.len() - i,
    {
        assert(texts(ancestors@)[i as int] == ancestors@[i as int]@);
        let dir = ancestors[i].as_str();
        let inner = join_path(dir, "clawket");
        let itself = dir.to_owned();
        proof {
            texts_push(out@, inner);
            texts_push(out@.push(inner), itself);
        }
        out.push(inner);
        out.push(itself);
        assert(texts(out@) =~= first + walked_upto(texts(ancestors@), (i + 1) as nat));
        i = i + 1;
    }
    out
}

/// A path in each of the directories.
pub open spec fn under(roots: Seq<Seq<char>>, rel: Seq<char>) -> Seq<Seq<char>> {
    roots.map(|i: int, d: Seq<char>| joined_path(d, rel))
}

/// A path in each of the directories.
pub fn under_roots(roots: &Vec<String>, rel: &str) -> (r: Vec<String>)
    ensures
        texts(r@) == under(texts(roots@), rel@),
{
    let mut out: Vec<String> = Vec::new();
    let mut i: usize = 0;
    while i < roots.len()
        invariant
            i <= roots@.len(),
            out@.len() == i,
            forall|k: int| 0 <= k < i ==> (#[trigger] out@[k])@ == joined_path(roots@[k]@, rel@),
        decreases roots@.len() - i,
    {
        out.push(join_path(roots[i].as_str(), rel));
        i = i + 1;
    }
    assert(texts(out@) =~= under(texts(roots@), rel@));
    out
}

/// The first place, from the `i`-th on, that is there.
pub open spec fn present_from(
    places: Seq<Seq<char>>,
    there: Seq<bool>,
    i: int,
) -> Option<Seq<char>>
    decreases places.len() - i,
{
    if i < 0 || i >= places.len() {
        None
    } else if there[i] {
        Some(places[i])
    } else {
        present_from(places, there, i + 1)
    }
}

/// The first place that is there. `there` says of each place whether it is.
pub fn first_present(places: &Vec<String>, there: &Vec<bool>) -> (r: Option<String>)
    requires
        there@.len() == places@.len(),
    ensures
        opt_string(r) == present_from(texts(places@), there@, 0),
{
    let ghost all = texts(places@);
    let mut i: usize = 0;
    while i < places.len()
        invariant
            i <= places@.len(),
            there@.len() == places@.len(),
            all == texts(places@),
            present_from(all, there@, 0) == present_from(all, there@, i as int),
        decreases places@.len() - i,
    {
        assert(all[i as int] == places@[i as int]@);
        if there[i] {
            return Some(places[i].clone());
        }
        i = i + 1;
    }
    None
}

/// Where the language files lie: the first place with the English one.
/// `there` says of each place whether it has that.
pub fn find_locales_root(roots: &Vec<String>, there: &Vec<bool>) -> (r: Option<String>)
    requires
        there@.len() == roots@.len(),
    ensures
        opt_string(r) == present_from(under(texts(roots@), "locales"@), there@, 0),
{
    let places = under_roots(roots, "locales");
    assert(texts(places@).len() == places@.len());
    first_present(&places, there)
}

/// The places where the handlers of the hooks may lie.
pub fn hook_adapter_roots(roots: &Vec<String>, a: &Agent) -> (r: Vec<String>)
    ensures
        texts(r@) == under(texts(roots@), "adapters/"@ + a.id@),
{
    let rel = cat2("adapters/", a.id.as_str());
    under_roots(roots, rel.as_str())
}

/// The files with the handlers of the hooks.
pub const HOOK_FILES: [&'static str; 7] = [
    "session-start.cjs",
    "user-prompt-submit.cjs",
    "pre-tool-use.cjs",
    "post-tool-use.cjs",
    "plan-sync.cjs",
    "subagent-start.cjs",
    "subagent-stop.cjs",
];

/// The events that hooks can be set on.
pub const HOOK_EVENTS: [&'static str; 7] = [
    "SessionStart",
    "UserPromptSubmit",
    "PreToolUse",
    "PostToolUse",
    "ExitPlanMode",
    "SubagentStart",
    "SubagentStop",
];

/// A character that ends a word of a command.
pub open spec fn ends_word(c: char) -> bool {
    is_white(c) || c == '"'
}

/// Where the word starts that ends at `end`.
pub open spec fn word_start(s: Seq<char>, end: int) -> int
    decreases end,
{
    if end <= 0 || ends_word(s[end - 1]) {
        end
    } else {
        word_start(s, end - 1)
    }
}

/// The first position at which `p` stands in `s`.
pub open spec fn first_at(s: Seq<char>, p: Seq<char>) -> int {
    choose|i: int| occurs_at(s, p, i) && forall|j: int| 0 <= j < i ==> !occurs_at(s, p, j)
}

/// The script that a command runs: the word up to the first `.cjs`, and the
/// whole command where there is none.
pub open spec fn script_of(cmd: Seq<char>) -> Seq<char> {
    if occurs_in(cmd, ".cjs"@) {
        let end = first_at(cmd, ".cjs"@) + 4;
        cmd.subrange(word_start(cmd, end), end)
    } else {
        cmd
    }
}

fn script(cmd: &str) -> (r: String)
    ensures
        r@ == script_of(cmd@),
{
    match find(cmd, ".cjs") {
        None => cmd.to_owned(),
        Some(i) => {
            let v = chars_of(cmd);
            proof {
                reveal_strlit(".cjs");
                let f = first_at(cmd@, ".cjs"@);
                assert(occurs_at(cmd@, ".cjs"@, i as int));
                assert(f == i);
                assert(i + 4 <= v.len());
            }
            let end: usize = i + 4;
            let mut start: usize = end;
            while start > 0 && !(white(v[start - 1]) || v[start - 1] == '"')
                invariant
                    start <= end <= v@.len(),
                    word_start(v@, end as int) == word_start(v@, start as int),
                decreases start,
            {
                start = start - 1;
            }
            text_between(&v, start, end)
        },
    }
}

/// The first command among the handlers from the `i`-th on.
pub open spec fn first_command(handlers: Seq<JsonView>, i: int) -> Option<Seq<char>>
    decreases handlers.len() - i,
{
    if i < 0 || i >= handlers.len() {
        None
    } else {
        match handlers[i].str_at("command"@) {
            Some(c) => Some(c),
            None => first_command(handlers, i + 1),
        }
    }
}

/// The first command in the matchers from the `i`-th on. A matcher without a
/// list of handlers ends the search.
pub open spec fn matched_command(matchers: Seq<JsonView>, i: int) -> Option<Seq<char>>
    decreases matchers.len() - i,
{
    if i < 0 || i >= matchers.len() {
        None
    } else {
        match matchers[i].array_at("hooks"@) {
            None => None,
            Some(handlers) => match first_command(handlers, 0) {
                Some(c) => Some(c),
                None => matched_command(matchers, i + 1),
            },
        }
    }
}

/// The script that handles an event.
pub open spec fn handler_of(manifest: JsonView, event: Seq<char>) -> Option<Seq<char>> {
    match manifest.get("hooks"@) {
        None => None,
        Some(h) => match h.array_at(event) {
            None => None,
            Some(matchers) => match matched_command(matchers, 0) {
                Some(c) => Some(script_of(c)),
                None => None,
            },
        },
    }
}

/// The script that handles an event.
pub fn extract_handler_for_event(manifest: &Json, event: &str) -> (r: Option<String>)
    ensures
        opt_string(r) == handler_of(manifest@, event@),
{
    let hooks = match manifest.get("hooks") {
        Some(h) => h,
        None => return None,
    };
    let matchers = match hooks.array_at(event) {
        Some(a) => a,
        None => return None,
    };
    let ghost all = views(matchers@);
    let mut i: usize = 0;
    while i < matchers.len()
        invariant
            i <= matchers@.len(),
            all == views(matchers@),
            handler_of(manifest@, event@) == match matched_command(all, i as int) {
                Some(c) => Some(script_of(c)),
                None => None,
            },
        decreases matchers@.len() - i,
    {
        assert(all[i as int] == matchers@[i as int]@);
        let handlers = match matchers[i].array_at("hooks") {
            Some(a) => a,
            None => return None,
        };
        let ghost inner = views(handlers@);
        let mut k: usize = 0;
        while k < handlers.len()
            invariant
                k <= handlers@.len(),
                inner == views(handlers@),
                i < matchers@.len(),
                all == views(matchers@),
                all[i as int].array_at("hooks"@) == Some(inner),
                first_command(inner, 0) == first_command(inner, k as int),
                handler_of(manifest@, event@) == match matched_command(all, i as int) {
                    Some(c) => Some(script_of(c)),
                    None => None,
                },
            decreases handlers@.len() - k,
        {
            assert(inner[k as int] == handlers@[k as int]@);
            if let Some(c) = handlers[k].str_at("command") {
                return Some(script(c));
            }
            k = k + 1;
        }
        i = i + 1;
    }
    None
}

/// The trimmed lines that are not empty, among the first `n`.
pub open spec fn entries_upto(all: Seq<Seq<char>>, n: nat) -> Seq<Seq<char>>
    decreases n,
{
    if n == 0 {
        Seq::empty()
    } else if trimmed(all[n - 1]).len() == 0 {
        entries_upto(all, (n - 1) as nat)
    } else {
        entries_upto(all, (n - 1) as nat).push(trimmed(all[n - 1]))
    }
}

/// The entries of a log with one entry to a line.
pub fn log_entries(raw: &str) -> (r: Vec<String>)
    ensures
        texts(r@) == entries_upto(lines_of(raw@), lines_of(raw@).len()),
{
    let all = lines(raw);
    let mut out: Vec<String> = Vec::new();
    let mut i: usize = 0;
    assert(texts(out@) =~= Seq::empty());
    while i < all.len()
        invariant
            i <= all@.len(),
            texts(all@) == lines_of(raw@),
            texts(out@) == entries_upto(lines_of(raw@), i as nat),
        decreases all@.len() - i,
    {
        assert(texts(all@)[i as int] == all@[i as int]@);
        let t = trim(all[i].as_str());
        let none = same(t.as_str(), "");
        proof {
            reveal_strlit("");
            if t@.len() == 0 {
                assert(t@ =~= ""@);
            }
        }
        if !none {
            proof {
                texts_push(out@, t);
            }
            out.push(t);
        }
        i = i + 1;
    }
    assert(texts(all@).len() == all@.len());
    out
}

/// When the event fired last, according to the first `n` entries of the log:
/// the entries are in the order of time.
pub open spec fn fired_upto(log: Seq<JsonView>, event: Seq<char>, n: nat) -> Option<Seq<char>>
    decreases n,
{
    if n == 0 {
        None
    } else if log[n - 1].str_at("event"@) == Some(event) && log[n - 1].str_at("at"@) is Some {
        log[n - 1].str_at("at"@)
    } else {
        fired_upto(log, event, (n - 1) as nat)
    }
}

/// When the event fired last, according to the log.
pub fn last_fired<'a>(log: &'a Vec<Json>, event: &str) -> (r: Option<&'a str>)
    ensures
        opt_text(r) == fired_upto(views(log@), event@, log@.len()),
{
    let mut i: usize = log.len();
    while i > 0
        invariant
            i <= log@.len(),
            fired_upto(views(log@), event@, log@.len()) == fired_upto(
                views(log@),
                event@,
                i as nat,
            ),
        decreases i,
    {
        assert(views(log@)[i - 1] == log@[i - 1]@);
        if let Some(e) = log[i - 1].str_at("event") {
            if same(e, event) {
                if let Some(t) = log[i - 1].str_at("at") {
                    return Some(t);
                }
            }
        }
        i = i - 1;
    }
    None
}

/// What is found of the hooks.
pub struct HooksFacts {
    /// The places where the handlers may lie.
    pub candidates: Vec<String>,
    /// The first of them with a handler in it.
    pub root: Option<String>,
    /// Which of the files are there.
    pub present: Vec<bool>,
    /// What says which event runs what.
    pub manifest: Option<Json>,
    /// What fired.
    pub log: Vec<Json>,
}

/// The first `n` files, each with whether it is there.
pub open spec fn files_upto(r: ReportView, present: Seq<bool>, n: nat) -> ReportView
    decreases n,
{
    if n == 0 {
        r
    } else if present[n - 1] {
        files_upto(r, present, (n - 1) as nat).show(Severity::Good, HOOK_FILES[n - 1]@)
    } else {
        files_upto(r, present, (n - 1) as nat).show(
            Severity::Error,
            HOOK_FILES[n - 1]@ + " (missing)"@,
        )
    }
}

/// The text, filled up with spaces.
pub open spec fn padded(s: Seq<char>, width: nat) -> Seq<char> {
    if s.len() < width {
        s + repeated(" "@, (width - s.len()) as nat)
    } else {
        s
    }
}

fn pad(s: &str, width: usize) -> (r: String)
    ensures
        r@ == padded(s@, width as nat),
{
    let n = chars_of(s).len();
    if n < width {
        let fill = repeat(" ", width - n);
        cat2(s, fill.as_str())
    } else {
        s.to_owned()
    }
}

/// A text, or a dash.
pub open spec fn or_dash(o: Option<Seq<char>>) -> Seq<char> {
    match o {
        Some(s) => s,
        None => "—"@,
    }
}

/// The handler of an event, where the manifest is known.
pub open spec fn known_handler(manifest: Option<Json>, event: Seq<char>) -> Option<Seq<char>> {
    match manifest {
        Some(m) => handler_of(m@, event),
        None => None,
    }
}

/// The first `n` events, each with its handler and when it fired last.
pub open spec fn events_upto(
    r: ReportView,
    manifest: Option<Json>,
    log: Seq<JsonView>,
    n: nat,
) -> ReportView
    decreases n,
{
    if n == 0 {
        r
    } else {
        events_upto(r, manifest, log, (n - 1) as nat).line(
            "    - "@ + padded(HOOK_EVENTS[n - 1]@, 18) + " handler="@ + or_dash(
                known_handler(manifest, HOOK_EVENTS[n - 1]@),
            ) + "  last_fired="@ + or_dash(fired_upto(log, HOOK_EVENTS[n - 1]@, log.len())),
        )
    }
}

/// Whether every one of the files is there.
pub open spec fn all_there(present: Seq<bool>) -> bool {
    forall|i: int| 0 <= i < 7 ==> present[i]
}

/// What is said of the hooks.
pub open spec fn hooks_view(f: HooksFacts, a: Agent) -> ReportView {
    match f.root {
        None => listed_upto(
            blank().show(
                Severity::Warn,
                "adapters/"@ + a.id@ + "/ not found in any candidate location:"@,
            ),
            texts(f.candidates@),
            f.candidates@.len(),
        ).count(Severity::Warn),
        Some(root) => events_upto(
            files_upto(blank().line("  adapter root: "@ + root@), f.present@, 7).count(
                if all_there(f.present@) {
                    Severity::Good
                } else {
                    Severity::Error
                },
            ).line(""@).line("  events:"@),
            f.manifest,
            views(f.log@),
            7,
        ),
    }
}

/// What is said of the hooks.
pub fn hooks(f: &HooksFacts, a: &Agent) -> (r: Report)
    requires
        f.present@.len() == 7,
    ensures
        r@ == hooks_view(*f, *a),
{
    let root = match &f.root {
        Some(p) => p,
        None => {
            let s = cat3(
                "adapters/",
                a.id.as_str(),
                "/ not found in any candidate location:",
            );
            let r = Report::new().show(Severity::Warn, s.as_str());
            return list(r, &f.candidates).count(Severity::Warn);
        },
    };
    let mut r = Report::new().line(cat2("  adapter root: ", root.as_str()));
    let ghost start = r@;
    let mut complete = true;
    let mut i: usize = 0;
    while i < 7
        invariant
            i <= 7,
            f.present@.len() == 7,
            r@ == files_upto(start, f.present@, i as nat),
            complete <==> forall|k: int| 0 <= k < i ==> f.present@[k],
        decreases 7 - i,
    {
        let name: &'static str = HOOK_FILES[i];
        if f.present[i] {
            r = r.show(Severity::Good, name);
        } else {
            let s = cat2(name, " (missing)");
            r = r.show(Severity::Error, s.as_str());
            complete = false;
            assert(!f.present@[i as int]);
        }
        i = i + 1;
    }
    let sev = if complete {
        Severity::Good
    } else {
        Severity::Error
    };
    assert(complete == all_there(f.present@));
    r = r.count(sev).say("").say("  events:");
    let ghost start2 = r@;
    let mut k: usize = 0;
    while k < 7
        invariant
            k <= 7,
            r@ == events_upto(start2, f.manifest, views(f.log@), k as nat),
        decreases 7 - k,
    {
        let event: &'static str = HOOK_EVENTS[k];
        let handler = match &f.manifest {
            Some(m) => extract_handler_for_event(m, event),
            None => None,
        };
        let handler_text = match &handler {
            Some(h) => h.as_str(),
            None => "—",
        };
        let ts = match last_fired(&f.log, event) {
            Some(t) => t,
            None => "—",
        };
        let name = pad(event, 18);
        let s = cat5("    - ", name.as_str(), " handler=", handler_text, "  last_fired=");
        r = r.line(cat2(s.as_str(), ts));
        k = k + 1;
    }
    r
}

/// The first `n` tools, one to a line.
pub open spec fn tools_upto(r: ReportView, n: nat) -> ReportView
    decreases n,
{
    if n == 0 {
        r
    } else {
        tools_upto(r, (n - 1) as nat).line("    - "@ + TOOL_NAMES[n - 1]@)
    }
}

/// What is said of the tools.
pub open spec fn mcp_view(exe: Result<String, String>) -> ReportView {
    tools_upto(
        (match exe {
            Ok(p) => blank().note(Severity::Good, "clawket mcp launcher: "@ + p@),
            Err(e) => blank().note(
                Severity::Warn,
                "cannot resolve current executable for `clawket mcp` ("@ + e@ + ")"@,
            ),
        }).line("  exposed tools (read-only RAG):"@),
        5,
    )
}

/// What is said of the tools.
pub fn mcp(exe: &Result<String, String>) -> (r: Report)
    ensures
        r@ == mcp_view(*exe),
{
    let mut r = match exe {
        Ok(p) => {
            let s = cat2("clawket mcp launcher: ", p.as_str());
            Report::new().note(Severity::Good, s.as_str())
        },
        Err(e) => {
            let s = cat3(
                "cannot resolve current executable for `clawket mcp` (",
                e.as_str(),
                ")",
            );
            Report::new().note(Severity::Warn, s.as_str())
        },
    };
    r = r.say("  exposed tools (read-only RAG):");
    let ghost start = r@;
    let mut i: usize = 0;
    while i < 5
        invariant
            i <= 5,
            r@ == tools_upto(start, i as nat),
        decreases 5 - i,
    {
        let name: &'static str = TOOL_NAMES[i];
        r = r.line(cat2("    - ", name));
        i = i + 1;
    }
    r
}

} // verus!
