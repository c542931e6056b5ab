//! The parts of the health report on the program's own places and its daemon.

use vstd::prelude::*;
use crate::agent::Agent;
use crate::doctor_checks::Severity;
use crate::doctor_report::{blank, Report, ReportView};
use crate::json::{Json, JsonView};
use crate::paths::{
    cache_dir, cache_dir_of, config_dir, config_dir_of, data_dir, data_dir_of, is_in_plugin_dir,
    join_path, joined_path, path_overlaps_plugin_dir, pid_path, socket_path, socket_path_of,
    state_dir, state_dir_of, Env,
};
use crate::scan::{opt_string, split, split_on, trim, trimmed};
use crate::text::{cat2, cat3, cat4, cat5, dec, dec_int, decimal, decimal_int, texts};

verus! {

/// The variables that change where the program looks.
pub const OVERRIDES: [&'static str; 8] = [
    "CLAWKET_DAEMON_BIN",
    "CLAWKET_BIN",
    "CLAWKET_SOCKET",
    "CLAWKET_DATA_DIR",
    "CLAWKET_CACHE_DIR",
    "CLAWKET_CONFIG_DIR",
    "CLAWKET_STATE_DIR",
    "CLAWKET_DB",
];

/// A line on a variable.
pub open spec fn variable_line(name: Seq<char>, value: Option<Seq<char>>) -> Seq<char> {
    match value {
        Some(v) => "  "@ + name + " = "@ + v,
        None => "  "@ + name + " = (unset)"@,
    }
}

/// A line on a variable.
pub fn variable(name: &str, value: &Option<String>) -> (r: String)
    ensures
        r@ == variable_line(name@, opt_string(*value)),
{
    match value {
        Some(v) => cat4("  ", name, " = ", v.as_str()),
        None => cat3("  ", name, " = (unset)"),
    }
}

/// What is said of the first `n` variables.
pub open spec fn overrides_upto(values: Seq<Option<String>>, n: nat) -> ReportView
    decreases n,
{
    if n == 0 {
        blank()
    } else {
        overrides_upto(values, (n - 1) as nat).line(
            variable_line(OVERRIDES[n - 1]@, opt_string(values[n - 1])),
        )
    }
}

/// What is said of the variables: the value of each, in their order.
pub fn overrides(values: &Vec<Option<String>>) -> (r: Report)
    requires
        values@.len() == 8,
    ensures
        r@ == overrides_upto(values@, 8),
{
    let mut r = Report::new();
    let mut i: usize = 0;
    while i < 8
        invariant
            i <= 8,
            values@.len() == 8,
            r@ == overrides_upto(values@, i as nat),
        decreases 8 - i,
    {
        let name: &'static str = OVERRIDES[i];
        r = r.line(variable(name, &values[i]));
        i = i + 1;
    }
    r
}

/// Where everything lies.
pub struct Layout {
    pub data: String,
    pub cache: String,
    pub config: String,
    pub state: String,
    pub db: String,
    pub socket: String,
    pub pid: String,
}

/// Whether all places are known.
pub open spec fn places_known(env: Env) -> bool {
    &&& data_dir_of(env) is Some
    &&& cache_dir_of(env) is Some
    &&& config_dir_of(env) is Some
    &&& state_dir_of(env) is Some
}

/// Where everything lies.
pub fn layout(env: &Env) -> (r: Layout)
    requires
        places_known(*env),
    ensures
        Some(r.data@) == data_dir_of(*env),
        Some(r.cache@) == cache_dir_of(*env),
        Some(r.config@) == config_dir_of(*env),
        Some(r.state@) == state_dir_of(*env),
        r.db@ == joined_path(r.data@, "db.sqlite"@),
        Some(r.socket@) == socket_path_of(*env),
        r.pid@ == joined_path(r.cache@, "clawketd.pid"@),
{
    let data = data_dir(env);
    let db = join_path(data.as_str(), "db.sqlite");
    Layout {
        data,
        cache: cache_dir(env),
        config: config_dir(env),
        state: state_dir(env),
        db,
        socket: socket_path(env),
        pid: pid_path(env),
    }
}

/// Which of the places are there.
pub struct Presence {
    pub data: bool,
    pub cache: bool,
    pub config: bool,
    pub state: bool,
    pub db: bool,
    pub socket: bool,
    pub pid: bool,
}

/// A line on a place.
pub open spec fn place_line(label: Seq<char>, path: Seq<char>, there: bool) -> Seq<char> {
    "  "@ + label + ": "@ + path + if there {
        " (exists)"@
    } else {
        " (missing)"@
    }
}

fn place(label: &str, path: &str, there: bool) -> (r: String)
    ensures
        r@ == place_line(label@, path@, there),
{
    cat5(
        "  ",
        label,
        ": ",
        path,
        if there {
            " (exists)"
        } else {
            " (missing)"
        },
    )
}

/// What is said of the places.
pub open spec fn places_view(l: Layout, p: Presence) -> ReportView {
    blank().line(place_line("data dir"@, l.data@, p.data)).line(
        place_line("cache dir"@, l.cache@, p.cache),
    ).line(place_line("config dir"@, l.config@, p.config)).line(
        place_line("state dir"@, l.state@, p.state),
    ).line(place_line("db"@, l.db@, p.db)).line(
        place_line("socket"@, l.socket@, p.socket),
    ).line(place_line("pid file"@, l.pid@, p.pid))
}

/// What is said of the places: each with whether it is there.
pub fn places(l: &Layout, p: &Presence) -> (r: Report)
    ensures
        r@ == places_view(*l, *p),
{
    Report::new().line(place("data dir", l.data.as_str(), p.data)).line(
        place("cache dir", l.cache.as_str(), p.cache),
    ).line(place("config dir", l.config.as_str(), p.config)).line(
        place("state dir", l.state.as_str(), p.state),
    ).line(place("db", l.db.as_str(), p.db)).line(
        place("socket", l.socket.as_str(), p.socket),
    ).line(place("pid file", l.pid.as_str(), p.pid))
}

/// The places on the search path where a program may lie.
pub open spec fn search_places(path: Seq<char>, name: Seq<char>) -> Seq<Seq<char>> {
    split_on(path, ':').map(|i: int, d: Seq<char>| joined_path(d, name))
}

/// The places on the search path where a program may lie, from the first to
/// try to the last.
pub fn which(name: &str, path: &str) -> (r: Vec<String>)
    ensures
        texts(r@) == search_places(path@, name@),
{
    let dirs = split(path, ':');
    let ghost all = split_on(path@, ':');
    let mut out: Vec<String> = Vec::new();
    let mut i: usize = 0;
    while i < dirs.len()
        invariant
            i <= dirs@.len(),
            texts(dirs@) == all,
            out@.len() == i,
            forall|k: int| 0 <= k < i ==> (#[trigger] out@[k])@ == joined_path(all[k], name@),
        decreases dirs@.len() - i,
    {
        assert(all[i as int] == dirs@[i as int]@);
        out.push(join_path(dirs[i].as_str(), name));
        i = i + 1;
    }
    assert(all.len() == dirs@.len());
    assert(texts(out@) =~= search_places(path@, name@));
    out
}

/// Which program is run as the daemon: the one that is set, else the first
/// candidate that is there, else the first on the search path that is there.
/// `set_exists` says whether the one that is set is there; `candidate` and
/// `on_path` are what was found there.
pub fn resolve_daemon_bin(
    set: Option<&str>,
    set_exists: bool,
    candidate: Option<(&str, &str)>,
    on_path: Option<&str>,
) -> (r: Option<(String, String)>)
    ensures
        r is Some <==> (set is Some && set_exists) || candidate is Some || on_path is Some,
        set is Some && set_exists ==> (r->0).0@ == set->0@ && (r->0).1@ == "CLAWKET_DAEMON_BIN"@,
        !(set is Some && set_exists) && candidate is Some ==> (r->0).0@ == (candidate->0).0@ && (
        r->0).1@ == (candidate->0).1@,
        !(set is Some && set_exists) && candidate is None && on_path is Some ==> (r->0).0@
            == on_path->0@ && (r->0).1@ == "PATH"@,
{
    if let Some(p) = set {
        if set_exists {
            return Some((p.to_owned(), "CLAWKET_DAEMON_BIN".to_owned()));
        }
    }
    if let Some(c) = candidate {
        return Some((c.0.to_owned(), c.1.to_owned()));
    }
    match on_path {
        Some(p) => Some((p.to_owned(), "PATH".to_owned())),
        None => None,
    }
}

/// What is found of the daemon.
pub struct DaemonFacts {
    /// Its program, and how that was found.
    pub binary: Option<(String, String)>,
    /// What it answers on its health, or why it does not.
    pub health: Result<Json, String>,
    /// What the file with its port holds.
    pub port: Option<String>,
}

/// A number of milliseconds in whole seconds, towards zero.
pub open spec fn whole_seconds(ms: int) -> int {
    if ms >= 0 {
        ms / 1000
    } else {
        -((-ms) / 1000)
    }
}

fn seconds(ms: i64) -> (r: i64)
    ensures
        r == whole_seconds(ms as int),
{
    if ms >= 0 {
        ms / 1000
    } else {
        let n: i128 = -(ms as i128);
        (-(n / 1000)) as i64
    }
}

/// What is said of the daemon's program.
pub open spec fn binary_line(binary: Option<(String, String)>) -> Seq<char> {
    match binary {
        Some(b) => "  binary: "@ + b.0@ + " ("@ + b.1@ + ")"@,
        None => "  binary: not found — set CLAWKET_DAEMON_BIN or install via plugin"@,
    }
}

/// The report, with a line on the value where there is one.
pub open spec fn with_value(r: ReportView, label: Seq<char>, value: Option<Seq<char>>, after: Seq<char>) -> ReportView {
    match value {
        Some(v) => r.line(label + v + after),
        None => r,
    }
}

/// An integer in decimal, where there is one.
pub open spec fn opt_dec(n: Option<int>) -> Option<Seq<char>> {
    match n {
        Some(i) => Some(dec_int(i)),
        None => None,
    }
}

/// What is said of a daemon that answers.
pub open spec fn healthy_view(r: ReportView, h: JsonView, socket: Seq<char>, port: Option<Seq<char>>) -> ReportView {
    let up = match h.i64_at("uptime_ms"@) {
        Some(ms) => Some(whole_seconds(ms)),
        None => None,
    };
    let r1 = with_value(
        r.show(Severity::Good, "Unix socket /health: OK"@),
        "  uptime: "@,
        opt_dec(up),
        "s"@,
    );
    let r2 = with_value(r1, "  pid: "@, opt_dec(h.i64_at("pid"@)), ""@);
    let r3 = with_value(r2, "  version: "@, h.str_at("version"@), ""@).line("  socket: "@ + socket);
    let p = match port {
        Some(s) => Some(trimmed(s)),
        None => None,
    };
    with_value(r3, "  port: "@, p, ""@).count(Severity::Good)
}

/// What is said of the daemon. That it does not answer is an error only where
/// its program is there: else it is not installed.
pub open spec fn daemon_view(f: DaemonFacts, socket: Seq<char>) -> ReportView {
    let r = blank().line(binary_line(f.binary));
    match f.health {
        Ok(h) => healthy_view(r, h@, socket, opt_string(f.port)),
        Err(e) => r.note(
            if f.binary is Some {
                Severity::Error
            } else {
                Severity::Info
            },
            "Unix socket /health: FAIL: "@ + e@,
        ).line("       hint: run `clawket daemon start` (or restart)"@),
    }
}

fn value_line(r: Report, label: &str, value: Option<&str>, after: &str) -> (out: Report)
    ensures
        out@ == with_value(r@, label@, crate::json::opt_text(value), after@),
{
    match value {
        Some(v) => r.line(cat3(label, v, after)),
        None => r,
    }
}

fn healthy(r: Report, h: &Json, socket: &str, port: &Option<String>) -> (out: Report)
    ensures
        out@ == healthy_view(r@, h@, socket@, opt_string(*port)),
{
    let mut out = r.show(Severity::Good, "Unix socket /health: OK");
    if let Some(ms) = h.i64_at("uptime_ms") {
        let s = decimal_int(seconds(ms));
        out = value_line(out, "  uptime: ", Some(s.as_str()), "s");
    }
    if let Some(pid) = h.i64_at("pid") {
        let s = decimal_int(pid);
        out = value_line(out, "  pid: ", Some(s.as_str()), "");
    }
    out = value_line(out, "  version: ", h.str_at("version"), "");
    out = out.line(cat2("  socket: ", socket));
    if let Some(p) = port {
        let s = trim(p.as_str());
        out = value_line(out, "  port: ", Some(s.as_str()), "");
    }
    out.count(Severity::Good)
}

/// What is said of the daemon.
pub fn daemon(f: &DaemonFacts, socket: &str) -> (r: Report)
    ensures
        r@ == daemon_view(*f, socket@),
{
    let r = match &f.binary {
        Some(b) => Report::new().line(
            cat5("  binary: ", b.0.as_str(), " (", b.1.as_str(), ")"),
        ),
        None => Report::new().say(
            "  binary: not found — set CLAWKET_DAEMON_BIN or install via plugin",
        ),
    };
    match &f.health {
        Ok(h) => healthy(r, h, socket, &f.port),
        Err(e) => {
            let sev = if f.binary.is_some() {
                Severity::Error
            } else {
                Severity::Info
            };
            let s = cat2("Unix socket /health: FAIL: ", e.as_str());
            r.note(sev, s.as_str()).say("       hint: run `clawket daemon start` (or restart)")
        },
    }
}

/// The number of tasks in the daemon's list of tasks.
pub fn fetch_task_count(reply: Option<&Json>) -> (r: Option<u64>)
    ensures
        r is Some <==> reply is Some && reply->0@.as_array() is Some,
        r matches Some(n) ==> n == reply->0@.as_array()->0.len(),
{
    match reply {
        Some(v) => match v.as_array() {
            Some(items) => Some(items.len() as u64),
            None => None,
        },
        None => None,
    }
}

/// What is said of the data of a predecessor of the program.
pub open spec fn legacy_view(dir: Seq<char>, db_exists: bool) -> ReportView {
    if db_exists {
        blank().line("  legacy DB present: "@ + joined_path(dir, "db.sqlite"@)).line(
            "  Migration is NOT supported — schema changed too much across versions."@,
        ).line("  Clawket treats every install as a fresh start."@).line(
            "  If you no longer need the legacy data, remove "@ + dir + " manually."@,
        )
    } else {
        blank().line("  no legacy lattice DB detected"@)
    }
}

/// What is said of the data of a predecessor of the program.
pub fn legacy(dir: &str, db_exists: bool) -> (r: Report)
    ensures
        r@ == legacy_view(dir@, db_exists),
{
    if db_exists {
        let db = join_path(dir, "db.sqlite");
        Report::new().line(cat2("  legacy DB present: ", db.as_str())).say(
            "  Migration is NOT supported — schema changed too much across versions.",
        ).say("  Clawket treats every install as a fresh start.").line(
            cat3("  If you no longer need the legacy data, remove ", dir, " manually."),
        )
    } else {
        Report::new().say("  no legacy lattice DB detected")
    }
}

/// What is said of one place that must not lie in the plugin directory.
pub open spec fn separate_view(
    r: ReportView,
    label: Seq<char>,
    path: Seq<char>,
    a: Agent,
) -> ReportView {
    if is_in_plugin_dir(path, a) {
        r.note(
            Severity::Error,
            label + ": "@ + path + " — OVERLAP with "@ + a.dot("/plugins/"@),
        )
    } else {
        r.show(Severity::Good, label + ": "@ + path + " — OK"@)
    }
}

fn separate(r: Report, label: &str, path: &str, a: &Agent) -> (out: Report)
    ensures
        out@ == separate_view(r@, label@, path@, *a),
{
    if path_overlaps_plugin_dir(path, a) {
        let dir = a.hidden("/plugins/");
        let s = cat5(label, ": ", path, " — OVERLAP with ", dir.as_str());
        r.note(Severity::Error, s.as_str())
    } else {
        let s = cat4(label, ": ", path, " — OK");
        r.show(Severity::Good, s.as_str())
    }
}

/// What is said of the five places one by one.
pub open spec fn separation_rows(l: Layout, a: Agent) -> ReportView {
    let r1 = separate_view(blank(), "data"@, l.data@, a);
    let r2 = separate_view(r1, "cache"@, l.cache@, a);
    let r3 = separate_view(r2, "config"@, l.config@, a);
    let r4 = separate_view(r3, "state"@, l.state@, a);
    separate_view(r4, "db"@, l.db@, a)
}

/// How many of the five places lie in the plugin directory.
pub open spec fn overlaps(l: Layout, a: Agent) -> nat {
    separation_rows(l, a).tally.len()
}

/// What is said of the separation from the plugin directory.
pub open spec fn separation_view(l: Layout, a: Agent) -> ReportView {
    if overlaps(l, a) > 0 {
        separation_rows(l, a)
    } else {
        separation_rows(l, a).line("  data path / plugin path separation: OK"@)
    }
}

/// The complaint about places in the plugin directory.
pub open spec fn overlap_complaint(l: Layout, a: Agent) -> Seq<Seq<char>> {
    if overlaps(l, a) > 0 {
        seq![
            ""@,
            "ERROR: "@ + dec(overlaps(l, a))
                + " path(s) resolve under "@ + a.product@ + "'s plugin directory."@,
            "       Plugin reinstall (`/plugin install`) wipes that tree, so this layout"@,
            "       will silently destroy the Clawket SQLite DB on the next plugin update."@,
            "       Fix: point CLAWKET_DATA_DIR / XDG_DATA_HOME / etc at a path outside"@,
            "       ~/"@ + a.dot("/plugins/"@)
                + " . CLAWKET_ALLOW_PLUGIN_OVERLAP=1 acknowledges the risk."@,
        ]
    } else {
        Seq::empty()
    }
}

/// A place in the plugin directory is an error, and nothing else is.
pub proof fn overlap_is_an_error(l: Layout, a: Agent)
    ensures
        overlaps(l, a) > 0 <==> is_in_plugin_dir(l.data@, a) || is_in_plugin_dir(l.cache@, a)
            || is_in_plugin_dir(l.config@, a) || is_in_plugin_dir(l.state@, a) || is_in_plugin_dir(l.db@, a),
        overlaps(l, a) <= 5,
        separation_view(l, a).tally.contains(Severity::Error) <==> overlaps(l, a) > 0,
{
    let t = separation_view(l, a).tally;
    if overlaps(l, a) > 0 {
        assert(t[0] == Severity::Error);
    }
}

/// What is said of the separation from the plugin directory, and the
/// complaint where it is broken.
pub fn separation(l: &Layout, a: &Agent) -> (r: (Report, Vec<String>))
    ensures
        r.0@ == separation_view(*l, *a),
        texts(r.1@) == overlap_complaint(*l, *a),
{
    let r1 = separate(Report::new(), "data", l.data.as_str(), a);
    let r2 = separate(r1, "cache", l.cache.as_str(), a);
    let r3 = separate(r2, "config", l.config.as_str(), a);
    let r4 = separate(r3, "state", l.state.as_str(), a);
    let rows = separate(r4, "db", l.db.as_str(), a);
    let n = rows.tally.len();
    let mut complaint: Vec<String> = Vec::new();
    if n > 0 {
        let d = decimal(n as u64);
        complaint.push("".to_owned());
        complaint.push(
            cat5(
                "ERROR: ",
                d.as_str(),
                " path(s) resolve under ",
                a.product.as_str(),
                "'s plugin directory.",
            ),
        );
        complaint.push(
            "       Plugin reinstall (`/plugin install`) wipes that tree, so this layout".to_owned(),
        );
        complaint.push(
            "       will silently destroy the Clawket SQLite DB on the next plugin update.".to_owned(),
        );
        complaint.push(
            "       Fix: point CLAWKET_DATA_DIR / XDG_DATA_HOME / etc at a path outside".to_owned(),
        );
        let dir = a.hidden("/plugins/");
        complaint.push(
            cat3(
                "       ~/",
                dir.as_str(),
                " . CLAWKET_ALLOW_PLUGIN_OVERLAP=1 acknowledges the risk.",
            ),
        );
        assert(texts(complaint@) =~= overlap_complaint(*l, *a));
        (rows, complaint)
    } else {
        assert(texts(complaint@) =~= overlap_complaint(*l, *a));
        (rows.say("  data path / plugin path separation: OK"), complaint)
    }
}

} // verus!
