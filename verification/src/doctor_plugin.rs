//! The parts of the health report on the plugin and what comes with it.

use vstd::prelude::*;
use crate::agent::Agent;
use crate::doctor_checks::Severity;
use crate::doctor_report::{blank, Report, ReportView};
use crate::json::{opt_text, pairs, Json, JsonView, Member};
use crate::paths::{join_path, joined_path};
use crate::scan::{after_prefix, lines, lines_of, opt_string, strip_prefix, trim, trimmed};
use crate::text::{cat2, cat3, cat4, cat5, same, texts};

verus! {

/// The first `n` members that are texts, one to a line.
pub open spec fn ranges_upto(r: ReportView, m: Seq<(Seq<char>, JsonView)>, n: nat) -> ReportView
    decreases n,
{
    if n == 0 {
        r
    } else {
        match m[n - 1].1 {
            JsonView::Text(s) => ranges_upto(r, m, (n - 1) as nat).line(
                "    "@ + m[n - 1].0 + ": "@ + s,
            ),
            _ => ranges_upto(r, m, (n - 1) as nat),
        }
    }
}

fn ranges(r: Report, m: &Vec<Member>) -> (out: Report)
    ensures
        out@ == ranges_upto(r@, pairs(m@), m@.len()),
{
    let ghost start = r@;
    let ghost all = pairs(m@);
    let mut out = r;
    let mut i: usize = 0;
    while i < m.len()
        invariant
            i <= m@.len(),
            all == pairs(m@),
            out@ == ranges_upto(start, all, i as nat),
        decreases m@.len() - i,
    {
        assert(all[i as int] == (m@[i as int].key@, m@[i as int].value@));
        if let Some(s) = m[i].value.as_str() {
            out = out.line(cat4("    ", m[i].key.as_str(), ": ", s));
        }
        i = i + 1;
    }
    out
}

/// The report, with a line on the pinned version where there is one.
pub open spec fn pin_view(r: ReportView, components: JsonView, key: Seq<char>) -> ReportView {
    match components.str_at(key) {
        Some(v) => r.line("    "@ + key + ": "@ + v),
        None => r,
    }
}

fn pin(r: Report, components: &Json, key: &str) -> (out: Report)
    ensures
        out@ == pin_view(r@, components@, key@),
{
    match components.str_at(key) {
        Some(v) => r.line(cat4("    ", key, ": ", v)),
        None => r,
    }
}

/// A version without the letter that may stand in front of it.
pub open spec fn bare_version(v: Seq<char>) -> Seq<char> {
    match after_prefix(v, "v"@) {
        Some(rest) => rest,
        None => v,
    }
}

/// The report, with a warning where the running version is known and is not
/// the pinned one.
pub open spec fn mismatch_view(
    r: ReportView,
    name: Seq<char>,
    running: Option<Seq<char>>,
    pinned: Option<Seq<char>>,
) -> ReportView {
    match (running, pinned) {
        (Some(v), Some(p)) => if bare_version(v) == bare_version(p) {
            r
        } else {
            r.note(
                Severity::Warn,
                name + " version mismatch: running "@ + v + ", components.json pins "@ + p,
            )
        },
        _ => r,
    }
}

fn bare(v: &str) -> (r: String)
    ensures
        r@ == bare_version(v@),
{
    match strip_prefix(v, "v") {
        Some(rest) => rest,
        None => v.to_owned(),
    }
}

fn mismatch(r: Report, name: &str, running: Option<&str>, pinned: Option<&str>) -> (out: Report)
    ensures
        out@ == mismatch_view(r@, name@, opt_text(running), opt_text(pinned)),
{
    match running {
        Some(v) => match pinned {
            Some(p) => {
                let a = bare(v);
                let b = bare(p);
                if same(a.as_str(), b.as_str()) {
                    r
                } else {
                    let s = cat5(
                        name,
                        " version mismatch: running ",
                        v,
                        ", components.json pins ",
                        p,
                    );
                    r.note(Severity::Warn, s.as_str())
                }
            },
            None => r,
        },
        None => r,
    }
}

/// What is said of the versions that fit together. A pinned version that is
/// not the running one is a warning.
pub open spec fn compatibility_view(
    cli_version: Seq<char>,
    daemon_version: Option<Seq<char>>,
    package: Option<JsonView>,
    components: Option<JsonView>,
) -> ReportView {
    let r = blank().line("  cli version: "@ + cli_version).line(
        match daemon_version {
            Some(v) => "  daemon version: "@ + v,
            None => "  daemon version: (unavailable — daemon down?)"@,
        },
    );
    let told = match package {
        Some(p) => match p.get("compat"@) {
            Some(JsonView::Object(m)) => ranges_upto(
                r.line("  package.json compat:"@),
                m,
                m.len(),
            ).count(Severity::Good),
            _ => r.note(Severity::Warn, "package.json found but no `compat` field"@),
        },
        None => r.note(
            Severity::Info,
            "plugin package.json not found — compat range unknown"@,
        ),
    };
    match components {
        Some(c) => {
            let pins = pin_view(
                pin_view(
                    pin_view(told.line("  components.json pinned:"@), c, "cli"@),
                    c,
                    "daemon"@,
                ),
                c,
                "web"@,
            );
            mismatch_view(
                mismatch_view(pins, "cli"@, Some(cli_version), c.str_at("cli"@)),
                "daemon"@,
                daemon_version,
                c.str_at("daemon"@),
            )
        },
        None => told,
    }
}

/// What a value is, where there is one.
pub open spec fn opt_json(o: Option<&Json>) -> Option<JsonView> {
    match o {
        Some(j) => Some(j@),
        None => None,
    }
}

/// What is said of the versions that fit together.
pub fn compatibility(
    cli_version: &str,
    daemon_version: Option<&str>,
    package: Option<&Json>,
    components: Option<&Json>,
) -> (r: Report)
    ensures
        r@ == compatibility_view(
            cli_version@,
            opt_text(daemon_version),
            opt_json(package),
            opt_json(components),
        ),
{
    let r0 = Report::new().line(cat2("  cli version: ", cli_version));
    let r = match daemon_version {
        Some(v) => r0.line(cat2("  daemon version: ", v)),
        None => r0.say("  daemon version: (unavailable — daemon down?)"),
    };
    let told = match package {
        Some(p) => match p.get("compat") {
            Some(c) => match c {
                Json::Object(m) => {
                    proof {
                        crate::json::object_view(*m);
                    }
                    ranges(r.say("  package.json compat:"), m).count(Severity::Good)
                },
                _ => r.note(Severity::Warn, "package.json found but no `compat` field"),
            },
            None => r.note(Severity::Warn, "package.json found but no `compat` field"),
        },
        None => r.note(
            Severity::Info,
            "plugin package.json not found — compat range unknown",
        ),
    };
    match components {
        Some(c) => {
            let r1 = pin(told.say("  components.json pinned:"), c, "cli");
            let r2 = pin(r1, c, "daemon");
            let r3 = pin(r2, c, "web");
            let r4 = mismatch(r3, "cli", Some(cli_version), c.str_at("cli"));
            mismatch(r4, "daemon", daemon_version, c.str_at("daemon"))
        },
        None => told,
    }
}

/// The version behind the first `version=` at the start of a trimmed line,
/// from the `i`-th line on.
pub open spec fn version_line(all: Seq<Seq<char>>, i: int) -> Option<Seq<char>>
    decreases all.len() - i,
{
    if i < 0 || i >= all.len() {
        None
    } else {
        match after_prefix(trimmed(all[i]), "version="@) {
            Some(rest) => Some(trimmed(rest)),
            None => version_line(all, i + 1),
        }
    }
}

/// The version that an install marker tells: as a JSON value, else as a line.
pub open spec fn marker_version(raw: Seq<char>, parsed: Option<JsonView>) -> Option<Seq<char>> {
    if parsed is Some && parsed->0.str_at("version"@) is Some {
        parsed->0.str_at("version"@)
    } else {
        version_line(lines_of(raw), 0)
    }
}

/// The version that an install marker tells. `parsed` is the marker as a JSON
/// value, where it is one.
pub fn read_install_marker(raw: &str, parsed: Option<&Json>) -> (r: Option<String>)
    ensures
        opt_string(r) == marker_version(raw@, opt_json(parsed)),
{
    if let Some(j) = parsed {
        if let Some(v) = j.str_at("version") {
            return Some(v.to_owned());
        }
    }
    let all = lines(raw);
    let mut i: usize = 0;
    while i < all.len()
        invariant
            i <= all@.len(),
            texts(all@) == lines_of(raw@),
            version_line(lines_of(raw@), 0) == version_line(lines_of(raw@), i as int),
            marker_version(raw@, opt_json(parsed)) == version_line(lines_of(raw@), 0),
        decreases all@.len() - i,
    {
        assert(texts(all@)[i as int] == all@[i as int]@);
        let t = trim(all[i].as_str());
        if let Some(rest) = strip_prefix(t.as_str(), "version=") {
            return Some(trim(rest.as_str()));
        }
        i = i + 1;
    }
    assert(texts(all@).len() == all@.len());
    None
}

/// A directory of the plugin, and the version that the marker in it tells.
pub struct PluginDir {
    pub path: String,
    pub marker: Option<String>,
}

/// What is found of the installation.
pub struct InstallFacts {
    /// The running program.
    pub exe: Option<String>,
    /// The program that `CLAWKET_BIN` names, and whether it is there.
    pub env_bin: Option<(String, bool)>,
    /// The program on the search path.
    pub path_bin: Option<String>,
    /// The directory that plugins are installed in, where the home is known,
    /// and whether it is there.
    pub plugins: Option<(String, bool)>,
    /// The directories of the plugin in it.
    pub dirs: Vec<PluginDir>,
    /// The version of the running program.
    pub version: String,
}

/// The first directory with a marker, from the `i`-th on.
pub open spec fn first_marker(dirs: Seq<PluginDir>, i: int) -> Option<(Seq<char>, Seq<char>)>
    decreases dirs.len() - i,
{
    if i < 0 || i >= dirs.len() {
        None
    } else {
        match dirs[i].marker {
            Some(v) => Some((v@, joined_path(dirs[i].path@, ".install-marker"@))),
            None => first_marker(dirs, i + 1),
        }
    }
}

/// The first `n` directories, one to a line.
pub open spec fn dirs_upto(r: ReportView, dirs: Seq<PluginDir>, n: nat) -> ReportView
    decreases n,
{
    if n == 0 {
        r
    } else {
        dirs_upto(r, dirs, (n - 1) as nat).show(
            Severity::Good,
            "plugin dir: "@ + dirs[n - 1].path@,
        )
    }
}

/// What is said of the program: the one that runs, the one that is set, and
/// the one on the search path. That the one that is set is missing is a
/// warning.
pub open spec fn exe_view(f: InstallFacts) -> ReportView {
    let running = match f.exe {
        Some(p) => blank().note(Severity::Good, "clawket binary: "@ + p@),
        None => blank().note(Severity::Warn, "cannot resolve current executable path"@),
    };
    let set = match f.env_bin {
        Some((p, true)) => running.show(Severity::Good, "CLAWKET_BIN: "@ + p@),
        Some((p, false)) => running.note(
            Severity::Warn,
            "CLAWKET_BIN: "@ + p@ + " (missing)"@,
        ),
        None => running,
    };
    match f.path_bin {
        Some(p) => set.show(Severity::Good, "clawket on PATH: "@ + p@),
        None => set.line("  clawket on PATH: (not found)"@),
    }
}

fn program(f: &InstallFacts) -> (r: Report)
    ensures
        r@ == exe_view(*f),
{
    let running = match &f.exe {
        Some(p) => {
            let s = cat2("clawket binary: ", p.as_str());
            Report::new().note(Severity::Good, s.as_str())
        },
        None => Report::new().note(Severity::Warn, "cannot resolve current executable path"),
    };
    let set = match &f.env_bin {
        Some(b) => if b.1 {
            let s = cat2("CLAWKET_BIN: ", b.0.as_str());
            running.show(Severity::Good, s.as_str())
        } else {
            let s = cat3("CLAWKET_BIN: ", b.0.as_str(), " (missing)");
            running.note(Severity::Warn, s.as_str())
        },
        None => running,
    };
    match &f.path_bin {
        Some(p) => {
            let s = cat2("clawket on PATH: ", p.as_str());
            set.show(Severity::Good, s.as_str())
        },
        None => set.say("  clawket on PATH: (not found)"),
    }
}

/// What is said of the plugin's directories.
pub open spec fn tree_view(r: ReportView, f: InstallFacts, a: Agent) -> ReportView {
    match f.plugins {
        None => r,
        Some((dir, there)) => if !there {
            r.note(
                Severity::Info,
                "~/"@ + a.dot("/plugins/"@) + " not found — plugin not installed"@,
            )
        } else if f.dirs@.len() == 0 {
            r.note(
                Severity::Info,
                "plugin tree not found under "@ + dir@
                    + " — install via "@ + a.product@ + " /plugin install"@,
            )
        } else {
            dirs_upto(r, f.dirs@, f.dirs@.len()).count(Severity::Good)
        },
    }
}

/// The marker that counts: one in the plugin's directories, where those are
/// there.
pub open spec fn marker_of(f: InstallFacts) -> Option<(Seq<char>, Seq<char>)> {
    match f.plugins {
        Some((dir, true)) => first_marker(f.dirs@, 0),
        _ => None,
    }
}

/// What is said of the version in the marker.
pub open spec fn versions_view(
    r: ReportView,
    version: Seq<char>,
    marker: Option<(Seq<char>, Seq<char>)>,
) -> ReportView {
    let r1 = r.line("  binary_version: "@ + version);
    match marker {
        Some(m) => {
            let r2 = r1.line("  marker_version: "@ + m.0 + " ("@ + m.1 + ")"@);
            if m.0 == version {
                r2.note(Severity::Good, "marker_version matches binary_version"@)
            } else {
                r2.note(
                    Severity::Warn,
                    "marker_version ("@ + m.0 + ") diverges from binary_version ("@ + version
                        + ") — reinstall: run `/plugin update clawket@clawket` to realign install marker, binaries and web bundle (fallback: `/plugin uninstall clawket@clawket && /plugin install clawket@clawket`)"@,
                )
            }
        },
        None => r1.note(
            Severity::Info,
            "marker_version: (not found) — first install pending or marker was wiped; run `/plugin update clawket@clawket` (fallback: `/plugin uninstall clawket@clawket && /plugin install clawket@clawket`)"@,
        ),
    }
}

/// What is said of the installation.
pub open spec fn install_view(f: InstallFacts, a: Agent) -> ReportView {
    versions_view(tree_view(exe_view(f), f, a), f.version@, marker_of(f))
}

/// What is said of the installation.
pub fn plugin_install(f: &InstallFacts, a: &Agent) -> (r: Report)
    ensures
        r@ == install_view(*f, *a),
{
    let mut r = program(f);
    let ghost start = r@;
    let mut marker: Option<(String, String)> = None;
    if let Some(p) = &f.plugins {
        if !p.1 {
            let dir = a.hidden("/plugins/");
            let s = cat3("~/", dir.as_str(), " not found — plugin not installed");
            r = r.note(Severity::Info, s.as_str());
        } else if f.dirs.len() == 0 {
            let s = cat5(
                "plugin tree not found under ",
                p.0.as_str(),
                " — install via ",
                a.product.as_str(),
                " /plugin install",
            );
            r = r.note(Severity::Info, s.as_str());
        } else {
            let mut i: usize = 0;
            while i < f.dirs.len()
                invariant
                    i <= f.dirs@.len(),
                    r@ == dirs_upto(start, f.dirs@, i as nat),
                    marker is None ==> first_marker(f.dirs@, 0) == first_marker(f.dirs@, i as int),
                    marker matches Some(m) ==> first_marker(f.dirs@, 0) == Some((m.0@, m.1@)),
                decreases f.dirs@.len() - i,
            {
                let s = cat2("plugin dir: ", f.dirs[i].path.as_str());
                r = r.show(Severity::Good, s.as_str());
                if marker.is_none() {
                    if let Some(v) = &f.dirs[i].marker {
                        let place = join_path(f.dirs[i].path.as_str(), ".install-marker");
                        marker = Some((v.clone(), place));
                    }
                }
                i = i + 1;
            }
            r = r.count(Severity::Good);
        }
    }
    assert(r@ == tree_view(start, *f, *a));
    assert(marker_of(*f) == match marker {
        Some(m) => Some((m.0@, m.1@)),
        None => None,
    });
    r = r.line(cat2("  binary_version: ", f.version.as_str()));
    match &marker {
        Some(m) => {
            r = r.line(
                cat5("  marker_version: ", m.0.as_str(), " (", m.1.as_str(), ")"),
            );
            if same(m.0.as_str(), f.version.as_str()) {
                r.note(Severity::Good, "marker_version matches binary_version")
            } else {
                let s = cat5(
                    "marker_version (",
                    m.0.as_str(),
                    ") diverges from binary_version (",
                    f.version.as_str(),
                    ") — reinstall: run `/plugin update clawket@clawket` to realign install marker, binaries and web bundle (fallback: `/plugin uninstall clawket@clawket && /plugin install clawket@clawket`)",
                );
                r.note(Severity::Warn, s.as_str())
            }
        },
        None => r.note(
            Severity::Info,
            "marker_version: (not found) — first install pending or marker was wiped; run `/plugin update clawket@clawket` (fallback: `/plugin uninstall clawket@clawket && /plugin install clawket@clawket`)",
        ),
    }
}

} // verus!
