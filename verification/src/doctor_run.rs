//! The health report as a whole: all its parts in their order, as text or as
//! a JSON value.

use vstd::prelude::*;
use crate::agent::Agent;
use crate::doctor::{audit_log, audit_view, database, database_view, project_state, project_view};
use crate::doctor_checks::Severity;
use crate::doctor_data::{
    activity_log_budget, activity_view, data_loss_diagnostics, data_loss_view, DataLossFacts,
};
use crate::doctor_hooks::{hooks, hooks_view, mcp, mcp_view, HooksFacts};
use crate::doctor_local::{
    daemon, daemon_view, fetch_task_count, legacy, legacy_view, overlap_complaint, overrides,
    overrides_upto, places, places_view, separation, separation_view, DaemonFacts, Layout, Presence,
};
use crate::doctor_locale::{i18n, i18n_view, skills, skills_view, LocaleFacts, SkillsFacts};
use crate::doctor_plugin::{
    compatibility, compatibility_view, install_view, plugin_install, InstallFacts,
};
use crate::doctor_report::{blank, count_of, times, Report, ReportView};
use crate::doctor_tiers::{
    escalation_rate, escalation_rate_view, escalation_report, escalation_report_view, groups_of,
    replied_tasks, tier_aware, tier_aware_view, tier_distribution, tier_distribution_view,
};
use crate::json::{array, empty_object, object, opt_ref, opt_text, text, views, Json, JsonView};
use crate::json_text::{compact, to_text};
use crate::output::{end_lines, ended_lines};
use crate::paths::{is_in_plugin_dir, join_path, joined_path, path_overlaps_plugin_dir};
use crate::reply::{End, EndView, Outcome};
use crate::scan::opt_string;
use crate::text::{cat2, cat3, cat4, dec, dec_int, decimal, decimal_int, same, texts};

verus! {

/// The places of the file that pins the versions.
pub open spec fn pin_places_of(
    home: Option<Seq<char>>,
    cwd: Option<Seq<char>>,
    a: Agent,
) -> Seq<Seq<char>> {
    (match home {
        Some(h) => seq![
            joined_path(
                joined_path(joined_path(h, a.dot("/plugins"@)), "clawket"@),
                "components.json"@,
            ),
        ],
        None => Seq::empty(),
    }) + (match cwd {
        Some(c) => seq![joined_path(c, "components.json"@)],
        None => Seq::empty(),
    })
}

/// The places of the file that pins the versions: that of the plugin, and the
/// current directory.
pub fn pin_places(home: Option<&str>, cwd: Option<&str>, a: &Agent) -> (r: Vec<String>)
    ensures
        texts(r@) == pin_places_of(opt_text(home), opt_text(cwd), *a),
{
    let mut out: Vec<String> = Vec::new();
    if let Some(h) = home {
        let rel = a.hidden("/plugins");
        let plugins = join_path(h, rel.as_str());
        let own = join_path(plugins.as_str(), "clawket");
        out.push(join_path(own.as_str(), "components.json"));
    }
    if let Some(c) = cwd {
        out.push(join_path(c, "components.json"));
    }
    assert(texts(out@) =~= pin_places_of(opt_text(home), opt_text(cwd), *a));
    out
}

/// The schema version in the first file, from the `i`-th on, that has one.
pub open spec fn pinned_from(files: Seq<Option<Json>>, i: int) -> Option<Seq<char>>
    decreases files.len() - i,
{
    if i < 0 || i >= files.len() {
        None
    } else {
        match files[i] {
            Some(j) => match j@.i64_at("schema_version"@) {
                Some(n) => Some(dec_int(n)),
                None => pinned_from(files, i + 1),
            },
            None => pinned_from(files, i + 1),
        }
    }
}

/// The schema version that is pinned. `files` are the files that pin the
/// versions, as far as they can be read.
pub fn pinned_schema_version(files: &Vec<Option<Json>>) -> (r: Option<String>)
    ensures
        opt_string(r) == pinned_from(files@, 0),
{
    let mut i: usize = 0;
    while i < files.len()
        invariant
            i <= files@.len(),
            pinned_from(files@, 0) == pinned_from(files@, i as int),
        decreases files@.len() - i,
    {
        if let Some(j) = &files[i] {
            if let Some(n) = j.i64_at("schema_version") {
                return Some(decimal_int(n));
            }
        }
        i = i + 1;
    }
    None
}

/// The schema version that the daemon has.
pub open spec fn daemon_schema(health: JsonView) -> Seq<char> {
    match health.i64_at("schema_version"@) {
        Some(n) => dec_int(n),
        None => "unknown"@,
    }
}

/// Whether the daemon's schema is the one that is pinned.
pub open spec fn schema_finding(health: Result<Json, String>, pinned: Option<Seq<char>>) -> (
    Severity,
    Seq<char>,
) {
    match health {
        Err(e) => (Severity::Warn, "daemon unavailable: "@ + e@),
        Ok(h) => {
            let v = daemon_schema(h@);
            match pinned {
                None => (
                    Severity::Info,
                    "components.json not found; daemon schema_version="@ + v,
                ),
                Some(p) => if v == p {
                    (
                        Severity::Good,
                        "schema_version="@ + v + " matches components.json pin"@,
                    )
                } else if v == "unknown"@ {
                    (
                        Severity::Warn,
                        "daemon did not report schema_version; components.json pins "@ + p,
                    )
                } else {
                    (
                        Severity::Error,
                        "schema_version mismatch: daemon="@ + v + " components.json="@ + p,
                    )
                },
            }
        },
    }
}

/// Whether the daemon's schema is the one that is pinned.
pub fn check_schema_version(health: &Result<Json, String>, pinned: Option<&str>) -> (r: (
    Severity,
    String,
))
    ensures
        (r.0, r.1@) == schema_finding(*health, opt_text(pinned)),
{
    let h = match health {
        Ok(h) => h,
        Err(e) => {
            return (Severity::Warn, cat2("daemon unavailable: ", e.as_str()));
        },
    };
    let v = match h.i64_at("schema_version") {
        Some(n) => decimal_int(n),
        None => "unknown".to_owned(),
    };
    match pinned {
        None => (
            Severity::Info,
            cat2("components.json not found; daemon schema_version=", v.as_str()),
        ),
        Some(p) => if same(v.as_str(), p) {
            (
                Severity::Good,
                cat3("schema_version=", v.as_str(), " matches components.json pin"),
            )
        } else if same(v.as_str(), "unknown") {
            (
                Severity::Warn,
                cat2("daemon did not report schema_version; components.json pins ", p),
            )
        } else {
            (
                Severity::Error,
                cat4("schema_version mismatch: daemon=", v.as_str(), " components.json=", p),
            )
        },
    }
}

/// Whether the daemon can search by likeness.
pub open spec fn vec_finding(health: Result<Json, String>) -> (Severity, Seq<char>) {
    match health {
        Err(e) => (Severity::Warn, "daemon unavailable: "@ + e@),
        Ok(h) => match h@.str_at("sqlite_vec_version"@) {
            Some(v) => (Severity::Good, "sqlite-vec loaded: "@ + v),
            None => match h@.bool_at("sqlite_vec"@) {
                Some(true) => (Severity::Good, "sqlite-vec loaded (version unknown)"@),
                Some(false) => (
                    Severity::Error,
                    "sqlite-vec NOT loaded — semantic search unavailable"@,
                ),
                None => (
                    Severity::Warn,
                    "daemon did not report sqlite-vec status; semantic search may be unavailable"@,
                ),
            },
        },
    }
}

/// Whether the daemon can search by likeness.
pub fn check_sqlite_vec(health: &Result<Json, String>) -> (r: (Severity, String))
    ensures
        (r.0, r.1@) == vec_finding(*health),
{
    let h = match health {
        Ok(h) => h,
        Err(e) => {
            return (Severity::Warn, cat2("daemon unavailable: ", e.as_str()));
        },
    };
    if let Some(v) = h.str_at("sqlite_vec_version") {
        return (Severity::Good, cat2("sqlite-vec loaded: ", v));
    }
    match h.bool_at("sqlite_vec") {
        Some(b) => if b {
            (Severity::Good, "sqlite-vec loaded (version unknown)".to_owned())
        } else {
            (
                Severity::Error,
                "sqlite-vec NOT loaded — semantic search unavailable".to_owned(),
            )
        },
        None => (
            Severity::Warn,
            "daemon did not report sqlite-vec status; semantic search may be unavailable".to_owned(),
        ),
    }
}

/// What is found for the report on escalations.
pub struct EscalationFacts {
    pub reply: Result<Json, String>,
    pub overall: String,
    pub shares: Vec<String>,
}

/// What is found for the whole report.
pub struct DoctorFacts {
    pub agent: Agent,
    /// The values of the variables, in the order of their names.
    pub overrides: Vec<Option<String>>,
    pub layout: Layout,
    pub presence: Presence,
    pub daemon: DaemonFacts,
    /// The daemon's list of tasks, where it gave one.
    pub task_list: Option<Json>,
    pub db_mib: String,
    pub entities: Vec<Option<Json>>,
    pub hooks: HooksFacts,
    pub exe: Result<String, String>,
    pub install: InstallFacts,
    pub package: Option<Json>,
    pub components: Option<Json>,
    pub locale: LocaleFacts,
    pub audit: Result<Json, String>,
    pub data_loss: DataLossFacts,
    pub activity: Result<Json, String>,
    pub activity_mib: String,
    pub activity_percent: String,
    pub cwd: Result<String, String>,
    pub project: Result<Json, String>,
    pub legacy_dir: String,
    pub legacy_db_there: bool,
    pub default_tier: Option<String>,
    pub tier: Option<String>,
    pub plan: Option<String>,
    pub tier_reply: Result<Json, String>,
    pub tier_shares: Vec<String>,
    pub rate_reply: Result<Json, String>,
    pub rate_share: String,
    /// Where the report on escalations is wanted.
    pub escalation: Option<EscalationFacts>,
    pub skills: SkillsFacts,
    pub schema_health: Result<Json, String>,
    pub pinned: Option<String>,
    pub vec_health: Result<Json, String>,
}

impl DoctorFacts {
    /// The lists fit together.
    pub open spec fn wf(self) -> bool {
        &&& self.overrides@.len() == 8
        &&& self.entities@.len() == 6
        &&& self.hooks.present@.len() == 7
        &&& self.locale.counts@.len() == self.locale.langs@.len()
        &&& self.locale.missing@.len() == self.locale.langs@.len()
        &&& self.data_loss.wf()
        &&& self.tier_shares@.len() == groups_of(replied_tasks(self.tier_reply)).len()
        &&& self.escalation matches Some(e) ==> e.shares@.len() == groups_of(
            replied_tasks(e.reply),
        ).len()
    }
}

/// The version that the daemon tells.
pub open spec fn daemon_version(health: Result<Json, String>) -> Option<Seq<char>> {
    match health {
        Ok(h) => h@.str_at("version"@),
        Err(_) => None,
    }
}

/// What a file holds, where it can be read.
pub open spec fn opt_file(o: Option<Json>) -> Option<JsonView> {
    match o {
        Some(j) => Some(j@),
        None => None,
    }
}

/// The number of tasks, where the daemon answers and gives a list.
pub open spec fn count_of_tasks(f: DoctorFacts) -> Option<u64> {
    if f.daemon.health is Ok {
        match f.task_list {
            Some(j) => match j@ {
                JsonView::Array(items) => Some(items.len() as u64),
                _ => None,
            },
            None => None,
        }
    } else {
        None
    }
}

/// The report up to the daemon.
pub open spec fn opening(f: DoctorFacts) -> ReportView {
    blank().line("Clawket doctor"@).line("=============="@).line(""@).section(
        "Environment overrides"@,
        overrides_upto(f.overrides@, 8),
    ).section("Paths"@, places_view(f.layout, f.presence)).section(
        "Daemon"@,
        daemon_view(f.daemon, f.layout.socket@),
    )
}

/// What follows the daemon, up to the audit log.
pub open spec fn on_installation(r: ReportView, f: DoctorFacts) -> ReportView {
    r.section(
        "Database"@,
        database_view(f.layout.db@, f.presence.db, f.db_mib@, f.entities@),
    ).section("Hooks"@, hooks_view(f.hooks, f.agent)).section("MCP"@, mcp_view(f.exe)).section(
        "Plugin install"@,
        install_view(f.install, f.agent),
    ).section(
        "Compatibility"@,
        compatibility_view(
            f.install.version@,
            daemon_version(f.daemon.health),
            opt_file(f.package),
            opt_file(f.components),
        ),
    ).section("i18n"@, i18n_view(f.locale)).section("Audit log"@, audit_view(f.audit))
}

/// What follows the audit log, up to the tiers.
pub open spec fn on_data(r: ReportView, f: DoctorFacts) -> ReportView {
    r.section(
        "Data loss risk diagnostics (LM-9)"@,
        data_loss_view(f.data_loss, f.layout.data@, count_of_tasks(f), f.agent),
    ).section(
        "activity_log retention (LM-69)"@,
        activity_view(f.activity, f.activity_mib@, f.activity_percent@),
    ).section("Project enable state (LM-8)"@, project_view(f.cwd, f.project)).section(
        "Legacy lattice data"@,
        legacy_view(f.legacy_dir@, f.legacy_db_there),
    )
}

/// What follows: the tiers, and the escalations where they are wanted.
pub open spec fn on_tiers(r: ReportView, f: DoctorFacts) -> ReportView {
    let told = r.section(
        "Tier-Aware"@,
        tier_aware_view(opt_string(f.default_tier), opt_string(f.tier), f.agent),
    ).section(
        "tier_distribution"@,
        tier_distribution_view(f.tier_reply, opt_string(f.plan), texts(f.tier_shares@)),
    ).section(
        "escalation_rate"@,
        escalation_rate_view(f.rate_reply, opt_string(f.plan), f.rate_share@),
    );
    match f.escalation {
        Some(e) => told.section(
            "escalation report (--escalation)"@,
            escalation_report_view(e.reply, opt_string(f.plan), e.overall@, texts(e.shares@)),
        ),
        None => told,
    }
}

/// What closes the report.
pub open spec fn closing(r: ReportView, f: DoctorFacts) -> ReportView {
    let schema = schema_finding(f.schema_health, opt_string(f.pinned));
    let vec = vec_finding(f.vec_health);
    r.section("Skills"@, skills_view(f.skills, f.agent)).section(
        "schema_version (components.json)"@,
        blank().note(schema.0, schema.1),
    ).section("sqlite-vec probe"@, blank().note(vec.0, vec.1)).section(
        "Path separation invariant (LM-8)"@,
        separation_view(f.layout, f.agent),
    )
}

/// The whole report, without the summary.
pub open spec fn full_report(f: DoctorFacts) -> ReportView {
    closing(on_tiers(on_data(on_installation(opening(f), f), f), f), f)
}

/// The line that sums up.
pub open spec fn summary(tally: Seq<Severity>) -> Seq<char> {
    "[Summary] errors="@ + dec(times(tally, Severity::Error)) + " warnings="@ + dec(
        times(tally, Severity::Warn),
    ) + " info="@ + dec(times(tally, Severity::Info))
}

fn open_report(f: &DoctorFacts) -> (r: Report)
    requires
        f.wf(),
    ensures
        r@ == opening(*f),
{
    Report::new().say("Clawket doctor").say("==============").say("").section(
        "Environment overrides",
        overrides(&f.overrides),
    ).section("Paths", places(&f.layout, &f.presence)).section(
        "Daemon",
        daemon(&f.daemon, f.layout.socket.as_str()),
    )
}

fn opt_json_ref(o: &Option<Json>) -> (r: Option<&Json>)
    ensures
        crate::doctor_plugin::opt_json(r) == opt_file(*o),
{
    match o {
        Some(j) => Some(j),
        None => None,
    }
}

fn tell_installation(r: Report, f: &DoctorFacts) -> (out: Report)
    requires
        f.wf(),
    ensures
        out@ == on_installation(r@, *f),
{
    let version = match &f.daemon.health {
        Ok(h) => h.str_at("version"),
        Err(_) => None,
    };
    r.section(
        "Database",
        database(f.layout.db.as_str(), f.presence.db, f.db_mib.as_str(), &f.entities),
    ).section("Hooks", hooks(&f.hooks, &f.agent)).section("MCP", mcp(&f.exe)).section(
        "Plugin install",
        plugin_install(&f.install, &f.agent),
    ).section(
        "Compatibility",
        compatibility(
            f.install.version.as_str(),
            version,
            opt_json_ref(&f.package),
            opt_json_ref(&f.components),
        ),
    ).section("i18n", i18n(&f.locale)).section("Audit log", audit_log(&f.audit))
}

fn tell_data(r: Report, f: &DoctorFacts) -> (out: Report)
    requires
        f.wf(),
    ensures
        out@ == on_data(r@, *f),
{
    let count = tasks_counted(f);
    r.section(
        "Data loss risk diagnostics (LM-9)",
        data_loss_diagnostics(&f.data_loss, f.layout.data.as_str(), count, &f.agent),
    ).section(
        "activity_log retention (LM-69)",
        activity_log_budget(&f.activity, f.activity_mib.as_str(), f.activity_percent.as_str()),
    ).section("Project enable state (LM-8)", project_state(&f.cwd, &f.project)).section(
        "Legacy lattice data",
        legacy(f.legacy_dir.as_str(), f.legacy_db_there),
    )
}

/// The number of tasks, where the daemon answers and gives a list.
pub fn tasks_counted(f: &DoctorFacts) -> (r: Option<u64>)
    ensures
        r == count_of_tasks(*f),
{
    match &f.daemon.health {
        Ok(_) => fetch_task_count(opt_json_ref(&f.task_list)),
        Err(_) => None,
    }
}

fn tell_tiers(r: Report, f: &DoctorFacts) -> (out: Report)
    requires
        f.wf(),
    ensures
        out@ == on_tiers(r@, *f),
{
    let plan = opt_ref(&f.plan);
    let told = r.section(
        "Tier-Aware",
        tier_aware(opt_ref(&f.default_tier), opt_ref(&f.tier), &f.agent),
    ).section("tier_distribution", tier_distribution(&f.tier_reply, plan, &f.tier_shares)).section(
        "escalation_rate",
        escalation_rate(&f.rate_reply, plan, f.rate_share.as_str()),
    );
    match &f.escalation {
        Some(e) => told.section(
            "escalation report (--escalation)",
            escalation_report(&e.reply, plan, e.overall.as_str(), &e.shares),
        ),
        None => told,
    }
}

/// The whole report, what is said on the error channel, and how the command
/// ends: with an error if and only if one of the findings is one.
pub fn run(f: &DoctorFacts) -> (r: Outcome)
    requires
        f.wf(),
    ensures
        r.stdout@ == ({
            let lines = full_report(*f).line(""@).line(summary(full_report(*f).tally)).lines;
            ended_lines(lines, lines.len())
        }),
        r.stderr@ == ended_lines(
            overlap_complaint(f.layout, f.agent),
            overlap_complaint(f.layout, f.agent).len(),
        ),
        r.end@ == if full_report(*f).tally.contains(Severity::Error) {
            EndView::Exit(1)
        } else {
            EndView::Done
        },
{
    let told = tell_tiers(tell_data(tell_installation(open_report(f), f), f), f);
    let schema = check_schema_version(&f.schema_health, opt_ref(&f.pinned));
    let vec = check_sqlite_vec(&f.vec_health);
    let sep = separation(&f.layout, &f.agent);
    let complaint = sep.1;
    let r = told.section("Skills", skills(&f.skills, &f.agent)).section(
        "schema_version (components.json)",
        Report::new().note(schema.0, schema.1.as_str()),
    ).section("sqlite-vec probe", Report::new().note(vec.0, vec.1.as_str())).section(
        "Path separation invariant (LM-8)",
        sep.0,
    );
    assert(r@ == full_report(*f));
    let ghost tally = r.tally@;
    let errors = count_of(&r.tally, Severity::Error);
    let e = decimal(errors as u64);
    let w = decimal(count_of(&r.tally, Severity::Warn) as u64);
    let i = decimal(count_of(&r.tally, Severity::Info) as u64);
    let s = cat4("[Summary] errors=", e.as_str(), " warnings=", w.as_str());
    let all = r.say("").line(cat3(s.as_str(), " info=", i.as_str()));
    proof {
        crate::doctor_report::counted_iff_found(tally, Severity::Error);
        assert(all@.lines.len() == all.lines@.len());
        assert(texts(complaint@).len() == complaint@.len());
    }
    Outcome {
        stdout: end_lines(&all.lines),
        stderr: end_lines(&complaint),
        end: if errors > 0 {
            End::Exit(1)
        } else {
            End::Done
        },
    }
}

/// The name of a gravity in the JSON form.
pub open spec fn status_of(sev: Severity) -> Seq<char> {
    match sev {
        Severity::Good => "ok"@,
        Severity::Info => "info"@,
        Severity::Warn => "warn"@,
        Severity::Error => "error"@,
    }
}

fn status(sev: Severity) -> (r: &'static str)
    ensures
        r@ == status_of(sev),
{
    match sev {
        Severity::Good => "ok",
        Severity::Info => "info",
        Severity::Warn => "warn",
        Severity::Error => "error",
    }
}

/// One finding in the JSON form.
pub open spec fn check_json(name: Seq<char>, sev: Severity, details: Seq<char>) -> JsonView {
    empty_object().with("name"@, JsonView::Text(name)).with(
        "status"@,
        JsonView::Text(status_of(sev)),
    ).with("details"@, JsonView::Text(details))
}

fn check(name: &str, sev: Severity, details: &str) -> (r: Json)
    ensures
        r@ == check_json(name@, sev, details@),
{
    object().with("name", text(name)).with("status", text(status(sev))).with(
        "details",
        text(details),
    )
}

/// Whether the daemon answers.
pub open spec fn health_finding(health: Result<Json, String>) -> (Severity, Seq<char>) {
    match health {
        Ok(h) => (Severity::Good, compact(h@)),
        Err(e) => (Severity::Error, "daemon unreachable: "@ + e@),
    }
}

/// Whether the data lies apart from the plugin directory.
pub open spec fn apart_finding(data_dir: Seq<char>, a: Agent) -> (Severity, Seq<char>) {
    if is_in_plugin_dir(data_dir, a) {
        (Severity::Error, "data dir "@ + data_dir + " overlaps plugin dir"@)
    } else {
        (Severity::Good, "data dir "@ + data_dir + " is safe"@)
    }
}

/// What is found for the report in the JSON form.
pub struct JsonFacts {
    pub agent: Agent,
    pub health: Result<Json, String>,
    pub data_dir: String,
    pub schema_health: Result<Json, String>,
    pub pinned: Option<String>,
    pub vec_health: Result<Json, String>,
}

/// Whether one of the findings in the JSON form is an error.
pub open spec fn any_error(f: JsonFacts) -> bool {
    ||| health_finding(f.health).0 == Severity::Error
    ||| apart_finding(f.data_dir@, f.agent).0 == Severity::Error
    ||| schema_finding(f.schema_health, opt_string(f.pinned)).0 == Severity::Error
    ||| vec_finding(f.vec_health).0 == Severity::Error
}

/// The report in the JSON form.
pub open spec fn json_report(f: JsonFacts) -> JsonView {
    let health = health_finding(f.health);
    let apart = apart_finding(f.data_dir@, f.agent);
    let schema = schema_finding(f.schema_health, opt_string(f.pinned));
    let vec = vec_finding(f.vec_health);
    empty_object().with(
        "checks"@,
        JsonView::Array(
            seq![
                check_json("daemon"@, health.0, health.1),
                check_json("path_separation"@, apart.0, apart.1),
                check_json("schema_version"@, schema.0, schema.1),
                check_json("sqlite_vec"@, vec.0, vec.1),
            ],
        ),
    ).with("any_error"@, JsonView::Bool(any_error(f)))
}

/// The report in the JSON form, and whether one of its findings is an error.
pub fn run_json(f: &JsonFacts) -> (r: (Json, bool))
    ensures
        r.0@ == json_report(*f),
        r.1 == any_error(*f),
{
    let health = match &f.health {
        Ok(h) => (Severity::Good, to_text(h)),
        Err(e) => (Severity::Error, cat2("daemon unreachable: ", e.as_str())),
    };
    let apart = if path_overlaps_plugin_dir(f.data_dir.as_str(), &f.agent) {
        (Severity::Error, cat3("data dir ", f.data_dir.as_str(), " overlaps plugin dir"))
    } else {
        (Severity::Good, cat3("data dir ", f.data_dir.as_str(), " is safe"))
    };
    let schema = check_schema_version(&f.schema_health, opt_ref(&f.pinned));
    let vec = check_sqlite_vec(&f.vec_health);
    let failed = health.0 == Severity::Error || apart.0 == Severity::Error || schema.0
        == Severity::Error || vec.0 == Severity::Error;
    let mut checks: Vec<Json> = Vec::new();
    checks.push(check("daemon", health.0, health.1.as_str()));
    checks.push(check("path_separation", apart.0, apart.1.as_str()));
    checks.push(check("schema_version", schema.0, schema.1.as_str()));
    checks.push(check("sqlite_vec", vec.0, vec.1.as_str()));
    assert(views(checks@) =~= seq![
        check_json("daemon"@, health.0, health.1@),
        check_json("path_separation"@, apart.0, apart.1@),
        check_json("schema_version"@, schema.0, schema.1@),
        check_json("sqlite_vec"@, vec.0, vec.1@),
    ]);
    (object().with("checks", array(checks)).with("any_error", Json::Bool(failed)), failed)
}

} // verus!
