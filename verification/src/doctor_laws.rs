//! What the health report tells, read from its lines, its findings and its end.

use vstd::prelude::*;
use crate::agent::Agent;
use crate::doctor::{audit_known, audit_view, breaks, database_view, project_view};
use crate::doctor_checks::{freshness_severity, Severity, Timestamp};
use crate::doctor_data::{
    activity_view, data_loss_view, listed_upto, overlap_view, permissions_view, remnants_view,
};
use crate::doctor_hooks::{files_upto, hooks_view, mcp_view, HOOK_FILES};
use crate::doctor_local::{
    daemon_view, legacy_view, overrides_upto, places_view, separation_view, DaemonFacts,
};
use crate::doctor_locale::{i18n_view, skills_view};
use crate::doctor_plugin::{compatibility_view, install_view};
use crate::doctor_report::{blank, marked, ReportView};
use crate::doctor_run::{
    any_error, check_json, closing, count_of_tasks, daemon_version, full_report, json_report,
    on_data, on_installation, on_tiers, opening, opt_file, schema_finding, vec_finding, DoctorFacts,
    JsonFacts,
};
use crate::doctor_tiers::{
    escalation_rate_view, is_lowest, raised, tier_aware_view, tier_distribution_view,
};
use crate::json::{
    empty_has_no_member, get_after_with, with_stays_object, Json, JsonView,
};
use crate::paths::is_in_plugin_dir;
use crate::scan::{opt_string};
use crate::text::{dec_int, texts};

verus! {

/// Everything that the one report tells, its lines and its findings, the other
/// tells too.
pub open spec fn is_told_in(a: ReportView, b: ReportView) -> bool {
    &&& forall|l: Seq<char>| #[trigger] a.lines.contains(l) ==> b.lines.contains(l)
    &&& forall|s: Severity| #[trigger] a.tally.contains(s) ==> b.tally.contains(s)
}

/// The section has its title in the report, and all that it says is told there.
pub open spec fn has_section(r: ReportView, title: Seq<char>, body: ReportView) -> bool {
    r.lines.contains("["@ + title + "]"@) && is_told_in(body, r)
}

proof fn told_on(a: ReportView, b: ReportView, c: ReportView)
    requires
        is_told_in(a, b),
        is_told_in(b, c),
    ensures
        is_told_in(a, c),
{
    assert forall|l: Seq<char>| #[trigger] a.lines.contains(l) implies c.lines.contains(l) by {
        assert(b.lines.contains(l));
    }
    assert forall|s: Severity| #[trigger] a.tally.contains(s) implies c.tally.contains(s) by {
        assert(b.tally.contains(s));
    }
}

proof fn section_tells(r: ReportView, title: Seq<char>, body: ReportView)
    ensures
        is_told_in(r, r.section(title, body)),
        has_section(r.section(title, body), title, body),
{
    let out = r.section(title, body);
    let n = r.lines.len() as int;
    assert(out.lines[n] == "["@ + title + "]"@);
    assert forall|l: Seq<char>| #[trigger] r.lines.contains(l) implies out.lines.contains(l) by {
        let i = choose|i: int| 0 <= i < r.lines.len() && r.lines[i] == l;
        assert(out.lines[i] == l);
    }
    assert forall|l: Seq<char>| #[trigger] body.lines.contains(l) implies out.lines.contains(l) by {
        let i = choose|i: int| 0 <= i < body.lines.len() && body.lines[i] == l;
        assert(out.lines[n + 1 + i] == l);
    }
    assert forall|s: Severity| #[trigger] r.tally.contains(s) implies out.tally.contains(s) by {
        let i = choose|i: int| 0 <= i < r.tally.len() && r.tally[i] == s;
        assert(out.tally[i] == s);
    }
    assert forall|s: Severity| #[trigger] body.tally.contains(s) implies out.tally.contains(s) by {
        let i = choose|i: int| 0 <= i < body.tally.len() && body.tally[i] == s;
        assert(out.tally[r.tally.len() + i] == s);
    }
}

proof fn section_stays(
    x: ReportView,
    name: Seq<char>,
    r: ReportView,
    title: Seq<char>,
    body: ReportView,
)
    requires
        has_section(r, name, x),
    ensures
        has_section(r.section(title, body), name, x),
{
    section_tells(r, title, body);
    told_on(x, r, r.section(title, body));
}

proof fn section_goes_on(x: ReportView, name: Seq<char>, r: ReportView, more: ReportView)
    requires
        has_section(r, name, x),
        is_told_in(r, more),
    ensures
        has_section(more, name, x),
{
    told_on(x, r, more);
}

/// What is found of the schema.
pub open spec fn schema_note(f: DoctorFacts) -> ReportView {
    let schema = schema_finding(f.schema_health, opt_string(f.pinned));
    blank().note(schema.0, schema.1)
}

/// What is found of the search by likeness.
pub open spec fn vec_note(f: DoctorFacts) -> ReportView {
    let vec = vec_finding(f.vec_health);
    blank().note(vec.0, vec.1)
}

proof fn opening_tells(f: DoctorFacts)
    ensures
        has_section(opening(f), "Environment overrides"@, overrides_upto(f.overrides@, 8)),
        has_section(opening(f), "Paths"@, places_view(f.layout, f.presence)),
        has_section(opening(f), "Daemon"@, daemon_view(f.daemon, f.layout.socket@)),
{
    let r0 = blank().line("Clawket doctor"@).line("=============="@).line(""@);
    let b1 = overrides_upto(f.overrides@, 8);
    let r1 = r0.section("Environment overrides"@, b1);
    section_tells(r0, "Environment overrides"@, b1);
    let b2 = places_view(f.layout, f.presence);
    let r2 = r1.section("Paths"@, b2);
    section_tells(r1, "Paths"@, b2);
    section_stays(b1, "Environment overrides"@, r1, "Paths"@, b2);
    let b3 = daemon_view(f.daemon, f.layout.socket@);
    let r3 = r2.section("Daemon"@, b3);
    section_tells(r2, "Daemon"@, b3);
    section_stays(b1, "Environment overrides"@, r2, "Daemon"@, b3);
    section_stays(b2, "Paths"@, r2, "Daemon"@, b3);
}

proof fn on_installation_tells(r: ReportView, f: DoctorFacts)
    ensures
        is_told_in(r, on_installation(r, f)),
        has_section(on_installation(r, f), "Database"@, database_view(f.layout.db@, f.presence.db, f.db_mib@, f.entities@)),
        has_section(on_installation(r, f), "Hooks"@, hooks_view(f.hooks, f.agent)),
        has_section(on_installation(r, f), "MCP"@, mcp_view(f.exe)),
        has_section(on_installation(r, f), "Plugin install"@, install_view(f.install, f.agent)),
        has_section(on_installation(r, f), "Compatibility"@, compatibility_view(
        f.install.version@,
        daemon_version(f.daemon.health),
        opt_file(f.package),
        opt_file(f.components),
    )),
        has_section(on_installation(r, f), "i18n"@, i18n_view(f.locale)),
        has_section(on_installation(r, f), "Audit log"@, audit_view(f.audit)),
{
    let r0 = r;
    let b1 = database_view(f.layout.db@, f.presence.db, f.db_mib@, f.entities@);
    let r1 = r0.section("Database"@, b1);
    section_tells(r0, "Database"@, b1);
    let b2 = hooks_view(f.hooks, f.agent);
    let r2 = r1.section("Hooks"@, b2);
    section_tells(r1, "Hooks"@, b2);
    section_stays(b1, "Database"@, r1, "Hooks"@, b2);
    told_on(r, r1, r2);
    let b3 = mcp_view(f.exe);
    let r3 = r2.section("MCP"@, b3);
    section_tells(r2, "MCP"@, b3);
    section_stays(b1, "Database"@, r2, "MCP"@, b3);
    section_stays(b2, "Hooks"@, r2, "MCP"@, b3);
    told_on(r, r2, r3);
    let b4 = install_view(f.install, f.agent);
    let r4 = r3.section("Plugin install"@, b4);
    section_tells(r3, "Plugin install"@, b4);
    section_stays(b1, "Database"@, r3, "Plugin install"@, b4);
    section_stays(b2, "Hooks"@, r3, "Plugin install"@, b4);
    section_stays(b3, "MCP"@, r3, "Plugin install"@, b4);
    told_on(r, r3, r4);
    let b5 = compatibility_view(
        f.install.version@,
        daemon_version(f.daemon.health),
        opt_file(f.package),
        opt_file(f.components),
    );
    let r5 = r4.section("Compatibility"@, b5);
    section_tells(r4, "Compatibility"@, b5);
    section_stays(b1, "Database"@, r4, "Compatibility"@, b5);
    section_stays(b2, "Hooks"@, r4, "Compatibility"@, b5);
    section_stays(b3, "MCP"@, r4, "Compatibility"@, b5);
    section_stays(b4, "Plugin install"@, r4, "Compatibility"@, b5);
    told_on(r, r4, r5);
    let b6 = i18n_view(f.locale);
    let r6 = r5.section("i18n"@, b6);
    section_tells(r5, "i18n"@, b6);
    section_stays(b1, "Database"@, r5, "i18n"@, b6);
    section_stays(b2, "Hooks"@, r5, "i18n"@, b6);
    section_stays(b3, "MCP"@, r5, "i18n"@, b6);
    section_stays(b4, "Plugin install"@, r5, "i18n"@, b6);
    section_stays(b5, "Compatibility"@, r5, "i18n"@, b6);
    told_on(r, r5, r6);
    let b7 = audit_view(f.audit);
    let r7 = r6.section("Audit log"@, b7);
    section_tells(r6, "Audit log"@, b7);
    section_stays(b1, "Database"@, r6, "Audit log"@, b7);
    section_stays(b2, "Hooks"@, r6, "Audit log"@, b7);
    section_stays(b3, "MCP"@, r6, "Audit log"@, b7);
    section_stays(b4, "Plugin install"@, r6, "Audit log"@, b7);
    section_stays(b5, "Compatibility"@, r6, "Audit log"@, b7);
    section_stays(b6, "i18n"@, r6, "Audit log"@, b7);
    told_on(r, r6, r7);
}

proof fn on_data_tells(r: ReportView, f: DoctorFacts)
    ensures
        is_told_in(r, on_data(r, f)),
        has_section(on_data(r, f), "Data loss risk diagnostics (LM-9)"@, data_loss_view(f.data_loss, f.layout.data@, count_of_tasks(f), f.agent)),
        has_section(on_data(r, f), "activity_log retention (LM-69)"@, activity_view(f.activity, f.activity_mib@, f.activity_percent@)),
        has_section(on_data(r, f), "Project enable state (LM-8)"@, project_view(f.cwd, f.project)),
        has_section(on_data(r, f), "Legacy lattice data"@, legacy_view(f.legacy_dir@, f.legacy_db_there)),
{
    let r0 = r;
    let b1 = data_loss_view(f.data_loss, f.layout.data@, count_of_tasks(f), f.agent);
    let r1 = r0.section("Data loss risk diagnostics (LM-9)"@, b1);
    section_tells(r0, "Data loss risk diagnostics (LM-9)"@, b1);
    let b2 = activity_view(f.activity, f.activity_mib@, f.activity_percent@);
    let r2 = r1.section("activity_log retention (LM-69)"@, b2);
    section_tells(r1, "activity_log retention (LM-69)"@, b2);
    section_stays(b1, "Data loss risk diagnostics (LM-9)"@, r1, "activity_log retention (LM-69)"@, b2);
    told_on(r, r1, r2);
    let b3 = project_view(f.cwd, f.project);
    let r3 = r2.section("Project enable state (LM-8)"@, b3);
    section_tells(r2, "Project enable state (LM-8)"@, b3);
    section_stays(b1, "Data loss risk diagnostics (LM-9)"@, r2, "Project enable state (LM-8)"@, b3);
    section_stays(b2, "activity_log retention (LM-69)"@, r2, "Project enable state (LM-8)"@, b3);
    told_on(r, r2, r3);
    let b4 = legacy_view(f.legacy_dir@, f.legacy_db_there);
    let r4 = r3.section("Legacy lattice data"@, b4);
    section_tells(r3, "Legacy lattice data"@, b4);
    section_stays(b1, "Data loss risk diagnostics (LM-9)"@, r3, "Legacy lattice data"@, b4);
    section_stays(b2, "activity_log retention (LM-69)"@, r3, "Legacy lattice data"@, b4);
    section_stays(b3, "Project enable state (LM-8)"@, r3, "Legacy lattice data"@, b4);
    told_on(r, r3, r4);
}

proof fn on_tiers_tells(r: ReportView, f: DoctorFacts)
    ensures
        is_told_in(r, on_tiers(r, f)),
        has_section(on_tiers(r, f), "Tier-Aware"@, tier_aware_view(opt_string(f.default_tier), opt_string(f.tier), f.agent)),
        has_section(on_tiers(r, f), "tier_distribution"@, tier_distribution_view(f.tier_reply, opt_string(f.plan), texts(f.tier_shares@))),
        has_section(on_tiers(r, f), "escalation_rate"@, escalation_rate_view(f.rate_reply, opt_string(f.plan), f.rate_share@)),
{
    let r0 = r;
    let b1 = tier_aware_view(opt_string(f.default_tier), opt_string(f.tier), f.agent);
    let r1 = r0.section("Tier-Aware"@, b1);
    section_tells(r0, "Tier-Aware"@, b1);
    let b2 = tier_distribution_view(f.tier_reply, opt_string(f.plan), texts(f.tier_shares@));
    let r2 = r1.section("tier_distribution"@, b2);
    section_tells(r1, "tier_distribution"@, b2);
    section_stays(b1, "Tier-Aware"@, r1, "tier_distribution"@, b2);
    told_on(r, r1, r2);
    let b3 = escalation_rate_view(f.rate_reply, opt_string(f.plan), f.rate_share@);
    let r3 = r2.section("escalation_rate"@, b3);
    section_tells(r2, "escalation_rate"@, b3);
    section_stays(b1, "Tier-Aware"@, r2, "escalation_rate"@, b3);
    section_stays(b2, "tier_distribution"@, r2, "escalation_rate"@, b3);
    told_on(r, r2, r3);
    if let Some(e) = f.escalation {
        let title = "escalation report (--escalation)"@;
        let last = crate::doctor_tiers::escalation_report_view(
            e.reply,
            opt_string(f.plan),
            e.overall@,
            texts(e.shares@),
        );
        section_tells(r3, title, last);
        told_on(r, r3, r3.section(title, last));
        section_stays(b1, "Tier-Aware"@, r3, title, last);
        section_stays(b2, "tier_distribution"@, r3, title, last);
        section_stays(b3, "escalation_rate"@, r3, title, last);
    }
}

proof fn closing_tells(r: ReportView, f: DoctorFacts)
    ensures
        is_told_in(r, closing(r, f)),
        has_section(closing(r, f), "Skills"@, skills_view(f.skills, f.agent)),
        has_section(closing(r, f), "schema_version (components.json)"@, schema_note(f)),
        has_section(closing(r, f), "sqlite-vec probe"@, vec_note(f)),
        has_section(closing(r, f), "Path separation invariant (LM-8)"@, separation_view(f.layout, f.agent)),
{
    let r0 = r;
    let b1 = skills_view(f.skills, f.agent);
    let r1 = r0.section("Skills"@, b1);
    section_tells(r0, "Skills"@, b1);
    let b2 = schema_note(f);
    let r2 = r1.section("schema_version (components.json)"@, b2);
    section_tells(r1, "schema_version (components.json)"@, b2);
    section_stays(b1, "Skills"@, r1, "schema_version (components.json)"@, b2);
    told_on(r, r1, r2);
    let b3 = vec_note(f);
    let r3 = r2.section("sqlite-vec probe"@, b3);
    section_tells(r2, "sqlite-vec probe"@, b3);
    section_stays(b1, "Skills"@, r2, "sqlite-vec probe"@, b3);
    section_stays(b2, "schema_version (components.json)"@, r2, "sqlite-vec probe"@, b3);
    told_on(r, r2, r3);
    let b4 = separation_view(f.layout, f.agent);
    let r4 = r3.section("Path separation invariant (LM-8)"@, b4);
    section_tells(r3, "Path separation invariant (LM-8)"@, b4);
    section_stays(b1, "Skills"@, r3, "Path separation invariant (LM-8)"@, b4);
    section_stays(b2, "schema_version (components.json)"@, r3, "Path separation invariant (LM-8)"@, b4);
    section_stays(b3, "sqlite-vec probe"@, r3, "Path separation invariant (LM-8)"@, b4);
    told_on(r, r3, r4);
}

/// The report has a section for each of its subjects, and every line and every
/// finding of a section is in the report.
pub proof fn reports_tell_every_section(f: DoctorFacts)
    ensures
        has_section(full_report(f), "Environment overrides"@, overrides_upto(f.overrides@, 8)),
        has_section(full_report(f), "Paths"@, places_view(f.layout, f.presence)),
        has_section(full_report(f), "Daemon"@, daemon_view(f.daemon, f.layout.socket@)),
        has_section(full_report(f), "Database"@, database_view(f.layout.db@, f.presence.db, f.db_mib@, f.entities@)),
        has_section(full_report(f), "Hooks"@, hooks_view(f.hooks, f.agent)),
        has_section(full_report(f), "MCP"@, mcp_view(f.exe)),
        has_section(full_report(f), "Plugin install"@, install_view(f.install, f.agent)),
        has_section(full_report(f), "Compatibility"@, compatibility_view(
        f.install.version@,
        daemon_version(f.daemon.health),
        opt_file(f.package),
        opt_file(f.components),
    )),
        has_section(full_report(f), "i18n"@, i18n_view(f.locale)),
        has_section(full_report(f), "Audit log"@, audit_view(f.audit)),
        has_section(full_report(f), "Data loss risk diagnostics (LM-9)"@, data_loss_view(f.data_loss, f.layout.data@, count_of_tasks(f), f.agent)),
        has_section(full_report(f), "activity_log retention (LM-69)"@, activity_view(f.activity, f.activity_mib@, f.activity_percent@)),
        has_section(full_report(f), "Project enable state (LM-8)"@, project_view(f.cwd, f.project)),
        has_section(full_report(f), "Legacy lattice data"@, legacy_view(f.legacy_dir@, f.legacy_db_there)),
        has_section(full_report(f), "Tier-Aware"@, tier_aware_view(opt_string(f.default_tier), opt_string(f.tier), f.agent)),
        has_section(full_report(f), "tier_distribution"@, tier_distribution_view(f.tier_reply, opt_string(f.plan), texts(f.tier_shares@))),
        has_section(full_report(f), "escalation_rate"@, escalation_rate_view(f.rate_reply, opt_string(f.plan), f.rate_share@)),
        has_section(full_report(f), "Skills"@, skills_view(f.skills, f.agent)),
        has_section(full_report(f), "schema_version (components.json)"@, schema_note(f)),
        has_section(full_report(f), "sqlite-vec probe"@, vec_note(f)),
        has_section(full_report(f), "Path separation invariant (LM-8)"@, separation_view(f.layout, f.agent)),
{
    let s1 = opening(f);
    let s2 = on_installation(s1, f);
    let s3 = on_data(s2, f);
    let s4 = on_tiers(s3, f);
    let s5 = closing(s4, f);
    opening_tells(f);
    on_installation_tells(s1, f);
    on_data_tells(s2, f);
    on_tiers_tells(s3, f);
    closing_tells(s4, f);
    told_on(s3, s4, s5);
    told_on(s2, s3, s5);
    told_on(s1, s2, s5);
    section_goes_on(overrides_upto(f.overrides@, 8), "Environment overrides"@, s1, s5);
    section_goes_on(places_view(f.layout, f.presence), "Paths"@, s1, s5);
    section_goes_on(daemon_view(f.daemon, f.layout.socket@), "Daemon"@, s1, s5);
    section_goes_on(database_view(f.layout.db@, f.presence.db, f.db_mib@, f.entities@), "Database"@, s2, s5);
    section_goes_on(hooks_view(f.hooks, f.agent), "Hooks"@, s2, s5);
    section_goes_on(mcp_view(f.exe), "MCP"@, s2, s5);
    section_goes_on(install_view(f.install, f.agent), "Plugin install"@, s2, s5);
    section_goes_on(compatibility_view(
        f.install.version@,
        daemon_version(f.daemon.health),
        opt_file(f.package),
        opt_file(f.components),
    ), "Compatibility"@, s2, s5);
    section_goes_on(i18n_view(f.locale), "i18n"@, s2, s5);
    section_goes_on(audit_view(f.audit), "Audit log"@, s2, s5);
    section_goes_on(data_loss_view(f.data_loss, f.layout.data@, count_of_tasks(f), f.agent), "Data loss risk diagnostics (LM-9)"@, s3, s5);
    section_goes_on(activity_view(f.activity, f.activity_mib@, f.activity_percent@), "activity_log retention (LM-69)"@, s3, s5);
    section_goes_on(project_view(f.cwd, f.project), "Project enable state (LM-8)"@, s3, s5);
    section_goes_on(legacy_view(f.legacy_dir@, f.legacy_db_there), "Legacy lattice data"@, s3, s5);
    section_goes_on(tier_aware_view(opt_string(f.default_tier), opt_string(f.tier), f.agent), "Tier-Aware"@, s4, s5);
    section_goes_on(tier_distribution_view(f.tier_reply, opt_string(f.plan), texts(f.tier_shares@)), "tier_distribution"@, s4, s5);
    section_goes_on(escalation_rate_view(f.rate_reply, opt_string(f.plan), f.rate_share@), "escalation_rate"@, s4, s5);
}

/// One finding that is noted: its line bears its mark, and it is counted.
pub proof fn notes_are_marked_and_counted(r: ReportView, sev: Severity, s: Seq<char>)
    ensures
        r.note(sev, s).lines == r.lines.push("  "@ + sev.mark() + " "@ + s),
        r.note(sev, s).tally == r.tally.push(sev),
        r.note(sev, s).tally.contains(sev),
{
    assert(r.note(sev, s).tally[r.tally.len() as int] == sev);
}

/// Different gravities have different marks.
pub proof fn marks_differ(a: Severity, b: Severity)
    ensures
        a.mark() == b.mark() ==> a == b,
{
    reveal_strlit("[OK]");
    reveal_strlit("[INFO]");
    reveal_strlit("[WARN]");
    reveal_strlit("[ERROR]");
    assert("[OK]"@.len() == 4);
    assert("[INFO]"@.len() == 6);
    assert("[WARN]"@.len() == 6);
    assert("[ERROR]"@.len() == 7);
    assert("[INFO]"@[1] != "[WARN]"@[1]);
}

/// A daemon that answers is well; one that does not is an error where its
/// program is there, and only noted where it is not installed. Nothing else is
/// found of it.
pub proof fn daemons_are_judged_by_their_answer(f: DaemonFacts, socket: Seq<char>)
    ensures
        daemon_view(f, socket).tally == seq![
            if f.health is Ok {
                Severity::Good
            } else if f.binary is Some {
                Severity::Error
            } else {
                Severity::Info
            },
        ],
{
    let want = seq![
        if f.health is Ok {
            Severity::Good
        } else if f.binary is Some {
            Severity::Error
        } else {
            Severity::Info
        },
    ];
    assert(daemon_view(f, socket).tally =~= want);
}

/// The schema is right exactly where the daemon's number is the pinned one; a
/// number that differs is an error.
pub proof fn schemas_are_compared(h: Json, n: int, pinned: Seq<char>)
    requires
        h@.i64_at("schema_version"@) == Some(n),
        dec_int(n) != "unknown"@,
    ensures
        schema_finding(Ok(h), Some(pinned)).0 == (if dec_int(n) == pinned {
            Severity::Good
        } else {
            Severity::Error
        }),
        schema_finding(Ok(h), None).0 == Severity::Info,
{
}

/// Without an answer, or without a number in it, the schema is doubtful and
/// never right.
pub proof fn unknown_schemas_are_doubtful(h: Json, e: String, pinned: Option<Seq<char>>)
    requires
        h@.i64_at("schema_version"@) is None,
    ensures
        schema_finding(Err(e), pinned).0 == Severity::Warn,
        pinned matches Some(p) && p != "unknown"@ ==> schema_finding(Ok(h), pinned).0
            == Severity::Warn,
{
}

/// The search by likeness is well where the daemon names its version or says
/// that it is there, an error where it says that it is not, else doubtful.
pub proof fn searches_by_likeness_are_judged(h: Json, e: String)
    ensures
        h@.str_at("sqlite_vec_version"@) is Some ==> vec_finding(Ok(h)).0 == Severity::Good,
        h@.str_at("sqlite_vec_version"@) is None ==> vec_finding(Ok(h)).0 == (match h@.bool_at(
            "sqlite_vec"@,
        ) {
            Some(true) => Severity::Good,
            Some(false) => Severity::Error,
            None => Severity::Warn,
        }),
        vec_finding(Err(e)).0 == Severity::Warn,
{
}

/// Data in the plugin directory are an error, and no other data are.
pub proof fn data_in_the_plugin_directory_are_an_error(
    r: ReportView,
    data_dir: Seq<char>,
    a: Agent,
)
    ensures
        overlap_view(r, data_dir, a).tally == r.tally.push(
            if is_in_plugin_dir(data_dir, a) {
                Severity::Error
            } else {
                Severity::Good
            },
        ),
{
}

/// Data that everyone may write to are warned of, and no other data are.
pub proof fn open_data_are_warned_of(
    r: ReportView,
    data_dir: Seq<char>,
    writable: Result<bool, String>,
)
    ensures
        permissions_view(r, data_dir, writable).tally == r.tally.push(
            match writable {
                Ok(true) => Severity::Warn,
                Ok(false) => Severity::Good,
                Err(_) => Severity::Info,
            },
        ),
{
}

proof fn listed_lines(r: ReportView, items: Seq<Seq<char>>, n: nat)
    requires
        n <= items.len(),
    ensures
        listed_upto(r, items, n).tally == r.tally,
        listed_upto(r, items, n).lines.len() == r.lines.len() + n,
        forall|i: int|
            0 <= i < n ==> listed_upto(r, items, n).lines.contains("       - "@ + #[trigger] items[i]),
    decreases n,
{
    if n > 0 {
        listed_lines(r, items, (n - 1) as nat);
        let before = listed_upto(r, items, (n - 1) as nat);
        let all = listed_upto(r, items, n);
        assert forall|i: int| 0 <= i < n implies all.lines.contains(
            "       - "@ + #[trigger] items[i],
        ) by {
            if i < n - 1 {
                let k = choose|k: int|
                    0 <= k < before.lines.len() && before.lines[k] == "       - "@ + items[i];
                assert(all.lines[k] == "       - "@ + items[i]);
            } else {
                assert(all.lines[before.lines.len() as int] == "       - "@ + items[i]);
            }
        }
    }
}

/// Data that earlier versions left are warned of, each of them named.
pub proof fn remnants_are_named(r: ReportView, remnants: Seq<Seq<char>>)
    ensures
        remnants_view(r, remnants).tally == r.tally.push(
            if remnants.len() > 0 {
                Severity::Warn
            } else {
                Severity::Good
            },
        ),
        forall|i: int|
            0 <= i < remnants.len() ==> remnants_view(r, remnants).lines.contains(
                "       - "@ + #[trigger] remnants[i],
            ),
{
    if remnants.len() > 0 {
        let start = r.show(
            Severity::Warn,
            "#3 legacy remnants: "@ + crate::text::dec(remnants.len()) + " 경로 잔재 발견"@,
        );
        listed_lines(start, remnants, remnants.len());
        let list = listed_upto(start, remnants, remnants.len());
        let all = remnants_view(r, remnants);
        assert forall|i: int| 0 <= i < remnants.len() implies all.lines.contains(
            "       - "@ + #[trigger] remnants[i],
        ) by {
            let k = choose|k: int|
                0 <= k < list.lines.len() && list.lines[k] == "       - "@ + remnants[i];
            assert(all.lines[k] == "       - "@ + remnants[i]);
        }
    }
}

/// A database that was written within the last day with no backup beside it is
/// noted; an older one, one with a backup and none at all are well.
pub proof fn new_databases_are_noted(m: Timestamp, now: Timestamp, has_backup: bool)
    requires
        m.wf(),
        now.wf(),
    ensures
        freshness_severity(None, now, has_backup) == Severity::Good,
        has_backup ==> freshness_severity(Some(m), now, has_backup) == Severity::Good,
        now.secs - m.secs > 86_400 ==> freshness_severity(Some(m), now, has_backup)
            == Severity::Good,
        !has_backup && 0 < now.secs - m.secs < 86_400 ==> freshness_severity(
            Some(m),
            now,
            has_backup,
        ) == Severity::Info,
{
}

proof fn finding_keys()
    ensures
        "name"@ != "status"@,
        "name"@ != "details"@,
        "status"@ != "details"@,
{
    reveal_strlit("name");
    reveal_strlit("status");
    reveal_strlit("details");
    assert("name"@.len() == 4);
    assert("status"@.len() == 6);
    assert("details"@.len() == 7);
}

proof fn report_keys()
    ensures
        "checks"@ != "any_error"@,
{
    reveal_strlit("checks");
    reveal_strlit("any_error");
    assert("checks"@.len() == 6);
    assert("any_error"@.len() == 9);
}

/// A finding in the JSON form says its name, its gravity and its details.
pub proof fn findings_say_what_they_are(name: Seq<char>, sev: Severity, details: Seq<char>)
    ensures
        check_json(name, sev, details).str_at("name"@) == Some(name),
        check_json(name, sev, details).str_at("details"@) == Some(details),
        sev == Severity::Good ==> check_json(name, sev, details).str_at("status"@) == Some("ok"@),
        sev == Severity::Info ==> check_json(name, sev, details).str_at("status"@) == Some("info"@),
        sev == Severity::Warn ==> check_json(name, sev, details).str_at("status"@) == Some("warn"@),
        sev == Severity::Error ==> check_json(name, sev, details).str_at("status"@) == Some(
            "error"@,
        ),
        check_json(name, sev, details).str_at("status"@) == Some("error"@) ==> sev
            == Severity::Error,
{
    broadcast use get_after_with, with_stays_object, empty_has_no_member;

    finding_keys();
    reveal_strlit("ok");
    reveal_strlit("info");
    reveal_strlit("warn");
    reveal_strlit("error");
    assert("ok"@.len() == 2);
    assert("info"@.len() == 4);
    assert("warn"@.len() == 4);
    assert("error"@.len() == 5);
}

/// The JSON form has its four findings under their names, and says that there
/// is an error exactly where one of them is one.
pub proof fn json_reports_say_whether_all_is_well(f: JsonFacts)
    ensures
        ({
            let j = json_report(f);
            &&& j.array_at("checks"@) matches Some(a) && a.len() == 4 && a[0].str_at("name"@)
                == Some("daemon"@) && a[1].str_at("name"@) == Some("path_separation"@)
                && a[2].str_at("name"@) == Some("schema_version"@) && a[3].str_at("name"@) == Some(
                "sqlite_vec"@,
            ) && (j.bool_at("any_error"@) == Some(true) <==> a[0].str_at("status"@) == Some(
                "error"@,
            ) || a[1].str_at("status"@) == Some("error"@) || a[2].str_at("status"@) == Some(
                "error"@,
            ) || a[3].str_at("status"@) == Some("error"@)) && (a[0].str_at("status"@) == Some(
                "error"@,
            ) <==> f.health is Err) && (a[1].str_at("status"@) == Some("error"@)
                <==> is_in_plugin_dir(f.data_dir@, f.agent))
            &&& j.bool_at("any_error"@) == Some(any_error(f))
        }),
{
    let health = crate::doctor_run::health_finding(f.health);
    let apart = crate::doctor_run::apart_finding(f.data_dir@, f.agent);
    let schema = schema_finding(f.schema_health, opt_string(f.pinned));
    let vec = vec_finding(f.vec_health);
    findings_say_what_they_are("daemon"@, health.0, health.1);
    findings_say_what_they_are("path_separation"@, apart.0, apart.1);
    findings_say_what_they_are("schema_version"@, schema.0, schema.1);
    findings_say_what_they_are("sqlite_vec"@, vec.0, vec.1);
    json_members(f);
}

proof fn json_members(f: JsonFacts)
    ensures
        ({
            let health = crate::doctor_run::health_finding(f.health);
            let apart = crate::doctor_run::apart_finding(f.data_dir@, f.agent);
            let schema = schema_finding(f.schema_health, opt_string(f.pinned));
            let vec = vec_finding(f.vec_health);
            &&& json_report(f).get("checks"@) == Some(
                JsonView::Array(
                    seq![
                        check_json("daemon"@, health.0, health.1),
                        check_json("path_separation"@, apart.0, apart.1),
                        check_json("schema_version"@, schema.0, schema.1),
                        check_json("sqlite_vec"@, vec.0, vec.1),
                    ],
                ),
            )
            &&& json_report(f).get("any_error"@) == Some(JsonView::Bool(any_error(f)))
        }),
{
    broadcast use get_after_with, with_stays_object, empty_has_no_member;

    report_keys();
}

/// What is found to be an error is one of the whole report: a daemon that is
/// there and does not answer, another schema than the pinned one, and a search
/// by likeness that is not there.
pub proof fn errors_reach_the_report(f: DoctorFacts)
    ensures
        f.daemon.health is Err && f.daemon.binary is Some ==> full_report(f).tally.contains(
            Severity::Error,
        ),
        schema_finding(f.schema_health, opt_string(f.pinned)).0 == Severity::Error ==> full_report(
            f,
        ).tally.contains(Severity::Error),
        vec_finding(f.vec_health).0 == Severity::Error ==> full_report(f).tally.contains(
            Severity::Error,
        ),
{
    reports_tell_every_section(f);
    let d = daemon_view(f.daemon, f.layout.socket@);
    daemons_are_judged_by_their_answer(f.daemon, f.layout.socket@);
    assert(d.tally.contains(d.tally[0]));
    let schema = schema_finding(f.schema_health, opt_string(f.pinned));
    notes_are_marked_and_counted(blank(), schema.0, schema.1);
    assert(schema_note(f).tally.contains(schema.0));
    let vec = vec_finding(f.vec_health);
    notes_are_marked_and_counted(blank(), vec.0, vec.1);
    assert(vec_note(f).tally.contains(vec.0));
}

/// A chain that is broken is an error, and one that is not is none; too short a
/// chain is only noted.
pub proof fn broken_chains_are_an_error(entries: Seq<JsonView>)
    ensures
        entries.len() < 2 ==> audit_known(entries).tally == seq![Severity::Info],
        entries.len() >= 2 ==> (audit_known(entries).tally == seq![Severity::Error] <==> exists|
            k: int,
        |
            0 <= k && k + 1 < entries.len() && #[trigger] breaks(entries[k], entries[k + 1])),
        entries.len() >= 2 ==> audit_known(entries).tally == seq![Severity::Error] || audit_known(
            entries,
        ).tally == seq![Severity::Good],
{
    crate::doctor::chain_is_whole(entries, 0);
    let t = audit_known(entries).tally;
    if entries.len() < 2 {
        assert(t =~= seq![Severity::Info]);
    } else if crate::doctor::first_break(entries, 0) is None {
        assert(t =~= seq![Severity::Good]);
        assert(t[0] == Severity::Good);
        assert(seq![Severity::Error][0] == Severity::Error);
    } else {
        let k = crate::doctor::first_break(entries, 0)->0;
        assert(breaks(entries[k], entries[k + 1]));
        assert(t =~= seq![Severity::Error]);
    }
}

proof fn raised_are_counted(tasks: Seq<JsonView>, n: nat)
    requires
        n <= tasks.len(),
    ensures
        raised(tasks, n) == tasks.take(n as int).filter(
            |t: JsonView| !is_lowest(t.str_or("tier"@, "none"@)),
        ).len(),
    decreases n,
{
    reveal(Seq::filter);
    if n > 0 {
        raised_are_counted(tasks, (n - 1) as nat);
        assert(tasks.take(n as int).drop_last() =~= tasks.take(n - 1));
        assert(tasks.take(n as int).last() == tasks[n - 1]);
    } else {
        assert(tasks.take(0).len() == 0);
    }
}

/// The escalated tasks are those that are not of the lowest tier, and a task
/// without a tier is of the lowest.
pub proof fn escalated_tasks_are_counted(tasks: Seq<JsonView>)
    ensures
        raised(tasks, tasks.len()) == tasks.filter(
            |t: JsonView| !is_lowest(t.str_or("tier"@, "none"@)),
        ).len(),
        is_lowest("low"@),
        is_lowest("none"@),
        !is_lowest("med"@),
        !is_lowest("high"@),
{
    raised_are_counted(tasks, tasks.len());
    assert(tasks.take(tasks.len() as int) =~= tasks);
    reveal_strlit("low");
    reveal_strlit("haiku");
    reveal_strlit("none");
    reveal_strlit("g1");
    reveal_strlit("med");
    reveal_strlit("high");
    assert("low"@.len() == 3);
    assert("haiku"@.len() == 5);
    assert("none"@.len() == 4);
    assert("g1"@.len() == 2);
    assert("med"@.len() == 3);
    assert("high"@.len() == 4);
    assert("low"@[0] != "med"@[0]);
    assert("none"@[0] != "high"@[0]);
}

proof fn files_are_listed(r: ReportView, present: Seq<bool>, n: nat)
    requires
        n <= 7,
        present.len() == 7,
    ensures
        files_upto(r, present, n).lines.len() == r.lines.len() + n,
        files_upto(r, present, n).tally == r.tally,
        forall|i: int| 0 <= i < r.lines.len() ==> files_upto(r, present, n).lines[i] == r.lines[i],
        forall|i: int|
            0 <= i < n ==> files_upto(r, present, n).lines[r.lines.len() + i] == (if present[i] {
                marked(Severity::Good, #[trigger] HOOK_FILES[i]@)
            } else {
                marked(Severity::Error, HOOK_FILES[i]@ + " (missing)"@)
            }),
    decreases n,
{
    if n > 0 {
        files_are_listed(r, present, (n - 1) as nat);
    }
}

/// Each hook file is listed in its place, and marked as an error where it is
/// missing.
pub proof fn missing_hooks_are_marked(r: ReportView, present: Seq<bool>, i: int)
    requires
        present.len() == 7,
        0 <= i < 7,
    ensures
        ({
            let line = files_upto(r, present, 7).lines[r.lines.len() + i];
            &&& present[i] ==> line == "  "@ + "[OK]"@ + " "@ + HOOK_FILES[i]@
            &&& !present[i] ==> line == "  "@ + "[ERROR]"@ + " "@ + (HOOK_FILES[i]@
                + " (missing)"@)
        }),
{
    files_are_listed(r, present, 7);
    assert(HOOK_FILES[i]@ == HOOK_FILES[i]@);
}

} // verus!
