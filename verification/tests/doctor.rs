use clawket::agent::Agent;
use clawket::doctor::project_enabled::format_project_enabled;
use clawket::doctor::{audit_log, by_cwd_request, database, project_state};
use clawket::doctor_checks::{
    classify_activity_log_budget, classify_db_freshness, classify_task_count_change,
    is_world_writable, legacy_remnants_present, Severity, Timestamp,
};
use clawket::doctor_data::{
    activity_log_budget, data_loss_diagnostics, db_mtime_secs, legacy_remnant_candidates,
    nearby_backup_present, next_snapshot, world_writable_check, DataLossFacts,
};
use clawket::doctor_hooks::{
    extract_handler_for_event, find_locales_root, first_present, hook_adapter_roots, hooks,
    last_fired, log_entries, mcp, plugin_root_candidates, HooksFacts,
};
use clawket::doctor_local::{
    daemon, layout, overrides, places, resolve_daemon_bin, separation, which, DaemonFacts, Layout,
    Presence,
};
use clawket::doctor_locale::{
    format_skill_frontmatter_row, i18n, key_count, locale_langs, read_skill_frontmatter, skills,
    LocaleFacts, Skill, SkillsFacts,
};
use clawket::doctor_plugin::{
    compatibility, plugin_install, read_install_marker, InstallFacts, PluginDir,
};
use clawket::doctor_report::{count_of, Report};
use clawket::doctor_run::{
    check_schema_version, check_sqlite_vec, pin_places, pinned_schema_version, run, run_json,
    DoctorFacts, EscalationFacts, JsonFacts,
};
use clawket::doctor_tiers::{
    escalation_rate, escalation_report, tasks_request, tier_aware, tier_distribution, tier_groups,
};
use clawket::json::{Json, Member, Number};
use clawket::paths::Env;
use clawket::reply::End;

fn from_value(v: &serde_json::Value) -> Json {
    match v {
        serde_json::Value::Null => Json::Null,
        serde_json::Value::Bool(b) => Json::Bool(*b),
        serde_json::Value::Number(n) => {
            if let Some(u) = n.as_u64() {
                Json::Number(Number::PosInt(u))
            } else if let Some(i) = n.as_i64() {
                Json::Number(Number::NegInt(i))
            } else {
                Json::Number(Number::Decimal(n.to_string()))
            }
        }
        serde_json::Value::String(s) => Json::Text(s.clone()),
        serde_json::Value::Array(a) => Json::Array(a.iter().map(from_value).collect()),
        serde_json::Value::Object(m) => Json::Object(
            m.iter()
                .map(|(k, v)| Member { key: k.clone(), value: from_value(v) })
                .collect(),
        ),
    }
}

fn j(text: &str) -> Json {
    let v: serde_json::Value = serde_json::from_str(text).unwrap();
    from_value(&v)
}

fn texts(items: &[&str]) -> Vec<String> {
    items.iter().map(|s| s.to_string()).collect()
}

fn agent() -> Agent {
    Agent {
        id: "host".to_string(),
        product: "Host Code".to_string(),
        family: "Host".to_string(),
    }
}

fn at(secs: i64) -> Timestamp {
    Timestamp { secs, nanos: 0 }
}

#[test]
fn project_enabled_unregistered_cwd_is_info() {
    let line = format_project_enabled(None, "/tmp/foo");
    assert_eq!(line.severity, Severity::Info);
    assert!(
        line.head.contains("/tmp/foo"),
        "head must include the cwd: {}",
        line.head
    );
    assert!(
        line.hints.iter().any(|h| h.contains("project register")),
        "hint must point at register command: {:?}",
        line.hints
    );
}

#[test]
fn project_enabled_active_project_is_ok_no_hints() {
    let p = j("{\"id\": \"PROJ-AAA\", \"name\": \"demo\", \"enabled\": 1}");
    let line = format_project_enabled(Some(&p), "/tmp/x");
    assert_eq!(line.severity, Severity::Good);
    assert!(line.head.contains("PROJ-AAA"));
    assert!(line.head.contains("enabled"));
    assert!(
        line.hints.is_empty(),
        "OK branch should not surface remediation hints: {:?}",
        line.hints
    );
}

#[test]
fn project_enabled_disabled_project_warns_with_enable_command() {
    let p = j("{\"id\": \"PROJ-BBB\", \"name\": \"stale\", \"enabled\": 0}");
    let line = format_project_enabled(Some(&p), "/tmp/x");
    assert_eq!(
        line.severity,
        Severity::Warn,
        "disabled must be Warn (not Error) — exit code stays 0"
    );
    assert!(
        line.head.contains("disabled"),
        "head must say disabled: {}",
        line.head
    );
    assert!(
        line.hints
            .iter()
            .any(|h| h.contains("clawket project enable PROJ-BBB")),
        "hints must include the exact `enable` command: {:?}",
        line.hints
    );
}

#[test]
fn project_enabled_accepts_bool_enabled_field() {
    let p = j("{\"id\": \"PROJ-C\", \"name\": \"x\", \"enabled\": false}");
    let line = format_project_enabled(Some(&p), "/tmp/x");
    assert_eq!(line.severity, Severity::Warn);
}

#[test]
fn project_enabled_missing_field_defaults_to_enabled() {
    let p = j("{\"id\": \"PROJ-D\", \"name\": \"x\"}");
    let line = format_project_enabled(Some(&p), "/tmp/x");
    assert_eq!(line.severity, Severity::Good);
}

#[test]
fn world_writable_excludes_sticky_dirs() {
    assert!(!is_world_writable(0o1777));
    assert!(is_world_writable(0o0777));
    assert!(!is_world_writable(0o0755));
    assert!(!is_world_writable(0o0700));
    assert!(!is_world_writable(0o0775));
}

#[test]
fn legacy_remnants_filters_by_existence() {
    let cands = texts(&["/legacy/a", "/legacy/b", "/legacy/c"]);
    let only_b = |p: &String| p == "/legacy/b";
    let found = legacy_remnants_present(&cands, only_b);
    assert_eq!(found, texts(&["/legacy/b"]));

    let none = legacy_remnants_present(&cands, |_: &String| false);
    assert!(none.is_empty());

    let all = legacy_remnants_present(&cands, |_: &String| true);
    assert_eq!(all.len(), 3);
}

#[test]
fn task_count_change_classifies_correctly() {
    assert_eq!(classify_task_count_change(None, 100), Severity::Info);
    assert_eq!(classify_task_count_change(Some(50), 60), Severity::Good);
    assert_eq!(classify_task_count_change(Some(50), 50), Severity::Good);
    assert_eq!(classify_task_count_change(Some(100), 60), Severity::Good);
    assert_eq!(classify_task_count_change(Some(100), 50), Severity::Good);
    assert_eq!(classify_task_count_change(Some(100), 49), Severity::Warn);
    assert_eq!(classify_task_count_change(Some(100), 0), Severity::Warn);
    assert_eq!(classify_task_count_change(Some(0), 5), Severity::Good);
    assert_eq!(classify_task_count_change(Some(0), 0), Severity::Good);
}

#[test]
fn huge_task_counts_do_not_wrap() {
    assert_eq!(classify_task_count_change(Some(u64::MAX), u64::MAX), Severity::Good);
    assert_eq!(classify_task_count_change(Some(u64::MAX), u64::MAX / 2), Severity::Warn);
    assert_eq!(classify_task_count_change(Some(u64::MAX), u64::MAX / 2 + 1), Severity::Good);
}

#[test]
fn db_freshness_well_aged_is_ok() {
    let now = at(10 * 24 * 3600);
    let two_days_ago = at(8 * 24 * 3600);
    assert_eq!(
        classify_db_freshness(Some(two_days_ago), now, false),
        Severity::Good
    );
}

#[test]
fn db_freshness_recent_no_backup_is_info() {
    let now = at(10 * 24 * 3600);
    let one_hour_ago = at(10 * 24 * 3600 - 3600);
    assert_eq!(
        classify_db_freshness(Some(one_hour_ago), now, false),
        Severity::Info
    );
}

#[test]
fn db_freshness_recent_with_backup_is_ok() {
    let now = at(10 * 24 * 3600);
    let one_hour_ago = at(10 * 24 * 3600 - 3600);
    assert_eq!(
        classify_db_freshness(Some(one_hour_ago), now, true),
        Severity::Good
    );
}

#[test]
fn db_freshness_missing_is_ok() {
    let now = at(10 * 24 * 3600);
    assert_eq!(classify_db_freshness(None, now, false), Severity::Good);
}

#[test]
fn db_freshness_future_mtime_is_ok() {
    let now = at(10 * 24 * 3600);
    let future = at(10 * 24 * 3600 + 3600);
    assert_eq!(
        classify_db_freshness(Some(future), now, false),
        Severity::Good
    );
}

#[test]
fn freshness_turns_after_a_full_day() {
    let now = Timestamp { secs: 200_000, nanos: 5 };
    let day = Timestamp { secs: 200_000 - 86_400, nanos: 5 };
    let just_over = Timestamp { secs: 200_000 - 86_400, nanos: 4 };
    let over = Timestamp { secs: 200_000 - 86_401, nanos: 5 };
    assert_eq!(classify_db_freshness(Some(day), now, false), Severity::Info);
    assert_eq!(classify_db_freshness(Some(just_over), now, false), Severity::Good);
    assert_eq!(classify_db_freshness(Some(over), now, false), Severity::Good);
}

#[test]
fn activity_log_budget_classifies_thresholds() {
    let mb = 1024 * 1024;
    let cap = 500 * mb;
    assert_eq!(classify_activity_log_budget(100 * mb, cap), Severity::Good);
    assert_eq!(classify_activity_log_budget(0, cap), Severity::Good);
    assert_eq!(
        classify_activity_log_budget(((cap as f64) * 0.799) as i64, cap),
        Severity::Good
    );
    assert_eq!(
        classify_activity_log_budget(((cap as f64) * 0.80) as i64, cap),
        Severity::Warn
    );
    assert_eq!(
        classify_activity_log_budget(((cap as f64) * 0.94) as i64, cap),
        Severity::Warn
    );
    assert_eq!(
        classify_activity_log_budget(((cap as f64) * 0.95) as i64, cap),
        Severity::Error
    );
    assert_eq!(classify_activity_log_budget(cap * 2, cap), Severity::Error);
}

#[test]
fn activity_log_budget_zero_cap_is_info() {
    assert_eq!(classify_activity_log_budget(1_000_000, 0), Severity::Info);
    assert_eq!(classify_activity_log_budget(0, 0), Severity::Info);
    assert_eq!(classify_activity_log_budget(1, -1), Severity::Info);
}

#[test]
fn more_use_is_never_less_grave() {
    let rank = |s: Severity| match s {
        Severity::Good => 0,
        Severity::Info => 1,
        Severity::Warn => 2,
        Severity::Error => 3,
    };
    let mut last = 0;
    for used in 0..=120 {
        let r = rank(classify_activity_log_budget(used, 100));
        assert!(r >= last);
        last = r;
    }
    assert_eq!(last, 3);
}

#[test]
fn severity_tags_are_stable() {
    assert_eq!(Severity::Good.tag(), "[OK]");
    assert_eq!(Severity::Info.tag(), "[INFO]");
    assert_eq!(Severity::Warn.tag(), "[WARN]");
    assert_eq!(Severity::Error.tag(), "[ERROR]");
}

#[test]
fn a_missing_directory_is_not_checked() {
    assert_eq!(world_writable_check(false, Ok(0o777)), Err("dir missing".to_string()));
    assert_eq!(world_writable_check(true, Ok(0o40777)), Ok(true));
    assert_eq!(world_writable_check(true, Ok(0o41777)), Ok(false));
    assert_eq!(world_writable_check(true, Err("denied".to_string())), Err("denied".to_string()));
}

#[test]
fn backups_are_known_by_their_names() {
    assert!(nearby_backup_present(&texts(&["db.sqlite", "db.bak"])));
    assert!(nearby_backup_present(&texts(&["db.sqlite.1"])));
    assert!(nearby_backup_present(&texts(&["x.backup"])));
    assert!(!nearby_backup_present(&texts(&["db.sqlite", "db.sqlite-wal"])));
}

#[test]
fn remnants_are_looked_for_under_home() {
    assert_eq!(
        legacy_remnant_candidates(Some("/h"), false),
        texts(&["/h/.local/share/db.sqlite", "/h/.local/share/lattice"])
    );
    assert_eq!(legacy_remnant_candidates(Some("/h"), true).len(), 4);
    assert!(legacy_remnant_candidates(None, true).is_empty());
}

#[test]
fn the_next_snapshot_needs_a_count() {
    assert_eq!(db_mtime_secs(Some(at(-1))), None);
    assert_eq!(db_mtime_secs(Some(at(7))), Some(7));
    assert_eq!(next_snapshot(None, Some(at(7))), None);
    let s = next_snapshot(Some(3), Some(at(7))).unwrap();
    assert_eq!((s.task_count, s.db_mtime_secs), (3, Some(7)));
}

#[test]
fn each_of_the_five_dangers_is_told() {
    let f = DataLossFacts {
        writable: Ok(true),
        remnants: texts(&["/h/.local/share/lattice"]),
        prev_count: Some(100),
        db_mtime: None,
        now: at(1000),
        has_backup: false,
    };
    let r = data_loss_diagnostics(&f, "/h/.host/plugins/data", Some(10), &agent());
    assert_eq!(r.tally.len(), 5);
    assert_eq!(r.tally[0], Severity::Error);
    assert_eq!(r.tally[1], Severity::Warn);
    assert_eq!(r.tally[2], Severity::Warn);
    assert_eq!(r.tally[3], Severity::Warn);
    assert_eq!(r.tally[4], Severity::Info);
    assert!(r.lines[0].starts_with("  [ERROR] #1 plugin overlap"));
    assert!(r.lines.iter().any(|l| l == "       - /h/.local/share/lattice"));
    assert!(r.lines.iter().any(|l| l.contains("이전 100 → 현재 10")));
}

#[test]
fn the_log_budget_is_told_with_advice() {
    let stats = j("{\"used_bytes\": 95, \"max_bytes\": 100, \"max_mb\": 500, \"hot_days\": 7, \
         \"total_days\": 90, \"hot_rows\": 12, \"archive_batches\": 3}");
    let r = activity_log_budget(&Ok(stats), "0.0", "95");
    assert_eq!(r.lines[0], "  [ERROR] 사이즈 = 0.0 MiB / 500 MB (95%, hot 7d / total 90d)");
    assert_eq!(r.lines[1], "       hot_rows=12 archive_batches=3");
    assert_eq!(r.lines.len(), 3);
    assert_eq!(r.tally, vec![Severity::Error]);
    let down = activity_log_budget(&Err("no socket".to_string()), "", "");
    assert_eq!(down.tally, vec![Severity::Info]);
    assert!(down.lines[0].contains("(no socket)"));
}

#[test]
fn overrides_are_listed_in_order() {
    let mut values: Vec<Option<String>> = (0..8).map(|_| None).collect();
    values[2] = Some("/tmp/s.sock".to_string());
    let r = overrides(&values);
    assert_eq!(r.lines.len(), 8);
    assert_eq!(r.lines[0], "  CLAWKET_DAEMON_BIN = (unset)");
    assert_eq!(r.lines[2], "  CLAWKET_SOCKET = /tmp/s.sock");
    assert_eq!(r.lines[7], "  CLAWKET_DB = (unset)");
}

fn home_env() -> Env {
    Env {
        home: Some("/home/u".to_string()),
        cache_dir: None,
        cache_home: None,
        data_dir: None,
        data_home: None,
        config_dir: None,
        config_home: None,
        state_dir: None,
        state_home: None,
        socket: None,
    }
}

fn present(all: bool) -> Presence {
    Presence { data: all, cache: all, config: all, state: all, db: all, socket: all, pid: all }
}

#[test]
fn places_follow_from_home() {
    let l = layout(&home_env());
    assert_eq!(l.db, "/home/u/.local/share/clawket/db.sqlite");
    assert_eq!(l.socket, "/home/u/.cache/clawket/clawketd.sock");
    let r = places(&l, &present(false));
    assert_eq!(r.lines[0], "  data dir: /home/u/.local/share/clawket (missing)");
    assert_eq!(r.lines[6], "  pid file: /home/u/.cache/clawket/clawketd.pid (missing)");
    assert!(r.tally.is_empty());
}

#[test]
fn the_search_path_is_searched_in_order() {
    assert_eq!(
        which("clawketd", "/usr/bin:/opt/bin/:"),
        texts(&["/usr/bin/clawketd", "/opt/bin/clawketd", "clawketd"])
    );
    let found = resolve_daemon_bin(Some("/x"), false, Some(("/c", "sibling")), Some("/p"));
    assert_eq!(found, Some(("/c".to_string(), "sibling".to_string())));
    let set = resolve_daemon_bin(Some("/x"), true, Some(("/c", "sibling")), Some("/p"));
    assert_eq!(set, Some(("/x".to_string(), "CLAWKET_DAEMON_BIN".to_string())));
    let path = resolve_daemon_bin(None, false, None, Some("/p"));
    assert_eq!(path, Some(("/p".to_string(), "PATH".to_string())));
    assert_eq!(resolve_daemon_bin(None, false, None, None), None);
}

#[test]
fn a_daemon_that_is_not_installed_is_no_error() {
    let f = DaemonFacts { binary: None, health: Err("refused".to_string()), port: None };
    let r = daemon(&f, "/s");
    assert_eq!(r.tally, vec![Severity::Info]);
    let g = DaemonFacts {
        binary: Some(("/b".to_string(), "PATH".to_string())),
        health: Err("refused".to_string()),
        port: None,
    };
    let s = daemon(&g, "/s");
    assert_eq!(s.tally, vec![Severity::Error]);
    assert_eq!(s.lines[0], "  binary: /b (PATH)");
    assert_eq!(s.lines[1], "  [ERROR] Unix socket /health: FAIL: refused");
}

#[test]
fn a_daemon_that_answers_is_described() {
    let f = DaemonFacts {
        binary: Some(("/b".to_string(), "PATH".to_string())),
        health: Ok(j("{\"uptime_ms\": 12999, \"pid\": 42, \"version\": \"1.2.3\"}")),
        port: Some("19400\n".to_string()),
    };
    let r = daemon(&f, "/s");
    assert_eq!(
        r.lines,
        texts(&[
            "  binary: /b (PATH)",
            "  [OK] Unix socket /health: OK",
            "  uptime: 12s",
            "  pid: 42",
            "  version: 1.2.3",
            "  socket: /s",
            "  port: 19400",
        ])
    );
    let g = DaemonFacts {
        binary: None,
        health: Ok(j("{\"uptime_ms\": -1999}")),
        port: None,
    };
    assert!(daemon(&g, "/s").lines.iter().any(|l| l == "  uptime: -1s"));
}

#[test]
fn overlap_with_the_plugin_directory_is_an_error() {
    let l = layout(&home_env());
    let (r, complaint) = separation(&l, &agent());
    assert!(complaint.is_empty());
    assert!(r.tally.is_empty());
    assert_eq!(r.lines.len(), 6);
    let mut env = home_env();
    env.data_dir = Some("/home/u/.host/plugins/clawket/data".to_string());
    let (bad, told) = separation(&layout(&env), &agent());
    assert_eq!(bad.tally, vec![Severity::Error, Severity::Error]);
    assert_eq!(bad.lines.len(), 5);
    assert_eq!(told.len(), 6);
    assert_eq!(
        told[1],
        "ERROR: 2 path(s) resolve under Host Code's plugin directory."
    );
}

#[test]
fn entity_counts_stop_at_the_first_failure() {
    let replies = vec![
        Some(j("[1,2]")),
        Some(j("{}")),
        None,
        Some(j("[]")),
        None,
        Some(j("[]")),
    ];
    let r = database("/db", true, "1.50", &replies);
    assert_eq!(
        r.lines,
        texts(&[
            "  [OK] sqlite: /db (1.50 MiB)",
            "  [OK] projects: 2",
            "  [WARN] plans: unexpected response shape",
            "  [INFO] units: daemon unavailable — entity counts skipped",
            "  cycles: (skipped — daemon unavailable)",
            "  tasks: (skipped — daemon unavailable)",
            "  knowledge: (skipped — daemon unavailable)",
        ])
    );
    assert_eq!(r.tally, vec![Severity::Good, Severity::Warn, Severity::Info]);
    let missing = database("/db", false, "", &replies);
    assert_eq!(missing.lines.len(), 1);
    assert_eq!(missing.tally, vec![Severity::Info]);
}

#[test]
fn a_broken_chain_is_an_error() {
    let whole = j("[{\"id\": \"c\", \"prev_hash\": \"b\", \"at\": \"T3\"}, \
         {\"id\": \"b\", \"prev_hash\": \"a\"}, {\"id\": \"a\"}]");
    let r = audit_log(&Ok(whole));
    assert_eq!(r.lines[1], "  last entry at: T3");
    assert_eq!(r.lines[2], "  [OK] chain integrity: OK over recent 3 entries");
    let broken = j("[{\"id\": \"c\", \"prev_hash\": \"b\"}, \
         {\"id\": \"b\", \"prev_hash\": \"x\"}, {\"id\": \"a\"}]");
    let s = audit_log(&Ok(broken));
    assert_eq!(s.tally, vec![Severity::Error]);
    assert_eq!(s.lines.last().unwrap(), "  [ERROR] chain integrity: BROKEN at entry b");
    let gap = j("[{\"id\": \"c\"}, {\"id\": \"b\", \"prev_hash\": \"a\"}, {}]");
    assert_eq!(audit_log(&Ok(gap)).tally, vec![Severity::Good]);
    assert_eq!(audit_log(&Ok(j("[]"))).tally, vec![Severity::Info]);
    assert_eq!(audit_log(&Ok(j("{}"))).tally, vec![Severity::Warn]);
    assert_eq!(audit_log(&Err("down".to_string())).tally, vec![Severity::Info]);
}

#[test]
fn the_directory_is_asked_for_without_outer_slashes() {
    assert_eq!(by_cwd_request("/home/u/p//").path, "/projects/by-cwd/home/u/p");
    assert_eq!(by_cwd_request("/").path, "/projects/by-cwd/");
}

#[test]
fn a_missing_project_is_told_apart_from_a_missing_daemon() {
    let cwd: Result<String, String> = Ok("/w".to_string());
    let unknown = project_state(&cwd, &Err("project not found".to_string()));
    assert!(unknown.lines[0].starts_with("  [INFO] cwd `/w`"));
    assert_eq!(unknown.lines.len(), 2);
    let down = project_state(&cwd, &Err("refused".to_string()));
    assert_eq!(down.lines.len(), 1);
    assert!(down.lines[0].contains("(refused)"));
    let lost = project_state(&Err("gone".to_string()), &Err("refused".to_string()));
    assert!(lost.lines[0].contains("(gone)"));
}

#[test]
fn plugin_roots_come_from_home_and_above() {
    let names = texts(&["other", "clawket-v1"]);
    let up = texts(&["/a/b", "/a", "/"]);
    let roots = plugin_root_candidates(Some("/h"), &names, &up, &agent());
    assert_eq!(
        roots,
        texts(&[
            "/h/.host/plugins/clawket",
            "/h/.host/plugins/cache/clawket",
            "/h/.host/plugins/clawket-v1",
            "/a/b/clawket",
            "/a/b",
            "/a/clawket",
            "/a",
            "/clawket",
            "/",
        ])
    );
    assert_eq!(
        hook_adapter_roots(&texts(&["/r"]), &agent()),
        texts(&["/r/adapters/host"])
    );
    let many: Vec<String> = (0..9).map(|i| format!("/{i}")).collect();
    assert_eq!(plugin_root_candidates(None, &names, &many, &agent()).len(), 12);
    assert_eq!(
        first_present(&texts(&["/a", "/b", "/c"]), &vec![false, true, true]),
        Some("/b".to_string())
    );
    assert_eq!(
        find_locales_root(&texts(&["/a", "/b"]), &vec![false, true]),
        Some("/b/locales".to_string())
    );
}

#[test]
fn handlers_are_found_in_the_manifest() {
    let m = j("{\"hooks\": {\"SessionStart\": [{\"hooks\": [{}, \
         {\"command\": \"node \\\"/p/adapters/session-start.cjs\\\" --x\"}]}], \
         \"PreToolUse\": [{\"hooks\": []}, {\"hooks\": [{\"command\": \"run me\"}]}], \
         \"PostToolUse\": [{}, {\"hooks\": [{\"command\": \"never\"}]}]}}");
    assert_eq!(
        extract_handler_for_event(&m, "SessionStart"),
        Some("/p/adapters/session-start.cjs".to_string())
    );
    assert_eq!(
        extract_handler_for_event(&m, "PreToolUse"),
        Some("run me".to_string())
    );
    assert_eq!(extract_handler_for_event(&m, "PostToolUse"), None);
    assert_eq!(extract_handler_for_event(&m, "SubagentStop"), None);
}

#[test]
fn the_last_firing_counts() {
    assert_eq!(
        log_entries("{\"a\":1}\n\n  {\"b\":2}  \r\n   \n"),
        texts(&["{\"a\":1}", "{\"b\":2}"])
    );
    let log = vec![
        j("{\"event\": \"A\", \"at\": \"1\"}"),
        j("{\"event\": \"B\", \"at\": \"2\"}"),
        j("{\"event\": \"A\", \"at\": \"3\"}"),
        j("{\"event\": \"A\"}"),
    ];
    assert_eq!(last_fired(&log, "A"), Some("3"));
    assert_eq!(last_fired(&log, "C"), None);
}

#[test]
fn missing_handlers_are_an_error() {
    let f = HooksFacts {
        candidates: texts(&["/c"]),
        root: Some("/r".to_string()),
        present: vec![true, true, true, true, true, true, false],
        manifest: None,
        log: Vec::new(),
    };
    let r = hooks(&f, &agent());
    assert_eq!(r.tally, vec![Severity::Error]);
    assert_eq!(r.lines[7], "  [ERROR] subagent-stop.cjs (missing)");
    assert_eq!(
        r.lines[10],
        "    - SessionStart       handler=—  last_fired=—"
    );
    let none = HooksFacts {
        candidates: texts(&["/c"]),
        root: None,
        present: vec![false; 7],
        manifest: None,
        log: Vec::new(),
    };
    let s = hooks(&none, &agent());
    assert_eq!(s.tally, vec![Severity::Warn]);
    assert_eq!(s.lines[1], "       - /c");
}

#[test]
fn the_tools_are_listed() {
    let r = mcp(&Ok("/bin/clawket".to_string()));
    assert_eq!(r.lines[0], "  [OK] clawket mcp launcher: /bin/clawket");
    assert_eq!(r.lines[2], "    - clawket_search_knowledge");
    assert_eq!(r.lines.len(), 7);
    assert_eq!(mcp(&Err("x".to_string())).tally, vec![Severity::Warn]);
}

#[test]
fn compatible_versions_are_listed() {
    let package = j("{\"compat\": {\"daemon\": \">=1\", \"cli\": \">=2\", \"n\": 3}}");
    let components = j("{\"daemon\": \"1.0\", \"other\": \"x\"}");
    let r = compatibility("3.0", Some("1.0"), Some(&package), Some(&components));
    assert_eq!(
        r.lines,
        texts(&[
            "  cli version: 3.0",
            "  daemon version: 1.0",
            "  package.json compat:",
            "    cli: >=2",
            "    daemon: >=1",
            "  components.json pinned:",
            "    daemon: 1.0",
        ])
    );
    assert_eq!(r.tally, vec![Severity::Good]);
    let bare = j("{}");
    assert_eq!(compatibility("3", None, Some(&bare), None).tally, vec![Severity::Warn]);
    assert_eq!(compatibility("3", None, None, None).tally, vec![Severity::Info]);
}

#[test]
fn markers_are_json_or_lines() {
    let parsed = j("{\"version\": \"1.0\"}");
    assert_eq!(read_install_marker("ignored", Some(&parsed)), Some("1.0".to_string()));
    assert_eq!(
        read_install_marker("x=1\n  version= 2.0 \n", None),
        Some("2.0".to_string())
    );
    assert_eq!(read_install_marker("nothing", None), None);
}

fn install(marker: Option<&str>) -> InstallFacts {
    InstallFacts {
        exe: Some("/bin/clawket".to_string()),
        env_bin: None,
        path_bin: None,
        plugins: Some(("/h/.host/plugins".to_string(), true)),
        dirs: vec![PluginDir {
            path: "/h/.host/plugins/clawket".to_string(),
            marker: marker.map(str::to_string),
        }],
        version: "1.0".to_string(),
    }
}

#[test]
fn a_diverging_marker_is_a_warning() {
    let good = plugin_install(&install(Some("1.0")), &agent());
    assert_eq!(good.tally, vec![Severity::Good, Severity::Good, Severity::Good]);
    assert_eq!(
        good.lines[4],
        "  marker_version: 1.0 (/h/.host/plugins/clawket/.install-marker)"
    );
    let bad = plugin_install(&install(Some("0.9")), &agent());
    assert_eq!(bad.tally[2], Severity::Warn);
    assert!(bad.lines[5].contains("reinstall"));
    assert!(bad.lines[5].contains("/plugin update clawket@clawket"));
    let none = plugin_install(&install(None), &agent());
    assert_eq!(none.tally[2], Severity::Info);
    let mut gone = install(Some("1.0"));
    gone.plugins = Some(("/h/.host/plugins".to_string(), false));
    let r = plugin_install(&gone, &agent());
    assert!(r.lines[2].contains("plugin not installed"));
    assert_eq!(r.tally[2], Severity::Info);
}

#[test]
fn the_programs_that_could_run_are_listed() {
    let mut f = install(Some("1.0"));
    assert_eq!(plugin_install(&f, &agent()).lines[1], "  clawket on PATH: (not found)");
    f.path_bin = Some("/usr/bin/clawket".to_string());
    f.env_bin = Some(("/x/clawket".to_string(), true));
    let there = plugin_install(&f, &agent());
    assert!(there.lines[1].contains("/x/clawket"), "got: {}", there.lines[1]);
    assert!(there.lines[2].contains("/usr/bin/clawket"), "got: {}", there.lines[2]);
    assert!(!there.tally.contains(&Severity::Warn));
    f.env_bin = Some(("/x/clawket".to_string(), false));
    let missing = plugin_install(&f, &agent());
    assert!(missing.lines[1].contains("(missing)"), "got: {}", missing.lines[1]);
    assert!(missing.tally.contains(&Severity::Warn));
}

#[test]
fn other_versions_than_the_pinned_ones_are_warned_of() {
    let components = j("{\"daemon\": \"v1.0\", \"cli\": \"2.0\"}");
    let same = compatibility("2.0", Some("1.0"), None, Some(&components));
    assert!(!same.tally.contains(&Severity::Warn));
    let other = compatibility("2.1", Some("1.1"), None, Some(&components));
    let said = other.lines.join("\n");
    assert!(said.contains("cli version mismatch: running 2.1, components.json pins 2.0"), "{said}");
    assert!(
        said.contains("daemon version mismatch: running 1.1, components.json pins v1.0"),
        "{said}"
    );
    assert_eq!(other.tally.iter().filter(|s| **s == Severity::Warn).count(), 2);
    let silent = compatibility("2.0", None, None, Some(&components));
    assert!(!silent.tally.contains(&Severity::Warn));
}

#[test]
fn languages_are_sorted_with_english_first() {
    assert_eq!(
        locale_langs(&texts(&["ko.json", "README.md", "ja.json", "en.json", "de.json"])),
        texts(&["en", "de", "ja", "ko"])
    );
    assert_eq!(locale_langs(&texts(&["b.json", "a.json"])), texts(&["a", "b"]));
    assert_eq!(
        locale_langs(&texts(&["aa.json", "ab.json", "en.json"])),
        texts(&["en", "ab", "aa"])
    );
    assert_eq!(key_count(Some(&j("{\"a\": 1, \"b\": 2}"))), Some(2));
    assert_eq!(key_count(Some(&j("[]"))), None);
    assert_eq!(key_count(None), None);
}

fn locale_facts() -> LocaleFacts {
    LocaleFacts {
        own: None,
        all: Some("ko_KR".to_string()),
        lang: Some("C".to_string()),
        root: Some("/l".to_string()),
        langs: texts(&["en", "de", "ja", "ko"]),
        counts: vec![Some(10), Some(10), Some(8), None],
        missing: texts(&["0", "0", "20", "0"]),
    }
}

#[test]
fn language_files_are_compared_with_english() {
    let r = i18n(&locale_facts());
    assert_eq!(
        r.lines,
        texts(&[
            "  CLAWKET_LOCALE = (unset)",
            "  LC_ALL = ko_KR",
            "  LANG = C",
            "  [OK] resolved locale: ko_KR",
            "  locale files: /l",
            "  [OK] en.json: 10 keys (0% missing vs en=10)",
            "  [OK] de.json: 10 keys (0% missing vs en=10)",
            "  [WARN] ja.json: 8 keys (-2 drift vs en=10, 20% missing)",
            "  [WARN] ko.json: missing or unreadable",
        ])
    );
    assert_eq!(r.tally, vec![Severity::Good, Severity::Warn, Severity::Warn]);
    let mut more = locale_facts();
    more.counts[1] = Some(13);
    assert!(i18n(&more).lines[6].contains("(+3 drift vs en=10, 0% missing)"));
    let mut none = locale_facts();
    none.root = None;
    none.all = None;
    none.lang = None;
    assert_eq!(i18n(&none).tally, vec![Severity::Info, Severity::Info]);
}

#[test]
fn skills_declare_name_and_description() {
    assert_eq!(
        read_skill_frontmatter(Some("---\nname: x\n  description:  y\n---")),
        (true, true)
    );
    assert_eq!(read_skill_frontmatter(Some("name:   \ndescription:z")), (false, true));
    assert_eq!(read_skill_frontmatter(None), (false, false));
    let late = format!("{}name: x", "\n".repeat(20));
    assert_eq!(read_skill_frontmatter(Some(&late)), (false, false));
    let last = format!("{}name: x", "\n".repeat(19));
    assert_eq!(read_skill_frontmatter(Some(&last)), (true, false));
    assert_eq!(
        format_skill_frontmatter_row("s", true, false),
        "s: name=✓ description=✗"
    );
}

fn skills_facts() -> SkillsFacts {
    SkillsFacts {
        home: Some("/h".to_string()),
        root_there: true,
        own_dir_there: true,
        own_there: true,
        own_text: Some("name: clawket\ndescription: d".to_string()),
        skills: vec![
            Skill { name: "clawket".to_string(), text: None },
            Skill { name: "other".to_string(), text: Some("name: o".to_string()) },
        ],
    }
}

#[test]
fn skills_are_reported() {
    let r = skills(&skills_facts(), &agent());
    assert_eq!(
        r.lines,
        texts(&[
            "  [OK] clawket skill: /h/.host/skills/clawket/SKILL.md",
            "  [OK] clawket: name=✓ description=✓",
            "  [WARN] other: name=✓ description=✗",
        ])
    );
    assert_eq!(r.tally, vec![Severity::Good, Severity::Good, Severity::Warn]);
    let mut f = skills_facts();
    f.own_there = false;
    assert_eq!(skills(&f, &agent()).tally[0], Severity::Warn);
    f.own_dir_there = false;
    assert_eq!(skills(&f, &agent()).tally[0], Severity::Info);
    f.root_there = false;
    assert_eq!(skills(&f, &agent()).tally, vec![Severity::Info]);
    f.home = None;
    assert_eq!(skills(&f, &agent()).tally, vec![Severity::Warn]);
}

fn tier_tasks() -> Json {
    j("[{\"tier\": \"med\"}, {\"tier\": \"low\", \"escalation_reason\": \"\"}, {}, \
       {\"tier\": \"high\", \"escalation_reason\": \"hard\"}, \
       {\"tier\": \"med\", \"escalation_reason\": 3}, {\"tier\": \"med\", \"escalation_reason\": null}]")
}

#[test]
fn tasks_are_grouped_by_tier() {
    let tasks = match tier_tasks() {
        Json::Array(v) => v,
        _ => panic!("not a list"),
    };
    let groups: Vec<(String, usize, usize)> = tier_groups(&tasks)
        .into_iter()
        .map(|g| (g.tier, g.total, g.escalated))
        .collect();
    assert_eq!(
        groups,
        vec![
            ("high".to_string(), 1, 1),
            ("low".to_string(), 1, 0),
            ("med".to_string(), 3, 1),
            ("none".to_string(), 1, 0),
        ]
    );
    let r = tier_distribution(&Ok(tier_tasks()), Some("P"), &texts(&["17", "17", "50", "17"]));
    assert_eq!(r.lines[0], "  plan filter: P");
    assert_eq!(r.lines[1], "  [OK] total tasks: 6");
    assert_eq!(r.lines[4], "      med: 3 (50%)");
    assert_eq!(r.tally, vec![Severity::Good]);
}

#[test]
fn escalation_over_thirty_percent_warns() {
    let r = escalation_rate(&Ok(tier_tasks()), None, "67");
    assert_eq!(r.lines[0], "  [WARN] escalated tasks: 4 / 6 (67%)");
    assert_eq!(r.tally, vec![Severity::Warn]);
    let ten = |n: usize| {
        let items: Vec<String> = (0..10)
            .map(|i| if i < n { "{\"tier\":\"high\"}".to_string() } else { "{}".to_string() })
            .collect();
        j(&format!("[{}]", items.join(",")))
    };
    assert_eq!(escalation_rate(&Ok(ten(3)), None, "30").tally, vec![Severity::Good]);
    assert_eq!(escalation_rate(&Ok(ten(4)), None, "40").tally, vec![Severity::Warn]);
    assert_eq!(escalation_rate(&Ok(j("[]")), None, "").tally, vec![Severity::Info]);
    assert_eq!(escalation_rate(&Err("x".to_string()), None, "").tally, vec![Severity::Info]);
}

#[test]
fn escalation_reasons_are_counted() {
    let r = escalation_report(&Ok(tier_tasks()), None, "33", &texts(&["100", "0", "33", "0"]));
    assert_eq!(r.lines[0], "  [OK] tasks with escalation_reason: 2 / 6 (33%)");
    assert_eq!(r.lines[1], "      high: 1 / 1 (100%)");
    assert_eq!(r.lines[3], "      med: 1 / 3 (33%)");
    assert_eq!(tasks_request(Some("PLAN A/b")).path, "/tasks?plan_id=PLAN%20A%2Fb");
    assert_eq!(tasks_request(None).path, "/tasks");
}

#[test]
fn the_tier_has_a_default() {
    let r = tier_aware(None, Some("high"), &agent());
    assert_eq!(r.lines[0], "  default tier policy: med");
    assert_eq!(r.lines[1], "  --tier (current): high");
    assert_eq!(tier_aware(Some("low"), None, &agent()).lines[1], "  --tier (current): (unset)");
}

#[test]
fn the_schema_has_to_match_the_pin() {
    let h: Result<Json, String> = Ok(j("{\"schema_version\": 12}"));
    assert_eq!(check_schema_version(&h, Some("12")).0, Severity::Good);
    let (sev, text) = check_schema_version(&h, Some("11"));
    assert_eq!(sev, Severity::Error);
    assert_eq!(text, "schema_version mismatch: daemon=12 components.json=11");
    assert_eq!(check_schema_version(&h, None).0, Severity::Info);
    let silent: Result<Json, String> = Ok(j("{}"));
    assert_eq!(check_schema_version(&silent, Some("11")).0, Severity::Warn);
    assert_eq!(check_schema_version(&Err("x".to_string()), Some("11")).0, Severity::Warn);
    assert_eq!(
        pinned_schema_version(&vec![None, Some(j("{}")), Some(j("{\"schema_version\": 7}"))]),
        Some("7".to_string())
    );
    assert_eq!(
        pin_places(Some("/h"), Some("/w"), &agent()),
        texts(&["/h/.host/plugins/clawket/components.json", "/w/components.json"])
    );
}

#[test]
fn searching_by_likeness_needs_its_extension() {
    let check = |t: &str| check_sqlite_vec(&Ok(j(t)));
    assert_eq!(check("{\"sqlite_vec_version\": \"v0.1\"}").1, "sqlite-vec loaded: v0.1");
    assert_eq!(check("{\"sqlite_vec\": true}").0, Severity::Good);
    assert_eq!(check("{\"sqlite_vec\": false}").0, Severity::Error);
    assert_eq!(check("{}").0, Severity::Warn);
    assert_eq!(check_sqlite_vec(&Err("x".to_string())).0, Severity::Warn);
}

fn facts(l: Layout) -> DoctorFacts {
    DoctorFacts {
        agent: agent(),
        overrides: (0..8).map(|_| None).collect(),
        layout: l,
        presence: present(true),
        daemon: DaemonFacts {
            binary: None,
            health: Ok(j("{\"version\": \"1.0\", \"schema_version\": 3, \"sqlite_vec\": true}")),
            port: None,
        },
        task_list: Some(j("[{}]")),
        db_mib: "0.10".to_string(),
        entities: (0..6).map(|_| Some(j("[]"))).collect(),
        hooks: HooksFacts {
            candidates: Vec::new(),
            root: Some("/r".to_string()),
            present: vec![true; 7],
            manifest: None,
            log: Vec::new(),
        },
        exe: Ok("/bin/clawket".to_string()),
        install: install(Some("1.0")),
        package: None,
        components: None,
        locale: locale_facts(),
        audit: Ok(j("[]")),
        data_loss: DataLossFacts {
            writable: Ok(false),
            remnants: Vec::new(),
            prev_count: Some(1),
            db_mtime: Some(at(0)),
            now: at(1_000_000),
            has_backup: false,
        },
        activity: Ok(j("{\"used_bytes\": 1, \"max_bytes\": 100}")),
        activity_mib: "0.0".to_string(),
        activity_percent: "1".to_string(),
        cwd: Ok("/w".to_string()),
        project: Ok(j("{\"id\": \"P\", \"name\": \"n\", \"enabled\": 1}")),
        legacy_dir: "/h/.local/share/lattice".to_string(),
        legacy_db_there: false,
        default_tier: None,
        tier: None,
        plan: None,
        tier_reply: Ok(j("[{}]")),
        tier_shares: texts(&["100"]),
        rate_reply: Ok(j("[{}]")),
        rate_share: "0".to_string(),
        escalation: None,
        skills: skills_facts(),
        schema_health: Ok(j("{\"schema_version\": 3}")),
        pinned: Some("3".to_string()),
        vec_health: Ok(j("{\"sqlite_vec\": true}")),
    }
}

#[test]
fn the_report_has_its_sections_in_order() {
    let mut f = facts(layout(&home_env()));
    f.escalation = Some(EscalationFacts {
        reply: Ok(j("[{}]")),
        overall: "0".to_string(),
        shares: texts(&["0"]),
    });
    let r = run(&f);
    let titles: Vec<&str> = r
        .stdout
        .lines()
        .filter(|l| l.starts_with('[') && !l.starts_with("[Summary]"))
        .collect();
    assert_eq!(
        titles,
        vec![
            "[Environment overrides]",
            "[Paths]",
            "[Daemon]",
            "[Database]",
            "[Hooks]",
            "[MCP]",
            "[Plugin install]",
            "[Compatibility]",
            "[i18n]",
            "[Audit log]",
            "[Data loss risk diagnostics (LM-9)]",
            "[activity_log retention (LM-69)]",
            "[Project enable state (LM-8)]",
            "[Legacy lattice data]",
            "[Tier-Aware]",
            "[tier_distribution]",
            "[escalation_rate]",
            "[escalation report (--escalation)]",
            "[Skills]",
            "[schema_version (components.json)]",
            "[sqlite-vec probe]",
            "[Path separation invariant (LM-8)]",
        ]
    );
    assert!(r.stdout.starts_with("Clawket doctor\n==============\n\n[Environment overrides]\n"));
    assert!(r.stdout.ends_with("\n\n\n[Summary] errors=0 warnings=3 info=2\n"));
    assert!(matches!(r.end, End::Done));
    assert_eq!(r.stderr, "");
}

#[test]
fn an_error_makes_the_report_fail() {
    let mut f = facts(layout(&home_env()));
    f.vec_health = Ok(j("{\"sqlite_vec\": false}"));
    let r = run(&f);
    assert!(matches!(r.end, End::Exit(1)));
    assert!(r.stdout.contains("[Summary] errors=1 "));
    let mut env = home_env();
    env.data_dir = Some("/home/u/.host/plugins/d".to_string());
    let s = run(&facts(layout(&env)));
    assert!(matches!(s.end, End::Exit(1)));
    assert!(s.stderr.starts_with("\nERROR: 2 path(s)"));
}

#[test]
fn findings_are_counted_once() {
    let r = Report::new()
        .note(Severity::Good, "a")
        .note(Severity::Warn, "b")
        .show(Severity::Error, "c")
        .note(Severity::Warn, "d");
    assert_eq!(count_of(&r.tally, Severity::Warn), 2);
    assert_eq!(count_of(&r.tally, Severity::Error), 0);
    assert_eq!(r.lines[2], "  [ERROR] c");
}

#[test]
fn the_json_report_names_its_checks() {
    let f = JsonFacts {
        agent: agent(),
        health: Ok(j("{\"ok\": true, \"b\": 1}")),
        data_dir: "/d".to_string(),
        schema_health: Ok(j("{\"schema_version\": 1}")),
        pinned: None,
        vec_health: Ok(j("{\"sqlite_vec\": false}")),
    };
    let (doc, failed) = run_json(&f);
    assert!(failed);
    assert_eq!(
        doc,
        j("{\"any_error\": true, \"checks\": [\
           {\"name\": \"daemon\", \"status\": \"ok\", \"details\": \"{\\\"b\\\":1,\\\"ok\\\":true}\"}, \
           {\"name\": \"path_separation\", \"status\": \"ok\", \"details\": \"data dir /d is safe\"}, \
           {\"name\": \"schema_version\", \"status\": \"info\", \
            \"details\": \"components.json not found; daemon schema_version=1\"}, \
           {\"name\": \"sqlite_vec\", \"status\": \"error\", \
            \"details\": \"sqlite-vec NOT loaded — semantic search unavailable\"}]}")
    );
}
