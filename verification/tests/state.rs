use clawket::agent::{agent_of, Agent};
use clawket::calendar::{chrono_like_gmtime, civil_from_days, iso8601_now_utc};
use clawket::codex::{
    compose_bootstrap, current_active_task, doctor as codex_doctor, install_lines,
    installation_state, open_runs, read_user_config_lines, run_start_request, session_file,
    session_json, session_to_stop, status as codex_status, stop_report, uninstall_lines,
    write_user_config_lines, InstallFacts, ProjectFiles,
};
use clawket::config::{remove_section, section_range, upsert_section};
use clawket::daemon::{
    action_at, after_kill, after_stop, autostart_allowed, autostart_warning, clawketd_cmd,
    last_lines, next_stage, parse_pid, start_poll, steps_of, wants_daemon, Autostart,
    AutostartAction, AutostartEvent, DaemonAction, DaemonStep, StopStep, Work,
};
use clawket::decompose_flow::{
    child_request, created_summary, decide, envelope_of, gate, Decision, DecomposeArgs, Gate,
};
use clawket::init::{
    init_request, init_step, tutorial_only, tutorial_opening, InitStage, InitStep,
};
use clawket::json::{Json, Member, Number};
use clawket::migrate::{decide as decide_migration, Migration};
use clawket::paths::{
    cache_dir, config_dir, daemon_bin_candidates_inner, data_dir, default_legacy_dir,
    log_file_path, path_overlaps_plugin_dir, pid_path, port_path, socket_path, state_dir, Env,
};
use clawket::runtime::{list_runtimes, PluginFacts, RuntimeName};
use clawket::verify::{
    dry_run, live_run, throwaway_name, verify_request, verify_step, VerifyStage, VerifyStep,
};

fn from_value(v: &serde_json::Value) -> Json {
    match v {
        serde_json::Value::Null => Json::Null,
        serde_json::Value::Bool(b) => Json::Bool(*b),
        serde_json::Value::Number(n) => {
            if let Some(u) = n.as_u64() {
                Json::Number(Number::PosInt(u))
            } else if let Some(i) = n.as_i64() {
                Json::Number(Number::NegInt(i))
            } else {
                Json::Number(Number::Decimal(n.to_string()))
            }
        }
        serde_json::Value::String(s) => Json::Text(s.clone()),
        serde_json::Value::Array(a) => Json::Array(a.iter().map(from_value).collect()),
        serde_json::Value::Object(m) => Json::Object(
            m.iter()
                .map(|(k, v)| Member { key: k.clone(), value: from_value(v) })
                .collect(),
        ),
    }
}

fn j(text: &str) -> Json {
    let v: serde_json::Value = serde_json::from_str(text).unwrap();
    from_value(&v)
}

fn agent() -> Agent {
    Agent {
        id: "host".to_string(),
        product: "Host Code".to_string(),
        family: "Host".to_string(),
    }
}

fn texts(items: &[&str]) -> Vec<String> {
    items.iter().map(|s| s.to_string()).collect()
}

#[test]
fn plugin_layout_resolves_via_pluginroot_bin() {
    let cands = daemon_bin_candidates_inner(Some("/opt/plugin/bin"), Some("/home/u/.local/share"));

    assert_eq!(cands.len(), 3);
    assert_eq!(cands[0].1, "plugin layout");
    assert_eq!(cands[0].0, "/opt/plugin/bin/../daemon/bin/clawketd");
    assert_eq!(cands[1].1, "sibling");
    assert_eq!(cands[1].0, "/opt/plugin/bin/clawketd");
    assert_eq!(cands[2].1, "XDG install");
    assert_eq!(cands[2].0, "/home/u/.local/share/clawket/bin/clawketd");
}

#[test]
fn xdg_only_when_no_exe_dir() {
    let cands = daemon_bin_candidates_inner(None, Some("/home/u/.local/share"));
    assert_eq!(cands.len(), 1);
    assert_eq!(cands[0].1, "XDG install");
}

#[test]
fn empty_when_nothing_known() {
    assert!(daemon_bin_candidates_inner(None, None).is_empty());
}

fn env() -> Env {
    Env {
        home: Some("/h".to_string()),
        cache_dir: None,
        cache_home: Some("/c".to_string()),
        data_dir: Some("/own/data".to_string()),
        data_home: Some("/d".to_string()),
        config_dir: None,
        config_home: None,
        state_dir: None,
        state_home: None,
        socket: None,
    }
}

#[test]
fn places_are_taken_from_the_nearest_variable() {
    let e = env();
    assert_eq!(data_dir(&e), "/own/data");
    assert_eq!(cache_dir(&e), "/c/clawket");
    assert_eq!(config_dir(&e), "/h/.config/clawket");
    assert_eq!(state_dir(&e), "/h/.local/state/clawket");
    assert_eq!(socket_path(&e), "/c/clawket/clawketd.sock");
    assert_eq!(pid_path(&e), "/c/clawket/clawketd.pid");
    assert_eq!(port_path(&e), "/c/clawket/clawketd.port");
    assert_eq!(log_file_path(&e), Some("/h/.local/state/clawket/clawketd.log".to_string()));
    assert_eq!(default_legacy_dir(&e), "/d/lattice");
    let mut s = env();
    s.socket = Some("/s.sock".to_string());
    assert_eq!(socket_path(&s), "/s.sock");
}

#[test]
fn plugin_directories_are_recognised() {
    assert!(path_overlaps_plugin_dir("/h/.host/plugins/x/data", &agent()));
    assert!(path_overlaps_plugin_dir("/h/.host//plugins/x", &agent()));
    assert!(path_overlaps_plugin_dir("/h/.host/./plugins", &agent()));
    assert!(path_overlaps_plugin_dir("/h//.host/.//./plugins/", &agent()));
    assert!(!path_overlaps_plugin_dir("/h/.host/../plugins", &agent()));
    assert!(!path_overlaps_plugin_dir("/h/.host/other/plugins", &agent()));
    assert!(!path_overlaps_plugin_dir("/h/x.host/plugins", &agent()));
}

#[test]
fn the_agent_is_named_as_its_runtime_is() {
    let a = agent_of(&format!("{:?}", RuntimeName::Claude));
    assert_eq!(a.id, format!("{:?}", RuntimeName::Claude).to_lowercase());
    assert_eq!(a.product, format!("{:?} Code", RuntimeName::Claude));
    assert_eq!(a.family, format!("{:?}", RuntimeName::Claude));
    assert_eq!(a.hidden("/plugins"), format!(".{}/plugins", a.id));
    assert!(path_overlaps_plugin_dir(&format!("/h/.{}/plugins/x", a.id), &a));
    assert_eq!(agent_of("ÄZa9").id, "Äza9");
}

#[test]
fn days_are_counted_from_1970() {
    assert_eq!(civil_from_days(0), (1970, 1, 1));
    assert_eq!(civil_from_days(-1), (1969, 12, 31));
    assert_eq!(civil_from_days(11_016), (2000, 2, 29));
    assert_eq!(civil_from_days(19_782), (2024, 2, 29));
    assert_eq!(civil_from_days(-719_468), (0, 3, 1));
}

#[test]
fn moments_are_written_in_utc() {
    assert_eq!(iso8601_now_utc(0), "1970-01-01T00:00:00Z");
    assert_eq!(iso8601_now_utc(1_700_000_000), "2023-11-14T22:13:20Z");
    let t = chrono_like_gmtime(86_399);
    assert_eq!((t.hour, t.minute, t.second), (23, 59, 59));
}

#[test]
fn sections_are_set_and_removed() {
    let mut lines = texts(&["top = 1", "[a]", "x = 1", "[b]", "y = 2"]);
    assert_eq!(section_range(&lines, "[a]"), Some((1, 3)));
    assert_eq!(section_range(&lines, "[b]"), Some((3, 5)));
    assert_eq!(section_range(&lines, "[c]"), None);
    let kv = texts(&["x = 2", "z = 3"]);
    upsert_section(&mut lines, "[a]", &kv);
    assert!(lines.contains(&"x = 2".to_string()));
    assert!(lines.contains(&"z = 3".to_string()));
    assert!(!lines.contains(&"x = 1".to_string()));
    assert!(lines.contains(&"y = 2".to_string()));
    let once = lines.clone();
    upsert_section(&mut lines, "[a]", &kv);
    assert_eq!(lines, once);
    remove_section(&mut lines, "[a]");
    assert_eq!(section_range(&lines, "[a]"), None);
    assert!(lines.contains(&"y = 2".to_string()));
}

#[test]
fn other_lines_of_a_section_stay() {
    let mut lines = texts(&["[a]", "# note", "w = 0", "x = 1", "v = 9", "", "[b]", "x = 5"]);
    upsert_section(&mut lines, "[a]", &texts(&["x = 2", "z = "]));
    assert_eq!(
        lines,
        texts(&["[a]", "# note", "w = 0", "x = 2", "v = 9", "", "z = ", "[b]", "x = 5"])
    );
    let mut bare = texts(&["top = 1"]);
    upsert_section(&mut bare, "[a]", &texts(&["x = 2"]));
    assert_eq!(bare, texts(&["top = 1", "", "[a]", "x = 2"]));
    upsert_section(&mut bare, "[a]", &texts(&["x = 2"]));
    assert_eq!(bare, texts(&["top = 1", "", "[a]", "x = 2"]));
}

#[test]
fn opening_lines_name_what_is_done() {
    assert!(live_run("9.9").ends_with("project)\n\n[1/4] CLI version: 9.9\n"));
    assert_eq!(throwaway_name(17), "clawket-verify-17");
    assert_eq!(tutorial_opening("/w"), "clawket init --tutorial\n  cwd: /w\n\n");
}

fn codex_facts(config: String) -> InstallFacts {
    InstallFacts {
        codex_home: "/h/.codex".to_string(),
        user_config_path: "/h/.codex/config.toml".to_string(),
        project_root: Some("/p".to_string()),
        config,
        plugin_cached: true,
    }
}

#[test]
fn settings_are_installed_and_removed() {
    let mut lines = read_user_config_lines("[other]\nk = 1\n");
    install_lines(&mut lines, "/p", "2024-01-01T00:00:00Z");
    let text = write_user_config_lines(&lines);
    assert!(text.contains("[plugins.\"clawket@clawket-local\"]"));
    assert!(text.contains("source = \"/p\""));
    assert!(text.contains("k = 1"));
    assert!(text.ends_with('\n'));
    let state = installation_state(&codex_facts(text.clone()));
    for flag in ["hook_feature_enabled", "marketplace_registered", "plugin_enabled"] {
        assert_eq!(state.bool_at(flag), Some(true), "{flag}");
    }
    let before = installation_state(&codex_facts("[other]\nk = 1\n".to_string()));
    assert_eq!(before.bool_at("marketplace_registered"), Some(false));
    uninstall_lines(&mut lines);
    let after = write_user_config_lines(&lines);
    assert!(!after.contains("clawket-local"), "got: {after}");
    assert!(after.contains("k = 1"));
}

#[test]
fn the_bootstrap_speaks_of_an_unknown_project() {
    let text = compose_bootstrap("/w", "  ", "SHARED", "RUNTIME");
    assert!(text.contains("No project is registered for `/w`."));
    assert!(text.contains("SHARED") && text.contains("RUNTIME"));
    let known = compose_bootstrap("/w", "CONTEXT", "SHARED", "RUNTIME");
    assert!(known.contains("CONTEXT") && !known.contains("No project"));
}

#[test]
fn sessions_are_described_and_stopped() {
    assert_eq!(session_file("/c"), "/c/session.json");
    let s = session_json("S1", "/w", Some("T1"));
    assert_eq!(s.str_at("session_id"), Some("S1"));
    let known = Some(s);
    assert_eq!(session_to_stop(&known), Some("S1"));
    assert_eq!(session_to_stop(&None), None);
    assert!(run_start_request("T1", "S1").body.is_some());
    let runs = j(r#"[{"id": "R1", "ended_at": null}, {"id": "R2", "ended_at": 17}, {"id": "R3"}]"#);
    assert!(open_runs(&runs).contains(&"R1".to_string()));
    assert!(!open_runs(&runs).contains(&"R2".to_string()));
    let shown = clawket::json_text::to_text(&codex_status(&known, "/c/p.md"));
    assert!(shown.contains("S1"), "got: {shown}");
    let told = clawket::json_text::to_text(&stop_report(&known, "/c/p.md"));
    assert!(told.contains("S1"), "got: {told}");
    assert_eq!(current_active_task(&j("[]")), None);
    let files = ProjectFiles {
        marketplace_manifest: true,
        plugin_manifest: true,
        plugin_hooks: true,
        plugin_runner: true,
        shared_adapter: true,
        runtime_prompt: true,
    };
    let health = codex_doctor(&codex_facts(String::new()), &files, "/bin/codex", None, "/c");
    assert_eq!(health.str_at("runtime"), Some("codex"));
}

#[test]
fn actions_are_done_in_steps() {
    assert!(matches!(steps_of(DaemonAction::Restart)[..], [DaemonStep::Stop, DaemonStep::Start]));
    assert!(matches!(steps_of(DaemonAction::Start)[..], [DaemonStep::Start]));
    assert!(matches!(
        steps_of(DaemonAction::Log { lines: 5, follow: false })[..],
        [DaemonStep::Log { lines: 5, follow: false }]
    ));
}

#[test]
fn process_numbers_are_read() {
    assert_eq!(parse_pid(" 42\n"), Some(42));
    assert_eq!(parse_pid("x"), None);
    assert_eq!(parse_pid("99999999999"), None);
    let (program, _args) = clawketd_cmd(Some("/set"), Some("/found"));
    assert_eq!(program, "/set");
    let (other, _args) = clawketd_cmd(None, Some("/found"));
    assert_eq!(other, "/found");
    assert_eq!(clawketd_cmd(None, None).0, "clawketd");
}

#[test]
fn a_daemon_that_does_not_stop_is_killed() {
    assert!(matches!(after_stop(true, Some(1), true), StopStep::Done));
    assert!(matches!(after_stop(false, Some(1), true), StopStep::Kill { pid: 1, .. }));
    assert!(matches!(after_stop(false, Some(1), false), StopStep::CleanUp));
    assert!(matches!(after_stop(false, None, false), StopStep::Done));
    assert!(after_kill(7, true).unwrap_err().contains("still alive"));
    assert_eq!(after_kill(7, false).unwrap(), "clawketd: pid 7 force-killed");
    assert!(start_poll(None, false, 9, None).is_none());
    assert!(start_poll(Some(9), false, 9, None).unwrap().contains('9'));
}

#[test]
fn the_last_lines_of_a_log() {
    assert_eq!(last_lines("a\nb\nc\n", 2), texts(&["b", "c"]));
    assert_eq!(last_lines("a\nb", 5), texts(&["a", "b"]));
    assert!(last_lines("a\nb", 0).is_empty());
}

#[test]
fn a_running_daemon_is_spared() {
    let s = Autostart::FirstLook;
    assert!(matches!(action_at(s), AutostartAction::Probe));
    assert!(matches!(next_stage(s, AutostartEvent::Reachable), Autostart::Finished));
}

#[test]
fn a_live_daemon_is_waited_for_and_not_started() {
    let s = next_stage(Autostart::FirstLook, AutostartEvent::Unreachable);
    assert!(matches!(action_at(s), AutostartAction::CheckPid));
    let w = next_stage(s, AutostartEvent::PidAlive);
    assert!(matches!(w, Autostart::Waiting { own: false }));
    assert!(matches!(action_at(w), AutostartAction::PauseAndProbe));
    assert!(matches!(next_stage(w, AutostartEvent::Reachable), Autostart::Finished));
    assert!(matches!(
        action_at(next_stage(s, AutostartEvent::PidGone)),
        AutostartAction::Lock
    ));
}

#[test]
fn the_daemon_is_started_for_work_that_needs_it() {
    assert!(wants_daemon(Work::Other, false));
    assert!(!wants_daemon(Work::Other, true));
    assert!(wants_daemon(Work::Verify { dry_run: false }, false));
    assert!(!wants_daemon(Work::Verify { dry_run: true }, false));
    assert!(!wants_daemon(Work::Daemon, false));
    assert!(!wants_daemon(Work::Doctor, false));
    assert!(!wants_daemon(Work::Completions, false));
}

#[test]
fn a_daemon_is_started_once() {
    let mut s = Autostart::FirstLook;
    let mut spawned = 0;
    let events = [
        AutostartEvent::Unreachable,
        AutostartEvent::PidGone,
        AutostartEvent::LockHeld,
        AutostartEvent::Unreachable,
        AutostartEvent::Spawned,
        AutostartEvent::Unreachable,
        AutostartEvent::Reachable,
    ];
    for e in events {
        if matches!(action_at(s), AutostartAction::Spawn) {
            spawned += 1;
        }
        s = next_stage(s, e);
    }
    assert_eq!(spawned, 1);
    assert!(matches!(s, Autostart::Finished));
    assert!(autostart_allowed(None));
    assert!(!autostart_allowed(Some("1")));
    assert!(autostart_warning(Autostart::FirstLook, AutostartEvent::Reachable).is_none());
    assert!(autostart_warning(Autostart::Waiting { own: true }, AutostartEvent::TimedOut).is_some());
}

fn decompose_args(dry: bool, accept: Option<&str>) -> DecomposeArgs {
    DecomposeArgs {
        task_id: "T1".to_string(),
        max_depth: 2,
        strategy: "auto".to_string(),
        dry_run: dry,
        accept: accept.map(str::to_string),
    }
}

fn parent(hint: &str, policy: &str) -> Json {
    j(&format!(
        "{{\"id\": \"T1\", \"title\": \"Big\", \"unit_id\": \"U1\", \
         \"atomic_size_hint\": \"{hint}\", \"decomposition_policy\": \"{policy}\"}}"
    ))
}

#[test]
fn small_tasks_are_not_taken_apart() {
    match gate("T1", &parent("small", "auto")) {
        Gate::Refuse { printed, error } => {
            let text = clawket::json_text::to_text(&printed);
            assert!(text.contains("small"), "got: {text}");
            assert!(!error.is_empty());
        }
        Gate::Proceed(_) => panic!("not refused"),
    }
}

#[test]
fn suggestions_are_previewed_chosen_and_created() {
    let p = match gate("T1", &parent("medium", "auto")) {
        Gate::Proceed(p) => p,
        Gate::Refuse { error, .. } => panic!("refused: {error}"),
    };
    let resp = j(
        r#"{"resolved_envelope": {"success_criteria": ["a", "b", "c", "d"],
            "decomposition_policy": {"max_depth": 3, "min_subtasks": 1, "max_subtasks": 9}}}"#,
    );
    let envelope = match envelope_of(&resp) {
        Some(e) => e,
        None => &resp,
    };
    assert!(matches!(
        decide(&p, envelope, &decompose_args(true, None)),
        Decision::Preview { .. }
    ));
    match decide(&p, envelope, &decompose_args(false, Some("2"))) {
        Decision::Create { accepted, .. } => {
            assert_eq!(accepted.len(), 1);
            let r = child_request("T1", Some("U1"), &accepted[0]);
            assert_eq!(r.path, "/tasks");
            assert_eq!(r.body.unwrap().str_at("parent_task_id"), Some("T1"));
        }
        _ => panic!("nothing to create"),
    }
    match decide(&p, envelope, &decompose_args(false, Some("2,9"))) {
        Decision::Create { accepted, violations, dropped } => {
            assert_eq!(accepted.len(), 1);
            assert_eq!(dropped, vec![9]);
            let told = created_summary("T1", Vec::new(), violations, &dropped);
            let text = clawket::json_text::to_text(&told);
            assert!(text.contains("\"dropped_indices\":[9]"), "got: {text}");
        }
        _ => panic!("nothing to create"),
    }
    let all_taken = created_summary("T1", Vec::new(), Vec::new(), &Vec::new());
    let plain = clawket::json_text::to_text(&all_taken);
    assert!(!plain.contains("dropped_indices"), "got: {plain}");
    assert!(matches!(
        decide(&p, envelope, &decompose_args(false, Some("0"))),
        Decision::Fail(_)
    ));
}

#[test]
fn a_manual_policy_only_previews() {
    let p = match gate("T1", &parent("medium", "manual")) {
        Gate::Proceed(p) => p,
        Gate::Refuse { error, .. } => panic!("refused: {error}"),
    };
    let envelope = j(
        r#"{"success_criteria": ["a", "b"],
            "decomposition_policy": {"max_depth": 3, "min_subtasks": 1, "max_subtasks": 9}}"#,
    );
    assert!(matches!(
        decide(&p, &envelope, &decompose_args(false, Some("all"))),
        Decision::Preview { .. }
    ));
}

#[test]
fn the_tutorial_walks_to_its_end() {
    let mut stage = InitStage::FindProject;
    let mut asked = 0;
    let made = j(r#"{"id": "X1"}"#);
    loop {
        let request = match init_request(&stage, "/w") {
            Some(r) => r,
            None => break,
        };
        asked += 1;
        assert!(asked < 20);
        let missing = matches!(stage, InitStage::FindProject);
        let listing = matches!(stage, InitStage::ListPlans { .. });
        let empty = j("[]");
        let reply = if listing { &empty } else { &made };
        let status = if missing { 404 } else { 200 };
        let shown = if missing { "404 Not Found" } else { "200 OK" };
        assert!(request.path.starts_with('/'));
        stage = match init_step(&stage, status, shown, reply, "/w") {
            InitStep::Next { stage, .. } => stage,
            InitStep::Fail(m) => panic!("failed at {}: {m}", request.path),
        };
    }
    assert!(matches!(stage, InitStage::Finished));
    assert!(asked >= 8, "asked {asked}");
    assert!(!tutorial_only().is_empty());
}

#[test]
fn a_made_project_is_deleted_again() {
    assert!(!dry_run().is_empty());
    let ok = j("{}");
    let next = match verify_step(&VerifyStage::Health, Ok(&ok)) {
        VerifyStep::Next { stage, .. } => stage,
        VerifyStep::Fail(m) => panic!("{m}"),
    };
    let made = j(r#"{"id": "P1"}"#);
    let last = match verify_step(&next, Ok(&made)) {
        VerifyStep::Next { stage, .. } => stage,
        VerifyStep::Fail(m) => panic!("{m}"),
    };
    let r = verify_request(&last, "n", "/w").unwrap();
    assert_eq!(r.path, "/projects/P1");
    assert!(matches!(
        verify_step(&VerifyStage::Health, Err("down")),
        VerifyStep::Fail(_)
    ));
}

#[test]
fn runtimes_are_listed() {
    let list = list_runtimes(&agent());
    let items = list.as_array().unwrap();
    assert_eq!(items.len(), 2);
    assert_eq!(items[0].str_at("name"), Some("host"));
    let f = PluginFacts {
        plugin_root: None,
        data_dir: "/d".to_string(),
        config_dir: "/c".to_string(),
        state_dir: "/s".to_string(),
        manifest_exists: false,
        hooks_exists: false,
        shared_adapter_exists: false,
    };
    assert_eq!(clawket::runtime::doctor(&f, &agent()).str_at("data_dir"), Some("/d"));
}

#[test]
fn data_is_never_overwritten_unasked() {
    assert!(matches!(
        decide_migration(false, true, "/t", false, true, 1),
        Migration::Nothing
    ));
    assert!(matches!(
        decide_migration(true, true, "/t", false, false, 1),
        Migration::Refuse(_)
    ));
    assert!(matches!(
        decide_migration(true, false, "/t", true, false, 1),
        Migration::Preview(_)
    ));
    assert!(matches!(
        decide_migration(true, true, "/t", false, true, 1),
        Migration::Copy
    ));
}
