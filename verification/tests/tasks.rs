use clawket::accept::{
    apply_accept, apply_size_cap, check_atomic_size_hint, is_manual_policy, parse_accept,
    size_max_subtasks, Accept, AcceptError, AtomicGate,
};
use clawket::decompose::{
    build_suggestions, check_policy_violations, extract_success_criteria, truncate,
};
use clawket::drift_warning::format as drift_banner;
use clawket::json::{Json, Member, Number};
use clawket::reply::End;
use clawket::tree::{
    compute_is_last, handle_tree, nodes_from_subtree, render_tree_lines, tree_request, Node,
};

fn from_value(v: &serde_json::Value) -> Json {
    match v {
        serde_json::Value::Null => Json::Null,
        serde_json::Value::Bool(b) => Json::Bool(*b),
        serde_json::Value::Number(n) => {
            if let Some(u) = n.as_u64() {
                Json::Number(Number::PosInt(u))
            } else if let Some(i) = n.as_i64() {
                Json::Number(Number::NegInt(i))
            } else {
                Json::Number(Number::Decimal(n.to_string()))
            }
        }
        serde_json::Value::String(s) => Json::Text(s.clone()),
        serde_json::Value::Array(a) => Json::Array(a.iter().map(from_value).collect()),
        serde_json::Value::Object(m) => Json::Object(
            m.iter()
                .map(|(k, v)| Member { key: k.clone(), value: from_value(v) })
                .collect(),
        ),
    }
}

fn j(text: &str) -> Json {
    let v: serde_json::Value = serde_json::from_str(text).unwrap();
    from_value(&v)
}

fn drift(level: &str, in_scope: usize, total: usize) -> Json {
    let files: Vec<String> = (0..in_scope).map(|i| format!("\"src/file{i}.rs\"")).collect();
    j(&format!(
        "{{\"drift_level\": \"{level}\", \"changed_files_in_scope\": [{}], \
         \"total_changed\": {total}, \
         \"planned_sha\": \"8e25ace99553ab5984bf537046499bf3f9331426\", \
         \"current_sha\": \"abcdef1234567890abcdef1234567890abcdef12\"}}",
        files.join(", ")
    ))
}

#[test]
fn none_returns_no_banner() {
    assert!(drift_banner(&drift("none", 0, 0), false).is_none());
}

#[test]
fn minor_prints_single_gray_line() {
    let out = drift_banner(&drift("minor", 2, 3), false).unwrap();
    assert!(out.starts_with("[drift:minor]"), "got: {out}");
    assert!(out.contains("2 of 3"));
    assert!(out.contains("8e25ace"));
    assert!(out.contains("abcdef1"));
    assert!(!out.contains('\x1b'));
}

#[test]
fn minor_with_color_wraps_in_gray_ansi() {
    let out = drift_banner(&drift("minor", 1, 1), true).unwrap();
    assert!(out.starts_with("\x1b[90m"));
    assert!(out.ends_with("\x1b[0m"));
}

#[test]
fn major_prints_warning_with_count_and_hint() {
    let out = drift_banner(&drift("major", 5, 7), false).unwrap();
    assert!(out.contains("drift: MAJOR"), "got: {out}");
    assert!(out.contains("5 files"));
    assert!(out.contains("out of 7"));
    assert!(
        out.contains("clawket task envelope"),
        "remediation hint missing: {out}"
    );
    assert!(
        out.contains("git rev-parse HEAD"),
        "remediation hint missing: {out}"
    );
    assert!(out.lines().count() >= 3, "got: {out}");
}

#[test]
fn major_with_color_wraps_in_yellow_and_bold() {
    let out = drift_banner(&drift("major", 5, 7), true).unwrap();
    assert!(out.starts_with("\x1b[33m⚠"));
    assert!(out.contains("\x1b[1mdrift: MAJOR\x1b[0m"));
}

#[test]
fn unknown_level_surfaces_raw_label() {
    let v = j(
        r#"{"drift_level": "critical", "changed_files_in_scope": ["x.rs"], "total_changed": 1,
            "planned_sha": "abc", "current_sha": "def"}"#,
    );
    let out = drift_banner(&v, false).unwrap();
    assert!(out.contains("drift:critical"));
}

#[test]
fn missing_count_falls_back_to_total_changed() {
    let v = j(
        r#"{"drift_level": "minor", "total_changed": 4, "planned_sha": "a", "current_sha": "b"}"#,
    );
    let out = drift_banner(&v, false).unwrap();
    assert!(out.contains("4 of 4"));
}

fn fixture_envelope_with_array_criteria() -> Json {
    j(
        r#"{"success_criteria": ["tests pass", "docs land", "lint clean"],
            "decomposition_policy": {"max_depth": 2, "min_subtasks": 2, "max_subtasks": 5}}"#,
    )
}

fn empty_objects(n: usize) -> Vec<Json> {
    (0..n).map(|_| j("{}")).collect()
}

fn numbered(n: usize) -> Vec<Json> {
    (0..n).map(|i| j(&format!("{{\"idx\": {i}}}"))).collect()
}

#[test]
fn extract_success_criteria_handles_array_form() {
    let env = fixture_envelope_with_array_criteria();
    let c = extract_success_criteria(&env);
    assert_eq!(c, vec!["tests pass", "docs land", "lint clean"]);
}

#[test]
fn extract_success_criteria_handles_string_bullet_form() {
    let env = j(r#"{"success_criteria": "- alpha\n- beta\n* gamma\n  \n  delta"}"#);
    let c = extract_success_criteria(&env);
    assert_eq!(c, vec!["alpha", "beta", "gamma", "delta"]);
}

#[test]
fn extract_success_criteria_skips_empty_lines_and_strings() {
    let env = j(r#"{"success_criteria": ["", "  ", "real"]}"#);
    assert_eq!(extract_success_criteria(&env), vec!["real"]);
}

#[test]
fn extract_success_criteria_returns_empty_when_field_missing() {
    assert!(extract_success_criteria(&j("{}")).is_empty());
}

#[test]
fn truncate_short_string_unchanged() {
    assert_eq!(truncate("hi", 10), "hi");
}

#[test]
fn truncate_long_string_appends_ellipsis() {
    let out = truncate("abcdefghij", 5);
    assert_eq!(out, "abcde…");
}

#[test]
fn truncate_handles_multibyte_chars() {
    let out = truncate("훅 동작 실증 테스트", 4);
    assert_eq!(out, "훅 동작…");
}

#[test]
fn build_suggestions_titles_include_parent_and_criteria() {
    let criteria = vec!["alpha".to_string(), "beta".to_string()];
    let s = build_suggestions("Parent Task", &criteria, "auto");
    assert_eq!(s.len(), 2);
    assert_eq!(s[0].str_at("title"), Some("Parent Task — alpha"));
    assert_eq!(s[0].u64_at("idx"), Some(0));
    assert_eq!(s[1].u64_at("idx"), Some(1));
    assert_eq!(s[0].str_at("scope_hint"), Some("auto"));
}

#[test]
fn build_suggestions_strategy_changes_scope_hint() {
    let c = vec!["x".to_string()];
    let by_repo = build_suggestions("p", &c, "by-repo");
    assert!(by_repo[0].str_at("scope_hint").unwrap().contains("by-repo"));
    let scoped = build_suggestions("p", &c, "scoped");
    assert!(scoped[0].str_at("scope_hint").unwrap().contains("by surface"));
}

#[test]
fn check_violations_warns_when_under_min() {
    let env = fixture_envelope_with_array_criteria();
    let mut s = empty_objects(1);
    let v = check_policy_violations(&env, &mut s, 2);
    assert!(v.iter().any(|x| x.str_at("field") == Some("min_subtasks")));
}

#[test]
fn check_violations_truncates_when_over_max() {
    let env = fixture_envelope_with_array_criteria();
    let mut s = empty_objects(7);
    let v = check_policy_violations(&env, &mut s, 2);
    assert!(v.iter().any(|x| x.str_at("field") == Some("max_subtasks")));
    assert_eq!(s.len(), 5, "max_subtasks=5 must truncate the list");
}

#[test]
fn check_violations_errors_on_max_depth_overrun() {
    let env = fixture_envelope_with_array_criteria();
    let mut s = empty_objects(3);
    let v = check_policy_violations(&env, &mut s, 5);
    assert!(v
        .iter()
        .any(|x| x.str_at("field") == Some("max_depth") && x.str_at("severity") == Some("error")));
}

#[test]
fn check_violations_warns_on_missing_policy() {
    let env = j(r#"{"success_criteria": ["x"]}"#);
    let mut s = empty_objects(1);
    let v = check_policy_violations(&env, &mut s, 2);
    assert!(v.iter().any(|x| x.str_at("field") == Some("decomposition_policy")
        && x.str_at("severity") == Some("warning")));
}

#[test]
fn check_violations_errors_when_suggestions_empty() {
    let env = fixture_envelope_with_array_criteria();
    let mut s: Vec<Json> = Vec::new();
    let v = check_policy_violations(&env, &mut s, 2);
    assert!(v.iter().any(|x| x.str_at("field") == Some("success_criteria")
        && x.str_at("severity") == Some("error")));
}

#[test]
fn parse_accept_all_case_insensitive() {
    assert_eq!(parse_accept("ALL").unwrap(), Accept::All);
    assert_eq!(parse_accept("all").unwrap(), Accept::All);
    assert_eq!(parse_accept("All").unwrap(), Accept::All);
}

#[test]
fn parse_accept_csv_indices() {
    assert_eq!(
        parse_accept("1,3,5").unwrap(),
        Accept::Indices(vec![1, 3, 5])
    );
    assert_eq!(
        parse_accept(" 2 , 4 ").unwrap(),
        Accept::Indices(vec![2, 4])
    );
}

#[test]
fn parse_accept_rejects_zero_or_garbage() {
    assert!(parse_accept("0").is_err());
    assert!(parse_accept("1,foo").is_err());
    assert!(parse_accept("").is_err());
    assert!(parse_accept(", ,").is_err());
}

#[test]
fn each_refusal_has_its_reason() {
    assert_eq!(parse_accept("  ").unwrap_err(), AcceptError::Empty);
    assert_eq!(parse_accept("2,0").unwrap_err(), AcceptError::Zero);
    assert_eq!(
        parse_accept("1,foo").unwrap_err(),
        AcceptError::NotANumber("foo".to_string())
    );
    assert!(matches!(parse_accept(", ,").unwrap_err(), AcceptError::NoIndices(_)));
    assert!(parse_accept("99999999999999999999").is_err());
    assert!(!AcceptError::Zero.message().is_empty());
    assert!(AcceptError::NotANumber("foo".to_string()).message().contains("foo"));
}

#[test]
fn apply_accept_all_keeps_everything() {
    let kept = apply_accept(numbered(3), &Accept::All);
    assert_eq!(kept.len(), 3);
}

#[test]
fn apply_accept_indices_filters_to_listed() {
    let kept = apply_accept(numbered(3), &Accept::Indices(vec![1, 3]));
    assert_eq!(kept.len(), 2);
    assert_eq!(kept[0].u64_at("idx"), Some(0));
    assert_eq!(kept[1].u64_at("idx"), Some(2));
}

#[test]
fn apply_accept_indices_silently_drops_out_of_range() {
    let kept = apply_accept(numbered(1), &Accept::Indices(vec![1, 99]));
    assert_eq!(kept.len(), 1);
}

#[test]
fn decompose_atomic_gate_refuses_tiny_and_small() {
    for hint in ["tiny", "small"] {
        match check_atomic_size_hint(hint) {
            AtomicGate::Refuse { size_hint, suggestion } => {
                assert_eq!(size_hint, hint);
                assert!(
                    suggestion.contains("single session"),
                    "refusal message must point at single-session execution: {suggestion}"
                );
            }
            other => panic!("expected Refuse for {hint:?}, got {other:?}"),
        }
    }
}

#[test]
fn decompose_atomic_gate_allows_medium_and_above() {
    for hint in ["medium", "large", "unknown", ""] {
        assert_eq!(
            check_atomic_size_hint(hint),
            AtomicGate::Allow,
            "{hint:?} should not trip the atomic gate"
        );
    }
}

#[test]
fn decompose_atomic_size_cap_medium_caps_at_3() {
    let mut s = numbered(7);
    let v = apply_size_cap(&mut s, "medium");
    assert_eq!(s.len(), 3, "medium must truncate to 3");
    let v = v.expect("medium with 7 suggestions must produce a violation");
    assert_eq!(v.str_at("field"), Some("atomic_size_hint"));
    assert_eq!(v.str_at("severity"), Some("warning"));
}

#[test]
fn decompose_atomic_size_cap_large_caps_at_5() {
    let mut s = numbered(9);
    let v = apply_size_cap(&mut s, "large");
    assert_eq!(s.len(), 5, "large must truncate to 5");
    assert!(v.is_some(), "large with 9 suggestions must produce a violation");
}

#[test]
fn decompose_atomic_size_cap_under_threshold_is_noop() {
    let mut s = numbered(2);
    let v = apply_size_cap(&mut s, "medium");
    assert_eq!(s.len(), 2, "below cap must not truncate");
    assert!(v.is_none(), "no violation when under cap");
}

#[test]
fn decompose_atomic_size_cap_unknown_hint_is_noop() {
    let mut s = numbered(7);
    let v = apply_size_cap(&mut s, "small");
    assert_eq!(s.len(), 7, "no cap defined for `small` (gate refuses earlier)");
    assert!(v.is_none());
    assert_eq!(size_max_subtasks("medium"), Some(3));
    assert_eq!(size_max_subtasks("small"), None);
}

#[test]
fn decompose_atomic_manual_policy_is_detected() {
    assert!(is_manual_policy("manual"));
    for other in ["auto", "atomic", "Manual", "MANUAL", ""] {
        assert!(
            !is_manual_policy(other),
            "{other:?} must not be classified as manual"
        );
    }
}

fn n(depth: usize, ticket: &str, status: &str, title: &str) -> Node {
    Node {
        depth,
        ticket: ticket.into(),
        title: title.into(),
        status: status.into(),
        intent: None,
    }
}

#[test]
fn nodes_from_subtree_extracts_required_fields() {
    let raw = j(
        r#"[{"task": {"id": "TASK-1", "ticket_number": "LM-1", "title": "Root",
                      "status": "in_progress"},
             "depth": 0, "resolved_envelope": {"intent": "Be the parent"}},
            {"task": {"id": "TASK-2", "ticket_number": "LM-2", "title": "Child",
                      "status": "todo"},
             "depth": 1, "resolved_envelope": null}]"#,
    );
    let ns = nodes_from_subtree(&raw);
    assert_eq!(ns.len(), 2);
    assert_eq!(ns[0].ticket, "LM-1");
    assert_eq!(ns[0].depth, 0);
    assert_eq!(ns[0].status, "in_progress");
    assert_eq!(ns[0].intent.as_deref(), Some("Be the parent"));
    assert_eq!(ns[1].depth, 1);
    assert_eq!(ns[1].intent, None);
}

#[test]
fn nodes_from_subtree_handles_missing_ticket_falls_back_to_id() {
    let raw = j(
        r#"[{"task": {"id": "TASK-X", "title": "T", "status": "todo"}, "depth": 0}]"#,
    );
    let ns = nodes_from_subtree(&raw);
    assert_eq!(ns[0].ticket, "TASK-X");
}

#[test]
fn nodes_from_subtree_returns_empty_on_non_array() {
    let ns = nodes_from_subtree(&j(r#"{"oops": "object"}"#));
    assert!(ns.is_empty());
}

#[test]
fn compute_is_last_marks_only_child_as_last() {
    assert_eq!(compute_is_last(&[0]), vec![true]);
}

#[test]
fn compute_is_last_marks_middle_siblings_as_not_last() {
    assert_eq!(
        compute_is_last(&[0, 1, 1, 1]),
        vec![true, false, false, true]
    );
}

#[test]
fn compute_is_last_handles_nested_subtree_after_a_sibling() {
    let v = compute_is_last(&[0, 1, 2, 1]);
    assert_eq!(v, vec![true, false, true, true]);
}

#[test]
fn render_root_only_has_no_prefix() {
    let lines = render_tree_lines(&[n(0, "LM-1", "todo", "Solo")], false);
    assert_eq!(lines.len(), 1);
    assert!(!lines[0].contains("├"));
    assert!(!lines[0].contains("└"));
    assert!(lines[0].contains("LM-1"));
    assert!(lines[0].contains("[todo]"));
    assert!(lines[0].contains("Solo"));
}

#[test]
fn render_two_children_uses_branch_then_corner() {
    let nodes = vec![
        n(0, "LM-1", "in_progress", "Root"),
        n(1, "LM-2", "todo", "First"),
        n(1, "LM-3", "done", "Second"),
    ];
    let lines = render_tree_lines(&nodes, false);
    assert_eq!(lines.len(), 3);
    assert!(lines[1].starts_with("├── "));
    assert!(lines[2].starts_with("└── "));
}

#[test]
fn render_three_depth_keeps_vertical_bar_under_unfinished_branch() {
    let nodes = vec![
        n(0, "LM-1", "todo", "root"),
        n(1, "LM-2", "todo", "A"),
        n(2, "LM-3", "todo", "A.1"),
        n(1, "LM-4", "todo", "B"),
    ];
    let lines = render_tree_lines(&nodes, false);
    assert_eq!(lines.len(), 4, "3-depth tree must render all 4 nodes");
    assert!(lines[1].starts_with("├── "));
    assert!(lines[2].starts_with("│   └── "), "got: {:?}", lines[2]);
    assert!(lines[3].starts_with("└── "));
}

#[test]
fn render_envelope_summary_appends_intent() {
    let mut nodes = vec![n(0, "LM-1", "todo", "root")];
    nodes[0].intent = Some("ship the thing".into());
    let plain = render_tree_lines(&nodes, false);
    let with_env = render_tree_lines(&nodes, true);
    assert!(!plain[0].contains("ship the thing"));
    assert!(with_env[0].contains("ship the thing"));
}

#[test]
fn render_envelope_summary_skips_when_intent_missing() {
    let nodes = vec![n(0, "LM-1", "todo", "root")];
    let with_env = render_tree_lines(&nodes, true);
    assert!(!with_env[0].contains("·"));
}

#[test]
fn render_truncates_long_titles_with_ellipsis() {
    let long = "a".repeat(200);
    let nodes = vec![n(0, "LM-1", "todo", &long)];
    let lines = render_tree_lines(&nodes, false);
    assert!(
        lines[0].ends_with('…'),
        "expected ellipsis, got {:?}",
        lines[0]
    );
}

#[test]
fn render_handles_empty_input() {
    assert!(render_tree_lines(&[], false).is_empty());
}

#[test]
fn a_tree_is_asked_for_and_shown() {
    let raw = j(
        r#"[{"task": {"id": "T1", "title": "Root", "status": "todo"}, "depth": 0},
            {"task": {"id": "T2", "title": "Leaf", "status": "done"}, "depth": 1}]"#,
    );
    let out = handle_tree("T1", &raw, "text", false);
    assert!(out.stdout.contains("└── "));
    assert!(matches!(out.end, End::Done));
    assert!(tree_request("T1", 3, false).path.contains("T1"));
}
