use clawket::json::{Json, Member, Number};
use clawket::mcp::{
    collect_markers, comments_request, enrich, error_json, extract_markers, find_similar_request,
    instructions, search_artifacts, search_artifacts_request, search_tasks, search_tasks_request,
    similar_comments, similar_result, similar_tasks, snippet, wants_extracted, FindSimilarTasksArgs,
    GetRecentDecisionsArgs, GetTaskContextArgs, SearchArtifactsArgs, SearchTasksArgs,
    DECISION_PATTERN, ISSUE_PATTERN, TOOL_NAMES,
};
use clawket::mcp_context::{
    context_task_request, decisions_request, recent_decisions, section_request, task_context,
    wants, ContextReplies, Section,
};

fn from_value(v: &serde_json::Value) -> Json {
    match v {
        serde_json::Value::Null => Json::Null,
        serde_json::Value::Bool(b) => Json::Bool(*b),
        serde_json::Value::Number(n) => {
            if let Some(u) = n.as_u64() {
                Json::Number(Number::PosInt(u))
            } else if let Some(i) = n.as_i64() {
                Json::Number(Number::NegInt(i))
            } else {
                Json::Number(Number::Decimal(n.to_string()))
            }
        }
        serde_json::Value::String(s) => Json::Text(s.clone()),
        serde_json::Value::Array(a) => Json::Array(a.iter().map(from_value).collect()),
        serde_json::Value::Object(m) => Json::Object(
            m.iter()
                .map(|(k, v)| Member { key: k.clone(), value: from_value(v) })
                .collect(),
        ),
    }
}

fn j(text: &str) -> Json {
    let v: serde_json::Value = serde_json::from_str(text).unwrap();
    from_value(&v)
}

const EXPECTED_TOOLS: &[&str] = &[
    "clawket_search_knowledge",
    "clawket_search_tasks",
    "clawket_find_similar_tasks",
    "clawket_get_task_context",
    "clawket_get_recent_decisions",
];

#[test]
fn lists_all_v3_rag_tools() {
    assert_eq!(TOOL_NAMES.len(), EXPECTED_TOOLS.len());
    for want in EXPECTED_TOOLS {
        assert!(TOOL_NAMES.contains(want), "missing tool: {want}");
    }
}

#[test]
fn server_info_advertises_clawket_implementation() {
    let text = instructions();
    for tool in EXPECTED_TOOLS {
        assert!(text.contains(tool), "instructions should mention {tool}: {text}");
    }
}

#[test]
fn daemon_missing_returns_error_not_panic() {
    let r = error_json("failed to connect");
    assert!(r.is_error);
    let body = clawket::json_text::to_text(&r.body);
    assert!(
        body.contains("error") || body.contains("DAEMON_ERROR"),
        "error body should be structured JSON with 'error' key: {body}"
    );
}

fn similar(task_id: Option<&str>, query: Option<&str>) -> FindSimilarTasksArgs {
    FindSimilarTasksArgs {
        task_id: task_id.map(str::to_string),
        query: query.map(str::to_string),
        limit: Some(2),
        status: None,
        include_extracted: None,
    }
}

#[test]
fn invalid_input_returns_validation_error() {
    match find_similar_request(&similar(None, None)) {
        Ok(r) => panic!("asked: {}", r.path),
        Err(e) => {
            let body = clawket::json_text::to_text(&e.body);
            assert!(
                body.contains("INVALID_INPUT"),
                "should surface INVALID_INPUT: {body}"
            );
            assert!(e.is_error);
        }
    }
}

#[test]
fn similar_tasks_are_asked_for_by_task_or_text() {
    let by_text = find_similar_request(&similar(None, Some("a b"))).ok().unwrap();
    assert!(by_text.path.contains("a%20b"), "got: {}", by_text.path);
    let by_task = find_similar_request(&similar(Some("T1"), None)).ok().unwrap();
    assert!(by_task.path.contains("T1"), "got: {}", by_task.path);
    let args = similar(None, Some("x"));
    let found = similar_tasks(&args, &j(r#"[{"id": "A"}, {"id": "B"}, {"id": "C"}]"#));
    assert_eq!(found.len(), 3);
    assert!(comments_request(&j(r#"{"id": "T1"}"#)).path.contains("T1"));
    assert!(wants_extracted(&args));
}

#[test]
fn similar_tasks_are_answered_once_each_and_in_order() {
    let val = j(r#"[{"id": "A", "status": "done"}, {"id": "B", "status": "todo"},
        {"id": "C", "status": "done"}]"#);
    let mut args = similar(None, Some("x"));
    args.status = Some("done".to_string());
    let asked: Vec<String> = similar_comments(&args, &val).into_iter().map(|r| r.path).collect();
    assert_eq!(asked, vec!["/tasks/A/comments".to_string(), "/tasks/C/comments".to_string()]);
    let replies = vec![None, Some(j(r#"[{"body": "Decision: go"}]"#))];
    let full = similar_result(&args, &val, &replies);
    assert!(!full.is_error);
    let items = full.body.items();
    assert_eq!(items.len(), 2);
    assert_eq!(items[0], enrich(&j(r#"{"id": "A", "status": "done"}"#), &None));
    assert_eq!(items[1], enrich(&j(r#"{"id": "C", "status": "done"}"#), &replies[1]));
    args.include_extracted = Some(false);
    assert!(similar_comments(&args, &val).is_empty());
    let short = similar_result(&args, &val, &Vec::new()).body.items();
    assert_eq!(short.len(), 2);
    assert!(short[0].get("extracted").is_none());
    assert_eq!(short[1].str_at("id"), Some("C"));
}

#[test]
fn snippets_are_single_lines() {
    assert_eq!(snippet("a\n b\t\tc", 10), "a b c");
    assert_eq!(snippet("abcdef", 3), "abc…");
    assert_eq!(snippet("", 3), "");
}

#[test]
fn markers_are_found_by_their_words() {
    let text = "intro\n- Decision: use B\n결정: 한다\nDecision: use B\nIssue: slow\nRoot cause - lock";
    assert_eq!(
        extract_markers(text, DECISION_PATTERN, 5),
        vec!["use B".to_string(), "한다".to_string()]
    );
    assert_eq!(
        extract_markers(text, ISSUE_PATTERN, 5),
        vec!["slow".to_string(), "lock".to_string()]
    );
    assert_eq!(extract_markers(text, DECISION_PATTERN, 1), vec!["use B".to_string()]);
    assert!(extract_markers("nothing", ISSUE_PATTERN, 5).is_empty());
}

#[test]
fn markers_are_distinct_and_not_empty() {
    let groups = vec![
        Some(" a ".to_string()),
        None,
        Some("  ".to_string()),
        Some("a".to_string()),
        Some("b".to_string()),
    ];
    assert_eq!(collect_markers(&groups, 9), vec!["a".to_string(), "b".to_string()]);
}

#[test]
fn comments_enrich_a_task() {
    let task = j(r#"{"id": "T1", "title": "t"}"#);
    let comments = Some(j(r#"[{"body": "Decision: go"}, {"body": "Issue: late"}]"#));
    let text = clawket::json_text::to_text(&enrich(&task, &comments));
    assert!(text.contains("go") && text.contains("late"), "got: {text}");
    assert!(text.contains("T1"));
}

#[test]
fn searches_are_bounded() {
    let a = SearchArtifactsArgs {
        query: "q x".to_string(),
        mode: None,
        limit: Some(1000),
        type_filter: None,
        plan_id: None,
    };
    let r = search_artifacts_request(&a);
    assert!(r.path.contains("q%20x") && r.path.contains("hybrid"), "got: {}", r.path);
    assert!(!r.path.contains("1000"), "got: {}", r.path);
    assert!(!search_artifacts(&a, &j("[]")).is_error);
    let t = SearchTasksArgs { query: "q".to_string(), mode: None, limit: None, status: None };
    assert!(search_tasks_request(&t).path.contains("q"));
    let found = search_tasks(&t, &j(r#"[{"id": "T1", "title": "x", "extra": 1}]"#));
    let text = clawket::json_text::to_text(&found.body);
    assert!(text.contains("T1") && !text.contains("extra"), "got: {text}");
}

#[test]
fn a_context_has_the_sections_that_are_wanted() {
    let plain = GetTaskContextArgs { task_id: "T1".to_string(), sections: None };
    assert!(wants(&plain, Section::Artifacts));
    assert!(wants(&plain, Section::Relations));
    assert!(!wants(&plain, Section::Comments));
    let one = GetTaskContextArgs {
        task_id: "T1".to_string(),
        sections: Some(vec!["history".to_string()]),
    };
    assert!(wants(&one, Section::History));
    assert!(!wants(&one, Section::Artifacts));
    assert!(context_task_request(&one).path.contains("T1"));
    let task = j(r#"{"id": "T1", "title": "x"}"#);
    assert!(section_request(&one, &task, Section::History).path.contains("T1"));
    let replies = ContextReplies {
        artifacts: None,
        relations: None,
        comments: None,
        history: Some(j("[]")),
    };
    let r = task_context(&one, &task, &replies);
    assert!(!r.is_error);
    let text = clawket::json_text::to_text(&r.body);
    assert!(text.contains("history"), "got: {text}");
}

#[test]
fn decisions_are_limited() {
    let args = GetRecentDecisionsArgs { plan_id: None, limit: Some(1), since_ts: None };
    assert!(decisions_request(&args).path.contains("decision"));
    let r = recent_decisions(
        &args,
        &j(r#"[{"id": "A", "title": "x", "scope": "rag", "created_at": 1}, {"id": "B", "title": "y", "scope": "rag", "created_at": 2}]"#),
    );
    let text = clawket::json_text::to_text(&r.body);
    assert!(text.contains("\"B\"") && !text.contains("\"A\""), "got: {text}");
}
