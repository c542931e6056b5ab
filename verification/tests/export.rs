use clawket::export::{
    collect_depends_on, json_to_yaml, render, render_envelope_bullets, render_json,
    render_markdown, with_ids, PlanBundle, Rendered, TaskBundle, UnitBundle, ENVELOPE_FIELDS,
};
use clawket::json::{array, Json, Member, Number};

fn from_value(v: &serde_json::Value) -> Json {
    match v {
        serde_json::Value::Null => Json::Null,
        serde_json::Value::Bool(b) => Json::Bool(*b),
        serde_json::Value::Number(n) => {
            if let Some(u) = n.as_u64() {
                Json::Number(Number::PosInt(u))
            } else if let Some(i) = n.as_i64() {
                Json::Number(Number::NegInt(i))
            } else {
                Json::Number(Number::Decimal(n.to_string()))
            }
        }
        serde_json::Value::String(s) => Json::Text(s.clone()),
        serde_json::Value::Array(a) => Json::Array(a.iter().map(from_value).collect()),
        serde_json::Value::Object(m) => Json::Object(
            m.iter()
                .map(|(k, v)| Member { key: k.clone(), value: from_value(v) })
                .collect(),
        ),
    }
}

fn j(text: &str) -> Json {
    let v: serde_json::Value = serde_json::from_str(text).unwrap();
    from_value(&v)
}

fn task(id: &str, title: &str, status: &str, depends_on: Vec<&str>) -> Json {
    let deps: Vec<String> = depends_on.iter().map(|d| format!("\"{d}\"")).collect();
    j(&format!(
        "{{\"id\": \"{id}\", \"title\": \"{title}\", \"status\": \"{status}\", \
         \"ticket_number\": \"{id}\", \"depends_on\": [{}]}}",
        deps.join(", ")
    ))
}

fn bundle_simple() -> PlanBundle {
    PlanBundle {
        plan: j(
            r#"{"id": "PLAN-XYZ", "title": "Sample Plan", "description": "A short description.",
                "project_id": "PROJ-X", "status": "active", "source": "manual"}"#,
        ),
        units: vec![UnitBundle {
            unit: j(r#"{"id": "UNIT-1", "title": "Setup", "idx": 0, "goal": "G"}"#),
            tasks: vec![TaskBundle {
                task: task("T-1", "First task", "todo", vec![]),
                envelope: j(
                    r#"{"version": 1, "intent": "do thing", "success_criteria": ["a", "b"]}"#,
                ),
            }],
        }],
        knowledge: vec![],
    }
}

#[test]
fn markdown_renders_required_sections() {
    let md = render_markdown(&bundle_simple());
    assert!(md.starts_with("# Sample Plan"));
    assert!(md.contains("## Meta"));
    assert!(md.contains("## Overview"));
    assert!(md.contains("## 표기 규약"));
    assert!(md.contains("## Unit 0: Setup"));
    assert!(md.contains("### First task (T-1) — _todo_"));
}

#[test]
fn markdown_renders_envelope_bullets_in_canonical_order() {
    let md = render_markdown(&bundle_simple());
    let intent_pos = md.find("`intent`").unwrap();
    let success_pos = md.find("`success_criteria`").unwrap();
    assert!(
        intent_pos < success_pos,
        "intent must precede success_criteria"
    );
}

#[test]
fn envelope_bullets_skip_unknown_fields() {
    let env = j(r#"{"intent": "x", "weird_field": "should not render"}"#);
    let s = render_envelope_bullets(&env);
    assert!(s.contains("`intent`"));
    assert!(!s.contains("weird_field"));
}

#[test]
fn envelope_bullets_handle_arrays_and_strings() {
    let env = j(r#"{"intent": "rewrite", "success_criteria": ["a", "b"], "version": 2}"#);
    let s = render_envelope_bullets(&env);
    assert!(s.contains("`intent`: \"rewrite\""));
    assert!(s.contains("`success_criteria`: [\"a\",\"b\"]"));
    assert!(s.contains("`version`: 2"));
}

#[test]
fn overview_table_counts_by_status() {
    let mut b = bundle_simple();
    b.units[0].tasks.push(TaskBundle {
        task: task("T-2", "second", "in_progress", vec![]),
        envelope: Json::Null,
    });
    b.units[0].tasks.push(TaskBundle {
        task: task("T-3", "third", "done", vec![]),
        envelope: Json::Null,
    });
    let md = render_markdown(&b);
    let row = md.lines().find(|l| l.contains("Setup")).unwrap();
    assert!(row.contains("| 3 |"), "total = 3, got: {row}");
    assert!(row.contains("| 1 |"), "todo = 1, got: {row}");
}

#[test]
fn mermaid_emits_one_edge_per_dependency() {
    let mut b = bundle_simple();
    b.units[0].tasks.push(TaskBundle {
        task: task("T-2", "second", "todo", vec!["T-1"]),
        envelope: Json::Null,
    });
    b.units[0].tasks.push(TaskBundle {
        task: task("T-3", "third", "todo", vec!["T-1", "T-2"]),
        envelope: Json::Null,
    });
    let md = render_markdown(&b);
    assert!(md.contains("```mermaid"));
    assert!(md.contains("T-2 --> T-1"));
    assert!(md.contains("T-3 --> T-1"));
    assert!(md.contains("T-3 --> T-2"));
    let edges = collect_depends_on(&b);
    let mermaid_edge_count = md.lines().filter(|l| l.contains(" --> ")).count();
    assert!(
        mermaid_edge_count >= edges.len(),
        "the graph must cover all dependencies"
    );
}

#[test]
fn mermaid_section_omitted_when_no_edges() {
    let md = render_markdown(&bundle_simple());
    assert!(!md.contains("## Dependency Graph"));
}

fn at<'a>(v: &'a Json, path: &[&str]) -> &'a Json {
    let mut cur = v;
    for key in path {
        cur = match cur {
            Json::Array(items) => &items[key.parse::<usize>().unwrap()],
            _ => cur.get(key).unwrap(),
        };
    }
    cur
}

#[test]
fn json_export_round_trips_structurally() {
    let b = bundle_simple();
    let v = render_json(&b);
    assert_eq!(at(&v, &["plan", "id"]).as_str(), Some("PLAN-XYZ"));
    assert_eq!(at(&v, &["units", "0", "unit", "id"]).as_str(), Some("UNIT-1"));
    assert_eq!(
        at(&v, &["units", "0", "tasks", "0", "task", "id"]).as_str(),
        Some("T-1")
    );
    assert_eq!(
        at(&v, &["units", "0", "tasks", "0", "envelope", "intent"]).as_str(),
        Some("do thing")
    );
    assert!(at(&v, &["depends_on"]).as_array().is_some());
}

#[test]
fn json_export_collects_depends_on_edges() {
    let mut b = bundle_simple();
    b.units[0].tasks.push(TaskBundle {
        task: task("T-2", "x", "todo", vec!["T-1"]),
        envelope: Json::Null,
    });
    let v = render_json(&b);
    let edges = v.array_at("depends_on").unwrap();
    assert_eq!(edges.len(), 1);
    assert_eq!(edges[0].str_at("from"), Some("T-2"));
    assert_eq!(edges[0].str_at("to"), Some("T-1"));
}

#[test]
fn milestones_section_renders_when_present() {
    let mut b = bundle_simple();
    let milestones = j(
        r#"[{"name": "M1", "due": "2026-05-01", "description": "alpha"}, {"name": "M2"}]"#,
    );
    b.plan = b.plan.with("milestones_json", milestones);
    let md = render_markdown(&b);
    assert!(md.contains("## Milestones"));
    assert!(md.contains("**M1** — due 2026-05-01: alpha"));
    assert!(md.contains("**M2**"));
}

#[test]
fn knowledge_appendix_renders_when_requested() {
    let mut b = bundle_simple();
    b.knowledge = vec![j(
        r#"{"id": "KN-1", "title": "Decision", "type": "decision", "body": "we picked B over A."}"#,
    )];
    let md = render_markdown(&b);
    assert!(md.contains("## Knowledge"));
    assert!(md.contains("Decision"));
    assert!(md.contains("we picked B over A."));
}

#[test]
fn envelope_field_count_matches_adr_0001() {
    assert_eq!(ENVELOPE_FIELDS.len(), 19);
}

fn full_envelope(intent: &str) -> Json {
    j(&format!(
        "{{\"version\": 1, \"intent\": \"{intent}\", \"target_repo\": \"daemon\", \
         \"target_model\": \"opus\", \"max_turns\": 12, \"prompt_template\": \"do thing\", \
         \"context_refs\": [{{\"kind\":\"decision\",\"id\":\"DEC-1\"}}], \
         \"scope_boundary\": \"daemon/src/\", \"atomic_size_hint\": \"small\", \
         \"success_criteria\": [\"a\", \"b\"], \"verification_cmd\": \"cargo test\", \
         \"depends_on\": [], \"blocked_by\": [], \"planned_sha\": \"abc123\", \
         \"decomposition_policy\": \"atomic\", \"checkpoint_interval\": 5, \
         \"rollback_strategy\": \"git revert\", \"origin\": \"RL-X-01\", \
         \"assigned_model\": \"opus\"}}"
    ))
}

fn fixture_bundle() -> PlanBundle {
    PlanBundle {
        plan: j(
            r#"{"id": "PLAN-FIXTURE", "title": "Spec Lock-in Plan", "project_id": "PROJ-X",
                "status": "active"}"#,
        ),
        units: vec![
            UnitBundle {
                unit: j(
                    r#"{"id":"UNIT-1","idx":0,"title":"Foundations","goal":"Lay groundwork."}"#,
                ),
                tasks: vec![
                    TaskBundle {
                        task: task("T-A", "First", "todo", vec![]),
                        envelope: full_envelope("first intent"),
                    },
                    TaskBundle {
                        task: task("T-B", "Second", "in_progress", vec!["T-A"]),
                        envelope: full_envelope("second intent"),
                    },
                ],
            },
            UnitBundle {
                unit: j(r#"{"id":"UNIT-2","idx":1,"title":"Delivery","goal":"Ship it."}"#),
                tasks: vec![TaskBundle {
                    task: task("T-C", "Third", "done", vec!["T-B"]),
                    envelope: full_envelope("third intent"),
                }],
            },
        ],
        knowledge: vec![],
    }
}

#[test]
fn section_order_matches_spec() {
    let md = render_markdown(&fixture_bundle());
    let positions = [
        ("# Spec Lock-in Plan", "H1"),
        ("## Meta", "Meta"),
        ("## Overview", "Overview"),
        (
            "## 표기 규약 (Envelope 19 fields per ADR-0001)",
            "Envelope legend",
        ),
        ("## Unit 0: Foundations", "Unit 0"),
        ("## Unit 1: Delivery", "Unit 1"),
        ("## Dependency Graph", "Dependency Graph"),
    ];
    let mut prev_pos: Option<usize> = None;
    let mut prev_label = "<start>";
    for (needle, label) in positions {
        let pos = md
            .find(needle)
            .unwrap_or_else(|| panic!("section {label} ({needle:?}) missing.\nfull md:\n{md}"));
        if let Some(prev) = prev_pos {
            assert!(pos > prev, "section {label} appears before {prev_label}");
        }
        prev_pos = Some(pos);
        prev_label = label;
    }
}

#[test]
fn meta_block_shape_matches_spec() {
    let md = render_markdown(&fixture_bundle());
    let meta = extract_section(&md, "## Meta");
    assert!(
        meta.contains("- id: `PLAN-FIXTURE`"),
        "Meta missing backticked id: {meta}"
    );
    assert!(
        meta.contains("- project: `PROJ-X`"),
        "Meta missing project: {meta}"
    );
    assert!(
        meta.contains("- status: `active`"),
        "Meta missing status: {meta}"
    );
}

#[test]
fn overview_header_matches_spec() {
    let md = render_markdown(&fixture_bundle());
    assert!(md.contains("| Unit | Title | Tasks | todo | doing | done |"));
}

#[test]
fn envelope_legend_lists_all_19_fields_in_order() {
    let md = render_markdown(&fixture_bundle());
    let legend = extract_section(&md, "## 표기 규약");
    let mut prev_pos = 0usize;
    for f in ENVELOPE_FIELDS {
        let needle = format!("- `{f}`");
        let pos = legend
            .find(&needle)
            .unwrap_or_else(|| panic!("envelope legend missing field `{f}`"));
        assert!(pos >= prev_pos, "envelope legend out of order at `{f}`");
        prev_pos = pos;
    }
}

#[test]
fn task_heading_pattern_matches_spec() {
    let md = render_markdown(&fixture_bundle());
    assert!(md.contains("### First (T-A) — _todo_"));
    assert!(md.contains("### Second (T-B) — _in_progress_"));
    assert!(md.contains("### Third (T-C) — _done_"));
}

#[test]
fn envelope_bullets_render_in_canonical_order() {
    let md = render_markdown(&fixture_bundle());
    let task_a = extract_task_block(&md, "### First (T-A)");
    let mut prev_pos = 0usize;
    let mut prev_field = "<start>";
    for f in ENVELOPE_FIELDS {
        let needle = format!("- `{f}`:");
        let pos = task_a
            .find(&needle)
            .unwrap_or_else(|| panic!("envelope bullet `{f}` missing.\nblock:\n{task_a}"));
        assert!(
            pos > prev_pos,
            "envelope bullet `{f}` precedes `{prev_field}`"
        );
        prev_pos = pos;
        prev_field = f;
    }
}

#[test]
fn envelope_bullet_value_encodings_match_spec() {
    let md = render_markdown(&fixture_bundle());
    let blk = extract_task_block(&md, "### First (T-A)");
    assert!(
        blk.contains("- `version`: 1"),
        "integer must render bare: {blk}"
    );
    assert!(
        blk.contains("- `intent`: \"first intent\""),
        "string must render JSON-quoted: {blk}"
    );
    assert!(
        blk.contains("- `success_criteria`: [\"a\",\"b\"]"),
        "array must render JSON one-line: {blk}"
    );
    assert!(
        blk.contains("- `context_refs`: [{\"id\":\"DEC-1\",\"kind\":\"decision\"}]"),
        "object array must render as JSON one-line with sorted keys: {blk}"
    );
}

#[test]
fn dependency_graph_uses_canonical_mermaid_form() {
    let md = render_markdown(&fixture_bundle());
    let dag = extract_section(&md, "## Dependency Graph");
    assert!(
        dag.contains("```mermaid"),
        "fence language must be mermaid: {dag}"
    );
    assert!(
        dag.contains("graph LR\n"),
        "first line must be `graph LR` (no flowchart): {dag}"
    );
    assert!(
        dag.contains("  T-B --> T-A"),
        "edge T-B→T-A missing or wrong indent: {dag}"
    );
    assert!(dag.contains("  T-C --> T-B"), "edge T-C→T-B missing: {dag}");
    assert!(!dag.contains("flowchart"), "no `flowchart`: {dag}");
    assert!(!dag.contains("graph TD"), "no `graph TD`: {dag}");
}

#[test]
fn dependency_graph_section_omitted_when_zero_edges() {
    let mut b = fixture_bundle();
    for ub in &mut b.units {
        for tb in &mut ub.tasks {
            tb.task = tb.task.copy().with("depends_on", array(Vec::new()));
        }
    }
    let md = render_markdown(&b);
    assert!(
        !md.contains("## Dependency Graph"),
        "the section is left out without edges; got:\n{md}"
    );
}

#[test]
fn envelope_field_count_locked_at_19() {
    assert_eq!(ENVELOPE_FIELDS.len(), 19);
}

fn extract_section<'a>(md: &'a str, heading: &str) -> &'a str {
    let start = md
        .find(heading)
        .unwrap_or_else(|| panic!("heading {heading:?} missing in:\n{md}"));
    let after = &md[start..];
    let next_h2 = after[heading.len()..]
        .find("\n## ")
        .map(|p| p + heading.len() + 1);
    match next_h2 {
        Some(end) => &after[..end],
        None => after,
    }
}

fn extract_task_block<'a>(md: &'a str, heading: &str) -> &'a str {
    let start = md
        .find(heading)
        .unwrap_or_else(|| panic!("task heading {heading:?} missing in:\n{md}"));
    let after = &md[start..];
    let next = after[heading.len()..]
        .find("\n### ")
        .or_else(|| after[heading.len()..].find("\n## "))
        .map(|p| p + heading.len() + 1);
    match next {
        Some(end) => &after[..end],
        None => after,
    }
}

#[test]
fn a_plan_is_rendered_in_its_form() {
    let b = bundle_simple();
    match render(&b, "md") {
        Ok(Rendered::Text(t)) => assert_eq!(t, render_markdown(&b)),
        _ => panic!("no text"),
    }
    match render(&b, "json") {
        Ok(Rendered::Json(v)) => assert_eq!(v, render_json(&b)),
        _ => panic!("no value"),
    }
    assert!(render(&b, "pdf").is_err());
}

#[test]
fn texts_are_quoted_in_yaml() {
    let y = json_to_yaml(&j(r#"{"a": "x: \"y\"\n", "b": [1, null]}"#), "");
    assert!(y.contains("\"x: \\\"y\\\"\\n\""), "got: {y}");
    assert!(y.contains("- 1"), "got: {y}");
}

#[test]
fn yaml_lines_keep_their_spaces() {
    assert_eq!(json_to_yaml(&j(r#"{"a": "", "b": 1}"#), ""), "a: \nb: 1\n");
    assert_eq!(json_to_yaml(&j(r#"["", "x"]"#), "  "), "  - \n  - x\n");
}

#[test]
fn only_things_with_ids_are_followed() {
    let list = j(r#"[{"id": "A"}, {"name": "no id"}, {"id": "B"}]"#);
    let ids: Vec<String> = with_ids(&list).into_iter().map(|(id, _)| id).collect();
    assert_eq!(ids, vec!["A".to_string(), "B".to_string()]);
}

#[test]
fn texts_in_lists_are_escaped() {
    let s = render_envelope_bullets(&j(r#"{"success_criteria": ["say \"hi\"\u0001"]}"#));
    assert!(s.contains("[\"say \\\"hi\\\"\\u0001\"]"), "got: {s}");
    let t = render_envelope_bullets(&j(r#"{"intent": "say \"hi\"\n"}"#));
    assert_eq!(t, "- `intent`: \"say \\\"hi\\\"\\n\"\n");
}

fn remade(
    plan: &str,
    project: &str,
    time: &str,
    first: (&str, &str),
    second: (&str, &str),
) -> PlanBundle {
    let task = |at: (&str, &str), title: &str, needs: &str| {
        j(&format!(
            "{{\"id\": \"{}\", \"ticket_number\": \"{}\", \"title\": \"{title}\", \
             \"status\": \"todo\", \"depends_on\": [{needs}], \"created_at\": {time}}}",
            at.0, at.1
        ))
    };
    PlanBundle {
        plan: j(&format!(
            "{{\"id\": \"{plan}\", \"project_id\": \"{project}\", \"title\": \"P\", \
             \"status\": \"draft\", \"source\": \"import:{time}\"}}"
        )),
        units: vec![UnitBundle {
            unit: j(&format!("{{\"id\": \"U-{time}\", \"idx\": 1, \"title\": \"U\"}}")),
            tasks: vec![
                TaskBundle { task: task(first, "A", ""), envelope: full_envelope("one") },
                TaskBundle {
                    task: task(second, "B", &format!("\"{}\"", first.0)),
                    envelope: full_envelope("two"),
                },
            ],
        }],
        knowledge: vec![],
    }
}

#[test]
fn exports_differ_in_nothing_but_what_is_made_anew() {
    let a = render_markdown(&remade("PL1", "PR1", "1700000000001", ("IA", "K1"), ("IB", "K2")));
    let b = render_markdown(&remade("PL2", "PR2", "1800000000002", ("IC", "M7"), ("ID", "M8")));
    assert_ne!(a, b);
    let mut masked = b;
    for (new, old) in [
        ("PL2", "PL1"),
        ("PR2", "PR1"),
        ("1800000000002", "1700000000001"),
        ("IC", "IA"),
        ("ID", "IB"),
        ("M7", "K1"),
        ("M8", "K2"),
    ] {
        masked = masked.replace(new, old);
    }
    assert_eq!(masked, a);
    assert!(a.contains("**Envelope:**"));
    assert!(a.contains("```mermaid"));
}
