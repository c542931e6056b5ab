use clawket::command::{
    Command, ConfigAction, CycleAction, DiscoverAction, PlanAction, ProjectAction, RunAction,
    TaskAction, UnitAction,
};
use clawket::decompose_flow::{no_envelope, parent_request};
use clawket::dispatch::{request_for, sync_context};
use clawket::drift_warning::drift_request;
use clawket::json::{Json, Member, Number};
use clawket::query::{add_param, query_string, urlenc, urlencoding};
use clawket::request::{method_name, needs_directory, project_enabled_body, Method, Request};
use clawket::task_request::task_transition;

fn from_value(v: &serde_json::Value) -> Json {
    match v {
        serde_json::Value::Null => Json::Null,
        serde_json::Value::Bool(b) => Json::Bool(*b),
        serde_json::Value::Number(n) => {
            if let Some(u) = n.as_u64() {
                Json::Number(Number::PosInt(u))
            } else if let Some(i) = n.as_i64() {
                Json::Number(Number::NegInt(i))
            } else {
                Json::Number(Number::Decimal(n.to_string()))
            }
        }
        serde_json::Value::String(s) => Json::Text(s.clone()),
        serde_json::Value::Array(a) => Json::Array(a.iter().map(from_value).collect()),
        serde_json::Value::Object(m) => Json::Object(
            m.iter()
                .map(|(k, v)| Member { key: k.clone(), value: from_value(v) })
                .collect(),
        ),
    }
}

fn j(text: &str) -> Json {
    let v: serde_json::Value = serde_json::from_str(text).unwrap();
    from_value(&v)
}

fn some(s: &str) -> Option<String> {
    Some(s.to_string())
}

fn asked(c: Command) -> Request {
    match request_for(&c, Some("/here")) {
        Ok(r) => r,
        Err(e) => panic!("refused: {}", e.message),
    }
}

fn refused(c: Command) -> (String, i32) {
    match request_for(&c, Some("/here")) {
        Ok(r) => panic!("asked: {}", r.path),
        Err(e) => (e.message, e.code),
    }
}

#[test]
fn disable_emits_enabled_zero() {
    assert_eq!(project_enabled_body(0), j(r#"{"enabled": 0}"#));
}

#[test]
fn enable_emits_enabled_one() {
    assert_eq!(project_enabled_body(1), j(r#"{"enabled": 1}"#));
}

#[test]
fn query_values_are_encoded() {
    assert_eq!(urlenc("a b&c=d#e%f/ä"), "a%20b%26c%3Dd%23e%25f/ä");
    assert_eq!(urlencoding("a b/ä~-_.Z9"), "a%20b%2F%C3%A4~-_.Z9");
    let (none, x, y): (Option<String>, Option<String>, Option<String>) =
        (None, some("1 2"), some("z"));
    assert_eq!(query_string(&[("a", &none), ("b", &x), ("c", &y)]), "?b=1%202&c=z");
    assert_eq!(query_string(&[("a", &none)]), "");
    assert_eq!(add_param(String::new(), "k", Some("v")), "?k=v");
    assert_eq!(add_param("?k=v".to_string(), "l", Some("w")), "?k=v&l=w");
    assert_eq!(add_param("?k=v".to_string(), "l", None), "?k=v");
}

#[test]
fn projects_are_created_with_a_directory() {
    let r = asked(Command::Project {
        action: ProjectAction::Create {
            name: "p".to_string(),
            description: None,
            cwd: some("/w"),
            key: None,
        },
    });
    assert_eq!(method_name(r.method), "POST");
    assert_eq!(r.path, "/projects");
    assert_eq!(r.body.unwrap().str_at("cwd"), Some("/w"));
}

#[test]
fn disabling_patches_the_project() {
    let r = asked(Command::Project {
        action: ProjectAction::Disable { id: "P1".to_string() },
    });
    assert_eq!(method_name(r.method), "PATCH");
    assert_eq!(r.path, "/projects/P1");
    assert_eq!(r.body, Some(j(r#"{"enabled": 0}"#)));
}

fn new_task(unit: Option<&str>, cycle: Option<&str>) -> TaskAction {
    TaskAction::Create {
        title: "t".to_string(),
        unit: unit.map(str::to_string),
        body: None,
        assignee: None,
        idx: None,
        depends_on: vec!["A".to_string(), "B".to_string()],
        parent_task: None,
        priority: "medium".to_string(),
        complexity: None,
        estimated_edits: Some(4),
        cycle: cycle.map(str::to_string),
        kind: "task".to_string(),
        label: Vec::new(),
        tier: None,
        scenario_id: None,
        evidence: None,
        batch_id: None,
    }
}

#[test]
fn a_task_needs_only_a_cycle() {
    let r = asked(Command::Task { action: new_task(None, Some("C1")) });
    assert_eq!(r.path, "/tasks");
    let body = r.body.unwrap();
    assert_eq!(body.str_at("cycle_id"), Some("C1"));
    assert_eq!(body.str_at("title"), Some("t"));
    assert_eq!(body.array_at("depends_on").unwrap().len(), 2);
    assert_eq!(body.i64_at("estimated_edits"), Some(4));
}

#[test]
fn a_finished_task_carries_its_evidence() {
    let r = task_transition("T1", "done", Some("ok"), Some("log"), "me");
    assert!(matches!(r.method, Method::Patch));
    assert!(r.path.starts_with("/tasks/T1"));
    let body = r.body.unwrap();
    assert_eq!(body.str_at("status"), Some("done"));
    assert_eq!(body.str_at("evidence"), Some("log"));
}

#[test]
fn units_have_one_of_two_modes() {
    let unit = |mode: &str| Command::Unit {
        action: UnitAction::Create {
            title: "u".to_string(),
            plan: "PL".to_string(),
            goal: None,
            idx: Some(0),
            mode: mode.to_string(),
        },
    };
    assert_eq!(asked(unit("sequential")).path, "/units");
    let (message, code) = refused(unit("sideways"));
    assert!(message.contains("sideways"), "got: {message}");
    assert_ne!(code, 0);
}

#[test]
fn plans_are_listed_by_query() {
    let r = asked(Command::Plan {
        action: PlanAction::List { project: some("P 1"), status: None },
    });
    assert_eq!(r.path, "/plans?project_id=P%201");
    let none = asked(Command::Plan {
        action: PlanAction::List { project: None, status: None },
    });
    assert_eq!(none.path, "/plans");
}

#[test]
fn cycles_belong_to_a_unit() {
    let r = asked(Command::Cycle {
        action: CycleAction::Create {
            title: "c".to_string(),
            project: "P".to_string(),
            unit: "U".to_string(),
            goal: None,
            idx: None,
        },
    });
    assert_eq!(r.path, "/cycles");
    assert_eq!(r.body.unwrap().str_at("unit_id"), Some("U"));
}

#[test]
fn settings_are_set_and_unset() {
    let set = asked(Command::Config {
        action: ConfigAction::Assign { key: "k".to_string(), value: "v".to_string() },
    });
    assert!(set.path.contains("config"), "got: {}", set.path);
    let unset = asked(Command::Config { action: ConfigAction::Unset { key: "k".to_string() } });
    assert_eq!(method_name(unset.method), "DELETE");
    assert!(unset.body.is_none());
}

#[test]
fn runs_are_finished_by_their_number() {
    let r = asked(Command::Run {
        action: RunAction::Finish {
            id: "R1".to_string(),
            result: "success".to_string(),
            notes: None,
        },
    });
    assert_eq!(r.path, "/runs/R1/finish");
    assert_eq!(r.body.unwrap().str_at("result"), Some("success"));
}

#[test]
fn the_found_rows_are_sent_on() {
    let r = asked(Command::DiscoverLoop {
        action: DiscoverAction::VerifyTsv { tsv: "a\tb\n".to_string() },
    });
    assert_eq!(r.body.unwrap().str_at("tsv"), Some("a\tb\n"));
}

#[test]
fn only_a_sync_sets_its_context() {
    let sync = Command::DiscoverLoop {
        action: DiscoverAction::Sync {
            tsv: "a".to_string(),
            unit: "U".to_string(),
            cycle: "C".to_string(),
            assignee: None,
        },
    };
    assert_eq!(
        sync_context(&sync),
        Some(("CLAWKET_SYNC_CONTEXT".to_string(), "bulk-sync".to_string()))
    );
    let other = Command::DiscoverLoop { action: DiscoverAction::BatchId };
    assert_eq!(sync_context(&other), None);
}

#[test]
fn a_directory_is_needed_where_none_is_named() {
    let create = |cwd: Option<String>| Command::Project {
        action: ProjectAction::Create { name: "n".to_string(), description: None, cwd, key: None },
    };
    assert!(needs_directory(&create(None)));
    assert!(!needs_directory(&create(some("/w"))));
    assert!(!needs_directory(&Command::Project { action: ProjectAction::List }));
}

#[test]
fn drift_and_parents_are_asked_for_by_task() {
    assert_eq!(drift_request("T1").path, "/tasks/T1/drift");
    assert_eq!(parent_request("T1").path, "/tasks/T1");
    assert_eq!(
        no_envelope("T1"),
        "task T1 has no envelope — `clawket task envelope set` first"
    );
}
