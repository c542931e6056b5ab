use clawket::json::{Json, Member, Number};
use clawket::json_text::to_text;
use clawket::output::{output_fmt, print_table, print_yaml, strip_nulls};
use clawket::reply::{
    plan_warning_line, recent_decisions, reply_to, show, show_for, show_resolved, End, Show,
};
use clawket::command::{Command, ProjectAction};
use clawket::scan::{lines, parse_number, split, trim, words};
use clawket::text::{before, decimal_int, white};

fn from_value(v: &serde_json::Value) -> Json {
    match v {
        serde_json::Value::Null => Json::Null,
        serde_json::Value::Bool(b) => Json::Bool(*b),
        serde_json::Value::Number(n) => {
            if let Some(u) = n.as_u64() {
                Json::Number(Number::PosInt(u))
            } else if let Some(i) = n.as_i64() {
                Json::Number(Number::NegInt(i))
            } else {
                Json::Number(Number::Decimal(n.to_string()))
            }
        }
        serde_json::Value::String(s) => Json::Text(s.clone()),
        serde_json::Value::Array(a) => Json::Array(a.iter().map(from_value).collect()),
        serde_json::Value::Object(m) => Json::Object(
            m.iter()
                .map(|(k, v)| Member { key: k.clone(), value: from_value(v) })
                .collect(),
        ),
    }
}

fn j(text: &str) -> Json {
    let v: serde_json::Value = serde_json::from_str(text).unwrap();
    from_value(&v)
}

#[test]
fn white_space_is_what_it_is_in_unicode() {
    for n in 0..=0x10ffffu32 {
        if let Some(c) = char::from_u32(n) {
            assert_eq!(white(c), c.is_whitespace(), "{n:x}");
        }
    }
}

#[test]
fn scanners_agree_with_the_standard_ones() {
    for s in ["", "a", " a b ", "x\r\ny\n", "\n\n", "a\rb", "\u{3000}k\u{3000}", "a,b,,c", "\r\n"] {
        let std_lines: Vec<String> = s.lines().map(str::to_string).collect();
        assert_eq!(lines(s), std_lines, "{s:?}");
        let std_words: Vec<String> = s.split_whitespace().map(str::to_string).collect();
        assert_eq!(words(s), std_words, "{s:?}");
        let std_parts: Vec<String> = s.split(',').map(str::to_string).collect();
        assert_eq!(split(s, ','), std_parts, "{s:?}");
        assert_eq!(trim(s), s.trim(), "{s:?}");
    }
    for s in ["0", "007", "+7", "-1", "", "+", "18446744073709551615", "18446744073709551616", " 1"] {
        assert_eq!(parse_number(s, u64::MAX), s.parse::<u64>().ok(), "{s:?}");
    }
    for (a, b) in [("", "a"), ("a", "a"), ("a", "b"), ("é", "z"), ("\u{ffff}", "\u{10000}")] {
        assert_eq!(before(a, b), a < b, "{a:?} {b:?}");
    }
    assert_eq!(decimal_int(i64::MIN), i64::MIN.to_string());
}

#[test]
fn text_is_written_as_json_is() {
    for t in [
        "null",
        "[1,-2,true,\"x\"]",
        "{\"a\":{\"b\":[]},\"c\":\"\\\"\\\\\\n\\u0007é\"}",
        "18446744073709551615",
        "1.5",
    ] {
        let v: serde_json::Value = serde_json::from_str(t).unwrap();
        assert_eq!(to_text(&j(t)), serde_json::to_string(&v).unwrap());
    }
}

#[test]
fn json_text_stands_on_one_line() {
    let t = to_text(&j(r#"{"a\nb": ["x\ny", "\u0000\t"], "c": -5}"#));
    assert!(t.chars().all(|c| c >= ' '), "got: {t:?}");
}

#[test]
fn nulls_are_dropped_at_every_depth() {
    let v = j(r#"{"a": null, "b": {"c": null, "d": [null, {"e": null}]}}"#);
    let stripped = strip_nulls(&v);
    assert_eq!(stripped, j(r#"{"b": {"d": [null, {}]}}"#));
    assert_eq!(strip_nulls(&stripped), stripped);
}

#[test]
fn forms_are_chosen_by_name() {
    let v = j(r#"{"id": "X", "n": null}"#);
    assert_eq!(output_fmt(&v, "json").unwrap(), "{\"id\":\"X\"}\n");
    assert!(output_fmt(&v, "yaml").unwrap().contains("id: X"));
    assert!(output_fmt(&v, "table").unwrap().contains("X"));
    assert_eq!(
        output_fmt(&v, "xml").unwrap_err(),
        "ERROR: unknown --format 'xml'. Choose: json | table | yaml"
    );
}

#[test]
fn tables_have_a_line_for_each_item() {
    let rows = print_table(&j(r#"[{"id": "A", "title": "one"}, {"id": "B", "title": "two"}]"#));
    assert!(rows.iter().any(|l| l.contains("A") && l.contains("one")));
    assert!(rows.iter().any(|l| l.contains("B") && l.contains("two")));
    assert!(rows.len() >= 3);
    let y = print_yaml(&j(r#"{"k": [1, 2]}"#), "");
    assert!(y.contains("- 1"), "got: {y}");
}

#[test]
fn quiet_shows_only_the_numbers() {
    let v = j(r#"[{"id": "A"}, {"name": "x"}, {"id": "B"}]"#);
    let out = show(&v, true, "json");
    assert_eq!(out.stdout, "A\nB\n");
    assert!(matches!(out.end, End::Done));
}

#[test]
fn an_unknown_form_is_an_input_error() {
    let out = show(&j("[]"), false, "xml");
    match out.end {
        End::Done => panic!("no error"),
        End::Exit(code) => assert_ne!(code, 0),
        End::Fail(m) => assert!(m.contains("xml")),
    }
}

#[test]
fn newest_decisions_come_first() {
    let v = j(r#"[{"id": "a", "created_at": 1}, {"id": "b", "created_at": 3},
                  {"id": "c", "created_at": 2}]"#);
    let newest = recent_decisions(&v, 2);
    assert_eq!(newest.len(), 2);
}

#[test]
fn a_warning_line_shouts_its_level() {
    let line = plan_warning_line("WARN", 2);
    assert!(line.contains("WARN active plan count=2"), "got: {line}");
    let val = j(r#"{"active_plan_warning": {"level": "straße", "active_plan_count": 3}}"#);
    let out = reply_to(&Show::Dashboard, &val, false, "json");
    assert!(out.stderr.contains("STRASSE active plan count=3"), "got: {}", out.stderr);
}

#[test]
fn each_command_has_its_form() {
    let c = Command::Project { action: ProjectAction::List };
    assert!(matches!(show_for(&c), Show::Value));
    let r = Command::Project { action: ProjectAction::Resolve { cwd: "/w".to_string() } };
    assert!(matches!(show_for(&r), Show::Resolved));
    let out = reply_to(&Show::Value, &j(r#"{"id": "A"}"#), false, "json");
    assert_eq!(out.stdout, "{\"id\":\"A\"}\n");
}

#[test]
fn an_unknown_directory_is_no_failure_of_the_daemon() {
    let found = show_resolved(200, &j(r#"{"id": "P"}"#), true, "json");
    assert_eq!(found.stdout, "P\n");
    let missing = show_resolved(404, &j(r#"{"error": "not found"}"#), false, "json");
    assert_eq!(missing.stdout, "null\n");
    assert!(matches!(missing.end, End::Done));
    let broken = show_resolved(500, &j("{}"), false, "json");
    assert!(matches!(broken.end, End::Fail(m) if m == "HTTP 500: project resolve failed"));
}
