use clawket::client::{
    endpoint, event_line, format_daemon_error, pass_on, settle, tell_status, Endpoint, SseEvent,
    SseReader,
};
use clawket::error::{exit_from_error, ExitCode};
use clawket::json::{Json, Member, Number};
use std::cell::RefCell;

fn from_value(v: &serde_json::Value) -> Json {
    match v {
        serde_json::Value::Null => Json::Null,
        serde_json::Value::Bool(b) => Json::Bool(*b),
        serde_json::Value::Number(n) => {
            if let Some(u) = n.as_u64() {
                Json::Number(Number::PosInt(u))
            } else if let Some(i) = n.as_i64() {
                Json::Number(Number::NegInt(i))
            } else {
                Json::Number(Number::Decimal(n.to_string()))
            }
        }
        serde_json::Value::String(s) => Json::Text(s.clone()),
        serde_json::Value::Array(a) => Json::Array(a.iter().map(from_value).collect()),
        serde_json::Value::Object(m) => Json::Object(
            m.iter()
                .map(|(k, v)| Member { key: k.clone(), value: from_value(v) })
                .collect(),
        ),
    }
}

fn j(text: &str) -> Json {
    let v: serde_json::Value = serde_json::from_str(text).unwrap();
    from_value(&v)
}

#[test]
fn flat_conflict_detail_is_surfaced() {
    let body = j(
        "{\"error\": \"single_active_plan\", \"existing_plan_id\": \"PLAN-01KSF8FKKME2K892PCJCF1AS7W\"}",
    );
    let out = format_daemon_error(&body);
    assert!(out.starts_with("single_active_plan"), "got: {out}");
    assert!(
        out.contains("existing_plan_id: PLAN-01KSF8FKKME2K892PCJCF1AS7W"),
        "got: {out}"
    );
}

#[test]
fn code_and_stack_are_omitted_but_other_details_kept() {
    let body = j(
        "{\"error\": \"MISSING_CYCLE_ID: cycle_id is required\", \"code\": \"MISSING_CYCLE_ID\", \
         \"stack\": \"…debug…\", \"details\": {\"violations\": [{\"code\": \"MISSING_CYCLE_ID\"}]}}",
    );
    let out = format_daemon_error(&body);
    assert!(!out.contains("code:"), "code should be omitted: {out}");
    assert!(!out.contains("stack:"), "stack should be omitted: {out}");
    assert!(out.contains("details:"), "details should be surfaced: {out}");
    assert!(out.contains("violations"), "got: {out}");
}

#[test]
fn plain_error_is_unchanged() {
    let body = j("{\"error\": \"boom\"}");
    assert_eq!(format_daemon_error(&body), "boom");
}

#[test]
fn non_object_body_falls_back_to_unknown() {
    let body = j("\"just a string\"");
    assert_eq!(format_daemon_error(&body), "unknown error");
}

#[test]
fn exit_codes_are_distinct() {
    assert_eq!(ExitCode::Input.code(), 2);
    assert_eq!(ExitCode::Policy.code(), 3);
    assert_eq!(ExitCode::Daemon.code(), 4);
}

#[test]
fn errors_are_told_apart() {
    assert_eq!(exit_from_error("Connection refused (os error 111)").code(), 4);
    assert_eq!(exit_from_error("409 Conflict").code(), 3);
    assert_eq!(exit_from_error("invalid value").code(), 2);
    assert_eq!(exit_from_error("daemon says 409").code(), 4);
    assert_eq!(exit_from_error("HTTP 500 Internal Server Error").code(), 4);
    assert_eq!(exit_from_error("HTTP 503: policy").code(), 4);
    assert_eq!(exit_from_error("HTTP 400 Bad Request").code(), 2);
    assert_eq!(exit_from_error("HTTP 5 times").code(), 2);
}

#[test]
fn only_success_gives_the_value() {
    assert_eq!(settle(200, j("[1]")), Ok(j("[1]")));
    assert_eq!(settle(299, j("null")), Ok(j("null")));
    assert_eq!(
        settle(404, j("{\"error\": \"not found\"}")),
        Err("not found".to_string())
    );
    let broken = settle(500, j("{\"error\": \"boom\"}"));
    assert_eq!(broken, Err("HTTP 500: boom".to_string()));
    assert_eq!(exit_from_error("HTTP 500: boom").code(), 4);
    assert_eq!(tell_status(599, "x"), "HTTP 599: x");
    assert_eq!(tell_status(600, "x"), "x");
    assert!(settle(300, j("null")).is_err());
    assert!(settle(199, j("null")).is_err());
}

fn events_of(pieces: &[&str]) -> Vec<(Option<String>, String)> {
    let mut reader = SseReader::new();
    let mut out = Vec::new();
    for p in pieces {
        for e in reader.feed(p.as_bytes()) {
            out.push((e.event, e.data));
        }
    }
    out
}

#[test]
fn events_do_not_depend_on_the_pieces() {
    let whole = events_of(&["event: tick\ndata: {\"n\":1}\n\ndata: two\n\n"]);
    let parts = events_of(&["eve", "nt: tick\nda", "ta: {\"n\":1}\n", "\ndata: tw", "o\n", "\n"]);
    assert_eq!(whole, parts);
    assert_eq!(whole.len(), 2);
    assert_eq!(whole[0], (Some("tick".to_string()), "{\"n\":1}".to_string()));
    assert_eq!(whole[1], (None, "two".to_string()));
}

#[test]
fn text_that_is_split_inside_a_character_is_read() {
    let mut reader = SseReader::new();
    let bytes = "data: 데이터\n\n".as_bytes();
    let mut got = Vec::new();
    for b in bytes {
        for e in reader.feed(&[*b]) {
            got.push(e.data);
        }
    }
    assert_eq!(got, vec!["데이터".to_string()]);
}

#[test]
fn an_event_is_a_block_of_lines() {
    let text = ": hello\n\nid: 1\nid: 2\nevent: tick\n: note\ndata: a\nother: x\ndata:b\r\n\
                \r\n\ndata: late\n";
    let mut reader = SseReader::new();
    let events = reader.feed(text.as_bytes());
    assert_eq!(events.len(), 1);
    assert_eq!(events[0].id.as_deref(), Some("2"));
    assert_eq!(events[0].event.as_deref(), Some("tick"));
    assert_eq!(events[0].data, "a\nb");
    let rest = reader.feed(b"\n");
    assert_eq!(rest.len(), 1);
    assert_eq!(rest[0].data, "late");
    assert_eq!(rest[0].id, None);
}

#[test]
fn a_refused_event_ends_the_stream() {
    let seen = RefCell::new(Vec::new());
    let take = |e: &SseEvent| -> Result<(), String> {
        seen.borrow_mut().push(e.data.clone());
        if e.data == "stop" {
            Err("stopped".to_string())
        } else {
            Ok(())
        }
    };
    let mut reader = SseReader::new();
    assert_eq!(pass_on(&mut reader, b"data: a\n\ndata: b\n\ndata: st", &take), Ok(()));
    assert_eq!(
        pass_on(&mut reader, b"op\n\ndata: c\n\n", &take),
        Err("stopped".to_string())
    );
    assert_eq!(*seen.borrow(), vec!["a".to_string(), "b".to_string(), "stop".to_string()]);
}

#[test]
fn events_are_shown_with_their_names_or_as_json() {
    let mut reader = SseReader::new();
    let events = reader.feed(b"event: tick\ndata: {}\n\ndata: x\n\n");
    assert_eq!(event_line(&events[0], "text"), "tick: {}");
    assert_eq!(event_line(&events[0], "json"), "{}");
    assert_eq!(event_line(&events[1], "text"), "x");
}

#[test]
fn a_set_url_goes_before_the_socket() {
    assert!(matches!(endpoint(None, "/s"), Endpoint::Socket(s) if s == "/s"));
    assert!(matches!(
        endpoint(Some("http://localhost:19400/"), "/s"),
        Endpoint::Address(a) if a == "localhost:19400"
    ));
    assert!(matches!(endpoint(Some("h:1"), "/s"), Endpoint::Address(a) if a == "h:1"));
}
