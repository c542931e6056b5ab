//! The read-only tools for language models: what each asks of the daemon and
//! what it answers.

use vstd::prelude::*;
use crate::decompose::truncated;
use crate::json::{
    array, empty_object, list_of_texts, object, text, text_list, views, Json, JsonView,
};
use crate::query::{url_encoded, urlenc};
use crate::request::{get, getting, Request, RequestView};
use crate::scan::{
    occurs_at, occurs_in, opt_string, run_bounds, run_length, trim, trim_start, trimmed, words,
    words_of,
};
use crate::text::{
    cat3, cat4, cat5, dec, decimal, is_white, join, joined, joined_upto, same, texts, texts_push,
};

verus! {

pub struct SearchArtifactsArgs {
    pub query: String,
    pub mode: Option<String>,
    pub limit: Option<u32>,
    pub type_filter: Option<String>,
    pub plan_id: Option<String>,
}

pub struct SearchTasksArgs {
    pub query: String,
    pub mode: Option<String>,
    pub limit: Option<u32>,
    pub status: Option<String>,
}

pub struct FindSimilarTasksArgs {
    pub task_id: Option<String>,
    pub query: Option<String>,
    pub limit: Option<u32>,
    pub status: Option<String>,
    pub include_extracted: Option<bool>,
}

pub struct GetTaskContextArgs {
    pub task_id: String,
    pub sections: Option<Vec<String>>,
}

pub struct GetRecentDecisionsArgs {
    pub plan_id: Option<String>,
    pub limit: Option<u32>,
    pub since_ts: Option<i64>,
}

/// The names of the tools.
pub const TOOL_NAMES: [&'static str; 5] = [
    "clawket_search_knowledge",
    "clawket_search_tasks",
    "clawket_find_similar_tasks",
    "clawket_get_task_context",
    "clawket_get_recent_decisions",
];

/// What the server says of itself.
pub open spec fn introduction() -> Seq<char> {
    "Clawket read-only RAG tools. Requires clawketd running (`clawket daemon start`). Tools: "@
        + TOOL_NAMES[0]@ + ", "@ + TOOL_NAMES[1]@ + ", "@ + TOOL_NAMES[2]@ + ", "@ + TOOL_NAMES[3]@
        + ", "@ + TOOL_NAMES[4]@ + "."@
}

/// What the server says of itself.
pub fn instructions() -> (r: String)
    ensures
        r@ == introduction(),
{
    let a = cat5(
        "Clawket read-only RAG tools. Requires clawketd running (`clawket daemon start`). Tools: ",
        TOOL_NAMES[0],
        ", ",
        TOOL_NAMES[1],
        ", ",
    );
    let b = cat5(a.as_str(), TOOL_NAMES[2], ", ", TOOL_NAMES[3], ", ");
    cat3(b.as_str(), TOOL_NAMES[4], ".")
}

proof fn occurs_between(a: Seq<char>, p: Seq<char>, b: Seq<char>)
    ensures
        occurs_in(a + p + b, p),
{
    assert((a + p + b).subrange(a.len() as int, (a.len() + p.len()) as int) =~= p);
    assert(occurs_at(a + p + b, p, a.len() as int));
}

/// The server names every one of its tools.
pub proof fn introduction_names_every_tool(i: int)
    requires
        0 <= i < 5,
    ensures
        occurs_in(introduction(), TOOL_NAMES[i]@),
{
    let pre =
        "Clawket read-only RAG tools. Requires clawketd running (`clawket daemon start`). Tools: "@;
    let sep = ", "@;
    let n0 = TOOL_NAMES[0]@;
    let n1 = TOOL_NAMES[1]@;
    let n2 = TOOL_NAMES[2]@;
    let n3 = TOOL_NAMES[3]@;
    let n4 = TOOL_NAMES[4]@;
    let before = if i == 0 {
        pre
    } else if i == 1 {
        pre + n0 + sep
    } else if i == 2 {
        pre + n0 + sep + n1 + sep
    } else if i == 3 {
        pre + n0 + sep + n1 + sep + n2 + sep
    } else {
        pre + n0 + sep + n1 + sep + n2 + sep + n3 + sep
    };
    let after = if i == 0 {
        sep + n1 + sep + n2 + sep + n3 + sep + n4 + "."@
    } else if i == 1 {
        sep + n2 + sep + n3 + sep + n4 + "."@
    } else if i == 2 {
        sep + n3 + sep + n4 + "."@
    } else if i == 3 {
        sep + n4 + "."@
    } else {
        "."@
    };
    occurs_between(before, TOOL_NAMES[i]@, after);
    assert(before + TOOL_NAMES[i]@ + after =~= introduction());
}

/// How many results a tool gives: what was asked for, or `default`, and never
/// more than 30.
pub open spec fn result_limit(asked: Option<u32>, default: u32) -> int {
    let n = match asked {
        Some(n) => n,
        None => default,
    };
    if n > 30 {
        30
    } else {
        n as int
    }
}

pub(crate) fn limited(asked: Option<u32>, default: u32) -> (r: u32)
    ensures
        r == result_limit(asked, default),
{
    let n: u32 = match asked {
        Some(n) => n,
        None => default,
    };
    if n > 30 {
        30
    } else {
        n
    }
}

/// The text of a snippet: the words with one space between them, cut to `max`
/// characters.
pub open spec fn snippet_of(s: Seq<char>, max: int) -> Seq<char> {
    truncated(joined(words_of(s), " "@), max)
}

/// The text of a snippet.
pub fn snippet(text: &str, max: usize) -> (r: String)
    ensures
        r@ == snippet_of(text@, max as int),
{
    let w = words(text);
    let collapsed = join(&w, " ");
    crate::decompose::truncate(collapsed.as_str(), max)
}

/// No white space but plain spaces.
pub open spec fn only_spaces(s: Seq<char>) -> bool {
    forall|i: int| 0 <= i < s.len() && is_white(#[trigger] s[i]) ==> s[i] == ' '
}

proof fn run_holds(s: Seq<char>, p: spec_fn(char) -> bool, i: int)
    requires
        0 <= i < run_length(s, p),
    ensures
        i < s.len(),
        p(s[i]),
    decreases s.len(),
{
    run_bounds(s, p);
    if i > 0 {
        run_holds(s.skip(1), p, i - 1);
        assert(s.skip(1)[i - 1] == s[i]);
    }
}

proof fn words_have_no_white(s: Seq<char>, k: int, i: int)
    requires
        0 <= k < words_of(s).len(),
        0 <= i < words_of(s)[k].len(),
    ensures
        !is_white(words_of(s)[k][i]),
    decreases s.len(),
{
    let t = trim_start(s);
    let p = |c: char| !is_white(c);
    crate::scan::word_step(s);
    if t.len() > 0 {
        let n = run_length(t, p);
        run_bounds(t, p);
        if k == 0 {
            assert(words_of(s)[0] == t.take(n));
            run_holds(t, p, i);
        } else {
            assert(words_of(s)[k] == words_of(t.skip(n))[k - 1]);
            words_have_no_white(t.skip(n), k - 1, i);
        }
    }
}

proof fn joined_only_spaces(parts: Seq<Seq<char>>, n: nat)
    requires
        n <= parts.len(),
        forall|k: int| 0 <= k < n ==> only_spaces(#[trigger] parts[k]),
    ensures
        only_spaces(joined_upto(parts, " "@, n)),
    decreases n,
{
    reveal_strlit(" ");
    if n > 1 {
        joined_only_spaces(parts, (n - 1) as nat);
        let a = joined_upto(parts, " "@, (n - 1) as nat);
        let b = parts[n - 1];
        let r = a + " "@ + b;
        assert forall|i: int| 0 <= i < r.len() && is_white(#[trigger] r[i]) implies r[i]
            == ' ' by {
            if i < a.len() {
                assert(r[i] == a[i]);
            } else if i == a.len() {
                assert(r[i] == " "@[0]);
            } else {
                assert(r[i] == b[i - a.len() - 1]);
            }
        }
    }
}

/// A snippet is one line: its only white space is plain spaces. It is at most
/// one character longer than asked for.
pub proof fn snippets_are_one_line(s: Seq<char>, max: int)
    requires
        max >= 0,
    ensures
        only_spaces(snippet_of(s, max)),
        snippet_of(s, max).len() <= max + 1,
{
    let w = words_of(s);
    assert forall|k: int| 0 <= k < w.len() implies only_spaces(#[trigger] w[k]) by {
        assert forall|i: int| 0 <= i < w[k].len() && is_white(#[trigger] w[k][i]) implies w[k][i]
            == ' ' by {
            words_have_no_white(s, k, i);
        }
    }
    joined_only_spaces(w, w.len());
    crate::decompose::truncation_bounds(joined(w, " "@), max);
    reveal_strlit("…");
    let j = joined(w, " "@);
    let r = snippet_of(s, max);
    if j.len() > max {
        assert forall|i: int| 0 <= i < r.len() && is_white(#[trigger] r[i]) implies r[i]
            == ' ' by {
            if i < max {
                assert(r[i] == j[i]);
            } else {
                assert(r[i] == "…"@[0]);
            }
        }
    }
}

/// What a tool gives back: the body, which is an error or not.
pub struct ToolResult {
    pub is_error: bool,
    pub body: Json,
}

/// The body of an error.
pub open spec fn error_body(code: Seq<char>, message: Seq<char>) -> JsonView {
    empty_object().with(
        "error"@,
        empty_object().with("code"@, JsonView::Text(code)).with(
            "message"@,
            JsonView::Text(message),
        ),
    )
}

fn error_json_code(code: &str, message: &str) -> (r: ToolResult)
    ensures
        r.is_error,
        r.body@ == error_body(code@, message@),
{
    let inner = object().with("code", text(code)).with("message", text(message));
    ToolResult { is_error: true, body: object().with("error", inner) }
}

/// The answer where the daemon failed.
pub fn error_json(message: &str) -> (r: ToolResult)
    ensures
        r.is_error,
        r.body@ == error_body("DAEMON_ERROR"@, message@),
{
    error_json_code("DAEMON_ERROR", message)
}

pub(crate) fn success_json(items: Vec<Json>) -> (r: ToolResult)
    ensures
        !r.is_error,
        r.body@ == JsonView::Array(views(items@)),
{
    ToolResult { is_error: false, body: array(items) }
}

/// The text given, or `default`.
pub open spec fn text_or(o: Option<String>, default: Seq<char>) -> Seq<char> {
    match o {
        Some(s) => s@,
        None => default,
    }
}

fn given_or<'a>(o: &'a Option<String>, default: &'a str) -> (r: &'a str)
    ensures
        r@ == text_or(*o, default@),
{
    match o {
        Some(s) => s.as_str(),
        None => default,
    }
}

/// A filter that was not given, or that the member meets.
pub open spec fn meets(j: JsonView, key: Seq<char>, filter: Option<String>) -> bool {
    match filter {
        Some(f) => j.str_at(key) == Some(f@),
        None => true,
    }
}

fn is_met(j: &Json, key: &str, filter: &Option<String>) -> (r: bool)
    ensures
        r == meets(j@, key@, *filter),
{
    match filter {
        Some(f) => match j.str_at(key) {
            Some(s) => same(s, f.as_str()),
            None => false,
        },
        None => true,
    }
}

/// What a search for knowledge asks.
pub open spec fn artifacts_asked(args: SearchArtifactsArgs) -> RequestView {
    getting(
        "/artifacts/search?q="@ + url_encoded(args.query@) + "&mode="@ + url_encoded(
            text_or(args.mode, "hybrid"@),
        ) + "&scope=rag&limit="@ + dec(result_limit(args.limit, 10) as nat),
    )
}

/// What a search for knowledge asks.
pub fn search_artifacts_request(args: &SearchArtifactsArgs) -> (r: Request)
    ensures
        r@ == artifacts_asked(*args),
{
    let q = urlenc(args.query.as_str());
    let m = urlenc(given_or(&args.mode, "hybrid"));
    let n = decimal(limited(args.limit, 10) as u64);
    let mut path = cat5(
        "/artifacts/search?q=",
        q.as_str(),
        "&mode=",
        m.as_str(),
        "&scope=rag&limit=",
    );
    path.append(n.as_str());
    get(path)
}

/// The content of an entry, as a snippet.
pub open spec fn content_snippet(a: JsonView, max: int) -> JsonView {
    JsonView::Text(snippet_of(a.str_or("content"@, ""@), max))
}

pub(crate) fn content_json(a: &Json, max: usize) -> (r: Json)
    ensures
        r@ == content_snippet(a@, max as int),
{
    let s = snippet(a.str_or("content", ""), max);
    text(s.as_str())
}

/// A knowledge entry, as it is found.
pub open spec fn found_artifact(a: JsonView) -> JsonView {
    empty_object().with("id"@, a.member("id"@)).with("title"@, a.member("title"@)).with(
        "type"@,
        a.member("type"@),
    ).with("plan_id"@, a.member("plan_id"@)).with("unit_id"@, a.member("unit_id"@)).with(
        "snippet"@,
        content_snippet(a, 300),
    ).with("distance"@, a.member("_distance"@))
}

/// The entries among the first `n` that meet the filters.
pub open spec fn found_artifacts(
    a: Seq<JsonView>,
    args: SearchArtifactsArgs,
    n: nat,
) -> Seq<JsonView>
    decreases n,
{
    if n == 0 {
        Seq::empty()
    } else {
        let before = found_artifacts(a, args, (n - 1) as nat);
        if meets(a[n - 1], "type"@, args.type_filter) && meets(
            a[n - 1],
            "plan_id"@,
            args.plan_id,
        ) {
            before.push(found_artifact(a[n - 1]))
        } else {
            before
        }
    }
}

pub(crate) fn push_view(out: &mut Vec<Json>, x: Json)
    ensures
        views(final(out)@) == views(old(out)@).push(x@),
{
    let ghost v = x@;
    let ghost before = out@;
    out.push(x);
    assert(views(out@) =~= views(before).push(v));
}

/// What a search for knowledge answers.
pub fn search_artifacts(args: &SearchArtifactsArgs, val: &Json) -> (r: ToolResult)
    ensures
        !r.is_error,
        r.body@ == JsonView::Array(found_artifacts(val@.items(), *args, val@.items().len())),
{
    let arr = val.items();
    let ghost all = val@.items();
    assert(all.len() == arr@.len());
    let mut out: Vec<Json> = Vec::new();
    let mut i: usize = 0;
    assert(views(out@) =~= Seq::empty());
    while i < arr.len()
        invariant
            i <= arr@.len(),
            all == views(arr@),
            views(out@) == found_artifacts(all, *args, i as nat),
        decreases arr@.len() - i,
    {
        let a = &arr[i];
        assert(all[i as int] == a@);
        if is_met(a, "type", &args.type_filter) && is_met(a, "plan_id", &args.plan_id) {
            let item = object().with("id", a.member("id")).with("title", a.member("title")).with(
                "type",
                a.member("type"),
            ).with("plan_id", a.member("plan_id")).with("unit_id", a.member("unit_id")).with(
                "snippet",
                content_json(a, 300),
            ).with("distance", a.member("_distance"));
            push_view(&mut out, item);
        }
        i = i + 1;
    }
    success_json(out)
}

/// What a search for tasks asks.
pub open spec fn tasks_asked(args: SearchTasksArgs) -> RequestView {
    getting(
        "/tasks/search?q="@ + url_encoded(args.query@) + "&mode="@ + url_encoded(
            text_or(args.mode, "hybrid"@),
        ) + "&limit="@ + dec(result_limit(args.limit, 10) as nat),
    )
}

/// What a search for tasks asks.
pub fn search_tasks_request(args: &SearchTasksArgs) -> (r: Request)
    ensures
        r@ == tasks_asked(*args),
{
    let q = urlenc(args.query.as_str());
    let m = urlenc(given_or(&args.mode, "hybrid"));
    let n = decimal(limited(args.limit, 10) as u64);
    let mut path = cat5("/tasks/search?q=", q.as_str(), "&mode=", m.as_str(), "&limit=");
    path.append(n.as_str());
    get(path)
}

/// A task, in short.
pub open spec fn summary_of(t: JsonView) -> JsonView {
    empty_object().with("id"@, t.member("id"@)).with(
        "ticket_number"@,
        t.member("ticket_number"@),
    ).with("title"@, t.member("title"@)).with("status"@, t.member("status"@)).with(
        "priority"@,
        t.member("priority"@),
    ).with("type"@, t.member("type"@)).with("unit_id"@, t.member("unit_id"@)).with(
        "distance"@,
        t.member("_distance"@),
    )
}

/// A task, in short.
pub fn task_summary(t: &Json) -> (r: Json)
    ensures
        r@ == summary_of(t@),
{
    object().with("id", t.member("id")).with("ticket_number", t.member("ticket_number")).with(
        "title",
        t.member("title"),
    ).with("status", t.member("status")).with("priority", t.member("priority")).with(
        "type",
        t.member("type"),
    ).with("unit_id", t.member("unit_id")).with("distance", t.member("_distance"))
}

/// The tasks among the first `n` that are of the status.
pub open spec fn tasks_of_status(a: Seq<JsonView>, status: Option<String>, n: nat) -> Seq<JsonView>
    decreases n,
{
    if n == 0 {
        Seq::empty()
    } else {
        let before = tasks_of_status(a, status, (n - 1) as nat);
        if meets(a[n - 1], "status"@, status) {
            before.push(a[n - 1])
        } else {
            before
        }
    }
}

fn filter_status(val: &Json, status: &Option<String>) -> (r: Vec<Json>)
    ensures
        views(r@) == tasks_of_status(val@.items(), *status, val@.items().len()),
{
    let arr = val.items();
    let ghost all = val@.items();
    assert(all.len() == arr@.len());
    let mut out: Vec<Json> = Vec::new();
    let mut i: usize = 0;
    assert(views(out@) =~= Seq::empty());
    while i < arr.len()
        invariant
            i <= arr@.len(),
            all == views(arr@),
            views(out@) == tasks_of_status(all, *status, i as nat),
        decreases arr@.len() - i,
    {
        assert(all[i as int] == arr@[i as int]@);
        if is_met(&arr[i], "status", status) {
            push_view(&mut out, arr[i].copy());
        }
        i = i + 1;
    }
    out
}

/// What a search for tasks answers.
pub fn search_tasks(args: &SearchTasksArgs, val: &Json) -> (r: ToolResult)
    ensures
        !r.is_error,
        r.body@ == ({
            let kept = tasks_of_status(val@.items(), args.status, val@.items().len());
            JsonView::Array(Seq::new(kept.len(), |i: int| summary_of(kept[i])))
        }),
{
    let kept = filter_status(val, &args.status);
    let mut out: Vec<Json> = Vec::new();
    let mut i: usize = 0;
    while i < kept.len()
        invariant
            i <= kept@.len(),
            out@.len() == i,
            forall|k: int| 0 <= k < i ==> (#[trigger] out@[k])@ == summary_of(kept@[k]@),
        decreases kept@.len() - i,
    {
        out.push(task_summary(&kept[i]));
        i = i + 1;
    }
    proof {
        let k = views(kept@);
        assert(views(out@) =~= Seq::new(k.len(), |i: int| summary_of(k[i])));
    }
    success_json(out)
}

/// What a search for similar tasks asks, or why it is refused: a task is
/// looked for by its identifier, else by a query, and one of them is needed.
pub open spec fn similar_asked(args: FindSimilarTasksArgs) -> Option<RequestView> {
    let limit = dec(result_limit(args.limit, 5) as nat);
    match args.task_id {
        Some(id) => {
            let path = "/tasks/"@ + url_encoded(id@) + "/similar?limit="@ + limit;
            Some(
                getting(
                    match args.status {
                        Some(st) => path + "&status="@ + url_encoded(st@),
                        None => path,
                    },
                ),
            )
        },
        None => match args.query {
            Some(q) => Some(
                getting(
                    "/tasks/search?q="@ + url_encoded(q@) + "&mode=semantic&limit="@ + limit,
                ),
            ),
            None => None,
        },
    }
}

/// What a search for similar tasks asks, or its refusal.
pub fn find_similar_request(args: &FindSimilarTasksArgs) -> (r: Result<Request, ToolResult>)
    ensures
        match r {
            Ok(q) => similar_asked(*args) == Some(q@),
            Err(e) => similar_asked(*args) is None && e.is_error && e.body@ == error_body(
                "INVALID_INPUT"@,
                "task_id 또는 query 중 하나는 필수입니다."@,
            ),
        },
{
    let n = decimal(limited(args.limit, 5) as u64);
    match &args.task_id {
        Some(id) => {
            let t = urlenc(id.as_str());
            let mut path = cat4("/tasks/", t.as_str(), "/similar?limit=", n.as_str());
            if let Some(st) = &args.status {
                let e = urlenc(st.as_str());
                path.append("&status=");
                path.append(e.as_str());
            }
            Ok(get(path))
        },
        None => match &args.query {
            Some(q) => {
                let e = urlenc(q.as_str());
                Ok(
                    get(
                        cat4("/tasks/search?q=", e.as_str(), "&mode=semantic&limit=", n.as_str()),
                    ),
                )
            },
            None => Err(
                error_json_code("INVALID_INPUT", "task_id 또는 query 중 하나는 필수입니다."),
            ),
        },
    }
}

/// The tasks that a search for similar tasks found. With an identifier the
/// daemon filters by status, with a query this does.
pub open spec fn similar_found(args: FindSimilarTasksArgs, val: JsonView) -> Seq<JsonView> {
    if args.task_id is Some {
        val.items()
    } else {
        tasks_of_status(val.items(), args.status, val.items().len())
    }
}

/// The tasks that a search for similar tasks found.
pub fn similar_tasks(args: &FindSimilarTasksArgs, val: &Json) -> (r: Vec<Json>)
    ensures
        views(r@) == similar_found(*args, val@),
{
    if args.task_id.is_some() {
        val.items()
    } else {
        filter_status(val, &args.status)
    }
}

/// What asks for the comments of a task that was found.
pub open spec fn comments_asked(task: JsonView) -> RequestView {
    getting("/tasks/"@ + url_encoded(task.str_or("id"@, ""@)) + "/comments"@)
}

/// What asks for the comments of a task that was found.
pub fn comments_request(task: &Json) -> (r: Request)
    ensures
        r@ == comments_asked(task@),
{
    let id = urlenc(task.str_or("id", ""));
    get(cat3("/tasks/", id.as_str(), "/comments"))
}

/// The text with a part more, an empty line between them.
pub open spec fn with_part(text: Seq<char>, part: Seq<char>) -> Seq<char> {
    if text.len() > 0 {
        text + "\n\n"@ + part
    } else {
        part
    }
}

/// The body of a task and the bodies of its first `n` comments.
pub open spec fn discussion_upto(body: Seq<char>, comments: Seq<JsonView>, n: nat) -> Seq<char>
    decreases n,
{
    if n == 0 {
        body
    } else {
        let before = discussion_upto(body, comments, (n - 1) as nat);
        match comments[n - 1].str_at("body"@) {
            Some(c) => with_part(before, c),
            None => before,
        }
    }
}

fn discussion(body: &str, comments: &Vec<Json>) -> (r: String)
    ensures
        r@ == discussion_upto(body@, views(comments@), comments@.len()),
{
    let mut out = body.to_owned();
    let mut i: usize = 0;
    while i < comments.len()
        invariant
            i <= comments@.len(),
            out@ == discussion_upto(body@, views(comments@), i as nat),
        decreases comments@.len() - i,
    {
        assert(views(comments@)[i as int] == comments@[i as int]@);
        if let Some(c) = comments[i].str_at("body") {
            if out.as_str().is_empty() {
                out = c.to_owned();
            } else {
                out.append("\n\n");
                out.append(c);
            }
        }
        i = i + 1;
    }
    out
}

/// What stands behind the mark in a line that notes a decision.
pub const DECISION_PATTERN: &'static str = r"(?m)^\s*(?:[-*]\s*)?(?:결정|확정|Decision|DECISION|결론|선택)\s*[:：\-]\s*(.+)";

/// What stands behind the mark in a line that notes an issue.
pub const ISSUE_PATTERN: &'static str = r"(?m)^\s*(?:[-*]\s*)?(?:이슈|문제|Issue|ISSUE|원인|Root cause)\s*[:：\-]\s*(.+)";

/// The first group of each match of a regular expression in a text, from the
/// first match to the last; nothing where the pattern is none.
pub uninterp spec fn first_groups(pattern: Seq<char>, text: Seq<char>) -> Option<
    Seq<Option<Seq<char>>>,
>;

/// What a list of groups holds.
pub open spec fn group_views(v: Seq<Option<String>>) -> Seq<Option<Seq<char>>> {
    Seq::new(v.len(), |i: int| opt_string(v[i]))
}

/// Calls `regex::Regex::new` and `Regex::captures_iter`. What is claimed of
/// them: the same pattern and text give the same groups.
#[verifier::external_body]
fn find_groups(pattern: &str, text: &str) -> (r: Option<Vec<Option<String>>>)
    ensures
        match r {
            Some(v) => first_groups(pattern@, text@) == Some(group_views(v@)),
            None => first_groups(pattern@, text@) is None,
        },
{
    let re = regex::Regex::new(pattern).ok()?;
    Some(re.captures_iter(text).map(|m| m.get(1).map(|g| g.as_str().to_owned())).collect())
}

/// The markers among the first `n` groups: trimmed, not blank, none twice. No
/// more are taken once there are `cap` of them.
pub open spec fn markers_upto(groups: Seq<Option<Seq<char>>>, cap: int, n: nat) -> Seq<Seq<char>>
    decreases n,
{
    if n == 0 {
        Seq::empty()
    } else {
        let before = markers_upto(groups, cap, (n - 1) as nat);
        if before.len() > 0 && before.len() >= cap {
            before
        } else {
            match groups[n - 1] {
                Some(g) => if trimmed(g).len() > 0 && !before.contains(trimmed(g)) {
                    before.push(trimmed(g))
                } else {
                    before
                },
                None => before,
            }
        }
    }
}

proof fn markers_stop(groups: Seq<Option<Seq<char>>>, cap: int, n: nat, m: nat)
    requires
        n <= m,
        markers_upto(groups, cap, n).len() > 0,
        markers_upto(groups, cap, n).len() >= cap,
    ensures
        markers_upto(groups, cap, m) == markers_upto(groups, cap, n),
    decreases m,
{
    if n < m {
        markers_stop(groups, cap, n, (m - 1) as nat);
    }
}

fn holds(v: &Vec<String>, s: &str) -> (r: bool)
    ensures
        r == texts(v@).contains(s@),
{
    let mut i: usize = 0;
    let ghost all = texts(v@);
    while i < v.len()
        invariant
            i <= v@.len(),
            all == texts(v@),
            forall|k: int| 0 <= k < i ==> all[k] != s@,
        decreases v@.len() - i,
    {
        if same(v[i].as_str(), s) {
            assert(all[i as int] == s@);
            return true;
        }
        i = i + 1;
    }
    false
}

/// The markers among groups that were found.
pub fn collect_markers(groups: &Vec<Option<String>>, cap: usize) -> (r: Vec<String>)
    ensures
        texts(r@) == markers_upto(group_views(groups@), cap as int, groups@.len()),
{
    let mut out: Vec<String> = Vec::new();
    let ghost all = group_views(groups@);
    let mut i: usize = 0;
    assert(texts(out@) =~= Seq::empty());
    while i < groups.len()
        invariant
            i <= groups@.len(),
            all == group_views(groups@),
            out@.len() == 0 || out@.len() < cap,
            texts(out@) == markers_upto(all, cap as int, i as nat),
        decreases groups@.len() - i,
    {
        assert(texts(out@).len() == out@.len());
        if let Some(g) = &groups[i] {
            let line = trim(g.as_str());
            if !line.as_str().is_empty() && !holds(&out, line.as_str()) {
                proof {
                    texts_push(out@, line);
                }
                out.push(line);
                if out.len() >= cap {
                    proof {
                        assert(texts(out@).len() == out@.len());
                        markers_stop(all, cap as int, (i + 1) as nat, all.len());
                    }
                    return out;
                }
            }
        }
        i = i + 1;
    }
    out
}

/// The markers that a pattern finds in a text.
pub open spec fn markers_in(pattern: Seq<char>, text: Seq<char>, cap: int) -> Seq<Seq<char>> {
    match first_groups(pattern, text) {
        Some(groups) => markers_upto(groups, cap, groups.len()),
        None => Seq::empty(),
    }
}

/// The markers that a pattern finds in a text; none where it is no regular
/// expression.
pub fn extract_markers(text: &str, pattern: &str, cap: usize) -> (r: Vec<String>)
    ensures
        texts(r@) == markers_in(pattern@, text@, cap as int),
{
    match find_groups(pattern, text) {
        Some(groups) => {
            assert(group_views(groups@).len() == groups@.len());
            collect_markers(&groups, cap)
        },
        None => {
            let out: Vec<String> = Vec::new();
            assert(texts(out@) =~= Seq::empty());
            out
        },
    }
}

/// Markers are trimmed, not blank and distinct, and there are at most `cap`
/// of them.
pub proof fn markers_are_distinct(groups: Seq<Option<Seq<char>>>, cap: int, n: nat)
    requires
        cap >= 1,
    ensures
        markers_upto(groups, cap, n).len() <= cap,
        markers_upto(groups, cap, n).no_duplicates(),
        forall|i: int|
            0 <= i < markers_upto(groups, cap, n).len() ==> (#[trigger] markers_upto(
                groups,
                cap,
                n,
            )[i]).len() > 0,
    decreases n,
{
    if n > 0 {
        markers_are_distinct(groups, cap, (n - 1) as nat);
    }
}

/// What was found in the discussion of a task.
pub open spec fn extracted(decisions: Seq<Seq<char>>, issues: Seq<Seq<char>>) -> JsonView {
    empty_object().with("decisions"@, text_list(decisions)).with("issues"@, text_list(issues))
}

/// A similar task with what was found in its discussion.
pub open spec fn enriched(t: JsonView, comments: Seq<JsonView>) -> JsonView {
    let talk = discussion_upto(t.str_or("body"@, ""@), comments, comments.len());
    summary_of(t).with(
        "extracted"@,
        extracted(
            markers_in(DECISION_PATTERN@, talk, 5),
            markers_in(ISSUE_PATTERN@, talk, 5),
        ),
    )
}

/// The comments in an answer; none where there is no answer.
pub open spec fn items_in(reply: Option<Json>) -> Seq<JsonView> {
    match reply {
        Some(j) => j@.items(),
        None => Seq::empty(),
    }
}

pub(crate) fn reply_items(reply: &Option<Json>) -> (r: Vec<Json>)
    ensures
        views(r@) == items_in(*reply),
{
    match reply {
        Some(j) => j.items(),
        None => {
            let out: Vec<Json> = Vec::new();
            assert(views(out@) =~= Seq::empty());
            out
        },
    }
}

/// A similar task with what was found in its discussion.
pub fn enrich(task: &Json, comments: &Option<Json>) -> (r: Json)
    ensures
        r@ == enriched(task@, items_in(*comments)),
{
    let list = reply_items(comments);
    assert(views(list@).len() == list@.len());
    let talk = discussion(task.str_or("body", ""), &list);
    let decisions = extract_markers(talk.as_str(), DECISION_PATTERN, 5);
    let issues = extract_markers(talk.as_str(), ISSUE_PATTERN, 5);
    let found = object().with("decisions", list_of_texts(&decisions)).with(
        "issues",
        list_of_texts(&issues),
    );
    task_summary(task).with("extracted", found)
}

/// Whether the discussions of the tasks are searched.
pub fn wants_extracted(args: &FindSimilarTasksArgs) -> (r: bool)
    ensures
        r == (args.include_extracted != Some(false)),
{
    match args.include_extracted {
        Some(b) => b,
        None => true,
    }
}

/// The requests for the comments of the tasks that were found, one for each
/// in their order; none where the discussions are not searched.
pub fn similar_comments(args: &FindSimilarTasksArgs, val: &Json) -> (r: Vec<Request>)
    ensures
        args.include_extracted == Some(false) ==> r@.len() == 0,
        args.include_extracted != Some(false) ==> {
            &&& r@.len() == similar_found(*args, val@).len()
            &&& forall|i: int|
                0 <= i < r@.len() ==> (#[trigger] r@[i])@ == comments_asked(
                    similar_found(*args, val@)[i],
                )
        },
{
    let mut out: Vec<Request> = Vec::new();
    if !wants_extracted(args) {
        return out;
    }
    let tasks = similar_tasks(args, val);
    let ghost found = similar_found(*args, val@);
    assert(views(tasks@).len() == tasks@.len());
    let mut i: usize = 0;
    while i < tasks.len()
        invariant
            i <= tasks@.len(),
            found == views(tasks@),
            out@.len() == i,
            forall|k: int| 0 <= k < i ==> (#[trigger] out@[k])@ == comments_asked(found[k]),
        decreases tasks@.len() - i,
    {
        assert(found[i as int] == tasks@[i as int]@);
        out.push(comments_request(&tasks[i]));
        i = i + 1;
    }
    out
}

/// The `i`-th answer; none where there are fewer.
pub open spec fn reply_at(replies: Seq<Option<Json>>, i: int) -> Option<Json> {
    if 0 <= i < replies.len() {
        replies[i]
    } else {
        None
    }
}

/// A task that was found, as it is answered: with what its discussion holds
/// where that is wanted, else in short.
pub open spec fn similar_entry(
    args: FindSimilarTasksArgs,
    task: JsonView,
    reply: Option<Json>,
) -> JsonView {
    if args.include_extracted == Some(false) {
        summary_of(task)
    } else {
        enriched(task, items_in(reply))
    }
}

/// What a search for similar tasks answers: each task that was found once, in
/// order. `replies` holds the answers on their comments, in the same order.
pub fn similar_result(args: &FindSimilarTasksArgs, val: &Json, replies: &Vec<Option<Json>>) -> (r:
    ToolResult)
    ensures
        !r.is_error,
        r.body@ == JsonView::Array(
            Seq::new(
                similar_found(*args, val@).len(),
                |i: int|
                    similar_entry(*args, similar_found(*args, val@)[i], reply_at(replies@, i)),
            ),
        ),
{
    let tasks = similar_tasks(args, val);
    let ghost found = similar_found(*args, val@);
    assert(views(tasks@).len() == tasks@.len());
    let wanted = wants_extracted(args);
    let none: Option<Json> = None;
    let mut items: Vec<Json> = Vec::new();
    let mut i: usize = 0;
    while i < tasks.len()
        invariant
            i <= tasks@.len(),
            found == views(tasks@),
            wanted == (args.include_extracted != Some(false)),
            none is None,
            items@.len() == i,
            forall|k: int|
                0 <= k < i ==> (#[trigger] items@[k])@ == similar_entry(
                    *args,
                    found[k],
                    reply_at(replies@, k),
                ),
        decreases tasks@.len() - i,
    {
        assert(found[i as int] == tasks@[i as int]@);
        let entry = if !wanted {
            task_summary(&tasks[i])
        } else if i < replies.len() {
            enrich(&tasks[i], &replies[i])
        } else {
            enrich(&tasks[i], &none)
        };
        items.push(entry);
        i = i + 1;
    }
    assert(views(items@) =~= Seq::new(
        found.len(),
        |i: int| similar_entry(*args, found[i], reply_at(replies@, i)),
    ));
    success_json(items)
}

} // verus!
