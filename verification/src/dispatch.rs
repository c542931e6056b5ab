//! From a command to the request that answers it.

use vstd::prelude::*;
use crate::command::{
    ArtifactAction, Command, CommentAction, ConfigAction, DiscoverAction, QuestionAction, RunAction,
};
use crate::json::{
    empty_object, json_int, list_of_texts, number, object, opt_ref, opt_text, or_null, text,
    text_list, text_or_null, Json, JsonView,
};
use crate::query::{add_param, url_encoded, urlenc, with_param};
use crate::request::{
    cycle, cycle_request, delete, deleting, directory_known, get, getting, outcome, patch, patching,
    plan, plan_request, post, post_nothing, posting, posting_nothing, project, project_request,
    unit, unit_request, Method, Refusal, RefusalView, Request, RequestView,
};
use crate::scan::opt_string;
use crate::task_request::{or_empty, task, task_request};
use crate::text::{cat2, cat3, cat4, cat5, dec, decimal, texts};

verus! {

/// What a knowledge command asks.
pub open spec fn artifact_request(a: ArtifactAction) -> RequestView {
    match a {
        ArtifactAction::Create {
            title,
            kind,
            task,
            unit,
            plan,
            content,
            content_format,
            parent,
        } => posting(
            "/knowledge"@,
            empty_object().with("type"@, JsonView::Text(kind@)).with(
                "title"@,
                JsonView::Text(title@),
            ).with("task_id"@, text_or_null(opt_string(task))).with(
                "unit_id"@,
                text_or_null(opt_string(unit)),
            ).with("plan_id"@, text_or_null(opt_string(plan))).with(
                "content"@,
                JsonView::Text(or_empty(opt_string(content))),
            ).with("content_format"@, JsonView::Text(content_format@)).with(
                "parent_id"@,
                text_or_null(opt_string(parent)),
            ),
        ),
        ArtifactAction::View { id } => getting("/knowledge/"@ + id@),
        ArtifactAction::Update { id, title, content, content_format, created_by } => patching(
            "/knowledge/"@ + id@,
            empty_object().with_text("title"@, opt_string(title)).with_text(
                "content"@,
                opt_string(content),
            ).with_text("content_format"@, opt_string(content_format)).with_text(
                "created_by"@,
                opt_string(created_by),
            ),
        ),
        ArtifactAction::List { task, unit, plan, kind } => {
            let q = with_param(Seq::empty(), "task_id"@, opt_string(task));
            let q = with_param(q, "unit_id"@, opt_string(unit));
            let q = with_param(q, "plan_id"@, opt_string(plan));
            getting("/knowledge"@ + with_param(q, "type"@, opt_string(kind)))
        },
        ArtifactAction::Delete { id } => deleting("/knowledge/"@ + id@),
        ArtifactAction::Search { query, mode, kind, limit } => {
            let base = "/knowledge/search?q="@ + url_encoded(query@) + "&mode="@ + mode@
                + "&limit="@ + dec(limit as nat);
            getting(
                match kind {
                    Some(k) => base + "&type="@ + url_encoded(k@),
                    None => base,
                },
            )
        },
        ArtifactAction::Import { cwd, plan, unit, dry_run } => posting(
            "/knowledge/import"@,
            empty_object().with("cwd"@, JsonView::Text(cwd@)).with(
                "plan_id"@,
                text_or_null(opt_string(plan)),
            ).with("unit_id"@, text_or_null(opt_string(unit))).with(
                "dry_run"@,
                JsonView::Bool(dry_run),
            ),
        ),
        ArtifactAction::Export { cwd, plan, unit } => posting(
            "/knowledge/export"@,
            empty_object().with("cwd"@, JsonView::Text(cwd@)).with(
                "plan_id"@,
                text_or_null(opt_string(plan)),
            ).with("unit_id"@, text_or_null(opt_string(unit))),
        ),
    }
}

fn artifact(a: &ArtifactAction) -> (r: Request)
    ensures
        r@ == artifact_request(*a),
{
    match a {
        ArtifactAction::Create {
            title,
            kind,
            task,
            unit,
            plan,
            content,
            content_format,
            parent,
        } => {
            let given = match content {
                Some(c) => c.clone(),
                None => String::new(),
            };
            let body = object().with("type", text(kind.as_str())).with(
                "title",
                text(title.as_str()),
            ).with("task_id", or_null(opt_ref(task))).with("unit_id", or_null(opt_ref(unit))).with(
                "plan_id",
                or_null(opt_ref(plan)),
            ).with("content", text(given.as_str())).with(
                "content_format",
                text(content_format.as_str()),
            ).with("parent_id", or_null(opt_ref(parent)));
            post("/knowledge".to_owned(), body)
        },
        ArtifactAction::View { id } => get(cat2("/knowledge/", id.as_str())),
        ArtifactAction::Update { id, title, content, content_format, created_by } => {
            let body = object().with_text("title", opt_ref(title)).with_text(
                "content",
                opt_ref(content),
            ).with_text("content_format", opt_ref(content_format)).with_text(
                "created_by",
                opt_ref(created_by),
            );
            patch(cat2("/knowledge/", id.as_str()), body)
        },
        ArtifactAction::List { task, unit, plan, kind } => {
            let q = add_param(String::new(), "task_id", opt_ref(task));
            let q = add_param(q, "unit_id", opt_ref(unit));
            let q = add_param(q, "plan_id", opt_ref(plan));
            let q = add_param(q, "type", opt_ref(kind));
            get(cat2("/knowledge", q.as_str()))
        },
        ArtifactAction::Delete { id } => delete(cat2("/knowledge/", id.as_str())),
        ArtifactAction::Search { query, mode, kind, limit } => {
            let q = urlenc(query.as_str());
            let n = decimal(*limit as u64);
            let mut path = cat5(
                "/knowledge/search?q=",
                q.as_str(),
                "&mode=",
                mode.as_str(),
                "&limit=",
            );
            path.append(n.as_str());
            if let Some(k) = kind {
                let t = urlenc(k.as_str());
                path.append("&type=");
                path.append(t.as_str());
            }
            get(path)
        },
        ArtifactAction::Import { cwd, plan, unit, dry_run } => {
            let body = object().with("cwd", text(cwd.as_str())).with(
                "plan_id",
                or_null(opt_ref(plan)),
            ).with("unit_id", or_null(opt_ref(unit))).with("dry_run", Json::Bool(*dry_run));
            post("/knowledge/import".to_owned(), body)
        },
        ArtifactAction::Export { cwd, plan, unit } => {
            let body = object().with("cwd", text(cwd.as_str())).with(
                "plan_id",
                or_null(opt_ref(plan)),
            ).with("unit_id", or_null(opt_ref(unit)));
            post("/knowledge/export".to_owned(), body)
        },
    }
}

/// What a run command asks.
pub open spec fn run_request(a: RunAction) -> RequestView {
    match a {
        RunAction::Start { task, session_id, agent } => posting(
            "/runs"@,
            empty_object().with("task_id"@, JsonView::Text(task@)).with(
                "session_id"@,
                text_or_null(opt_string(session_id)),
            ).with("agent"@, JsonView::Text(agent@)),
        ),
        RunAction::Finish { id, result, notes } => posting(
            "/runs/"@ + id@ + "/finish"@,
            empty_object().with("result"@, JsonView::Text(result@)).with(
                "notes"@,
                text_or_null(opt_string(notes)),
            ),
        ),
        RunAction::View { id } => getting("/runs/"@ + id@),
        RunAction::List { task, session_id } => getting(
            "/runs"@ + with_param(
                with_param(Seq::empty(), "task_id"@, opt_string(task)),
                "session_id"@,
                opt_string(session_id),
            ),
        ),
    }
}

fn run(a: &RunAction) -> (r: Request)
    ensures
        r@ == run_request(*a),
{
    match a {
        RunAction::Start { task, session_id, agent } => {
            let body = object().with("task_id", text(task.as_str())).with(
                "session_id",
                or_null(opt_ref(session_id)),
            ).with("agent", text(agent.as_str()));
            post("/runs".to_owned(), body)
        },
        RunAction::Finish { id, result, notes } => {
            let body = object().with("result", text(result.as_str())).with(
                "notes",
                or_null(opt_ref(notes)),
            );
            post(cat3("/runs/", id.as_str(), "/finish"), body)
        },
        RunAction::View { id } => get(cat2("/runs/", id.as_str())),
        RunAction::List { task, session_id } => {
            let q = add_param(String::new(), "task_id", opt_ref(task));
            let q = add_param(q, "session_id", opt_ref(session_id));
            get(cat2("/runs", q.as_str()))
        },
    }
}

/// What a comment command asks.
pub open spec fn comment_request(a: CommentAction) -> RequestView {
    match a {
        CommentAction::Create { body, task, unit, plan, author, label } => posting(
            "/comments"@,
            empty_object().with("author"@, JsonView::Text(author@)).with(
                "body"@,
                JsonView::Text(body@),
            ).with("task_id"@, text_or_null(opt_string(task))).with(
                "unit_id"@,
                text_or_null(opt_string(unit)),
            ).with("plan_id"@, text_or_null(opt_string(plan))).with(
                "label"@,
                text_or_null(opt_string(label)),
            ),
        ),
        CommentAction::List { task, unit, plan } => {
            let q = with_param(Seq::empty(), "task_id"@, opt_string(task));
            let q = with_param(q, "unit_id"@, opt_string(unit));
            getting("/comments"@ + with_param(q, "plan_id"@, opt_string(plan)))
        },
        CommentAction::Delete { id } => deleting("/comments/"@ + id@),
        CommentAction::Update { id, body } => patching(
            "/comments/"@ + id@,
            empty_object().with("body"@, JsonView::Text(body@)),
        ),
    }
}

fn comment(a: &CommentAction) -> (r: Request)
    ensures
        r@ == comment_request(*a),
{
    match a {
        CommentAction::Create { body, task, unit, plan, author, label } => {
            let j = object().with("author", text(author.as_str())).with(
                "body",
                text(body.as_str()),
            ).with("task_id", or_null(opt_ref(task))).with("unit_id", or_null(opt_ref(unit))).with(
                "plan_id",
                or_null(opt_ref(plan)),
            ).with("label", or_null(opt_ref(label)));
            post("/comments".to_owned(), j)
        },
        CommentAction::List { task, unit, plan } => {
            let q = add_param(String::new(), "task_id", opt_ref(task));
            let q = add_param(q, "unit_id", opt_ref(unit));
            let q = add_param(q, "plan_id", opt_ref(plan));
            get(cat2("/comments", q.as_str()))
        },
        CommentAction::Delete { id } => delete(cat2("/comments/", id.as_str())),
        CommentAction::Update { id, body } => patch(
            cat2("/comments/", id.as_str()),
            object().with("body", text(body.as_str())),
        ),
    }
}

/// The text of an optional truth value.
pub open spec fn bool_text(o: Option<bool>) -> Option<Seq<char>> {
    match o {
        Some(b) => Some(if b {
            "true"@
        } else {
            "false"@
        }),
        None => None,
    }
}

/// What a question command asks.
pub open spec fn question_request(a: QuestionAction) -> RequestView {
    match a {
        QuestionAction::Create { body, plan, unit, task, kind, origin, asked_by } => posting(
            "/questions"@,
            empty_object().with("plan_id"@, text_or_null(opt_string(plan))).with(
                "unit_id"@,
                text_or_null(opt_string(unit)),
            ).with("task_id"@, text_or_null(opt_string(task))).with(
                "kind"@,
                JsonView::Text(kind@),
            ).with("origin"@, JsonView::Text(origin@)).with("body"@, JsonView::Text(body@)).with(
                "asked_by"@,
                JsonView::Text(asked_by@),
            ),
        ),
        QuestionAction::Answer { id, text, by } => posting(
            "/questions/"@ + id@ + "/answer"@,
            empty_object().with("answer"@, JsonView::Text(text@)).with(
                "answered_by"@,
                JsonView::Text(by@),
            ),
        ),
        QuestionAction::View { id } => getting("/questions/"@ + id@),
        QuestionAction::List { plan, unit, task, pending } => {
            let q = with_param(Seq::empty(), "plan_id"@, opt_string(plan));
            let q = with_param(q, "unit_id"@, opt_string(unit));
            let q = with_param(q, "task_id"@, opt_string(task));
            getting("/questions"@ + with_param(q, "pending"@, bool_text(pending)))
        },
    }
}

fn question(a: &QuestionAction) -> (r: Request)
    ensures
        r@ == question_request(*a),
{
    match a {
        QuestionAction::Create { body, plan, unit, task, kind, origin, asked_by } => {
            let j = object().with("plan_id", or_null(opt_ref(plan))).with(
                "unit_id",
                or_null(opt_ref(unit)),
            ).with("task_id", or_null(opt_ref(task))).with("kind", text(kind.as_str())).with(
                "origin",
                text(origin.as_str()),
            ).with("body", text(body.as_str())).with("asked_by", text(asked_by.as_str()));
            post("/questions".to_owned(), j)
        },
        QuestionAction::Answer { id, text: answer, by } => {
            let j = object().with("answer", text(answer.as_str())).with(
                "answered_by",
                text(by.as_str()),
            );
            post(cat3("/questions/", id.as_str(), "/answer"), j)
        },
        QuestionAction::View { id } => get(cat2("/questions/", id.as_str())),
        QuestionAction::List { plan, unit, task, pending } => {
            let q = add_param(String::new(), "plan_id", opt_ref(plan));
            let q = add_param(q, "unit_id", opt_ref(unit));
            let q = add_param(q, "task_id", opt_ref(task));
            let q = add_param(
                q,
                "pending",
                match pending {
                    Some(b) => Some(
                        if *b {
                            "true"
                        } else {
                            "false"
                        },
                    ),
                    None => None,
                },
            );
            get(cat2("/questions", q.as_str()))
        },
    }
}

/// What a config command asks.
pub open spec fn config_request(a: ConfigAction) -> RequestView {
    match a {
        ConfigAction::Get { key } => getting("/config/"@ + url_encoded(key@)),
        ConfigAction::Assign { key, value } => RequestView {
            method: Method::Put,
            path: "/config/"@ + url_encoded(key@),
            body: Some(empty_object().with("value"@, JsonView::Text(value@))),
        },
        ConfigAction::Unset { key } => deleting("/config/"@ + url_encoded(key@)),
        ConfigAction::List => getting("/config"@),
    }
}

fn config(a: &ConfigAction) -> (r: Request)
    ensures
        r@ == config_request(*a),
{
    match a {
        ConfigAction::Get { key } => {
            let k = urlenc(key.as_str());
            get(cat2("/config/", k.as_str()))
        },
        ConfigAction::Assign { key, value } => {
            let k = urlenc(key.as_str());
            Request {
                method: Method::Put,
                path: cat2("/config/", k.as_str()),
                body: Some(object().with("value", text(value.as_str()))),
            }
        },
        ConfigAction::Unset { key } => {
            let k = urlenc(key.as_str());
            delete(cat2("/config/", k.as_str()))
        },
        ConfigAction::List => get("/config".to_owned()),
    }
}

/// The query for a plan, or else for a project, or for neither.
pub open spec fn scope_query(plan: Option<Seq<char>>, project: Option<Seq<char>>) -> Seq<char> {
    match plan {
        Some(p) => "?plan_id="@ + url_encoded(p),
        None => match project {
            Some(p) => "?project_id="@ + url_encoded(p),
            None => Seq::empty(),
        },
    }
}

fn scope(plan: &Option<String>, project: &Option<String>) -> (r: String)
    ensures
        r@ == scope_query(opt_string(*plan), opt_string(*project)),
{
    match plan {
        Some(p) => {
            let enc = urlenc(p.as_str());
            cat2("?plan_id=", enc.as_str())
        },
        None => match project {
            Some(p) => {
                let enc = urlenc(p.as_str());
                cat2("?project_id=", enc.as_str())
            },
            None => String::new(),
        },
    }
}

/// An optional list of texts, or null.
pub open spec fn list_or_null(o: Option<Vec<String>>) -> JsonView {
    match o {
        Some(v) => text_list(texts(v@)),
        None => JsonView::Null,
    }
}

/// An optional count, or null.
pub open spec fn count_or_null(o: Option<u32>) -> JsonView {
    match o {
        Some(n) => json_int(n as int),
        None => JsonView::Null,
    }
}

/// What a discover-loop command asks.
pub open spec fn discover_request(a: DiscoverAction) -> RequestView {
    match a {
        DiscoverAction::Start { project, domain, round, areas, description } => posting(
            "/discover-loop/start"@,
            empty_object().with("project_id"@, JsonView::Text(project@)).with(
                "domain"@,
                JsonView::Text(domain@),
            ).with("round"@, json_int(round as int)).with(
                "unit_areas"@,
                text_list(texts(areas@)),
            ).with("description"@, text_or_null(opt_string(description))),
        ),
        DiscoverAction::NextRound { previous_plan, domain, areas, round } => posting(
            "/discover-loop/next-round"@,
            empty_object().with("previous_plan_id"@, JsonView::Text(previous_plan@)).with(
                "domain"@,
                text_or_null(opt_string(domain)),
            ).with("unit_areas"@, list_or_null(areas)).with("round"@, count_or_null(round)),
        ),
        DiscoverAction::DispatchPlan { plan, batch_size } => getting(
            "/discover-loop/dispatch-plan?plan_id="@ + url_encoded(plan@) + "&batch_size="@ + dec(
                batch_size as nat,
            ),
        ),
        DiscoverAction::VerifyTsv { tsv } => posting(
            "/discover-loop/verify-tsv"@,
            empty_object().with("tsv"@, JsonView::Text(tsv@)),
        ),
        DiscoverAction::BatchId => posting_nothing("/discover-loop/batch-id"@),
        DiscoverAction::Sync { tsv, unit, cycle, assignee } => posting(
            "/discover-loop/sync"@,
            empty_object().with("tsv"@, JsonView::Text(tsv@)).with(
                "unit_id"@,
                JsonView::Text(unit@),
            ).with("cycle_id"@, JsonView::Text(cycle@)).with(
                "assignee"@,
                text_or_null(opt_string(assignee)),
            ),
        ),
        DiscoverAction::Status { plan, project } => getting(
            "/discover-loop/status"@ + scope_query(opt_string(plan), opt_string(project)),
        ),
        DiscoverAction::Converged { plan, project } => getting(
            "/discover-loop/converged"@ + scope_query(opt_string(plan), opt_string(project)),
        ),
        DiscoverAction::Rounds { project } => getting(
            "/discover-loop/rounds/"@ + url_encoded(project@),
        ),
    }
}

fn discover(a: &DiscoverAction) -> (r: Request)
    ensures
        r@ == discover_request(*a),
{
    match a {
        DiscoverAction::Start { project, domain, round, areas, description } => {
            let body = object().with("project_id", text(project.as_str())).with(
                "domain",
                text(domain.as_str()),
            ).with("round", number(*round as u64)).with(
                "unit_areas",
                list_of_texts(areas),
            ).with("description", or_null(opt_ref(description)));
            post("/discover-loop/start".to_owned(), body)
        },
        DiscoverAction::NextRound { previous_plan, domain, areas, round } => {
            let area_json = match areas {
                Some(v) => list_of_texts(v),
                None => Json::Null,
            };
            let round_json = match round {
                Some(n) => number(*n as u64),
                None => Json::Null,
            };
            let body = object().with("previous_plan_id", text(previous_plan.as_str())).with(
                "domain",
                or_null(opt_ref(domain)),
            ).with("unit_areas", area_json).with("round", round_json);
            post("/discover-loop/next-round".to_owned(), body)
        },
        DiscoverAction::DispatchPlan { plan, batch_size } => {
            let p = urlenc(plan.as_str());
            let n = decimal(*batch_size as u64);
            get(
                cat4(
                    "/discover-loop/dispatch-plan?plan_id=",
                    p.as_str(),
                    "&batch_size=",
                    n.as_str(),
                ),
            )
        },
        DiscoverAction::VerifyTsv { tsv } => post(
            "/discover-loop/verify-tsv".to_owned(),
            object().with("tsv", text(tsv.as_str())),
        ),
        DiscoverAction::BatchId => post_nothing("/discover-loop/batch-id".to_owned()),
        DiscoverAction::Sync { tsv, unit, cycle, assignee } => {
            let body = object().with("tsv", text(tsv.as_str())).with(
                "unit_id",
                text(unit.as_str()),
            ).with("cycle_id", text(cycle.as_str())).with("assignee", or_null(opt_ref(assignee)));
            post("/discover-loop/sync".to_owned(), body)
        },
        DiscoverAction::Status { plan, project } => {
            let q = scope(plan, project);
            get(cat2("/discover-loop/status", q.as_str()))
        },
        DiscoverAction::Converged { plan, project } => {
            let q = scope(plan, project);
            get(cat2("/discover-loop/converged", q.as_str()))
        },
        DiscoverAction::Rounds { project } => {
            let p = urlenc(project.as_str());
            get(cat2("/discover-loop/rounds/", p.as_str()))
        },
    }
}

/// The path with a project parameter, where there is a project.
pub open spec fn by_project(path: Seq<char>, project: Option<String>) -> RequestView {
    getting(path + with_param(Seq::empty(), "project_id"@, opt_string(project)))
}

fn of_project(path: &str, project: &Option<String>) -> (r: Request)
    ensures
        r@ == by_project(path@, *project),
{
    let q = add_param(String::new(), "project_id", opt_ref(project));
    get(cat2(path, q.as_str()))
}

/// What a backup asks.
pub open spec fn backup_request(output: Option<String>, project: Option<String>) -> RequestView {
    posting(
        "/backup"@,
        empty_object().with("output"@, text_or_null(opt_string(output))).with(
            "project_id"@,
            text_or_null(opt_string(project)),
        ),
    )
}

/// What a restore asks.
pub open spec fn restore_request(input: String, merge: bool, dry_run: bool) -> RequestView {
    posting(
        "/restore"@,
        empty_object().with("input"@, JsonView::Text(input@)).with(
            "merge"@,
            JsonView::Bool(merge),
        ).with("dry_run"@, JsonView::Bool(dry_run)),
    )
}

/// What a migration asks.
pub open spec fn migrate_request(dry_run: bool) -> RequestView {
    posting("/migrate"@, empty_object().with("dry_run"@, JsonView::Bool(dry_run)))
}

/// What an update of the program asks.
pub open spec fn update_request(dry_run: bool, version: Option<String>) -> RequestView {
    posting(
        "/self-update"@,
        empty_object().with("dry_run"@, JsonView::Bool(dry_run)).with(
            "version"@,
            text_or_null(opt_string(version)),
        ),
    )
}

/// What a dashboard asks.
pub open spec fn dashboard_request(cwd: String, show: String) -> RequestView {
    getting("/dashboard?cwd="@ + url_encoded(cwd@) + "&show="@ + url_encoded(show@))
}

/// What following the events asks.
pub open spec fn watch_request(
    project: Option<String>,
    task: Option<String>,
    cycle: Option<String>,
) -> RequestView {
    let q = with_param(Seq::empty(), "project_id"@, opt_string(project));
    let q = with_param(q, "task_id"@, opt_string(task));
    getting("/events"@ + with_param(q, "cycle_id"@, opt_string(cycle)))
}

/// What a replay asks.
pub open spec fn replay_request(task: String, limit: u32) -> RequestView {
    getting("/runs/replay?task_id="@ + url_encoded(task@) + "&limit="@ + dec(limit as nat))
}

/// What a search for similar tasks asks.
pub open spec fn find_similar_request(
    query: String,
    limit: u32,
    project: Option<String>,
) -> RequestView {
    let base = "/tasks/similar?q="@ + url_encoded(query@) + "&limit="@ + dec(limit as nat);
    getting(
        match project {
            Some(p) => base + "&project_id="@ + url_encoded(p@),
            None => base,
        },
    )
}

/// What a list of decisions asks.
pub open spec fn recent_decisions_request(project: Option<String>) -> RequestView {
    let base = "/knowledge?type=decision"@;
    getting(
        match project {
            Some(p) => base + "&project_id="@ + url_encoded(p@),
            None => base,
        },
    )
}

/// What a command asks of the daemon, or why it is refused. `here` is the
/// current directory.
pub open spec fn dispatched(c: Command, here: Option<Seq<char>>) -> Result<
    RequestView,
    RefusalView,
> {
    match c {
        Command::Dashboard { cwd, show } => Ok(dashboard_request(cwd, show)),
        Command::Project { action } => Ok(project_request(action, here)),
        Command::Plan { action } => Ok(plan_request(action, here)),
        Command::Unit { action } => unit_request(action),
        Command::Cycle { action } => Ok(cycle_request(action)),
        Command::Task { action } => Ok(task_request(action, here)),
        Command::Knowledge { action } => Ok(artifact_request(action)),
        Command::Run { action } => Ok(run_request(action)),
        Command::Comment { action } => Ok(comment_request(action)),
        Command::Question { action } => Ok(question_request(action)),
        Command::Timeline { project } => Ok(by_project("/dashboard/timeline"@, project)),
        Command::Board { project } => Ok(by_project("/dashboard/board"@, project)),
        Command::Wiki { project } => Ok(by_project("/dashboard/wiki"@, project)),
        Command::Summary { project } => Ok(by_project("/dashboard/summary"@, project)),
        Command::Watch { project, task, cycle, .. } => Ok(watch_request(project, task, cycle)),
        Command::Replay { task, limit } => Ok(replay_request(task, limit)),
        Command::Backup { output, project } => Ok(backup_request(output, project)),
        Command::Restore { input, merge, dry_run } => Ok(restore_request(input, merge, dry_run)),
        Command::Migrate { dry_run } => Ok(migrate_request(dry_run)),
        Command::Config { action } => Ok(config_request(action)),
        Command::Update { dry_run, version } => Ok(update_request(dry_run, version)),
        Command::VersionCheck => Ok(getting("/version-check"@)),
        Command::FindSimilar { query, limit, project } => Ok(
            find_similar_request(query, limit, project),
        ),
        Command::GetTaskContext { id } => Ok(getting("/tasks/"@ + id@ + "/context"@)),
        Command::GetRecentDecisions { project, .. } => Ok(recent_decisions_request(project)),
        Command::DiscoverLoop { action } => Ok(discover_request(action)),
    }
}

/// What a command asks of the daemon, or why it is refused. `here` is the
/// current directory, which a command needs that names no directory.
pub fn request_for(c: &Command, here: Option<&str>) -> (r: Result<Request, Refusal>)
    requires
        directory_known(*c, opt_text(here)),
    ensures
        outcome(r) == dispatched(*c, opt_text(here)),
{
    match c {
        Command::Dashboard { cwd, show } => {
            let d = urlenc(cwd.as_str());
            let s = urlenc(show.as_str());
            Ok(get(cat4("/dashboard?cwd=", d.as_str(), "&show=", s.as_str())))
        },
        Command::Project { action } => Ok(project(action, here)),
        Command::Plan { action } => Ok(plan(action, here)),
        Command::Unit { action } => unit(action),
        Command::Cycle { action } => Ok(cycle(action)),
        Command::Task { action } => Ok(task(action, here)),
        Command::Knowledge { action } => Ok(artifact(action)),
        Command::Run { action } => Ok(run(action)),
        Command::Comment { action } => Ok(comment(action)),
        Command::Question { action } => Ok(question(action)),
        Command::Timeline { project } => Ok(of_project("/dashboard/timeline", project)),
        Command::Board { project } => Ok(of_project("/dashboard/board", project)),
        Command::Wiki { project } => Ok(of_project("/dashboard/wiki", project)),
        Command::Summary { project } => Ok(of_project("/dashboard/summary", project)),
        Command::Watch { project, task, cycle, .. } => {
            let q = add_param(String::new(), "project_id", opt_ref(project));
            let q = add_param(q, "task_id", opt_ref(task));
            let q = add_param(q, "cycle_id", opt_ref(cycle));
            Ok(get(cat2("/events", q.as_str())))
        },
        Command::Replay { task, limit } => {
            let t = urlenc(task.as_str());
            let n = decimal(*limit as u64);
            Ok(get(cat4("/runs/replay?task_id=", t.as_str(), "&limit=", n.as_str())))
        },
        Command::Backup { output, project } => {
            let body = object().with("output", or_null(opt_ref(output))).with(
                "project_id",
                or_null(opt_ref(project)),
            );
            Ok(post("/backup".to_owned(), body))
        },
        Command::Restore { input, merge, dry_run } => {
            let body = object().with("input", text(input.as_str())).with(
                "merge",
                Json::Bool(*merge),
            ).with("dry_run", Json::Bool(*dry_run));
            Ok(post("/restore".to_owned(), body))
        },
        Command::Migrate { dry_run } => Ok(
            post("/migrate".to_owned(), object().with("dry_run", Json::Bool(*dry_run))),
        ),
        Command::Config { action } => Ok(config(action)),
        Command::Update { dry_run, version } => {
            let body = object().with("dry_run", Json::Bool(*dry_run)).with(
                "version",
                or_null(opt_ref(version)),
            );
            Ok(post("/self-update".to_owned(), body))
        },
        Command::VersionCheck => Ok(get("/version-check".to_owned())),
        Command::FindSimilar { query, limit, project } => {
            let q = urlenc(query.as_str());
            let n = decimal(*limit as u64);
            let mut path = cat4("/tasks/similar?q=", q.as_str(), "&limit=", n.as_str());
            if let Some(p) = project {
                let e = urlenc(p.as_str());
                path.append("&project_id=");
                path.append(e.as_str());
            }
            Ok(get(path))
        },
        Command::GetTaskContext { id } => Ok(get(cat3("/tasks/", id.as_str(), "/context"))),
        Command::GetRecentDecisions { project, limit } => {
            let mut path = "/knowledge?type=decision".to_owned();
            if let Some(p) = project {
                let e = urlenc(p.as_str());
                path.append("&project_id=");
                path.append(e.as_str());
            }
            Ok(get(path))
        },
        Command::DiscoverLoop { action } => Ok(discover(action)),
    }
}

/// What a project command gives to be passed on has its keys in order.
pub open spec fn payload_well_formed(a: crate::command::ProjectAction) -> bool {
    match a {
        crate::command::ProjectAction::Update { wiki_paths: Some(w), .. } => w.parsed is Some
            ==> w.parsed->0@.well_formed(),
        _ => true,
    }
}

/// A request whose body, where it has one, has its keys in order.
pub open spec fn body_well_formed(q: RequestView) -> bool {
    q.body is Some ==> q.body->0.well_formed()
}

/// In the body that a project command sends the keys are distinct and in order.
pub proof fn project_bodies(a: crate::command::ProjectAction, here: Option<Seq<char>>)
    requires
        payload_well_formed(a),
    ensures
        body_well_formed(project_request(a, here)),
{
    broadcast use crate::json::group_well_formed;

}

/// In the body that a plan command sends the keys are distinct and in order.
pub proof fn plan_bodies(a: crate::command::PlanAction, here: Option<Seq<char>>)
    ensures
        body_well_formed(plan_request(a, here)),
{
    broadcast use crate::json::group_well_formed;

}

/// In the body that a unit command sends the keys are distinct and in order.
pub proof fn unit_bodies(a: crate::command::UnitAction)
    ensures
        unit_request(a) is Ok ==> body_well_formed(unit_request(a)->Ok_0),
{
    broadcast use crate::json::group_well_formed;

}

/// In the body that a cycle command sends the keys are distinct and in order.
pub proof fn cycle_bodies(a: crate::command::CycleAction)
    ensures
        body_well_formed(cycle_request(a)),
{
    broadcast use crate::json::group_well_formed;

}

/// In the body that a task command sends the keys are distinct and in order.
pub proof fn task_bodies(a: crate::command::TaskAction, here: Option<Seq<char>>)
    ensures
        body_well_formed(task_request(a, here)),
{
    broadcast use crate::json::group_well_formed;

}

/// In the body that a knowledge command sends the keys are distinct and in order.
pub proof fn artifact_bodies(a: ArtifactAction)
    ensures
        body_well_formed(artifact_request(a)),
{
    broadcast use crate::json::group_well_formed;

}

/// In the body that a run command sends the keys are distinct and in order.
pub proof fn run_bodies(a: RunAction)
    ensures
        body_well_formed(run_request(a)),
{
    broadcast use crate::json::group_well_formed;

}

/// In the body that a comment command sends the keys are distinct and in order.
pub proof fn comment_bodies(a: CommentAction)
    ensures
        body_well_formed(comment_request(a)),
{
    broadcast use crate::json::group_well_formed;

}

/// In the body that a question command sends the keys are distinct and in order.
pub proof fn question_bodies(a: QuestionAction)
    ensures
        body_well_formed(question_request(a)),
{
    broadcast use crate::json::group_well_formed;

}

/// In the body that a config command sends the keys are distinct and in order.
pub proof fn config_bodies(a: ConfigAction)
    ensures
        body_well_formed(config_request(a)),
{
    broadcast use crate::json::group_well_formed;

}

/// In the body that a discover-loop command sends the keys are distinct and in order.
pub proof fn discover_bodies(a: DiscoverAction)
    ensures
        body_well_formed(discover_request(a)),
{
    broadcast use crate::json::group_well_formed;

}

/// In the body that a backup sends the keys are distinct and in order.
pub proof fn backup_bodies(output: Option<String>, project: Option<String>)
    ensures
        body_well_formed(backup_request(output, project)),
{
    broadcast use crate::json::group_well_formed;

}

/// In the body that a restore or a migration sends the keys are distinct and in order.
pub proof fn restore_bodies(input: String, merge: bool, dry_run: bool)
    ensures
        body_well_formed(restore_request(input, merge, dry_run)),
        body_well_formed(migrate_request(dry_run)),
{
    broadcast use crate::json::group_well_formed;

}

/// In the body that a program update sends the keys are distinct and in order.
pub proof fn update_bodies(dry_run: bool, version: Option<String>)
    ensures
        body_well_formed(update_request(dry_run, version)),
{
    broadcast use crate::json::group_well_formed;

}

/// The variable that is set while a command is carried out, and its value.
pub fn sync_context(c: &Command) -> (r: Option<(String, String)>)
    ensures
        match r {
            Some((name, value)) => c matches Command::DiscoverLoop { action } && action is Sync
                && name@ == "CLAWKET_SYNC_CONTEXT"@ && value@ == "bulk-sync"@,
            None => !(c matches Command::DiscoverLoop { action } && action is Sync),
        },
{
    match c {
        Command::DiscoverLoop { action: DiscoverAction::Sync { .. } } => Some(
            ("CLAWKET_SYNC_CONTEXT".to_owned(), "bulk-sync".to_owned()),
        ),
        _ => None,
    }
}

} // verus!
