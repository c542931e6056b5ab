//! What each command asks of the daemon.

use vstd::prelude::*;
use crate::command::{Command, CycleAction, PlanAction, ProjectAction, UnitAction};
use crate::json::{
    empty_object, json_int, list_of_texts, object, opt_ref, opt_text, or_null, signed, text,
    text_list, text_or_null, Json, JsonView,
};
use crate::query::{add_param, with_param};
use crate::scan::opt_string;
use crate::text::{cat2, cat3, cat5, dec_int, decimal_int, same, texts};

verus! {

#[derive(Clone, Copy, Debug, PartialEq, Eq, Structural)]
pub enum Method {
    Get,
    Post,
    Patch,
    Put,
    Delete,
}

/// A request to the daemon.
pub struct Request {
    pub method: Method,
    pub path: String,
    pub body: Option<Json>,
}

/// What a request to the daemon is.
pub struct RequestView {
    pub method: Method,
    pub path: Seq<char>,
    pub body: Option<JsonView>,
}

impl View for Request {
    type V = RequestView;

    open spec fn view(&self) -> RequestView {
        RequestView {
            method: self.method,
            path: self.path@,
            body: match self.body {
                Some(b) => Some(b@),
                None => None,
            },
        }
    }
}

/// A command that is refused before anything is sent.
pub struct Refusal {
    /// What is said on the error output.
    pub message: String,
    /// What the program exits with.
    pub code: i32,
}

/// What a refusal is.
pub struct RefusalView {
    pub message: Seq<char>,
    pub code: int,
}

impl View for Refusal {
    type V = RefusalView;

    open spec fn view(&self) -> RefusalView {
        RefusalView { message: self.message@, code: self.code as int }
    }
}

pub open spec fn getting(path: Seq<char>) -> RequestView {
    RequestView { method: Method::Get, path, body: None }
}

pub open spec fn deleting(path: Seq<char>) -> RequestView {
    RequestView { method: Method::Delete, path, body: None }
}

pub open spec fn posting(path: Seq<char>, body: JsonView) -> RequestView {
    RequestView { method: Method::Post, path, body: Some(body) }
}

pub open spec fn posting_nothing(path: Seq<char>) -> RequestView {
    RequestView { method: Method::Post, path, body: None }
}

pub open spec fn patching(path: Seq<char>, body: JsonView) -> RequestView {
    RequestView { method: Method::Patch, path, body: Some(body) }
}

/// A `GET` of the path.
pub fn get(path: String) -> (r: Request)
    ensures
        r@ == getting(path@),
{
    Request { method: Method::Get, path, body: None }
}

pub(crate) fn delete(path: String) -> (r: Request)
    ensures
        r@ == deleting(path@),
{
    Request { method: Method::Delete, path, body: None }
}

/// A `POST` of the body to the path.
pub fn post(path: String, body: Json) -> (r: Request)
    ensures
        r@ == posting(path@, body@),
{
    Request { method: Method::Post, path, body: Some(body) }
}

pub(crate) fn post_nothing(path: String) -> (r: Request)
    ensures
        r@ == posting_nothing(path@),
{
    Request { method: Method::Post, path, body: None }
}

/// A `PATCH` of the path with the body.
pub fn patch(path: String, body: Json) -> (r: Request)
    ensures
        r@ == patching(path@, body@),
{
    Request { method: Method::Patch, path, body: Some(body) }
}

/// The name of the method on the wire.
pub open spec fn method_text(m: Method) -> Seq<char> {
    match m {
        Method::Get => "GET"@,
        Method::Post => "POST"@,
        Method::Patch => "PATCH"@,
        Method::Put => "PUT"@,
        Method::Delete => "DELETE"@,
    }
}

/// The name of the method on the wire.
pub fn method_name(m: Method) -> (r: &'static str)
    ensures
        r@ == method_text(m),
{
    match m {
        Method::Get => "GET",
        Method::Post => "POST",
        Method::Patch => "PATCH",
        Method::Put => "PUT",
        Method::Delete => "DELETE",
    }
}

/// A number, or null.
pub open spec fn int_or_null(o: Option<i64>) -> JsonView {
    match o {
        Some(n) => json_int(n as int),
        None => JsonView::Null,
    }
}

pub(crate) fn int_json(o: &Option<i64>) -> (r: Json)
    ensures
        r@ == int_or_null(*o),
{
    match o {
        Some(n) => signed(*n),
        None => Json::Null,
    }
}

/// The text of an optional number.
pub open spec fn int_text(o: Option<i64>) -> Option<Seq<char>> {
    match o {
        Some(n) => Some(dec_int(n as int)),
        None => None,
    }
}

pub(crate) fn int_param(o: &Option<i64>) -> (r: Option<String>)
    ensures
        opt_string(r) == int_text(*o),
{
    match o {
        Some(n) => Some(decimal_int(*n)),
        None => None,
    }
}

/// The object with `key` set to the number, where there is one.
pub open spec fn with_int(j: JsonView, key: Seq<char>, o: Option<i64>) -> JsonView {
    match o {
        Some(n) => j.with(key, json_int(n as int)),
        None => j,
    }
}

pub(crate) fn add_int(j: Json, key: &str, o: &Option<i64>) -> (r: Json)
    ensures
        r@ == with_int(j@, key@, *o),
{
    match o {
        Some(n) => j.with(key, signed(*n)),
        None => j,
    }
}

/// The body that switches a project on or off.
pub open spec fn enabled_body(enabled: int) -> JsonView {
    empty_object().with("enabled"@, json_int(enabled))
}

/// The body that switches a project on (`1`) or off (`0`).
pub fn project_enabled_body(enabled: i64) -> (r: Json)
    ensures
        r@ == enabled_body(enabled as int),
{
    object().with("enabled", signed(enabled))
}

/// The first of the two, else the second.
pub open spec fn or_else(a: Option<Seq<char>>, b: Option<Seq<char>>) -> Option<Seq<char>> {
    match a {
        Some(_) => a,
        None => b,
    }
}

pub(crate) fn first_of<'a>(a: Option<&'a str>, b: Option<&'a str>) -> (r: Option<&'a str>)
    ensures
        opt_text(r) == or_else(opt_text(a), opt_text(b)),
{
    match a {
        Some(s) => Some(s),
        None => b,
    }
}

/// What a project command asks. `here` is the current directory.
pub open spec fn project_request(a: ProjectAction, here: Option<Seq<char>>) -> RequestView {
    match a {
        ProjectAction::Create { name, description, cwd, key } => posting(
            "/projects"@,
            empty_object().with("name"@, JsonView::Text(name@)).with(
                "description"@,
                text_or_null(opt_string(description)),
            ).with("cwd"@, text_or_null(or_else(opt_string(cwd), here))).with(
                "key"@,
                text_or_null(opt_string(key)),
            ),
        ),
        ProjectAction::View { id } => getting("/projects/"@ + id@),
        ProjectAction::List => getting("/projects"@),
        ProjectAction::Update { id, name, description, wiki_paths } => patching(
            "/projects/"@ + id@,
            with_wiki_paths(
                empty_object().with_text("name"@, opt_string(name)).with_text(
                    "description"@,
                    opt_string(description),
                ),
                wiki_paths,
            ),
        ),
        ProjectAction::Delete { id } => deleting("/projects/"@ + id@),
        ProjectAction::Disable { id } => patching("/projects/"@ + id@, enabled_body(0)),
        ProjectAction::Enable { id } => patching("/projects/"@ + id@, enabled_body(1)),
        ProjectAction::Resolve { cwd } => getting("/projects/by-cwd"@ + cwd@),
        ProjectAction::CwdAdd { id, path } => posting(
            "/projects/"@ + id@ + "/cwds"@,
            empty_object().with("cwd"@, text_or_null(or_else(opt_string(path), here))),
        ),
        ProjectAction::CwdRemove { id, path } => RequestView {
            method: Method::Delete,
            path: "/projects/"@ + id@ + "/cwds"@,
            body: Some(empty_object().with("cwd"@, JsonView::Text(path@))),
        },
        ProjectAction::CwdList { id } => getting("/projects/"@ + id@),
    }
}

/// The body with the wiki paths: as they are where they are JSON, else as a
/// list of the one path.
pub open spec fn with_wiki_paths(
    body: JsonView,
    paths: Option<crate::command::WikiPaths>,
) -> JsonView {
    match paths {
        Some(w) => body.with(
            "wiki_paths"@,
            match w.parsed {
                Some(j) => j@,
                None => text_list(seq![w.raw@]),
            },
        ),
        None => body,
    }
}

/// A command needs the current directory where it names no directory itself.
pub open spec fn directory_known(c: Command, here: Option<Seq<char>>) -> bool {
    match c {
        Command::Project { action: ProjectAction::Create { cwd, .. } } => cwd is Some || here is Some,
        Command::Project { action: ProjectAction::CwdAdd { path, .. } } => path is Some
            || here is Some,
        _ => true,
    }
}

/// Whether the command needs the current directory.
pub fn needs_directory(c: &Command) -> (r: bool)
    ensures
        r == !directory_known(*c, None),
{
    match c {
        Command::Project { action: ProjectAction::Create { cwd, .. } } => cwd.is_none(),
        Command::Project { action: ProjectAction::CwdAdd { path, .. } } => path.is_none(),
        _ => false,
    }
}

pub(crate) fn project(a: &ProjectAction, here: Option<&str>) -> (r: Request)
    ensures
        r@ == project_request(*a, opt_text(here)),
{
    match a {
        ProjectAction::Create { name, description, cwd, key } => {
            let body = object().with("name", text(name.as_str())).with(
                "description",
                or_null(opt_ref(description)),
            ).with("cwd", or_null(first_of(opt_ref(cwd), here))).with(
                "key",
                or_null(opt_ref(key)),
            );
            post("/projects".to_owned(), body)
        },
        ProjectAction::View { id } => get(cat2("/projects/", id.as_str())),
        ProjectAction::List => get("/projects".to_owned()),
        ProjectAction::Update { id, name, description, wiki_paths } => {
            let mut body = object().with_text("name", opt_ref(name)).with_text(
                "description",
                opt_ref(description),
            );
            if let Some(w) = wiki_paths {
                let value = match &w.parsed {
                    Some(j) => j.copy(),
                    None => {
                        let mut one: Vec<String> = Vec::new();
                        one.push(w.raw.clone());
                        assert(texts(one@) =~= seq![w.raw@]);
                        list_of_texts(&one)
                    },
                };
                body = body.with("wiki_paths", value);
            }
            patch(cat2("/projects/", id.as_str()), body)
        },
        ProjectAction::Delete { id } => delete(cat2("/projects/", id.as_str())),
        ProjectAction::Disable { id } => patch(
            cat2("/projects/", id.as_str()),
            project_enabled_body(0),
        ),
        ProjectAction::Enable { id } => patch(
            cat2("/projects/", id.as_str()),
            project_enabled_body(1),
        ),
        ProjectAction::Resolve { cwd } => get(cat2("/projects/by-cwd", cwd.as_str())),
        ProjectAction::CwdAdd { id, path } => {
            let body = object().with("cwd", or_null(first_of(opt_ref(path), here)));
            post(cat3("/projects/", id.as_str(), "/cwds"), body)
        },
        ProjectAction::CwdRemove { id, path } => Request {
            method: Method::Delete,
            path: cat3("/projects/", id.as_str(), "/cwds"),
            body: Some(object().with("cwd", text(path.as_str()))),
        },
        ProjectAction::CwdList { id } => get(cat2("/projects/", id.as_str())),
    }
}

/// What a plan command asks. `here` is the current directory.
pub open spec fn plan_request(a: PlanAction, here: Option<Seq<char>>) -> RequestView {
    match a {
        PlanAction::Create { title, project, description, source, source_path } => posting(
            "/plans"@,
            empty_object().with("project_id"@, JsonView::Text(project@)).with(
                "title"@,
                JsonView::Text(title@),
            ).with("description"@, text_or_null(opt_string(description))).with(
                "source"@,
                JsonView::Text(source@),
            ).with("source_path"@, text_or_null(opt_string(source_path))),
        ),
        PlanAction::View { id } => getting("/plans/"@ + id@),
        PlanAction::List { project, status } => getting(
            "/plans"@ + with_param(
                with_param(Seq::empty(), "project_id"@, opt_string(project)),
                "status"@,
                opt_string(status),
            ),
        ),
        PlanAction::Update { id, title, description, status } => patching(
            "/plans/"@ + id@,
            empty_object().with_text("title"@, opt_string(title)).with_text(
                "description"@,
                opt_string(description),
            ).with_text("status"@, opt_string(status)),
        ),
        PlanAction::Delete { id } => deleting("/plans/"@ + id@),
        PlanAction::Approve { id } => posting_nothing("/plans/"@ + id@ + "/approve"@),
        PlanAction::Complete { id } => patching(
            "/plans/"@ + id@,
            empty_object().with("status"@, JsonView::Text("completed"@)),
        ),
        PlanAction::Import { file, project, cwd, source, dry_run } => posting(
            "/plans/import"@,
            empty_object().with("file"@, JsonView::Text(file@)).with(
                "project"@,
                text_or_null(opt_string(project)),
            ).with("cwd"@, text_or_null(or_else(opt_string(cwd), here))).with(
                "source"@,
                JsonView::Text(source@),
            ).with("dryRun"@, JsonView::Bool(dry_run)),
        ),
        PlanAction::ImportStrict { content, project, cwd, dry_run } => posting(
            "/plans/import/strict"@,
            empty_object().with("content"@, JsonView::Text(content@)).with(
                "project"@,
                text_or_null(opt_string(project)),
            ).with("cwd"@, text_or_null(or_else(opt_string(cwd), here))).with(
                "dryRun"@,
                JsonView::Bool(dry_run),
            ),
        ),
    }
}

pub(crate) fn plan(a: &PlanAction, here: Option<&str>) -> (r: Request)
    ensures
        r@ == plan_request(*a, opt_text(here)),
{
    match a {
        PlanAction::Create { title, project, description, source, source_path } => {
            let body = object().with("project_id", text(project.as_str())).with(
                "title",
                text(title.as_str()),
            ).with("description", or_null(opt_ref(description))).with(
                "source",
                text(source.as_str()),
            ).with("source_path", or_null(opt_ref(source_path)));
            post("/plans".to_owned(), body)
        },
        PlanAction::View { id } => get(cat2("/plans/", id.as_str())),
        PlanAction::List { project, status } => {
            let q = add_param(String::new(), "project_id", opt_ref(project));
            let q = add_param(q, "status", opt_ref(status));
            get(cat2("/plans", q.as_str()))
        },
        PlanAction::Update { id, title, description, status } => {
            let body = object().with_text("title", opt_ref(title)).with_text(
                "description",
                opt_ref(description),
            ).with_text("status", opt_ref(status));
            patch(cat2("/plans/", id.as_str()), body)
        },
        PlanAction::Delete { id } => delete(cat2("/plans/", id.as_str())),
        PlanAction::Approve { id } => post_nothing(cat3("/plans/", id.as_str(), "/approve")),
        PlanAction::Complete { id } => patch(
            cat2("/plans/", id.as_str()),
            object().with("status", text("completed")),
        ),
        PlanAction::Import { file, project, cwd, source, dry_run } => {
            let body = object().with("file", text(file.as_str())).with(
                "project",
                or_null(opt_ref(project)),
            ).with("cwd", or_null(first_of(opt_ref(cwd), here))).with(
                "source",
                text(source.as_str()),
            ).with("dryRun", Json::Bool(*dry_run));
            post("/plans/import".to_owned(), body)
        },
        PlanAction::ImportStrict { content, project, cwd, dry_run } => {
            let body = object().with("content", text(content.as_str())).with(
                "project",
                or_null(opt_ref(project)),
            ).with("cwd", or_null(first_of(opt_ref(cwd), here))).with(
                "dryRun",
                Json::Bool(*dry_run),
            );
            post("/plans/import/strict".to_owned(), body)
        },
    }
}

/// The ways in which the tasks of a unit run.
pub open spec fn is_mode(mode: Seq<char>) -> bool {
    mode == "sequential"@ || mode == "parallel"@
}

/// The refusal of a mode that there is not. `first` describes the first of
/// the modes.
pub open spec fn bad_mode(mode: Seq<char>, first: Seq<char>) -> RefusalView {
    RefusalView {
        message: "Error: invalid value '"@ + mode
            + "' for '--mode'\n\n  Valid values: sequential, parallel\n\n  sequential  "@ + first
            + "\n  parallel    Tasks can be executed by multiple agents simultaneously"@,
        code: 1,
    }
}

fn refuse_mode(mode: &str, first: &str) -> (r: Refusal)
    ensures
        r@ == bad_mode(mode@, first@),
{
    Refusal {
        message: cat5(
            "Error: invalid value '",
            mode,
            "' for '--mode'\n\n  Valid values: sequential, parallel\n\n  sequential  ",
            first,
            "\n  parallel    Tasks can be executed by multiple agents simultaneously",
        ),
        code: 1,
    }
}

/// What a unit command asks; a mode that there is not is refused.
pub open spec fn unit_request(a: UnitAction) -> Result<RequestView, RefusalView> {
    match a {
        UnitAction::Create { title, plan, goal, idx, mode } => if is_mode(mode@) {
            Ok(
                posting(
                    "/units"@,
                    empty_object().with("plan_id"@, JsonView::Text(plan@)).with(
                        "title"@,
                        JsonView::Text(title@),
                    ).with("goal"@, text_or_null(opt_string(goal))).with(
                        "idx"@,
                        int_or_null(idx),
                    ).with("execution_mode"@, JsonView::Text(mode@)),
                ),
            )
        } else {
            Err(bad_mode(mode@, "Tasks execute one at a time (default)"@))
        },
        UnitAction::View { id } => Ok(getting("/units/"@ + id@)),
        UnitAction::List { plan } => Ok(
            getting("/units"@ + with_param(Seq::empty(), "plan_id"@, opt_string(plan))),
        ),
        UnitAction::Update { id, title, goal, mode } => if mode is Some && !is_mode(mode->0@) {
            Err(bad_mode(mode->0@, "Tasks execute one at a time"@))
        } else {
            Ok(
                patching(
                    "/units/"@ + id@,
                    empty_object().with_text("title"@, opt_string(title)).with_text(
                        "goal"@,
                        opt_string(goal),
                    ).with_text("execution_mode"@, opt_string(mode)),
                ),
            )
        },
        UnitAction::Delete { id } => Ok(deleting("/units/"@ + id@)),
    }
}

/// What a request or its refusal is.
pub open spec fn outcome(r: Result<Request, Refusal>) -> Result<RequestView, RefusalView> {
    match r {
        Ok(q) => Ok(q@),
        Err(e) => Err(e@),
    }
}

pub(crate) fn unit(a: &UnitAction) -> (r: Result<Request, Refusal>)
    ensures
        outcome(r) == unit_request(*a),
{
    match a {
        UnitAction::Create { title, plan, goal, idx, mode } => {
            if !(same(mode.as_str(), "sequential") || same(mode.as_str(), "parallel")) {
                return Err(refuse_mode(mode.as_str(), "Tasks execute one at a time (default)"));
            }
            let body = object().with("plan_id", text(plan.as_str())).with(
                "title",
                text(title.as_str()),
            ).with("goal", or_null(opt_ref(goal))).with("idx", int_json(idx)).with(
                "execution_mode",
                text(mode.as_str()),
            );
            Ok(post("/units".to_owned(), body))
        },
        UnitAction::View { id } => Ok(get(cat2("/units/", id.as_str()))),
        UnitAction::List { plan } => {
            let q = add_param(String::new(), "plan_id", opt_ref(plan));
            Ok(get(cat2("/units", q.as_str())))
        },
        UnitAction::Update { id, title, goal, mode } => {
            if let Some(m) = mode {
                if !(same(m.as_str(), "sequential") || same(m.as_str(), "parallel")) {
                    return Err(refuse_mode(m.as_str(), "Tasks execute one at a time"));
                }
            }
            let body = object().with_text("title", opt_ref(title)).with_text(
                "goal",
                opt_ref(goal),
            ).with_text("execution_mode", opt_ref(mode));
            Ok(patch(cat2("/units/", id.as_str()), body))
        },
        UnitAction::Delete { id } => Ok(delete(cat2("/units/", id.as_str()))),
    }
}

/// What a cycle command asks.
pub open spec fn cycle_request(a: CycleAction) -> RequestView {
    match a {
        CycleAction::Create { title, project, unit, goal, idx } => posting(
            "/cycles"@,
            empty_object().with("project_id"@, JsonView::Text(project@)).with(
                "title"@,
                JsonView::Text(title@),
            ).with("unit_id"@, JsonView::Text(unit@)).with(
                "goal"@,
                text_or_null(opt_string(goal)),
            ).with("idx"@, int_or_null(idx)),
        ),
        CycleAction::View { id } => getting("/cycles/"@ + id@),
        CycleAction::List { project, status } => getting(
            "/cycles"@ + with_param(
                with_param(Seq::empty(), "project_id"@, opt_string(project)),
                "status"@,
                opt_string(status),
            ),
        ),
        CycleAction::Update { id, title, goal, status } => patching(
            "/cycles/"@ + id@,
            empty_object().with_text("title"@, opt_string(title)).with_text(
                "goal"@,
                opt_string(goal),
            ).with_text("status"@, opt_string(status)),
        ),
        CycleAction::Delete { id } => deleting("/cycles/"@ + id@),
        CycleAction::Activate { id } => posting_nothing("/cycles/"@ + id@ + "/activate"@),
        CycleAction::Complete { id } => patching(
            "/cycles/"@ + id@,
            empty_object().with("status"@, JsonView::Text("completed"@)),
        ),
    }
}

pub(crate) fn cycle(a: &CycleAction) -> (r: Request)
    ensures
        r@ == cycle_request(*a),
{
    match a {
        CycleAction::Create { title, project, unit, goal, idx } => {
            let body = object().with("project_id", text(project.as_str())).with(
                "title",
                text(title.as_str()),
            ).with("unit_id", text(unit.as_str())).with("goal", or_null(opt_ref(goal))).with(
                "idx",
                int_json(idx),
            );
            post("/cycles".to_owned(), body)
        },
        CycleAction::View { id } => get(cat2("/cycles/", id.as_str())),
        CycleAction::List { project, status } => {
            let q = add_param(String::new(), "project_id", opt_ref(project));
            let q = add_param(q, "status", opt_ref(status));
            get(cat2("/cycles", q.as_str()))
        },
        CycleAction::Update { id, title, goal, status } => {
            let body = object().with_text("title", opt_ref(title)).with_text(
                "goal",
                opt_ref(goal),
            ).with_text("status", opt_ref(status));
            patch(cat2("/cycles/", id.as_str()), body)
        },
        CycleAction::Delete { id } => delete(cat2("/cycles/", id.as_str())),
        CycleAction::Activate { id } => post_nothing(cat3("/cycles/", id.as_str(), "/activate")),
        CycleAction::Complete { id } => patch(
            cat2("/cycles/", id.as_str()),
            object().with("status", text("completed")),
        ),
    }
}

} // verus!
