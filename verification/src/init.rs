//! The course of `init --tutorial`: what is asked, one request after the
//! other, and what is said.

use vstd::prelude::*;
use crate::client::{error_message, format_daemon_error, is_success, tell_status, with_status};
use crate::json::{empty_object, object, text, views, Json, JsonView};
use crate::request::{
    get, getting, patch, patching, post, post_nothing, posting, posting_nothing, Request,
    RequestView,
};
use crate::text::{cat2, cat3, cat4, cat5};

verus! {

/// How far the tutorial is: the request that is answered next.
pub enum InitStage {
    FindProject,
    CreateProject,
    ListPlans { project: String },
    CreatePlan { project: String },
    ApprovePlan { project: String, plan: String },
    CreateUnit { project: String, plan: String },
    CreateCycle { project: String, unit: String },
    ActivateCycle { unit: String, cycle: String },
    CreateTask { unit: String, cycle: String },
    StartTask { task: String },
    Finished,
}

/// What is asked at a stage.
pub open spec fn init_asks(s: InitStage, cwd: Seq<char>) -> Option<RequestView> {
    match s {
        InitStage::FindProject => Some(getting("/projects/by-cwd"@ + cwd)),
        InitStage::CreateProject => Some(
            posting(
                "/projects"@,
                empty_object().with("name"@, JsonView::Text("Hello Clawket"@)).with(
                    "description"@,
                    JsonView::Text("Tutorial project created by `clawket init --tutorial`."@),
                ).with("cwd"@, JsonView::Text(cwd)),
            ),
        ),
        InitStage::ListPlans { project } => Some(getting("/plans?project_id="@ + project@)),
        InitStage::CreatePlan { project } => Some(
            posting(
                "/plans"@,
                empty_object().with("project_id"@, JsonView::Text(project@)).with(
                    "title"@,
                    JsonView::Text("Hello Clawket"@),
                ).with(
                    "description"@,
                    JsonView::Text("First plan created by `clawket init --tutorial`."@),
                ),
            ),
        ),
        InitStage::ApprovePlan { plan, .. } => Some(
            posting_nothing("/plans/"@ + plan@ + "/approve"@),
        ),
        InitStage::CreateUnit { plan, .. } => Some(
            posting(
                "/units"@,
                empty_object().with("plan_id"@, JsonView::Text(plan@)).with(
                    "title"@,
                    JsonView::Text("Onboarding"@),
                ).with("goal"@, JsonView::Text("Walk the Clawket lifecycle once."@)),
            ),
        ),
        InitStage::CreateCycle { project, unit } => Some(
            posting(
                "/cycles"@,
                empty_object().with("project_id"@, JsonView::Text(project@)).with(
                    "unit_id"@,
                    JsonView::Text(unit@),
                ).with("title"@, JsonView::Text("Sprint 0"@)).with(
                    "goal"@,
                    JsonView::Text("Close the first task end-to-end."@),
                ),
            ),
        ),
        InitStage::ActivateCycle { cycle, .. } => Some(
            posting_nothing("/cycles/"@ + cycle@ + "/activate"@),
        ),
        InitStage::CreateTask { unit, cycle } => Some(
            posting(
                "/tasks"@,
                empty_object().with("unit_id"@, JsonView::Text(unit@)).with(
                    "cycle_id"@,
                    JsonView::Text(cycle@),
                ).with("title"@, JsonView::Text("Read the tutorial"@)).with(
                    "body"@,
                    JsonView::Text(
                        "Open https://clawket.dev/tutorial/ and walk the structured agent loop."@,
                    ),
                ).with("priority"@, JsonView::Text("high"@)).with(
                    "type"@,
                    JsonView::Text("docs"@),
                ).with("cwd"@, JsonView::Text(cwd)),
            ),
        ),
        InitStage::StartTask { task } => Some(
            patching(
                "/tasks/"@ + task@,
                empty_object().with("status"@, JsonView::Text("in_progress"@)),
            ),
        ),
        InitStage::Finished => None,
    }
}

/// What is asked at a stage; nothing at the end.
pub fn init_request(s: &InitStage, cwd: &str) -> (r: Option<Request>)
    ensures
        match r {
            Some(q) => init_asks(*s, cwd@) == Some(q@),
            None => init_asks(*s, cwd@) is None,
        },
{
    match s {
        InitStage::FindProject => Some(get(cat2("/projects/by-cwd", cwd))),
        InitStage::CreateProject => Some(
            post(
                "/projects".to_owned(),
                object().with("name", text("Hello Clawket")).with(
                    "description",
                    text("Tutorial project created by `clawket init --tutorial`."),
                ).with("cwd", text(cwd)),
            ),
        ),
        InitStage::ListPlans { project } => Some(get(cat2("/plans?project_id=", project.as_str()))),
        InitStage::CreatePlan { project } => Some(
            post(
                "/plans".to_owned(),
                object().with("project_id", text(project.as_str())).with(
                    "title",
                    text("Hello Clawket"),
                ).with("description", text("First plan created by `clawket init --tutorial`.")),
            ),
        ),
        InitStage::ApprovePlan { plan, .. } => Some(
            post_nothing(cat3("/plans/", plan.as_str(), "/approve")),
        ),
        InitStage::CreateUnit { plan, .. } => Some(
            post(
                "/units".to_owned(),
                object().with("plan_id", text(plan.as_str())).with(
                    "title",
                    text("Onboarding"),
                ).with("goal", text("Walk the Clawket lifecycle once.")),
            ),
        ),
        InitStage::CreateCycle { project, unit } => Some(
            post(
                "/cycles".to_owned(),
                object().with("project_id", text(project.as_str())).with(
                    "unit_id",
                    text(unit.as_str()),
                ).with("title", text("Sprint 0")).with(
                    "goal",
                    text("Close the first task end-to-end."),
                ),
            ),
        ),
        InitStage::ActivateCycle { cycle, .. } => Some(
            post_nothing(cat3("/cycles/", cycle.as_str(), "/activate")),
        ),
        InitStage::CreateTask { unit, cycle } => Some(
            post(
                "/tasks".to_owned(),
                object().with("unit_id", text(unit.as_str())).with(
                    "cycle_id",
                    text(cycle.as_str()),
                ).with("title", text("Read the tutorial")).with(
                    "body",
                    text("Open https://clawket.dev/tutorial/ and walk the structured agent loop."),
                ).with("priority", text("high")).with("type", text("docs")).with("cwd", text(cwd)),
            ),
        ),
        InitStage::StartTask { task } => Some(
            patch(
                cat2("/tasks/", task.as_str()),
                object().with("status", text("in_progress")),
            ),
        ),
        InitStage::Finished => None,
    }
}

/// What follows an answer: the next stage and what is said, or the error that
/// ends the tutorial.
pub enum InitStep {
    Next { stage: InitStage, said: String },
    Fail(String),
}

/// The stages, without what they are stored in.
pub enum InitStageView {
    FindProject,
    CreateProject,
    ListPlans { project: Seq<char> },
    CreatePlan { project: Seq<char> },
    ApprovePlan { project: Seq<char>, plan: Seq<char> },
    CreateUnit { project: Seq<char>, plan: Seq<char> },
    CreateCycle { project: Seq<char>, unit: Seq<char> },
    ActivateCycle { unit: Seq<char>, cycle: Seq<char> },
    CreateTask { unit: Seq<char>, cycle: Seq<char> },
    StartTask { task: Seq<char> },
    Finished,
}

impl View for InitStage {
    type V = InitStageView;

    open spec fn view(&self) -> InitStageView {
        match self {
            InitStage::FindProject => InitStageView::FindProject,
            InitStage::CreateProject => InitStageView::CreateProject,
            InitStage::ListPlans { project } => InitStageView::ListPlans { project: project@ },
            InitStage::CreatePlan { project } => InitStageView::CreatePlan { project: project@ },
            InitStage::ApprovePlan { project, plan } => InitStageView::ApprovePlan {
                project: project@,
                plan: plan@,
            },
            InitStage::CreateUnit { project, plan } => InitStageView::CreateUnit {
                project: project@,
                plan: plan@,
            },
            InitStage::CreateCycle { project, unit } => InitStageView::CreateCycle {
                project: project@,
                unit: unit@,
            },
            InitStage::ActivateCycle { unit, cycle } => InitStageView::ActivateCycle {
                unit: unit@,
                cycle: cycle@,
            },
            InitStage::CreateTask { unit, cycle } => InitStageView::CreateTask {
                unit: unit@,
                cycle: cycle@,
            },
            InitStage::StartTask { task } => InitStageView::StartTask { task: task@ },
            InitStage::Finished => InitStageView::Finished,
        }
    }
}

/// What a step is.
pub enum InitStepView {
    Next { stage: InitStageView, said: Seq<char> },
    Fail(Seq<char>),
}

impl View for InitStep {
    type V = InitStepView;

    open spec fn view(&self) -> InitStepView {
        match self {
            InitStep::Next { stage, said } => InitStepView::Next { stage: stage@, said: said@ },
            InitStep::Fail(e) => InitStepView::Fail(e@),
        }
    }
}

/// What follows when the project is known.
pub open spec fn with_project(val: JsonView) -> InitStepView {
    match val.str_at("id"@) {
        Some(id) => InitStepView::Next {
            stage: InitStageView::ListPlans { project: id },
            said: "[1/6] project    "@ + id + "  ("@ + val.str_or("name"@, "Hello Clawket"@) + ")\n"@,
        },
        None => InitStepView::Fail("daemon response missing project id"@),
    }
}

/// The line for a plan that is there already.
pub open spec fn plan_line(p: JsonView) -> Seq<char> {
    "  "@ + p.str_or("id"@, ""@) + "  ["@ + p.str_or("status"@, ""@) + "]  "@ + p.str_or(
        "title"@,
        ""@,
    ) + "\n"@
}

/// The lines for the first `n` plans that are there already.
pub open spec fn plan_lines(a: Seq<JsonView>, n: nat) -> Seq<char>
    decreases n,
{
    if n == 0 {
        Seq::empty()
    } else {
        plan_lines(a, (n - 1) as nat) + plan_line(a[n - 1])
    }
}

/// What is said where there are plans already.
pub open spec fn scaffold_there(plans: Seq<JsonView>, cwd: Seq<char>) -> Seq<char> {
    "\nTutorial already scaffolded for this cwd. Skipping create.\n\nExisting plans:\n"@
        + plan_lines(plans, plans.len()) + "\nSee state:\n  clawket dashboard --cwd "@ + cwd + "\n"@
}

/// What is said at the end.
pub open spec fn all_done(task: Seq<char>, cwd: Seq<char>) -> Seq<char> {
    "[6/6] started    "@ + task
        + " → in_progress\n\nDone. Tutorial scaffold ready.\n\nNext:\n  clawket dashboard --cwd "@
        + cwd + "\n  clawket task update "@ + task
        + " --status done   # close it\n  open https://clawket.dev/tutorial/             # full walkthrough\n"@
}

/// What follows the answer at a stage. `shown` is the status with its reason.
/// A project that there is not is made; a
/// project that has plans ends the tutorial without making anything; every
/// other failure ends it with an error.
pub open spec fn init_follows(
    s: InitStage,
    status: u16,
    shown: Seq<char>,
    val: JsonView,
    cwd: Seq<char>,
) -> InitStepView {
    match s {
        InitStage::FindProject => if is_success(status) {
            with_project(val)
        } else if status == 404 {
            InitStepView::Next { stage: InitStageView::CreateProject, said: Seq::empty() }
        } else {
            InitStepView::Fail(
                with_status(
                    status,
                    "project resolve failed (status "@ + shown + "): "@ + val.str_or(
                        "error"@,
                        "?"@,
                    ),
                ),
            )
        },
        InitStage::Finished => InitStepView::Next {
            stage: InitStageView::Finished,
            said: Seq::empty(),
        },
        other => if !is_success(status) {
            InitStepView::Fail(with_status(status, error_message(val)))
        } else {
            init_goes_on(other, val, cwd)
        },
    }
}

/// What follows an answer that came with success.
pub open spec fn init_goes_on(s: InitStage, val: JsonView, cwd: Seq<char>) -> InitStepView {
    match s {
        InitStage::CreateProject => with_project(val),
        InitStage::ListPlans { project } => if val.items().len() > 0 {
            InitStepView::Next {
                stage: InitStageView::Finished,
                said: scaffold_there(val.items(), cwd),
            }
        } else {
            InitStepView::Next {
                stage: InitStageView::CreatePlan { project: project@ },
                said: Seq::empty(),
            }
        },
        InitStage::CreatePlan { project } => match val.str_at("id"@) {
            Some(id) => InitStepView::Next {
                stage: InitStageView::ApprovePlan { project: project@, plan: id },
                said: Seq::empty(),
            },
            None => InitStepView::Fail("daemon response missing plan id"@),
        },
        InitStage::ApprovePlan { project, plan } => InitStepView::Next {
            stage: InitStageView::CreateUnit { project: project@, plan: plan@ },
            said: "[2/6] plan       "@ + plan@ + "  (approved)\n"@,
        },
        InitStage::CreateUnit { project, plan } => match val.str_at("id"@) {
            Some(id) => InitStepView::Next {
                stage: InitStageView::CreateCycle { project: project@, unit: id },
                said: "[3/6] unit       "@ + id + "\n"@,
            },
            None => InitStepView::Fail("daemon response missing unit id"@),
        },
        InitStage::CreateCycle { project, unit } => match val.str_at("id"@) {
            Some(id) => InitStepView::Next {
                stage: InitStageView::ActivateCycle { unit: unit@, cycle: id },
                said: Seq::empty(),
            },
            None => InitStepView::Fail("daemon response missing cycle id"@),
        },
        InitStage::ActivateCycle { unit, cycle } => InitStepView::Next {
            stage: InitStageView::CreateTask { unit: unit@, cycle: cycle@ },
            said: "[4/6] cycle      "@ + cycle@ + "  (active)\n"@,
        },
        InitStage::CreateTask { unit, cycle } => match val.str_at("id"@) {
            Some(id) => InitStepView::Next {
                stage: InitStageView::StartTask { task: id },
                said: "[5/6] task       "@ + id + "  ("@ + val.str_or("ticket_number"@, ""@)
                    + ")\n"@,
            },
            None => InitStepView::Fail("daemon response missing task id"@),
        },
        InitStage::StartTask { task } => InitStepView::Next {
            stage: InitStageView::Finished,
            said: all_done(task@, cwd),
        },
        _ => InitStepView::Next { stage: InitStageView::Finished, said: Seq::empty() },
    }
}

fn project_known(val: &Json) -> (r: InitStep)
    ensures
        r@ == with_project(val@),
{
    match val.str_at("id") {
        Some(id) => InitStep::Next {
            stage: InitStage::ListPlans { project: id.to_owned() },
            said: cat5(
                "[1/6] project    ",
                id,
                "  (",
                val.str_or("name", "Hello Clawket"),
                ")\n",
            ),
        },
        None => InitStep::Fail("daemon response missing project id".to_owned()),
    }
}

fn plans_there(arr: &Vec<Json>, cwd: &str) -> (r: String)
    ensures
        r@ == scaffold_there(views(arr@), cwd@),
{
    let mut lines = String::new();
    let mut i: usize = 0;
    while i < arr.len()
        invariant
            i <= arr@.len(),
            lines@ == plan_lines(views(arr@), i as nat),
        decreases arr@.len() - i,
    {
        let p = &arr[i];
        assert(views(arr@)[i as int] == p@);
        let mut line = cat5(
            "  ",
            p.str_or("id", ""),
            "  [",
            p.str_or("status", ""),
            "]  ",
        );
        line.append(p.str_or("title", ""));
        line.append("\n");
        lines.append(line.as_str());
        i = i + 1;
    }
    assert(views(arr@).len() == arr@.len());
    cat5(
        "\nTutorial already scaffolded for this cwd. Skipping create.\n\nExisting plans:\n",
        lines.as_str(),
        "\nSee state:\n  clawket dashboard --cwd ",
        cwd,
        "\n",
    )
}

fn goes_on(s: &InitStage, val: &Json, cwd: &str) -> (r: InitStep)
    ensures
        r@ == init_goes_on(*s, val@, cwd@),
{
    match s {
        InitStage::CreateProject => project_known(val),
        InitStage::ListPlans { project } => {
            if let Some(arr) = val.as_array() {
                assert(views(arr@).len() == arr@.len());
                if arr.len() > 0 {
                    return InitStep::Next {
                        stage: InitStage::Finished,
                        said: plans_there(arr, cwd),
                    };
                }
            }
            InitStep::Next {
                stage: InitStage::CreatePlan { project: project.clone() },
                said: String::new(),
            }
        },
        InitStage::CreatePlan { project } => match val.str_at("id") {
            Some(id) => InitStep::Next {
                stage: InitStage::ApprovePlan { project: project.clone(), plan: id.to_owned() },
                said: String::new(),
            },
            None => InitStep::Fail("daemon response missing plan id".to_owned()),
        },
        InitStage::ApprovePlan { project, plan } => InitStep::Next {
            stage: InitStage::CreateUnit { project: project.clone(), plan: plan.clone() },
            said: cat3("[2/6] plan       ", plan.as_str(), "  (approved)\n"),
        },
        InitStage::CreateUnit { project, plan } => match val.str_at("id") {
            Some(id) => InitStep::Next {
                stage: InitStage::CreateCycle { project: project.clone(), unit: id.to_owned() },
                said: cat3("[3/6] unit       ", id, "\n"),
            },
            None => InitStep::Fail("daemon response missing unit id".to_owned()),
        },
        InitStage::CreateCycle { project, unit } => match val.str_at("id") {
            Some(id) => InitStep::Next {
                stage: InitStage::ActivateCycle { unit: unit.clone(), cycle: id.to_owned() },
                said: String::new(),
            },
            None => InitStep::Fail("daemon response missing cycle id".to_owned()),
        },
        InitStage::ActivateCycle { unit, cycle } => InitStep::Next {
            stage: InitStage::CreateTask { unit: unit.clone(), cycle: cycle.clone() },
            said: cat3("[4/6] cycle      ", cycle.as_str(), "  (active)\n"),
        },
        InitStage::CreateTask { unit, cycle } => match val.str_at("id") {
            Some(id) => InitStep::Next {
                stage: InitStage::StartTask { task: id.to_owned() },
                said: cat5(
                    "[5/6] task       ",
                    id,
                    "  (",
                    val.str_or("ticket_number", ""),
                    ")\n",
                ),
            },
            None => InitStep::Fail("daemon response missing task id".to_owned()),
        },
        InitStage::StartTask { task } => {
            let mut said = cat5(
                "[6/6] started    ",
                task.as_str(),
                " → in_progress\n\nDone. Tutorial scaffold ready.\n\nNext:\n  clawket dashboard --cwd ",
                cwd,
                "\n  clawket task update ",
            );
            said.append(task.as_str());
            said.append(
                " --status done   # close it\n  open https://clawket.dev/tutorial/             # full walkthrough\n",
            );
            InitStep::Next { stage: InitStage::Finished, said }
        },
        _ => InitStep::Next { stage: InitStage::Finished, said: String::new() },
    }
}

/// What follows the answer at a stage. `shown` is the status with its reason.
pub fn init_step(s: &InitStage, status: u16, shown: &str, val: &Json, cwd: &str) -> (r: InitStep)
    ensures
        r@ == init_follows(*s, status, shown@, val@, cwd@),
{
    let done = 200 <= status && status < 300;
    match s {
        InitStage::FindProject => if done {
            project_known(val)
        } else if status == 404 {
            InitStep::Next { stage: InitStage::CreateProject, said: String::new() }
        } else {
            let m = cat4(
                "project resolve failed (status ",
                shown,
                "): ",
                val.str_or("error", "?"),
            );
            InitStep::Fail(tell_status(status, m.as_str()))
        },
        InitStage::Finished => InitStep::Next {
            stage: InitStage::Finished,
            said: String::new(),
        },
        other => if !done {
            let m = format_daemon_error(val);
            InitStep::Fail(tell_status(status, m.as_str()))
        } else {
            goes_on(other, val, cwd)
        },
    }
}

/// Doing it again makes nothing: where the project has plans, the tutorial
/// ends, and no request that makes anything follows.
pub proof fn tutorial_is_made_once(
    s: InitStage,
    status: u16,
    shown: Seq<char>,
    val: JsonView,
    cwd: Seq<char>,
)
    requires
        s is ListPlans,
        is_success(status),
        val.items().len() > 0,
    ensures
        init_follows(s, status, shown, val, cwd) matches InitStepView::Next { stage, said }
            && stage == InitStageView::Finished,
        init_asks(InitStage::Finished, cwd) is None,
{
}

/// How far a stage is on the way.
spec fn progress(s: InitStageView) -> int {
    match s {
        InitStageView::FindProject => 0,
        InitStageView::CreateProject => 1,
        InitStageView::ListPlans { .. } => 2,
        InitStageView::CreatePlan { .. } => 3,
        InitStageView::ApprovePlan { .. } => 4,
        InitStageView::CreateUnit { .. } => 5,
        InitStageView::CreateCycle { .. } => 6,
        InitStageView::ActivateCycle { .. } => 7,
        InitStageView::CreateTask { .. } => 8,
        InitStageView::StartTask { .. } => 9,
        InitStageView::Finished => 10,
    }
}

/// How many requests can follow at most.
pub closed spec fn remaining(s: InitStageView) -> int {
    10 - progress(s)
}

/// The tutorial comes to an end: every answer leaves fewer requests to make.
pub proof fn tutorial_ends(
    s: InitStage,
    status: u16,
    shown: Seq<char>,
    val: JsonView,
    cwd: Seq<char>,
)
    requires
        !(s is Finished),
    ensures
        init_follows(s, status, shown, val, cwd) matches InitStepView::Next { stage, said } ==> 0
            <= remaining(stage) < remaining(s@),
        remaining(s@) <= 10,
{
}

/// The request without `--tutorial`.
pub fn tutorial_only() -> (r: String)
    ensures
        r@
            == "clawket init currently only supports --tutorial. Pass --tutorial to scaffold a 5-min onboarding project."@,
{
    "clawket init currently only supports --tutorial. Pass --tutorial to scaffold a 5-min onboarding project.".to_owned()
}

/// What is said before the daemon is asked.
pub fn tutorial_opening(cwd: &str) -> (r: String)
    ensures
        r@ == "clawket init --tutorial\n  cwd: "@ + cwd@ + "\n\n"@,
{
    cat3("clawket init --tutorial\n  cwd: ", cwd, "\n\n")
}

} // verus!
