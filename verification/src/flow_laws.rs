//! What the longer commands say and ask, read from their requests and answers.

use vstd::prelude::*;
use crate::agent::Agent;
use crate::codex::{
    doctor_json, finish_asked, hooks_enabled, is_plugin_enabled, is_registered, open_runs_upto, run_asked, session_capabilities,
    session_described, session_state, state_json, stopped, InstallFacts, ProjectFiles,
};
use crate::command::{Command, ProjectAction, TaskAction};
use crate::init::{init_asks, init_goes_on, InitStage, InitStageView, InitStepView};
use crate::json::{
    empty_has_no_member, get_after_with, with_stays_object, Json, JsonView,
};
use crate::output::format_named;
use crate::reply::{dashboard, reply, resolved, shown, shows, EndView, Show};
use crate::request::{Method};
use crate::request_laws::{bare, says};
use crate::runtime::{plugin_json, runtime_entry, supports, PluginFacts};
use crate::scan::opt_string;
use crate::verify::{verify_asks, VerifyStage};

verus! {

proof fn tutorials_make_their_project_keys()
    ensures
        "name"@ != "description"@,
        "name"@ != "cwd"@,
        "description"@ != "cwd"@,
{
    reveal_strlit("name");
    reveal_strlit("description");
    reveal_strlit("cwd");
    assert("name"@.len() == 4);
    assert("description"@.len() == 11);
    assert("cwd"@.len() == 3);
}

/// The tutorial makes its project for the directory.
pub proof fn tutorials_make_their_project(cwd: Seq<char>)
    ensures
        init_asks(InitStage::CreateProject, cwd) matches Some(r) && {
            &&& r.method == Method::Post
            &&& r.path == "/projects"@
            &&& says(r, "name"@, "Hello Clawket"@)
            &&& says(r, "cwd"@, cwd)
        },
{
    broadcast use get_after_with, with_stays_object, empty_has_no_member;

    tutorials_make_their_project_keys();
}

proof fn tutorial_plans_are_of_the_project_keys()
    ensures
        "project_id"@ != "title"@,
        "project_id"@ != "description"@,
        "title"@ != "description"@,
{
    reveal_strlit("project_id");
    reveal_strlit("title");
    reveal_strlit("description");
    assert("project_id"@.len() == 10);
    assert("title"@.len() == 5);
    assert("description"@.len() == 11);
}

/// The plan of the tutorial belongs to its project.
pub proof fn tutorial_plans_are_of_the_project(project: String, cwd: Seq<char>)
    ensures
        init_asks(InitStage::CreatePlan { project }, cwd) matches Some(r) && {
            &&& r.method == Method::Post
            &&& r.path == "/plans"@
            &&& says(r, "project_id"@, project@)
            &&& says(r, "title"@, "Hello Clawket"@)
        },
{
    broadcast use get_after_with, with_stays_object, empty_has_no_member;

    tutorial_plans_are_of_the_project_keys();
}

proof fn tutorial_units_are_of_the_plan_keys()
    ensures
        "plan_id"@ != "title"@,
        "plan_id"@ != "goal"@,
        "title"@ != "goal"@,
{
    reveal_strlit("plan_id");
    reveal_strlit("title");
    reveal_strlit("goal");
    assert("plan_id"@.len() == 7);
    assert("title"@.len() == 5);
    assert("goal"@.len() == 4);
}

/// The unit of the tutorial belongs to its plan.
pub proof fn tutorial_units_are_of_the_plan(project: String, plan: String, cwd: Seq<char>)
    ensures
        init_asks(InitStage::CreateUnit { project, plan }, cwd) matches Some(r) && {
            &&& r.method == Method::Post
            &&& r.path == "/units"@
            &&& says(r, "plan_id"@, plan@)
            &&& says(r, "title"@, "Onboarding"@)
        },
{
    broadcast use get_after_with, with_stays_object, empty_has_no_member;

    tutorial_units_are_of_the_plan_keys();
}

proof fn tutorial_cycles_are_of_the_unit_keys()
    ensures
        "project_id"@ != "unit_id"@,
        "project_id"@ != "title"@,
        "project_id"@ != "goal"@,
        "unit_id"@ != "title"@,
        "unit_id"@ != "goal"@,
        "title"@ != "goal"@,
{
    reveal_strlit("project_id");
    reveal_strlit("unit_id");
    reveal_strlit("title");
    reveal_strlit("goal");
    assert("project_id"@.len() == 10);
    assert("unit_id"@.len() == 7);
    assert("title"@.len() == 5);
    assert("goal"@.len() == 4);
}

/// The cycle of the tutorial belongs to its project and its unit.
pub proof fn tutorial_cycles_are_of_the_unit(project: String, unit: String, cwd: Seq<char>)
    ensures
        init_asks(InitStage::CreateCycle { project, unit }, cwd) matches Some(r) && {
            &&& r.method == Method::Post
            &&& r.path == "/cycles"@
            &&& says(r, "project_id"@, project@)
            &&& says(r, "unit_id"@, unit@)
            &&& says(r, "title"@, "Sprint 0"@)
        },
{
    broadcast use get_after_with, with_stays_object, empty_has_no_member;

    tutorial_cycles_are_of_the_unit_keys();
}

proof fn tutorial_tasks_are_of_the_cycle_keys()
    ensures
        "unit_id"@ != "cycle_id"@,
        "unit_id"@ != "title"@,
        "unit_id"@ != "body"@,
        "unit_id"@ != "priority"@,
        "unit_id"@ != "type"@,
        "unit_id"@ != "cwd"@,
        "cycle_id"@ != "title"@,
        "cycle_id"@ != "body"@,
        "cycle_id"@ != "priority"@,
        "cycle_id"@ != "type"@,
        "cycle_id"@ != "cwd"@,
        "title"@ != "body"@,
        "title"@ != "priority"@,
        "title"@ != "type"@,
        "title"@ != "cwd"@,
        "body"@ != "priority"@,
        "body"@ != "type"@,
        "body"@ != "cwd"@,
        "priority"@ != "type"@,
        "priority"@ != "cwd"@,
        "type"@ != "cwd"@,
{
    reveal_strlit("unit_id");
    reveal_strlit("cycle_id");
    reveal_strlit("title");
    reveal_strlit("body");
    reveal_strlit("priority");
    reveal_strlit("type");
    reveal_strlit("cwd");
    assert("unit_id"@.len() == 7);
    assert("cycle_id"@.len() == 8);
    assert("title"@.len() == 5);
    assert("body"@.len() == 4);
    assert("priority"@.len() == 8);
    assert("type"@.len() == 4);
    assert("cwd"@.len() == 3);
    assert("cycle_id"@[0] != "priority"@[0]);
    assert("body"@[0] != "type"@[0]);
}

/// The task of the tutorial belongs to its unit and its cycle, and to the directory.
pub proof fn tutorial_tasks_are_of_the_cycle(unit: String, cycle: String, cwd: Seq<char>)
    ensures
        init_asks(InitStage::CreateTask { unit, cycle }, cwd) matches Some(r) && {
            &&& r.method == Method::Post
            &&& r.path == "/tasks"@
            &&& says(r, "unit_id"@, unit@)
            &&& says(r, "cycle_id"@, cycle@)
            &&& says(r, "title"@, "Read the tutorial"@)
            &&& says(r, "priority"@, "high"@)
            &&& says(r, "type"@, "docs"@)
            &&& says(r, "cwd"@, cwd)
        },
{
    broadcast use get_after_with, with_stays_object, empty_has_no_member;

    tutorial_tasks_are_of_the_cycle_keys();
}

/// The task of the tutorial is started.
pub proof fn tutorial_tasks_are_started(task: String, cwd: Seq<char>)
    ensures
        init_asks(InitStage::StartTask { task }, cwd) matches Some(r) && {
            &&& r.method == Method::Patch
            &&& r.path == "/tasks/"@ + task@
            &&& says(r, "status"@, "in_progress"@)
        },
{
    broadcast use get_after_with, with_stays_object, empty_has_no_member;

}

/// The other requests of the tutorial name what they are about.
pub proof fn tutorial_requests_name_their_thing(
    project: String,
    plan: String,
    unit: String,
    cycle: String,
    cwd: Seq<char>,
)
    ensures
        init_asks(InitStage::FindProject, cwd) matches Some(r) && bare(
            r,
            Method::Get,
            "/projects/by-cwd"@ + cwd,
        ),
        init_asks(InitStage::ListPlans { project }, cwd) matches Some(r) && bare(
            r,
            Method::Get,
            "/plans?project_id="@ + project@,
        ),
        init_asks(InitStage::ApprovePlan { project, plan }, cwd) matches Some(r) && bare(
            r,
            Method::Post,
            "/plans/"@ + plan@ + "/approve"@,
        ),
        init_asks(InitStage::ActivateCycle { unit, cycle }, cwd) matches Some(r) && bare(
            r,
            Method::Post,
            "/cycles/"@ + cycle@ + "/activate"@,
        ),
{
}

/// Each thing that the tutorial makes is what its next request is about: the
/// plan is approved, the unit is in that plan, the cycle in that unit is
/// activated, and the task in that cycle is started.
pub proof fn tutorials_go_on_with_what_they_made(
    s: InitStage,
    val: JsonView,
    id: Seq<char>,
    cwd: Seq<char>,
    next: InitStage,
)
    requires
        val.str_at("id"@) == Some(id),
        init_goes_on(s, val, cwd) matches InitStepView::Next { stage, .. } && next@ == stage,
        !(s is ListPlans),
        !(s is StartTask),
    ensures
        s is CreateProject ==> next is ListPlans && next->ListPlans_project@ == id,
        s matches InitStage::CreatePlan { project } ==> (next matches InitStage::ApprovePlan {
            project: p,
            plan,
        } && p@ == project@ && plan@ == id),
        s matches InitStage::ApprovePlan { project, plan } ==> (next matches InitStage::CreateUnit {
            project: p,
            plan: q,
        } && p@ == project@ && q@ == plan@),
        s matches InitStage::CreateUnit { project, .. } ==> (next matches InitStage::CreateCycle {
            project: p,
            unit,
        } && p@ == project@ && unit@ == id),
        s matches InitStage::CreateCycle { unit, .. } ==> (next matches InitStage::ActivateCycle {
            unit: u,
            cycle,
        } && u@ == unit@ && cycle@ == id),
        s matches InitStage::ActivateCycle { unit, cycle } ==> (next matches InitStage::CreateTask {
            unit: u,
            cycle: c,
        } && u@ == unit@ && c@ == cycle@),
        s is CreateTask ==> next is StartTask && next->task@ == id,
{
}

/// A project that has plans gets no others; one that has none gets its plan.
pub proof fn tutorials_spare_what_is_there(project: String, val: JsonView, cwd: Seq<char>)
    ensures
        init_goes_on(InitStage::ListPlans { project }, val, cwd) matches InitStepView::Next {
            stage,
            ..
        } && if val.items().len() > 0 {
            stage is Finished
        } else {
            stage == (InitStageView::CreatePlan { project: project@ })
        },
        init_goes_on(InitStage::StartTask { task: project }, val, cwd) matches InitStepView::Next {
            stage,
            ..
        } && stage is Finished,
{
}

proof fn checks_make_and_delete_one_project_keys()
    ensures
        "name"@ != "cwd"@,
{
    reveal_strlit("name");
    reveal_strlit("cwd");
    assert("name"@.len() == 4);
    assert("cwd"@.len() == 3);
}

/// The check makes a project under its name in its directory, and deletes the one
/// that it made.
pub proof fn checks_make_and_delete_one_project(id: String, name: Seq<char>, cwd: Seq<char>)
    ensures
        verify_asks(VerifyStage::Health, name, cwd) matches Some(r) && bare(
            r,
            Method::Get,
            "/health"@,
        ),
        verify_asks(VerifyStage::Create, name, cwd) matches Some(r) && {
            &&& r.method == Method::Post
            &&& r.path == "/projects"@
            &&& says(r, "name"@, name)
            &&& says(r, "cwd"@, cwd)
        },
        verify_asks(VerifyStage::Delete { id }, name, cwd) matches Some(r) && bare(
            r,
            Method::Delete,
            "/projects/"@ + id@,
        ),
{
    broadcast use get_after_with, with_stays_object, empty_has_no_member;

    checks_make_and_delete_one_project_keys();
}

/// A check that failed, and a discovery that has not converged, end the program
/// with 1; where they hold it ends well.
pub proof fn checks_end_the_program(
    c: Command,
    s: Show,
    j: JsonView,
    quiet: bool,
    format: Seq<char>,
)
    requires
        shows(c, s),
        quiet || format_named(format) is Some,
    ensures
        (c matches Command::DiscoverLoop { action } && action is VerifyTsv) ==> reply(
            s,
            j,
            quiet,
            format,
        ).end == (if j.bool_at("valid"@) == Some(true) {
            EndView::Done
        } else {
            EndView::Exit(1)
        }),
        (c matches Command::DiscoverLoop { action } && action is Converged) ==> reply(
            s,
            j,
            quiet,
            format,
        ).end == (if j.bool_at("converged"@) == Some(true) {
            EndView::Done
        } else {
            EndView::Exit(1)
        }),
        !(c is DiscoverLoop) && !(c is Task) ==> reply(s, j, quiet, format).end is Done,
{
}

/// A quiet command prints identifiers alone: that of the value, one in a line.
pub proof fn quiet_commands_print_identifiers(j: JsonView, id: Seq<char>, format: Seq<char>)
    requires
        j.str_at("id"@) == Some(id),
    ensures
        shown(j, true, format).stdout == id + "\n"@,
        shown(j, true, format).end is Done,
{
}

/// A form that there is not is refused with 2, and nothing is printed.
pub proof fn unknown_forms_are_refused(j: JsonView, format: Seq<char>)
    requires
        format != "json"@,
        format != "table"@,
        format != "yaml"@,
    ensures
        shown(j, false, format).end == EndView::Exit(2),
        shown(j, false, format).stdout.len() == 0,
        shown(j, false, format).stderr.len() > 0,
{
    reveal_strlit("\n");
}

/// Ancestors and descendants are printed in their own form, the directories of
/// a project from its answer, and everything else as it is answered.
pub proof fn answers_are_printed_as_asked(
    c: Command,
    s: Show,
    j: JsonView,
    quiet: bool,
    format: Seq<char>,
)
    requires
        shows(c, s),
    ensures
        c matches Command::Task { action: TaskAction::Ancestors { format: f, .. } } ==> reply(
            s,
            j,
            quiet,
            format,
        ) == shown(j, false, f@),
        c matches Command::Task { action: TaskAction::Descendants { format: f, .. } } ==> reply(
            s,
            j,
            quiet,
            format,
        ) == shown(j, false, f@),
        (c matches Command::Project { action: ProjectAction::CwdList { .. } } && j.get("cwds"@)
            is Some) ==> reply(s, j, quiet, format) == shown(j.get("cwds"@)->0, quiet, format),
        c is Plan || c is Unit || c is Cycle || c is Knowledge || c is Run || c is Comment
            || c is Question || c is Config || c is Timeline || c is Board || c is Wiki
            || c is Summary || c is Backup || c is Restore || c is Migrate || c is Update
            || c is VersionCheck || c is FindSimilar || c is GetTaskContext || c is Replay
            ==> reply(s, j, quiet, format) == shown(j, quiet, format),
        c matches Command::Task { action: TaskAction::View { id } } ==> (s matches Show::TaskWithDrift(
            t,
        ) && t@ == id@) && reply(s, j, quiet, format) == shown(j, quiet, format),
{
}

/// A directory without a project is no failure; any other refusal is one.
pub proof fn missing_projects_are_null(status: u16, j: JsonView, quiet: bool, format: Seq<char>)
    ensures
        status == 404 ==> resolved(status, j, quiet, format).stdout == "null\n"@ && resolved(
            status,
            j,
            quiet,
            format,
        ).end is Done,
        200 <= status < 300 ==> resolved(status, j, quiet, format) == shown(j, quiet, format),
        status != 404 && !(200 <= status < 300) ==> resolved(status, j, quiet, format).end is Fail
            && resolved(status, j, quiet, format).stdout.len() == 0,
{
}

/// The dashboard prints its context, and warns exactly where the daemon does.
pub proof fn dashboards_print_their_context(j: JsonView)
    ensures
        j.str_at("context"@) is Some ==> dashboard(j).stdout == j.str_at("context"@)->0,
        j.get("active_plan_warning"@) is Some <==> dashboard(j).stderr.len() > 0,
        dashboard(j).end is Done,
{
    reveal_strlit("[clawket dashboard] ");
}

proof fn runtimes_say_what_they_support_keys()
    ensures
        "session_start_context"@ != "per_turn_context"@,
        "session_start_context"@ != "hard_pre_mutation_block"@,
        "session_start_context"@ != "activity_stream_capture"@,
        "session_start_context"@ != "subagent_lifecycle_hook"@,
        "session_start_context"@ != "plan_mode_bridge"@,
        "session_start_context"@ != "session_stop_hook"@,
        "per_turn_context"@ != "hard_pre_mutation_block"@,
        "per_turn_context"@ != "activity_stream_capture"@,
        "per_turn_context"@ != "subagent_lifecycle_hook"@,
        "per_turn_context"@ != "plan_mode_bridge"@,
        "per_turn_context"@ != "session_stop_hook"@,
        "hard_pre_mutation_block"@ != "activity_stream_capture"@,
        "hard_pre_mutation_block"@ != "subagent_lifecycle_hook"@,
        "hard_pre_mutation_block"@ != "plan_mode_bridge"@,
        "hard_pre_mutation_block"@ != "session_stop_hook"@,
        "activity_stream_capture"@ != "subagent_lifecycle_hook"@,
        "activity_stream_capture"@ != "plan_mode_bridge"@,
        "activity_stream_capture"@ != "session_stop_hook"@,
        "subagent_lifecycle_hook"@ != "plan_mode_bridge"@,
        "subagent_lifecycle_hook"@ != "session_stop_hook"@,
        "plan_mode_bridge"@ != "session_stop_hook"@,
{
    reveal_strlit("session_start_context");
    reveal_strlit("per_turn_context");
    reveal_strlit("hard_pre_mutation_block");
    reveal_strlit("activity_stream_capture");
    reveal_strlit("subagent_lifecycle_hook");
    reveal_strlit("plan_mode_bridge");
    reveal_strlit("session_stop_hook");
    assert("session_start_context"@.len() == 21);
    assert("per_turn_context"@.len() == 16);
    assert("hard_pre_mutation_block"@.len() == 23);
    assert("activity_stream_capture"@.len() == 23);
    assert("subagent_lifecycle_hook"@.len() == 23);
    assert("plan_mode_bridge"@.len() == 16);
    assert("session_stop_hook"@.len() == 17);
    assert("per_turn_context"@[1] != "plan_mode_bridge"@[1]);
    assert("hard_pre_mutation_block"@[0] != "activity_stream_capture"@[0]);
    assert("hard_pre_mutation_block"@[0] != "subagent_lifecycle_hook"@[0]);
    assert("activity_stream_capture"@[0] != "subagent_lifecycle_hook"@[0]);
}

/// A runtime says which of its abilities it has.
pub proof fn runtimes_say_what_they_support(a: bool, b: bool, c: bool)
    ensures
        supports(a, b, c).get("session_start_context"@) == Some(JsonView::Bool(true)),
        supports(a, b, c).get("per_turn_context"@) == Some(JsonView::Bool(true)),
        supports(a, b, c).get("hard_pre_mutation_block"@) == Some(JsonView::Bool(true)),
        supports(a, b, c).get("activity_stream_capture"@) == Some(JsonView::Bool(a)),
        supports(a, b, c).get("subagent_lifecycle_hook"@) == Some(JsonView::Bool(b)),
        supports(a, b, c).get("plan_mode_bridge"@) == Some(JsonView::Bool(c)),
        supports(a, b, c).get("session_stop_hook"@) == Some(JsonView::Bool(true)),
{
    broadcast use get_after_with, with_stays_object, empty_has_no_member;

    runtimes_say_what_they_support_keys();
}

proof fn runtimes_are_listed_by_name_keys()
    ensures
        "name"@ != "kind"@,
        "name"@ != "supports"@,
        "kind"@ != "supports"@,
{
    reveal_strlit("name");
    reveal_strlit("kind");
    reveal_strlit("supports");
    assert("name"@.len() == 4);
    assert("kind"@.len() == 4);
    assert("supports"@.len() == 8);
    assert("name"@[0] != "kind"@[0]);
}

/// A runtime is listed with its name and its kind.
pub proof fn runtimes_are_listed_by_name(name: Seq<char>, kind: Seq<char>, s: JsonView)
    ensures
        runtime_entry(name, kind, s).get("name"@) == Some(JsonView::Text(name)),
        runtime_entry(name, kind, s).get("kind"@) == Some(JsonView::Text(kind)),
        runtime_entry(name, kind, s).get("supports"@) == Some(s),
{
    broadcast use get_after_with, with_stays_object, empty_has_no_member;

    runtimes_are_listed_by_name_keys();
}

proof fn plugin_health_tells_the_files_keys()
    ensures
        "runtime"@ != "ok"@,
        "runtime"@ != "plugin_root"@,
        "runtime"@ != "data_dir"@,
        "runtime"@ != "config_dir"@,
        "runtime"@ != "state_dir"@,
        "runtime"@ != "manifest_exists"@,
        "runtime"@ != "hooks_exists"@,
        "runtime"@ != "shared_adapter_exists"@,
        "ok"@ != "plugin_root"@,
        "ok"@ != "data_dir"@,
        "ok"@ != "config_dir"@,
        "ok"@ != "state_dir"@,
        "ok"@ != "manifest_exists"@,
        "ok"@ != "hooks_exists"@,
        "ok"@ != "shared_adapter_exists"@,
        "plugin_root"@ != "data_dir"@,
        "plugin_root"@ != "config_dir"@,
        "plugin_root"@ != "state_dir"@,
        "plugin_root"@ != "manifest_exists"@,
        "plugin_root"@ != "hooks_exists"@,
        "plugin_root"@ != "shared_adapter_exists"@,
        "data_dir"@ != "config_dir"@,
        "data_dir"@ != "state_dir"@,
        "data_dir"@ != "manifest_exists"@,
        "data_dir"@ != "hooks_exists"@,
        "data_dir"@ != "shared_adapter_exists"@,
        "config_dir"@ != "state_dir"@,
        "config_dir"@ != "manifest_exists"@,
        "config_dir"@ != "hooks_exists"@,
        "config_dir"@ != "shared_adapter_exists"@,
        "state_dir"@ != "manifest_exists"@,
        "state_dir"@ != "hooks_exists"@,
        "state_dir"@ != "shared_adapter_exists"@,
        "manifest_exists"@ != "hooks_exists"@,
        "manifest_exists"@ != "shared_adapter_exists"@,
        "hooks_exists"@ != "shared_adapter_exists"@,
{
    reveal_strlit("runtime");
    reveal_strlit("ok");
    reveal_strlit("plugin_root");
    reveal_strlit("data_dir");
    reveal_strlit("config_dir");
    reveal_strlit("state_dir");
    reveal_strlit("manifest_exists");
    reveal_strlit("hooks_exists");
    reveal_strlit("shared_adapter_exists");
    assert("runtime"@.len() == 7);
    assert("ok"@.len() == 2);
    assert("plugin_root"@.len() == 11);
    assert("data_dir"@.len() == 8);
    assert("config_dir"@.len() == 10);
    assert("state_dir"@.len() == 9);
    assert("manifest_exists"@.len() == 15);
    assert("hooks_exists"@.len() == 12);
    assert("shared_adapter_exists"@.len() == 21);
}

/// The health of the plugin tells its directories and which files are there.
pub proof fn plugin_health_tells_the_files(f: PluginFacts, a: Agent)
    ensures
        plugin_json(f, a).get("runtime"@) == Some(JsonView::Text(a.id@)),
        plugin_json(f, a).get("ok"@) == Some(JsonView::Bool(true)),
        (opt_string(f.plugin_root) matches Some(s) ==> plugin_json(f, a).get("plugin_root"@) == Some(JsonView::Text(s))),
        (opt_string(f.plugin_root) is None ==> plugin_json(f, a).get("plugin_root"@) == Some(JsonView::Null)),
        plugin_json(f, a).get("data_dir"@) == Some(JsonView::Text(f.data_dir@)),
        plugin_json(f, a).get("config_dir"@) == Some(JsonView::Text(f.config_dir@)),
        plugin_json(f, a).get("state_dir"@) == Some(JsonView::Text(f.state_dir@)),
        plugin_json(f, a).get("manifest_exists"@) == Some(JsonView::Bool(f.manifest_exists)),
        plugin_json(f, a).get("hooks_exists"@) == Some(JsonView::Bool(f.hooks_exists)),
        plugin_json(f, a).get("shared_adapter_exists"@) == Some(JsonView::Bool(f.shared_adapter_exists)),
{
    broadcast use get_after_with, with_stays_object, empty_has_no_member;

    plugin_health_tells_the_files_keys();
}

proof fn installations_tell_their_state_keys()
    ensures
        "codex_home"@ != "user_config_path"@,
        "codex_home"@ != "project_root"@,
        "codex_home"@ != "hook_feature_enabled"@,
        "codex_home"@ != "marketplace_registered"@,
        "codex_home"@ != "plugin_enabled"@,
        "codex_home"@ != "plugin_cached"@,
        "user_config_path"@ != "project_root"@,
        "user_config_path"@ != "hook_feature_enabled"@,
        "user_config_path"@ != "marketplace_registered"@,
        "user_config_path"@ != "plugin_enabled"@,
        "user_config_path"@ != "plugin_cached"@,
        "project_root"@ != "hook_feature_enabled"@,
        "project_root"@ != "marketplace_registered"@,
        "project_root"@ != "plugin_enabled"@,
        "project_root"@ != "plugin_cached"@,
        "hook_feature_enabled"@ != "marketplace_registered"@,
        "hook_feature_enabled"@ != "plugin_enabled"@,
        "hook_feature_enabled"@ != "plugin_cached"@,
        "marketplace_registered"@ != "plugin_enabled"@,
        "marketplace_registered"@ != "plugin_cached"@,
        "plugin_enabled"@ != "plugin_cached"@,
{
    reveal_strlit("codex_home");
    reveal_strlit("user_config_path");
    reveal_strlit("project_root");
    reveal_strlit("hook_feature_enabled");
    reveal_strlit("marketplace_registered");
    reveal_strlit("plugin_enabled");
    reveal_strlit("plugin_cached");
    assert("codex_home"@.len() == 10);
    assert("user_config_path"@.len() == 16);
    assert("project_root"@.len() == 12);
    assert("hook_feature_enabled"@.len() == 20);
    assert("marketplace_registered"@.len() == 22);
    assert("plugin_enabled"@.len() == 14);
    assert("plugin_cached"@.len() == 13);
}

/// The state of the installation tells its places, and what of it is on.
pub proof fn installations_tell_their_state(f: InstallFacts)
    ensures
        state_json(f).get("codex_home"@) == Some(JsonView::Text(f.codex_home@)),
        state_json(f).get("user_config_path"@) == Some(JsonView::Text(f.user_config_path@)),
        (opt_string(f.project_root) matches Some(s) ==> state_json(f).get("project_root"@) == Some(JsonView::Text(s))),
        (opt_string(f.project_root) is None ==> state_json(f).get("project_root"@) == Some(JsonView::Null)),
        state_json(f).get("hook_feature_enabled"@) == Some(JsonView::Bool(hooks_enabled(f.config@))),
        state_json(f).get("marketplace_registered"@) == Some(JsonView::Bool(is_registered(f.config@, opt_string(f.project_root)))),
        state_json(f).get("plugin_enabled"@) == Some(JsonView::Bool(is_plugin_enabled(f.config@))),
        state_json(f).get("plugin_cached"@) == Some(JsonView::Bool(f.plugin_cached)),
{
    broadcast use get_after_with, with_stays_object, empty_has_no_member;

    installations_tell_their_state_keys();
}

proof fn wrapped_sessions_begin_and_end_keys()
    ensures
        "session_start_context"@ != "per_turn_context"@,
        "session_start_context"@ != "hard_pre_mutation_block"@,
        "session_start_context"@ != "activity_stream_capture"@,
        "session_start_context"@ != "subagent_lifecycle_hook"@,
        "session_start_context"@ != "plan_mode_bridge"@,
        "session_start_context"@ != "session_stop_hook"@,
        "per_turn_context"@ != "hard_pre_mutation_block"@,
        "per_turn_context"@ != "activity_stream_capture"@,
        "per_turn_context"@ != "subagent_lifecycle_hook"@,
        "per_turn_context"@ != "plan_mode_bridge"@,
        "per_turn_context"@ != "session_stop_hook"@,
        "hard_pre_mutation_block"@ != "activity_stream_capture"@,
        "hard_pre_mutation_block"@ != "subagent_lifecycle_hook"@,
        "hard_pre_mutation_block"@ != "plan_mode_bridge"@,
        "hard_pre_mutation_block"@ != "session_stop_hook"@,
        "activity_stream_capture"@ != "subagent_lifecycle_hook"@,
        "activity_stream_capture"@ != "plan_mode_bridge"@,
        "activity_stream_capture"@ != "session_stop_hook"@,
        "subagent_lifecycle_hook"@ != "plan_mode_bridge"@,
        "subagent_lifecycle_hook"@ != "session_stop_hook"@,
        "plan_mode_bridge"@ != "session_stop_hook"@,
{
    reveal_strlit("session_start_context");
    reveal_strlit("per_turn_context");
    reveal_strlit("hard_pre_mutation_block");
    reveal_strlit("activity_stream_capture");
    reveal_strlit("subagent_lifecycle_hook");
    reveal_strlit("plan_mode_bridge");
    reveal_strlit("session_stop_hook");
    assert("session_start_context"@.len() == 21);
    assert("per_turn_context"@.len() == 16);
    assert("hard_pre_mutation_block"@.len() == 23);
    assert("activity_stream_capture"@.len() == 23);
    assert("subagent_lifecycle_hook"@.len() == 23);
    assert("plan_mode_bridge"@.len() == 16);
    assert("session_stop_hook"@.len() == 17);
    assert("per_turn_context"@[1] != "plan_mode_bridge"@[1]);
    assert("hard_pre_mutation_block"@[0] != "activity_stream_capture"@[0]);
    assert("hard_pre_mutation_block"@[0] != "subagent_lifecycle_hook"@[0]);
    assert("activity_stream_capture"@[0] != "subagent_lifecycle_hook"@[0]);
}

/// A session of the wrapper starts with its context and ends with a hook, and can do
/// nothing in between.
pub proof fn wrapped_sessions_begin_and_end()
    ensures
        session_capabilities().get("session_start_context"@) == Some(JsonView::Bool(true)),
        session_capabilities().get("per_turn_context"@) == Some(JsonView::Bool(false)),
        session_capabilities().get("hard_pre_mutation_block"@) == Some(JsonView::Bool(false)),
        session_capabilities().get("activity_stream_capture"@) == Some(JsonView::Bool(false)),
        session_capabilities().get("subagent_lifecycle_hook"@) == Some(JsonView::Bool(false)),
        session_capabilities().get("plan_mode_bridge"@) == Some(JsonView::Bool(false)),
        session_capabilities().get("session_stop_hook"@) == Some(JsonView::Bool(true)),
{
    broadcast use get_after_with, with_stays_object, empty_has_no_member;

    wrapped_sessions_begin_and_end_keys();
}

proof fn runtime_health_tells_the_files_keys()
    ensures
        "runtime"@ != "ok"@,
        "runtime"@ != "codex_binary"@,
        "runtime"@ != "codex_version"@,
        "runtime"@ != "wrapper_state_dir"@,
        "runtime"@ != "user_config"@,
        "runtime"@ != "marketplace_manifest_exists"@,
        "runtime"@ != "plugin_manifest_exists"@,
        "runtime"@ != "plugin_hooks_exists"@,
        "runtime"@ != "plugin_runner_exists"@,
        "runtime"@ != "shared_adapter_exists"@,
        "runtime"@ != "runtime_prompt_exists"@,
        "ok"@ != "codex_binary"@,
        "ok"@ != "codex_version"@,
        "ok"@ != "wrapper_state_dir"@,
        "ok"@ != "user_config"@,
        "ok"@ != "marketplace_manifest_exists"@,
        "ok"@ != "plugin_manifest_exists"@,
        "ok"@ != "plugin_hooks_exists"@,
        "ok"@ != "plugin_runner_exists"@,
        "ok"@ != "shared_adapter_exists"@,
        "ok"@ != "runtime_prompt_exists"@,
        "codex_binary"@ != "codex_version"@,
        "codex_binary"@ != "wrapper_state_dir"@,
        "codex_binary"@ != "user_config"@,
        "codex_binary"@ != "marketplace_manifest_exists"@,
        "codex_binary"@ != "plugin_manifest_exists"@,
        "codex_binary"@ != "plugin_hooks_exists"@,
        "codex_binary"@ != "plugin_runner_exists"@,
        "codex_binary"@ != "shared_adapter_exists"@,
        "codex_binary"@ != "runtime_prompt_exists"@,
        "codex_version"@ != "wrapper_state_dir"@,
        "codex_version"@ != "user_config"@,
        "codex_version"@ != "marketplace_manifest_exists"@,
        "codex_version"@ != "plugin_manifest_exists"@,
        "codex_version"@ != "plugin_hooks_exists"@,
        "codex_version"@ != "plugin_runner_exists"@,
        "codex_version"@ != "shared_adapter_exists"@,
        "codex_version"@ != "runtime_prompt_exists"@,
        "wrapper_state_dir"@ != "user_config"@,
        "wrapper_state_dir"@ != "marketplace_manifest_exists"@,
        "wrapper_state_dir"@ != "plugin_manifest_exists"@,
        "wrapper_state_dir"@ != "plugin_hooks_exists"@,
        "wrapper_state_dir"@ != "plugin_runner_exists"@,
        "wrapper_state_dir"@ != "shared_adapter_exists"@,
        "wrapper_state_dir"@ != "runtime_prompt_exists"@,
        "user_config"@ != "marketplace_manifest_exists"@,
        "user_config"@ != "plugin_manifest_exists"@,
        "user_config"@ != "plugin_hooks_exists"@,
        "user_config"@ != "plugin_runner_exists"@,
        "user_config"@ != "shared_adapter_exists"@,
        "user_config"@ != "runtime_prompt_exists"@,
        "marketplace_manifest_exists"@ != "plugin_manifest_exists"@,
        "marketplace_manifest_exists"@ != "plugin_hooks_exists"@,
        "marketplace_manifest_exists"@ != "plugin_runner_exists"@,
        "marketplace_manifest_exists"@ != "shared_adapter_exists"@,
        "marketplace_manifest_exists"@ != "runtime_prompt_exists"@,
        "plugin_manifest_exists"@ != "plugin_hooks_exists"@,
        "plugin_manifest_exists"@ != "plugin_runner_exists"@,
        "plugin_manifest_exists"@ != "shared_adapter_exists"@,
        "plugin_manifest_exists"@ != "runtime_prompt_exists"@,
        "plugin_hooks_exists"@ != "plugin_runner_exists"@,
        "plugin_hooks_exists"@ != "shared_adapter_exists"@,
        "plugin_hooks_exists"@ != "runtime_prompt_exists"@,
        "plugin_runner_exists"@ != "shared_adapter_exists"@,
        "plugin_runner_exists"@ != "runtime_prompt_exists"@,
        "shared_adapter_exists"@ != "runtime_prompt_exists"@,
{
    reveal_strlit("runtime");
    reveal_strlit("ok");
    reveal_strlit("codex_binary");
    reveal_strlit("codex_version");
    reveal_strlit("wrapper_state_dir");
    reveal_strlit("user_config");
    reveal_strlit("marketplace_manifest_exists");
    reveal_strlit("plugin_manifest_exists");
    reveal_strlit("plugin_hooks_exists");
    reveal_strlit("plugin_runner_exists");
    reveal_strlit("shared_adapter_exists");
    reveal_strlit("runtime_prompt_exists");
    assert("runtime"@.len() == 7);
    assert("ok"@.len() == 2);
    assert("codex_binary"@.len() == 12);
    assert("codex_version"@.len() == 13);
    assert("wrapper_state_dir"@.len() == 17);
    assert("user_config"@.len() == 11);
    assert("marketplace_manifest_exists"@.len() == 27);
    assert("plugin_manifest_exists"@.len() == 22);
    assert("plugin_hooks_exists"@.len() == 19);
    assert("plugin_runner_exists"@.len() == 20);
    assert("shared_adapter_exists"@.len() == 21);
    assert("runtime_prompt_exists"@.len() == 21);
    assert("shared_adapter_exists"@[0] != "runtime_prompt_exists"@[0]);
}

/// The health of the runtime is well exactly where its program answers, hooks are on,
/// and the plugin is registered and on.
pub proof fn runtime_health_tells_the_files(
    f: InstallFacts,
    files: ProjectFiles,
    binary: Seq<char>,
    version: Option<Seq<char>>,
    state_dir: Seq<char>,
)
    ensures
        doctor_json(f, files, binary, version, state_dir).get("runtime"@) == Some(JsonView::Text("codex"@)),
        doctor_json(f, files, binary, version, state_dir).get("ok"@) == Some(JsonView::Bool(version is Some && hooks_enabled(f.config@) && is_registered(
                    f.config@,
                    opt_string(f.project_root),
                ) && is_plugin_enabled(f.config@))),
        doctor_json(f, files, binary, version, state_dir).get("codex_binary"@) == Some(JsonView::Text(binary)),
        (version matches Some(s) ==> doctor_json(f, files, binary, version, state_dir).get("codex_version"@) == Some(JsonView::Text(s))),
        (version is None ==> doctor_json(f, files, binary, version, state_dir).get("codex_version"@) == Some(JsonView::Null)),
        doctor_json(f, files, binary, version, state_dir).get("wrapper_state_dir"@) == Some(JsonView::Text(state_dir)),
        doctor_json(f, files, binary, version, state_dir).get("user_config"@) == Some(state_json(f)),
        doctor_json(f, files, binary, version, state_dir).get("marketplace_manifest_exists"@) == Some(JsonView::Bool(files.marketplace_manifest)),
        doctor_json(f, files, binary, version, state_dir).get("plugin_manifest_exists"@) == Some(JsonView::Bool(files.plugin_manifest)),
        doctor_json(f, files, binary, version, state_dir).get("plugin_hooks_exists"@) == Some(JsonView::Bool(files.plugin_hooks)),
        doctor_json(f, files, binary, version, state_dir).get("plugin_runner_exists"@) == Some(JsonView::Bool(files.plugin_runner)),
        doctor_json(f, files, binary, version, state_dir).get("shared_adapter_exists"@) == Some(JsonView::Bool(files.shared_adapter)),
        doctor_json(f, files, binary, version, state_dir).get("runtime_prompt_exists"@) == Some(JsonView::Bool(files.runtime_prompt)),
{
    broadcast use get_after_with, with_stays_object, empty_has_no_member;

    runtime_health_tells_the_files_keys();
}

proof fn sessions_are_described_keys()
    ensures
        "runtime"@ != "session_id"@,
        "runtime"@ != "cwd"@,
        "runtime"@ != "active_task_id"@,
        "runtime"@ != "managed"@,
        "runtime"@ != "capabilities"@,
        "session_id"@ != "cwd"@,
        "session_id"@ != "active_task_id"@,
        "session_id"@ != "managed"@,
        "session_id"@ != "capabilities"@,
        "cwd"@ != "active_task_id"@,
        "cwd"@ != "managed"@,
        "cwd"@ != "capabilities"@,
        "active_task_id"@ != "managed"@,
        "active_task_id"@ != "capabilities"@,
        "managed"@ != "capabilities"@,
{
    reveal_strlit("runtime");
    reveal_strlit("session_id");
    reveal_strlit("cwd");
    reveal_strlit("active_task_id");
    reveal_strlit("managed");
    reveal_strlit("capabilities");
    assert("runtime"@.len() == 7);
    assert("session_id"@.len() == 10);
    assert("cwd"@.len() == 3);
    assert("active_task_id"@.len() == 14);
    assert("managed"@.len() == 7);
    assert("capabilities"@.len() == 12);
    assert("runtime"@[0] != "managed"@[0]);
}

/// A session is described by its name, its directory and its task.
pub proof fn sessions_are_described(id: Seq<char>, cwd: Seq<char>, task: Option<Seq<char>>)
    ensures
        session_described(id, cwd, task).get("runtime"@) == Some(JsonView::Text("codex"@)),
        session_described(id, cwd, task).get("session_id"@) == Some(JsonView::Text(id)),
        session_described(id, cwd, task).get("cwd"@) == Some(JsonView::Text(cwd)),
        (task matches Some(s) ==> session_described(id, cwd, task).get("active_task_id"@) == Some(JsonView::Text(s))),
        (task is None ==> session_described(id, cwd, task).get("active_task_id"@) == Some(JsonView::Null)),
        session_described(id, cwd, task).get("managed"@) == Some(JsonView::Bool(true)),
        session_described(id, cwd, task).get("capabilities"@) == Some(session_capabilities()),
{
    broadcast use get_after_with, with_stays_object, empty_has_no_member;

    sessions_are_described_keys();
}

proof fn sessions_are_shown_keys()
    ensures
        "runtime"@ != "active"@,
        "runtime"@ != "session"@,
        "runtime"@ != "prompt_file"@,
        "active"@ != "session"@,
        "active"@ != "prompt_file"@,
        "session"@ != "prompt_file"@,
{
    reveal_strlit("runtime");
    reveal_strlit("active");
    reveal_strlit("session");
    reveal_strlit("prompt_file");
    assert("runtime"@.len() == 7);
    assert("active"@.len() == 6);
    assert("session"@.len() == 7);
    assert("prompt_file"@.len() == 11);
    assert("runtime"@[0] != "session"@[0]);
}

/// A session that is there is active, and shown.
pub proof fn sessions_are_shown(s: Json, prompt_file: Seq<char>)
    ensures
        session_state(Some(s), prompt_file).get("runtime"@) == Some(JsonView::Text("codex"@)),
        session_state(Some(s), prompt_file).get("active"@) == Some(JsonView::Bool(true)),
        session_state(Some(s), prompt_file).get("session"@) == Some(s@),
        session_state(Some(s), prompt_file).get("prompt_file"@) == Some(JsonView::Text(prompt_file)),
{
    broadcast use get_after_with, with_stays_object, empty_has_no_member;

    sessions_are_shown_keys();
}

proof fn missing_sessions_are_told_keys()
    ensures
        "runtime"@ != "active"@,
        "runtime"@ != "message"@,
        "active"@ != "message"@,
{
    reveal_strlit("runtime");
    reveal_strlit("active");
    reveal_strlit("message");
    assert("runtime"@.len() == 7);
    assert("active"@.len() == 6);
    assert("message"@.len() == 7);
    assert("runtime"@[0] != "message"@[0]);
}

/// Where there is no session, none is active.
pub proof fn missing_sessions_are_told(prompt_file: Seq<char>)
    ensures
        session_state(None, prompt_file).get("runtime"@) == Some(JsonView::Text("codex"@)),
        session_state(None, prompt_file).get("active"@) == Some(JsonView::Bool(false)),
        session_state(None, prompt_file).get("message"@) == Some(JsonView::Text("No Codex wrapper session state found"@)),
{
    broadcast use get_after_with, with_stays_object, empty_has_no_member;

    missing_sessions_are_told_keys();
}

proof fn stopped_sessions_are_named_keys()
    ensures
        "runtime"@ != "stopped"@,
        "runtime"@ != "session_id"@,
        "stopped"@ != "session_id"@,
{
    reveal_strlit("runtime");
    reveal_strlit("stopped");
    reveal_strlit("session_id");
    assert("runtime"@.len() == 7);
    assert("stopped"@.len() == 7);
    assert("session_id"@.len() == 10);
    assert("runtime"@[0] != "stopped"@[0]);
}

/// A session that was stopped is named.
pub proof fn stopped_sessions_are_named(s: JsonView)
    ensures
        stopped(s).get("runtime"@) == Some(JsonView::Text("codex"@)),
        stopped(s).get("stopped"@) == Some(JsonView::Bool(true)),
        stopped(s).get("session_id"@) == Some(JsonView::Text((if s.str_at("session_id"@) is Some {
                s.str_at("session_id"@)->0
            } else {
                ""@
            }))),
{
    broadcast use get_after_with, with_stays_object, empty_has_no_member;

    stopped_sessions_are_named_keys();
}

proof fn run_keys()
    ensures
        "task_id"@ != "session_id"@,
        "task_id"@ != "agent"@,
        "session_id"@ != "agent"@,
{
    reveal_strlit("task_id");
    reveal_strlit("session_id");
    reveal_strlit("agent");
    assert("task_id"@.len() == 7);
    assert("session_id"@.len() == 10);
    assert("agent"@.len() == 5);
}

proof fn finish_keys()
    ensures
        "result"@ != "notes"@,
{
    reveal_strlit("result");
    reveal_strlit("notes");
    assert("result"@.len() == 6);
    assert("notes"@.len() == 5);
}

/// A session notes the task that it works on, and ends the runs that it left
/// open.
pub proof fn sessions_note_their_runs(task: Seq<char>, session: Seq<char>, run: Seq<char>)
    ensures
        ({
            let r = run_asked(task, session);
            &&& r.method == Method::Post
            &&& r.path == "/runs"@
            &&& says(r, "task_id"@, task)
            &&& says(r, "session_id"@, session)
            &&& says(r, "agent"@, "main"@)
        }),
        ({
            let r = finish_asked(run);
            &&& r.method == Method::Post
            &&& r.path == "/runs/"@ + run + "/finish"@
            &&& says(r, "result"@, "session_ended"@)
        }),
{
    broadcast use get_after_with, with_stays_object, empty_has_no_member;

    run_keys();
    finish_keys();
}

proof fn open_runs_are_kept(a: Seq<JsonView>, n: nat)
    requires
        n <= a.len(),
    ensures
        open_runs_upto(a, n) == a.take(n as int).filter(
            |x: JsonView| x.str_at("id"@) is Some && x.i64_at("ended_at"@) is None,
        ).map_values(|x: JsonView| x.str_at("id"@)->0),
    decreases n,
{
    let f = |x: JsonView| x.str_at("id"@) is Some && x.i64_at("ended_at"@) is None;
    let g = |x: JsonView| x.str_at("id"@)->0;
    reveal(Seq::filter);
    if n > 0 {
        open_runs_are_kept(a, (n - 1) as nat);
        assert(a.take(n as int).drop_last() =~= a.take(n - 1));
        assert(a.take(n as int).last() == a[n - 1]);
        let before = a.take(n - 1).filter(f);
        assert(before.push(a[n - 1]).map_values(g) =~= before.map_values(g).push(g(a[n - 1])));
    } else {
        assert(a.take(0).len() == 0);
        assert(open_runs_upto(a, 0) =~= a.take(0).filter(f).map_values(g));
    }
}

/// The runs that are ended are those that have not ended, in order.
pub proof fn open_runs_are_those_without_an_end(a: Seq<JsonView>)
    ensures
        open_runs_upto(a, a.len()) == a.filter(
            |x: JsonView| x.str_at("id"@) is Some && x.i64_at("ended_at"@) is None,
        ).map_values(|x: JsonView| x.str_at("id"@)->0),
{
    open_runs_are_kept(a, a.len());
    assert(a.take(a.len() as int) =~= a);
}

} // verus!
