//! What the requests of the commands say, as the daemon reads them from their
//! methods, paths, queries and bodies.

use vstd::prelude::*;
use crate::command::{
    ArtifactAction, Command, CommentAction, ConfigAction, CycleAction, DiscoverAction, PlanAction,
    ProjectAction, QuestionAction, RunAction, TaskAction, UnitAction, WikiPaths,
};
use crate::dispatch::{
    artifact_request, backup_request, comment_request, config_request, discover_request, dispatched,
    by_project, dashboard_request, find_similar_request, migrate_request, question_request,
    recent_decisions_request, replay_request, restore_request, run_request, update_request,
    watch_request,
};
use crate::json::{
    empty_has_no_member, empty_object, get_after_with, with_stays_object, JsonView, NumberView,
};
use crate::query::{
    asked_for, is_name, no_query_asks_nothing, param_is_read_back, resource, url_encoded,
    urlenc_char, with_param,
};
use crate::request::{
    cycle_request, plan_request, project_request, unit_request, with_int, Method, RequestView,
};
use crate::scan::opt_string;
use crate::task_request::task_request;
use crate::text::{dec, dec_int, digit, texts};

verus! {

/// The member of the body under the key is the text.
pub open spec fn says(r: RequestView, key: Seq<char>, s: Seq<char>) -> bool {
    r.body is Some && r.body->0.get(key) == Some(JsonView::Text(s))
}

/// The member of the body under the key is the text where there is one, and
/// is missing where there is none.
pub open spec fn says_if_given(r: RequestView, key: Seq<char>, o: Option<Seq<char>>) -> bool {
    r.body is Some && match o {
        Some(s) => r.body->0.get(key) == Some(JsonView::Text(s)),
        None => r.body->0.get(key) is None,
    }
}

/// The member of the body under the key is the text where there is one, and
/// null where there is none.
pub open spec fn says_or_null(r: RequestView, key: Seq<char>, o: Option<Seq<char>>) -> bool {
    r.body is Some && match o {
        Some(s) => r.body->0.get(key) == Some(JsonView::Text(s)),
        None => r.body->0.get(key) == Some(JsonView::Null),
    }
}

/// The member of the body under the key is the number.
pub open spec fn counts(r: RequestView, key: Seq<char>, n: int) -> bool {
    r.body is Some && r.body->0.get(key) == Some(JsonView::Number(NumberView::Integer(n)))
}

/// The member of the body under the key is the number where there is one, and
/// null where there is none.
pub open spec fn counts_or_null(r: RequestView, key: Seq<char>, o: Option<int>) -> bool {
    match o {
        Some(n) => counts(r, key, n),
        None => r.body is Some && r.body->0.get(key) == Some(JsonView::Null),
    }
}

/// The member of the body under the key is the number where there is one, and
/// is missing where there is none.
pub open spec fn counts_if_given(r: RequestView, key: Seq<char>, o: Option<int>) -> bool {
    match o {
        Some(n) => counts(r, key, n),
        None => r.body is Some && r.body->0.get(key) is None,
    }
}

/// The member of the body under the key is the truth value.
pub open spec fn flags(r: RequestView, key: Seq<char>, b: bool) -> bool {
    r.body is Some && r.body->0.get(key) == Some(JsonView::Bool(b))
}

/// The member of the body under the key is the list of the texts.
pub open spec fn lists(r: RequestView, key: Seq<char>, t: Seq<Seq<char>>) -> bool {
    r.body is Some && match r.body->0.get(key) {
        Some(JsonView::Array(a)) => a.len() == t.len() && forall|i: int|
            0 <= i < t.len() ==> #[trigger] a[i] == JsonView::Text(t[i]),
        _ => false,
    }
}

/// A request without a body.
pub open spec fn bare(r: RequestView, method: Method, path: Seq<char>) -> bool {
    r.method == method && r.path == path && r.body is None
}

/// A number that was given.
pub open spec fn as_int(o: Option<i64>) -> Option<int> {
    match o {
        Some(n) => Some(n as int),
        None => None,
    }
}

/// What was given, else the other.
pub open spec fn given_or(o: Option<String>, other: Option<Seq<char>>) -> Option<Seq<char>> {
    if o is Some {
        Some(o->0@)
    } else {
        other
    }
}

pub(crate) proof fn plain_text(s: Seq<char>)
    requires
        forall|i: int| 0 <= i < s.len() ==> urlenc_char(#[trigger] s[i]) == seq![s[i]],
    ensures
        url_encoded(s) == s,
    decreases s.len(),
{
    if s.len() > 0 {
        let rest = s.skip(1);
        assert forall|i: int| 0 <= i < rest.len() implies urlenc_char(#[trigger] rest[i])
            == seq![rest[i]] by {
            assert(rest[i] == s[i + 1]);
        }
        plain_text(rest);
        assert(seq![s[0]] + rest =~= s);
    } else {
        assert(s =~= Seq::empty());
    }
}

proof fn digits_are_plain(n: nat)
    ensures
        forall|i: int| 0 <= i < dec(n).len() ==> urlenc_char(#[trigger] dec(n)[i]) == seq![dec(n)[i]],
    decreases n,
{
    if n >= 10 {
        digits_are_plain(n / 10);
        assert forall|i: int| 0 <= i < dec(n).len() implies urlenc_char(#[trigger] dec(n)[i])
            == seq![dec(n)[i]] by {
            if i < dec(n / 10).len() {
                assert(dec(n)[i] == dec(n / 10)[i]);
            } else {
                assert(dec(n)[i] == digit((n % 10) as int));
            }
        }
    }
}

/// A member that may be given: it is there where it is, and every other stays.
proof fn given_text(j: JsonView, key: Seq<char>, o: Option<Seq<char>>)
    requires
        j is Object,
    ensures
        j.with_text(key, o) is Object,
        forall|other: Seq<char>| #[trigger]
            j.with_text(key, o).get(other) == (if other == key && o is Some {
                Some(JsonView::Text(o->0))
            } else {
                j.get(other)
            }),
{
    broadcast use get_after_with, with_stays_object;

}

proof fn set_text(j: JsonView, key: Seq<char>, s: Seq<char>)
    requires
        j is Object,
    ensures
        j.with(key, JsonView::Text(s)) is Object,
        forall|other: Seq<char>| #[trigger]
            j.with(key, JsonView::Text(s)).get(other) == (if other == key {
                Some(JsonView::Text(s))
            } else {
                j.get(other)
            }),
{
    broadcast use get_after_with, with_stays_object;

}

proof fn given_number(j: JsonView, key: Seq<char>, o: Option<i64>)
    requires
        j is Object,
    ensures
        with_int(j, key, o) is Object,
        forall|other: Seq<char>| #[trigger]
            with_int(j, key, o).get(other) == (if other == key && o is Some {
                Some(JsonView::Number(NumberView::Integer(o->0 as int)))
            } else {
                j.get(other)
            }),
{
    broadcast use get_after_with, with_stays_object;

}

/// A number stands in a query as it is.
pub(crate) proof fn number_is_plain(n: nat)
    ensures
        url_encoded(dec(n)) == dec(n),
{
    digits_are_plain(n);
    plain_text(dec(n));
}

proof fn new_projects_say_what_was_given_keys()
    ensures
        "name"@ != "description"@,
        "name"@ != "cwd"@,
        "name"@ != "key"@,
        "description"@ != "cwd"@,
        "description"@ != "key"@,
        "cwd"@ != "key"@,
{
    reveal_strlit("name");
    reveal_strlit("description");
    reveal_strlit("cwd");
    reveal_strlit("key");
    assert("name"@.len() == 4);
    assert("description"@.len() == 11);
    assert("cwd"@.len() == 3);
    assert("key"@.len() == 3);
    assert("cwd"@[0] != "key"@[0]);
}

/// A new project is sent with its name, description, key and directory, the current
/// one where none is named.
pub proof fn new_projects_say_what_was_given(
    name: String,
    description: Option<String>,
    cwd: Option<String>,
    key: Option<String>,
    here: Option<Seq<char>>,
)
    ensures
        ({
            let r = project_request(ProjectAction::Create { name, description, cwd, key }, here);
            &&& r.method == Method::Post
            &&& r.path == "/projects"@
            &&& says(r, "name"@, name@)
            &&& says_or_null(r, "description"@, opt_string(description))
            &&& says_or_null(r, "cwd"@, given_or(cwd, here))
            &&& says_or_null(r, "key"@, opt_string(key))
        }),
{
    broadcast use get_after_with, with_stays_object, empty_has_no_member;

    new_projects_say_what_was_given_keys();
}

proof fn project_changes_say_what_was_given_keys()
    ensures
        "name"@ != "description"@,
        "name"@ != "wiki_paths"@,
        "description"@ != "wiki_paths"@,
{
    reveal_strlit("name");
    reveal_strlit("description");
    reveal_strlit("wiki_paths");
    assert("name"@.len() == 4);
    assert("description"@.len() == 11);
    assert("wiki_paths"@.len() == 10);
}

/// A change to a project sends what was given and nothing else of it.
pub proof fn project_changes_say_what_was_given(
    id: String,
    name: Option<String>,
    description: Option<String>,
    wiki_paths: Option<WikiPaths>,
    here: Option<Seq<char>>,
)
    ensures
        ({
            let r = project_request(ProjectAction::Update { id, name, description, wiki_paths }, here);
            &&& r.method == Method::Patch
            &&& r.path == "/projects/"@ + id@
            &&& says_if_given(r, "name"@, opt_string(name))
            &&& says_if_given(r, "description"@, opt_string(description))
            &&& (wiki_paths is None ==> r.body->0.get("wiki_paths"@) is None)
            &&& (wiki_paths matches Some(w) ==> match w.parsed {
                Some(j) => r.body->0.get("wiki_paths"@) == Some(j@),
                None => lists(r, "wiki_paths"@, seq![w.raw@]),
            })
        }),
{
    broadcast use get_after_with, with_stays_object, empty_has_no_member;

    project_changes_say_what_was_given_keys();
}

proof fn new_plans_say_what_was_given_keys()
    ensures
        "project_id"@ != "title"@,
        "project_id"@ != "description"@,
        "project_id"@ != "source"@,
        "project_id"@ != "source_path"@,
        "title"@ != "description"@,
        "title"@ != "source"@,
        "title"@ != "source_path"@,
        "description"@ != "source"@,
        "description"@ != "source_path"@,
        "source"@ != "source_path"@,
{
    reveal_strlit("project_id");
    reveal_strlit("title");
    reveal_strlit("description");
    reveal_strlit("source");
    reveal_strlit("source_path");
    assert("project_id"@.len() == 10);
    assert("title"@.len() == 5);
    assert("description"@.len() == 11);
    assert("source"@.len() == 6);
    assert("source_path"@.len() == 11);
    assert("description"@[0] != "source_path"@[0]);
}

/// A new plan is sent with its project, title, description and source.
pub proof fn new_plans_say_what_was_given(
    title: String,
    project: String,
    description: Option<String>,
    source: String,
    source_path: Option<String>,
    here: Option<Seq<char>>,
)
    ensures
        ({
            let r = plan_request(PlanAction::Create { title, project, description, source, source_path }, here);
            &&& r.method == Method::Post
            &&& r.path == "/plans"@
            &&& says(r, "project_id"@, project@)
            &&& says(r, "title"@, title@)
            &&& says_or_null(r, "description"@, opt_string(description))
            &&& says(r, "source"@, source@)
            &&& says_or_null(r, "source_path"@, opt_string(source_path))
        }),
{
    broadcast use get_after_with, with_stays_object, empty_has_no_member;

    new_plans_say_what_was_given_keys();
}

proof fn plan_changes_say_what_was_given_keys()
    ensures
        "title"@ != "description"@,
        "title"@ != "status"@,
        "description"@ != "status"@,
{
    reveal_strlit("title");
    reveal_strlit("description");
    reveal_strlit("status");
    assert("title"@.len() == 5);
    assert("description"@.len() == 11);
    assert("status"@.len() == 6);
}

/// A change to a plan sends what was given and nothing else of it.
pub proof fn plan_changes_say_what_was_given(
    id: String,
    title: Option<String>,
    description: Option<String>,
    status: Option<String>,
    here: Option<Seq<char>>,
)
    ensures
        ({
            let r = plan_request(PlanAction::Update { id, title, description, status }, here);
            &&& r.method == Method::Patch
            &&& r.path == "/plans/"@ + id@
            &&& says_if_given(r, "title"@, opt_string(title))
            &&& says_if_given(r, "description"@, opt_string(description))
            &&& says_if_given(r, "status"@, opt_string(status))
        }),
{
    broadcast use get_after_with, with_stays_object, empty_has_no_member;

    plan_changes_say_what_was_given_keys();
}

proof fn plan_imports_say_what_was_given_keys()
    ensures
        "file"@ != "project"@,
        "file"@ != "cwd"@,
        "file"@ != "source"@,
        "file"@ != "dryRun"@,
        "project"@ != "cwd"@,
        "project"@ != "source"@,
        "project"@ != "dryRun"@,
        "cwd"@ != "source"@,
        "cwd"@ != "dryRun"@,
        "source"@ != "dryRun"@,
{
    reveal_strlit("file");
    reveal_strlit("project");
    reveal_strlit("cwd");
    reveal_strlit("source");
    reveal_strlit("dryRun");
    assert("file"@.len() == 4);
    assert("project"@.len() == 7);
    assert("cwd"@.len() == 3);
    assert("source"@.len() == 6);
    assert("dryRun"@.len() == 6);
    assert("source"@[0] != "dryRun"@[0]);
}

/// An import of a plan names its file, and the directory that it is for.
pub proof fn plan_imports_say_what_was_given(
    file: String,
    project: Option<String>,
    cwd: Option<String>,
    source: String,
    dry_run: bool,
    here: Option<Seq<char>>,
)
    ensures
        ({
            let r = plan_request(PlanAction::Import { file, project, cwd, source, dry_run }, here);
            &&& r.method == Method::Post
            &&& r.path == "/plans/import"@
            &&& says(r, "file"@, file@)
            &&& says_or_null(r, "project"@, opt_string(project))
            &&& says_or_null(r, "cwd"@, given_or(cwd, here))
            &&& says(r, "source"@, source@)
            &&& flags(r, "dryRun"@, dry_run)
        }),
{
    broadcast use get_after_with, with_stays_object, empty_has_no_member;

    plan_imports_say_what_was_given_keys();
}

proof fn strict_imports_say_what_was_given_keys()
    ensures
        "content"@ != "project"@,
        "content"@ != "cwd"@,
        "content"@ != "dryRun"@,
        "project"@ != "cwd"@,
        "project"@ != "dryRun"@,
        "cwd"@ != "dryRun"@,
{
    reveal_strlit("content");
    reveal_strlit("project");
    reveal_strlit("cwd");
    reveal_strlit("dryRun");
    assert("content"@.len() == 7);
    assert("project"@.len() == 7);
    assert("cwd"@.len() == 3);
    assert("dryRun"@.len() == 6);
    assert("content"@[0] != "project"@[0]);
}

/// A strict import of a plan sends its content along.
pub proof fn strict_imports_say_what_was_given(
    content: String,
    project: Option<String>,
    cwd: Option<String>,
    dry_run: bool,
    here: Option<Seq<char>>,
)
    ensures
        ({
            let r = plan_request(PlanAction::ImportStrict { content, project, cwd, dry_run }, here);
            &&& r.method == Method::Post
            &&& r.path == "/plans/import/strict"@
            &&& says(r, "content"@, content@)
            &&& says_or_null(r, "project"@, opt_string(project))
            &&& says_or_null(r, "cwd"@, given_or(cwd, here))
            &&& flags(r, "dryRun"@, dry_run)
        }),
{
    broadcast use get_after_with, with_stays_object, empty_has_no_member;

    strict_imports_say_what_was_given_keys();
}

/// A unit is created exactly in the two modes that there are, with what was
/// given; another mode is refused.
pub proof fn new_units_say_what_was_given(
    title: String,
    plan: String,
    goal: Option<String>,
    idx: Option<i64>,
    mode: String,
)
    ensures
        ({
            let asked = unit_request(UnitAction::Create { title, plan, goal, idx, mode });
            &&& asked is Ok <==> mode@ == "sequential"@ || mode@ == "parallel"@
            &&& asked matches Err(e) ==> e.code == 1
            &&& asked matches Ok(r) ==> {
                &&& r.method == Method::Post
                &&& r.path == "/units"@
                &&& says(r, "plan_id"@, plan@)
                &&& says(r, "title"@, title@)
                &&& says_or_null(r, "goal"@, opt_string(goal))
                &&& counts_or_null(r, "idx"@, as_int(idx))
                &&& says(r, "execution_mode"@, mode@)
            }
        }),
{
    broadcast use get_after_with, with_stays_object, empty_has_no_member;

    reveal_strlit("plan_id");
    reveal_strlit("title");
    reveal_strlit("goal");
    reveal_strlit("idx");
    reveal_strlit("execution_mode");
}

/// A unit is changed exactly where no other mode than the two that there are
/// is named, and the change sends what was given.
pub proof fn unit_changes_say_what_was_given(
    id: String,
    title: Option<String>,
    goal: Option<String>,
    mode: Option<String>,
)
    ensures
        ({
            let asked = unit_request(UnitAction::Update { id, title, goal, mode });
            &&& asked is Err <==> mode is Some && mode->0@ != "sequential"@ && mode->0@
                != "parallel"@
            &&& asked matches Err(e) ==> e.code == 1
            &&& asked matches Ok(r) ==> {
                &&& r.method == Method::Patch
                &&& r.path == "/units/"@ + id@
                &&& says_if_given(r, "title"@, opt_string(title))
                &&& says_if_given(r, "goal"@, opt_string(goal))
                &&& says_if_given(r, "execution_mode"@, opt_string(mode))
            }
        }),
{
    broadcast use get_after_with, with_stays_object, empty_has_no_member;

    reveal_strlit("title");
    reveal_strlit("goal");
    reveal_strlit("execution_mode");
}

proof fn new_cycles_say_what_was_given_keys()
    ensures
        "project_id"@ != "title"@,
        "project_id"@ != "unit_id"@,
        "project_id"@ != "goal"@,
        "project_id"@ != "idx"@,
        "title"@ != "unit_id"@,
        "title"@ != "goal"@,
        "title"@ != "idx"@,
        "unit_id"@ != "goal"@,
        "unit_id"@ != "idx"@,
        "goal"@ != "idx"@,
{
    reveal_strlit("project_id");
    reveal_strlit("title");
    reveal_strlit("unit_id");
    reveal_strlit("goal");
    reveal_strlit("idx");
    assert("project_id"@.len() == 10);
    assert("title"@.len() == 5);
    assert("unit_id"@.len() == 7);
    assert("goal"@.len() == 4);
    assert("idx"@.len() == 3);
}

/// A new cycle is sent with its project, unit, title, goal and place.
pub proof fn new_cycles_say_what_was_given(
    title: String,
    project: String,
    unit: String,
    goal: Option<String>,
    idx: Option<i64>,
)
    ensures
        ({
            let r = cycle_request(CycleAction::Create { title, project, unit, goal, idx });
            &&& r.method == Method::Post
            &&& r.path == "/cycles"@
            &&& says(r, "project_id"@, project@)
            &&& says(r, "title"@, title@)
            &&& says(r, "unit_id"@, unit@)
            &&& says_or_null(r, "goal"@, opt_string(goal))
            &&& counts_or_null(r, "idx"@, as_int(idx))
        }),
{
    broadcast use get_after_with, with_stays_object, empty_has_no_member;

    new_cycles_say_what_was_given_keys();
}

proof fn cycle_changes_say_what_was_given_keys()
    ensures
        "title"@ != "goal"@,
        "title"@ != "status"@,
        "goal"@ != "status"@,
{
    reveal_strlit("title");
    reveal_strlit("goal");
    reveal_strlit("status");
    assert("title"@.len() == 5);
    assert("goal"@.len() == 4);
    assert("status"@.len() == 6);
}

/// A change to a cycle sends what was given and nothing else of it.
pub proof fn cycle_changes_say_what_was_given(
    id: String,
    title: Option<String>,
    goal: Option<String>,
    status: Option<String>,
)
    ensures
        ({
            let r = cycle_request(CycleAction::Update { id, title, goal, status });
            &&& r.method == Method::Patch
            &&& r.path == "/cycles/"@ + id@
            &&& says_if_given(r, "title"@, opt_string(title))
            &&& says_if_given(r, "goal"@, opt_string(goal))
            &&& says_if_given(r, "status"@, opt_string(status))
        }),
{
    broadcast use get_after_with, with_stays_object, empty_has_no_member;

    cycle_changes_say_what_was_given_keys();
}

proof fn new_tasks_say_what_was_given_keys()
    ensures
        "title"@ != "unit_id"@,
        "title"@ != "body"@,
        "title"@ != "assignee"@,
        "title"@ != "idx"@,
        "title"@ != "depends_on"@,
        "title"@ != "parent_task_id"@,
        "title"@ != "priority"@,
        "title"@ != "complexity"@,
        "title"@ != "estimated_edits"@,
        "title"@ != "cycle_id"@,
        "title"@ != "cwd"@,
        "title"@ != "type"@,
        "title"@ != "labels"@,
        "title"@ != "tier"@,
        "title"@ != "scenario_id"@,
        "title"@ != "evidence"@,
        "title"@ != "batch_id"@,
        "unit_id"@ != "body"@,
        "unit_id"@ != "assignee"@,
        "unit_id"@ != "idx"@,
        "unit_id"@ != "depends_on"@,
        "unit_id"@ != "parent_task_id"@,
        "unit_id"@ != "priority"@,
        "unit_id"@ != "complexity"@,
        "unit_id"@ != "estimated_edits"@,
        "unit_id"@ != "cycle_id"@,
        "unit_id"@ != "cwd"@,
        "unit_id"@ != "type"@,
        "unit_id"@ != "labels"@,
        "unit_id"@ != "tier"@,
        "unit_id"@ != "scenario_id"@,
        "unit_id"@ != "evidence"@,
        "unit_id"@ != "batch_id"@,
        "body"@ != "assignee"@,
        "body"@ != "idx"@,
        "body"@ != "depends_on"@,
        "body"@ != "parent_task_id"@,
        "body"@ != "priority"@,
        "body"@ != "complexity"@,
        "body"@ != "estimated_edits"@,
        "body"@ != "cycle_id"@,
        "body"@ != "cwd"@,
        "body"@ != "type"@,
        "body"@ != "labels"@,
        "body"@ != "tier"@,
        "body"@ != "scenario_id"@,
        "body"@ != "evidence"@,
        "body"@ != "batch_id"@,
        "assignee"@ != "idx"@,
        "assignee"@ != "depends_on"@,
        "assignee"@ != "parent_task_id"@,
        "assignee"@ != "priority"@,
        "assignee"@ != "complexity"@,
        "assignee"@ != "estimated_edits"@,
        "assignee"@ != "cycle_id"@,
        "assignee"@ != "cwd"@,
        "assignee"@ != "type"@,
        "assignee"@ != "labels"@,
        "assignee"@ != "tier"@,
        "assignee"@ != "scenario_id"@,
        "assignee"@ != "evidence"@,
        "assignee"@ != "batch_id"@,
        "idx"@ != "depends_on"@,
        "idx"@ != "parent_task_id"@,
        "idx"@ != "priority"@,
        "idx"@ != "complexity"@,
        "idx"@ != "estimated_edits"@,
        "idx"@ != "cycle_id"@,
        "idx"@ != "cwd"@,
        "idx"@ != "type"@,
        "idx"@ != "labels"@,
        "idx"@ != "tier"@,
        "idx"@ != "scenario_id"@,
        "idx"@ != "evidence"@,
        "idx"@ != "batch_id"@,
        "depends_on"@ != "parent_task_id"@,
        "depends_on"@ != "priority"@,
        "depends_on"@ != "complexity"@,
        "depends_on"@ != "estimated_edits"@,
        "depends_on"@ != "cycle_id"@,
        "depends_on"@ != "cwd"@,
        "depends_on"@ != "type"@,
        "depends_on"@ != "labels"@,
        "depends_on"@ != "tier"@,
        "depends_on"@ != "scenario_id"@,
        "depends_on"@ != "evidence"@,
        "depends_on"@ != "batch_id"@,
        "parent_task_id"@ != "priority"@,
        "parent_task_id"@ != "complexity"@,
        "parent_task_id"@ != "estimated_edits"@,
        "parent_task_id"@ != "cycle_id"@,
        "parent_task_id"@ != "cwd"@,
        "parent_task_id"@ != "type"@,
        "parent_task_id"@ != "labels"@,
        "parent_task_id"@ != "tier"@,
        "parent_task_id"@ != "scenario_id"@,
        "parent_task_id"@ != "evidence"@,
        "parent_task_id"@ != "batch_id"@,
        "priority"@ != "complexity"@,
        "priority"@ != "estimated_edits"@,
        "priority"@ != "cycle_id"@,
        "priority"@ != "cwd"@,
        "priority"@ != "type"@,
        "priority"@ != "labels"@,
        "priority"@ != "tier"@,
        "priority"@ != "scenario_id"@,
        "priority"@ != "evidence"@,
        "priority"@ != "batch_id"@,
        "complexity"@ != "estimated_edits"@,
        "complexity"@ != "cycle_id"@,
        "complexity"@ != "cwd"@,
        "complexity"@ != "type"@,
        "complexity"@ != "labels"@,
        "complexity"@ != "tier"@,
        "complexity"@ != "scenario_id"@,
        "complexity"@ != "evidence"@,
        "complexity"@ != "batch_id"@,
        "estimated_edits"@ != "cycle_id"@,
        "estimated_edits"@ != "cwd"@,
        "estimated_edits"@ != "type"@,
        "estimated_edits"@ != "labels"@,
        "estimated_edits"@ != "tier"@,
        "estimated_edits"@ != "scenario_id"@,
        "estimated_edits"@ != "evidence"@,
        "estimated_edits"@ != "batch_id"@,
        "cycle_id"@ != "cwd"@,
        "cycle_id"@ != "type"@,
        "cycle_id"@ != "labels"@,
        "cycle_id"@ != "tier"@,
        "cycle_id"@ != "scenario_id"@,
        "cycle_id"@ != "evidence"@,
        "cycle_id"@ != "batch_id"@,
        "cwd"@ != "type"@,
        "cwd"@ != "labels"@,
        "cwd"@ != "tier"@,
        "cwd"@ != "scenario_id"@,
        "cwd"@ != "evidence"@,
        "cwd"@ != "batch_id"@,
        "type"@ != "labels"@,
        "type"@ != "tier"@,
        "type"@ != "scenario_id"@,
        "type"@ != "evidence"@,
        "type"@ != "batch_id"@,
        "labels"@ != "tier"@,
        "labels"@ != "scenario_id"@,
        "labels"@ != "evidence"@,
        "labels"@ != "batch_id"@,
        "tier"@ != "scenario_id"@,
        "tier"@ != "evidence"@,
        "tier"@ != "batch_id"@,
        "scenario_id"@ != "evidence"@,
        "scenario_id"@ != "batch_id"@,
        "evidence"@ != "batch_id"@,
{
    reveal_strlit("title");
    reveal_strlit("unit_id");
    reveal_strlit("body");
    reveal_strlit("assignee");
    reveal_strlit("idx");
    reveal_strlit("depends_on");
    reveal_strlit("parent_task_id");
    reveal_strlit("priority");
    reveal_strlit("complexity");
    reveal_strlit("estimated_edits");
    reveal_strlit("cycle_id");
    reveal_strlit("cwd");
    reveal_strlit("type");
    reveal_strlit("labels");
    reveal_strlit("tier");
    reveal_strlit("scenario_id");
    reveal_strlit("evidence");
    reveal_strlit("batch_id");
    assert("title"@.len() == 5);
    assert("unit_id"@.len() == 7);
    assert("body"@.len() == 4);
    assert("assignee"@.len() == 8);
    assert("idx"@.len() == 3);
    assert("depends_on"@.len() == 10);
    assert("parent_task_id"@.len() == 14);
    assert("priority"@.len() == 8);
    assert("complexity"@.len() == 10);
    assert("estimated_edits"@.len() == 15);
    assert("cycle_id"@.len() == 8);
    assert("cwd"@.len() == 3);
    assert("type"@.len() == 4);
    assert("labels"@.len() == 6);
    assert("tier"@.len() == 4);
    assert("scenario_id"@.len() == 11);
    assert("evidence"@.len() == 8);
    assert("batch_id"@.len() == 8);
    assert("body"@[0] != "type"@[0]);
    assert("body"@[0] != "tier"@[0]);
    assert("assignee"@[0] != "priority"@[0]);
    assert("assignee"@[0] != "cycle_id"@[0]);
    assert("assignee"@[0] != "evidence"@[0]);
    assert("assignee"@[0] != "batch_id"@[0]);
    assert("idx"@[0] != "cwd"@[0]);
    assert("depends_on"@[0] != "complexity"@[0]);
    assert("priority"@[0] != "cycle_id"@[0]);
    assert("priority"@[0] != "evidence"@[0]);
    assert("priority"@[0] != "batch_id"@[0]);
    assert("cycle_id"@[0] != "evidence"@[0]);
    assert("cycle_id"@[0] != "batch_id"@[0]);
    assert("type"@[1] != "tier"@[1]);
    assert("evidence"@[0] != "batch_id"@[0]);
}

/// A new task is sent with everything that was given of it.
#[verifier::rlimit(60)]
pub proof fn new_tasks_say_what_was_given(
    title: String,
    unit: Option<String>,
    body: Option<String>,
    assignee: Option<String>,
    idx: Option<i64>,
    depends_on: Vec<String>,
    parent_task: Option<String>,
    priority: String,
    complexity: Option<String>,
    estimated_edits: Option<i64>,
    cycle: Option<String>,
    kind: String,
    label: Vec<String>,
    tier: Option<String>,
    scenario_id: Option<String>,
    evidence: Option<String>,
    batch_id: Option<String>,
    here: Option<Seq<char>>,
)
    ensures
        ({
            let r = task_request(TaskAction::Create {
                    title,
                    unit,
                    body,
                    assignee,
                    idx,
                    depends_on,
                    parent_task,
                    priority,
                    complexity,
                    estimated_edits,
                    cycle,
                    kind,
                    label,
                    tier,
                    scenario_id,
                    evidence,
                    batch_id,
                }, here);
            &&& r.method == Method::Post
            &&& r.path == "/tasks"@
            &&& says(r, "title"@, title@)
            &&& says_or_null(r, "unit_id"@, opt_string(unit))
            &&& says(r, "body"@, (if body is Some {
                body->0@
            } else {
                Seq::empty()
            }))
            &&& says_or_null(r, "assignee"@, opt_string(assignee))
            &&& counts_or_null(r, "idx"@, as_int(idx))
            &&& lists(r, "depends_on"@, texts(depends_on@))
            &&& says_or_null(r, "parent_task_id"@, opt_string(parent_task))
            &&& says(r, "priority"@, priority@)
            &&& says_or_null(r, "complexity"@, opt_string(complexity))
            &&& counts_or_null(r, "estimated_edits"@, as_int(estimated_edits))
            &&& says_or_null(r, "cycle_id"@, opt_string(cycle))
            &&& says_or_null(r, "cwd"@, here)
            &&& says(r, "type"@, kind@)
            &&& (label@.len() > 0 ==> lists(r, "labels"@, texts(label@)))
            &&& (label@.len() == 0 ==> r.body->0.get("labels"@) == Some(JsonView::Null))
            &&& says_or_null(r, "tier"@, opt_string(tier))
            &&& says_or_null(r, "scenario_id"@, opt_string(scenario_id))
            &&& says_or_null(r, "evidence"@, opt_string(evidence))
            &&& says_or_null(r, "batch_id"@, opt_string(batch_id))
        }),
{
    broadcast use get_after_with, with_stays_object, empty_has_no_member;

    new_tasks_say_what_was_given_keys();
    assert(texts(label@).len() == label@.len());
}

proof fn task_changes_say_what_was_given_keys()
    ensures
        "title"@ != "body"@,
        "title"@ != "status"@,
        "title"@ != "assignee"@,
        "title"@ != "_session_id"@,
        "title"@ != "_agent"@,
        "title"@ != "priority"@,
        "title"@ != "complexity"@,
        "title"@ != "estimated_edits"@,
        "title"@ != "parent_task_id"@,
        "title"@ != "cycle_id"@,
        "title"@ != "agent_id"@,
        "title"@ != "_comment"@,
        "title"@ != "_author"@,
        "title"@ != "tier"@,
        "title"@ != "scenario_id"@,
        "title"@ != "evidence"@,
        "title"@ != "batch_id"@,
        "body"@ != "status"@,
        "body"@ != "assignee"@,
        "body"@ != "_session_id"@,
        "body"@ != "_agent"@,
        "body"@ != "priority"@,
        "body"@ != "complexity"@,
        "body"@ != "estimated_edits"@,
        "body"@ != "parent_task_id"@,
        "body"@ != "cycle_id"@,
        "body"@ != "agent_id"@,
        "body"@ != "_comment"@,
        "body"@ != "_author"@,
        "body"@ != "tier"@,
        "body"@ != "scenario_id"@,
        "body"@ != "evidence"@,
        "body"@ != "batch_id"@,
        "status"@ != "assignee"@,
        "status"@ != "_session_id"@,
        "status"@ != "_agent"@,
        "status"@ != "priority"@,
        "status"@ != "complexity"@,
        "status"@ != "estimated_edits"@,
        "status"@ != "parent_task_id"@,
        "status"@ != "cycle_id"@,
        "status"@ != "agent_id"@,
        "status"@ != "_comment"@,
        "status"@ != "_author"@,
        "status"@ != "tier"@,
        "status"@ != "scenario_id"@,
        "status"@ != "evidence"@,
        "status"@ != "batch_id"@,
        "assignee"@ != "_session_id"@,
        "assignee"@ != "_agent"@,
        "assignee"@ != "priority"@,
        "assignee"@ != "complexity"@,
        "assignee"@ != "estimated_edits"@,
        "assignee"@ != "parent_task_id"@,
        "assignee"@ != "cycle_id"@,
        "assignee"@ != "agent_id"@,
        "assignee"@ != "_comment"@,
        "assignee"@ != "_author"@,
        "assignee"@ != "tier"@,
        "assignee"@ != "scenario_id"@,
        "assignee"@ != "evidence"@,
        "assignee"@ != "batch_id"@,
        "_session_id"@ != "_agent"@,
        "_session_id"@ != "priority"@,
        "_session_id"@ != "complexity"@,
        "_session_id"@ != "estimated_edits"@,
        "_session_id"@ != "parent_task_id"@,
        "_session_id"@ != "cycle_id"@,
        "_session_id"@ != "agent_id"@,
        "_session_id"@ != "_comment"@,
        "_session_id"@ != "_author"@,
        "_session_id"@ != "tier"@,
        "_session_id"@ != "scenario_id"@,
        "_session_id"@ != "evidence"@,
        "_session_id"@ != "batch_id"@,
        "_agent"@ != "priority"@,
        "_agent"@ != "complexity"@,
        "_agent"@ != "estimated_edits"@,
        "_agent"@ != "parent_task_id"@,
        "_agent"@ != "cycle_id"@,
        "_agent"@ != "agent_id"@,
        "_agent"@ != "_comment"@,
        "_agent"@ != "_author"@,
        "_agent"@ != "tier"@,
        "_agent"@ != "scenario_id"@,
        "_agent"@ != "evidence"@,
        "_agent"@ != "batch_id"@,
        "priority"@ != "complexity"@,
        "priority"@ != "estimated_edits"@,
        "priority"@ != "parent_task_id"@,
        "priority"@ != "cycle_id"@,
        "priority"@ != "agent_id"@,
        "priority"@ != "_comment"@,
        "priority"@ != "_author"@,
        "priority"@ != "tier"@,
        "priority"@ != "scenario_id"@,
        "priority"@ != "evidence"@,
        "priority"@ != "batch_id"@,
        "complexity"@ != "estimated_edits"@,
        "complexity"@ != "parent_task_id"@,
        "complexity"@ != "cycle_id"@,
        "complexity"@ != "agent_id"@,
        "complexity"@ != "_comment"@,
        "complexity"@ != "_author"@,
        "complexity"@ != "tier"@,
        "complexity"@ != "scenario_id"@,
        "complexity"@ != "evidence"@,
        "complexity"@ != "batch_id"@,
        "estimated_edits"@ != "parent_task_id"@,
        "estimated_edits"@ != "cycle_id"@,
        "estimated_edits"@ != "agent_id"@,
        "estimated_edits"@ != "_comment"@,
        "estimated_edits"@ != "_author"@,
        "estimated_edits"@ != "tier"@,
        "estimated_edits"@ != "scenario_id"@,
        "estimated_edits"@ != "evidence"@,
        "estimated_edits"@ != "batch_id"@,
        "parent_task_id"@ != "cycle_id"@,
        "parent_task_id"@ != "agent_id"@,
        "parent_task_id"@ != "_comment"@,
        "parent_task_id"@ != "_author"@,
        "parent_task_id"@ != "tier"@,
        "parent_task_id"@ != "scenario_id"@,
        "parent_task_id"@ != "evidence"@,
        "parent_task_id"@ != "batch_id"@,
        "cycle_id"@ != "agent_id"@,
        "cycle_id"@ != "_comment"@,
        "cycle_id"@ != "_author"@,
        "cycle_id"@ != "tier"@,
        "cycle_id"@ != "scenario_id"@,
        "cycle_id"@ != "evidence"@,
        "cycle_id"@ != "batch_id"@,
        "agent_id"@ != "_comment"@,
        "agent_id"@ != "_author"@,
        "agent_id"@ != "tier"@,
        "agent_id"@ != "scenario_id"@,
        "agent_id"@ != "evidence"@,
        "agent_id"@ != "batch_id"@,
        "_comment"@ != "_author"@,
        "_comment"@ != "tier"@,
        "_comment"@ != "scenario_id"@,
        "_comment"@ != "evidence"@,
        "_comment"@ != "batch_id"@,
        "_author"@ != "tier"@,
        "_author"@ != "scenario_id"@,
        "_author"@ != "evidence"@,
        "_author"@ != "batch_id"@,
        "tier"@ != "scenario_id"@,
        "tier"@ != "evidence"@,
        "tier"@ != "batch_id"@,
        "scenario_id"@ != "evidence"@,
        "scenario_id"@ != "batch_id"@,
        "evidence"@ != "batch_id"@,
{
    reveal_strlit("title");
    reveal_strlit("body");
    reveal_strlit("status");
    reveal_strlit("assignee");
    reveal_strlit("_session_id");
    reveal_strlit("_agent");
    reveal_strlit("priority");
    reveal_strlit("complexity");
    reveal_strlit("estimated_edits");
    reveal_strlit("parent_task_id");
    reveal_strlit("cycle_id");
    reveal_strlit("agent_id");
    reveal_strlit("_comment");
    reveal_strlit("_author");
    reveal_strlit("tier");
    reveal_strlit("scenario_id");
    reveal_strlit("evidence");
    reveal_strlit("batch_id");
    assert("title"@.len() == 5);
    assert("body"@.len() == 4);
    assert("status"@.len() == 6);
    assert("assignee"@.len() == 8);
    assert("_session_id"@.len() == 11);
    assert("_agent"@.len() == 6);
    assert("priority"@.len() == 8);
    assert("complexity"@.len() == 10);
    assert("estimated_edits"@.len() == 15);
    assert("parent_task_id"@.len() == 14);
    assert("cycle_id"@.len() == 8);
    assert("agent_id"@.len() == 8);
    assert("_comment"@.len() == 8);
    assert("_author"@.len() == 7);
    assert("tier"@.len() == 4);
    assert("scenario_id"@.len() == 11);
    assert("evidence"@.len() == 8);
    assert("batch_id"@.len() == 8);
    assert("body"@[0] != "tier"@[0]);
    assert("status"@[0] != "_agent"@[0]);
    assert("assignee"@[0] != "priority"@[0]);
    assert("assignee"@[0] != "cycle_id"@[0]);
    assert("assignee"@[1] != "agent_id"@[1]);
    assert("assignee"@[0] != "_comment"@[0]);
    assert("assignee"@[0] != "evidence"@[0]);
    assert("assignee"@[0] != "batch_id"@[0]);
    assert("_session_id"@[0] != "scenario_id"@[0]);
    assert("priority"@[0] != "cycle_id"@[0]);
    assert("priority"@[0] != "agent_id"@[0]);
    assert("priority"@[0] != "_comment"@[0]);
    assert("priority"@[0] != "evidence"@[0]);
    assert("priority"@[0] != "batch_id"@[0]);
    assert("cycle_id"@[0] != "agent_id"@[0]);
    assert("cycle_id"@[0] != "_comment"@[0]);
    assert("cycle_id"@[0] != "evidence"@[0]);
    assert("cycle_id"@[0] != "batch_id"@[0]);
    assert("agent_id"@[0] != "_comment"@[0]);
    assert("agent_id"@[0] != "evidence"@[0]);
    assert("agent_id"@[0] != "batch_id"@[0]);
    assert("_comment"@[0] != "evidence"@[0]);
    assert("_comment"@[0] != "batch_id"@[0]);
    assert("evidence"@[0] != "batch_id"@[0]);
}

/// A change to a task sends what was given and nothing else of it, in the name of
/// who makes it; a comment comes with its author, the assignee where one is given.
#[verifier::rlimit(60)]
pub proof fn task_changes_say_what_was_given(
    id: String,
    title: Option<String>,
    body: Option<String>,
    status: Option<String>,
    assignee: Option<String>,
    session_id: Option<String>,
    agent: String,
    priority: Option<String>,
    complexity: Option<String>,
    estimated_edits: Option<i64>,
    parent_task: Option<String>,
    cycle: Option<String>,
    agent_id: Option<String>,
    comment: Option<String>,
    tier: Option<String>,
    scenario_id: Option<String>,
    evidence: Option<String>,
    batch_id: Option<String>,
    here: Option<Seq<char>>,
)
    ensures
        ({
            let r = task_request(TaskAction::Update {
                    id,
                    title,
                    body,
                    status,
                    assignee,
                    session_id,
                    agent,
                    priority,
                    complexity,
                    estimated_edits,
                    parent_task,
                    cycle,
                    agent_id,
                    comment,
                    tier,
                    scenario_id,
                    evidence,
                    batch_id,
                }, here);
            &&& r.method == Method::Patch
            &&& r.path == "/tasks/"@ + id@
            &&& says_if_given(r, "title"@, opt_string(title))
            &&& says_if_given(r, "body"@, opt_string(body))
            &&& says_if_given(r, "status"@, opt_string(status))
            &&& says_if_given(r, "assignee"@, opt_string(assignee))
            &&& says_if_given(r, "_session_id"@, opt_string(session_id))
            &&& says(r, "_agent"@, agent@)
            &&& says_if_given(r, "priority"@, opt_string(priority))
            &&& says_if_given(r, "complexity"@, opt_string(complexity))
            &&& counts_if_given(r, "estimated_edits"@, as_int(estimated_edits))
            &&& says_if_given(r, "parent_task_id"@, opt_string(parent_task))
            &&& says_if_given(r, "cycle_id"@, opt_string(cycle))
            &&& says_if_given(r, "agent_id"@, opt_string(agent_id))
            &&& says_if_given(r, "_comment"@, opt_string(comment))
            &&& says_if_given(
                r,
                "_author"@,
                if comment is Some {
                    given_or(assignee, Some(agent@))
                } else {
                    None
                },
            )
            &&& says_if_given(r, "tier"@, opt_string(tier))
            &&& says_if_given(r, "scenario_id"@, opt_string(scenario_id))
            &&& says_if_given(r, "evidence"@, opt_string(evidence))
            &&& says_if_given(r, "batch_id"@, opt_string(batch_id))
        }),
{
    broadcast use empty_has_no_member;

    task_changes_say_what_was_given_keys();
    let j0 = empty_object();
    let j1 = j0.with_text("title"@, opt_string(title));
    given_text(j0, "title"@, opt_string(title));
    let j2 = j1.with_text("body"@, opt_string(body));
    given_text(j1, "body"@, opt_string(body));
    let j3 = j2.with_text("status"@, opt_string(status));
    given_text(j2, "status"@, opt_string(status));
    let j4 = j3.with_text("assignee"@, opt_string(assignee));
    given_text(j3, "assignee"@, opt_string(assignee));
    let j5 = j4.with_text("_session_id"@, opt_string(session_id));
    given_text(j4, "_session_id"@, opt_string(session_id));
    let j6 = j5.with("_agent"@, JsonView::Text(agent@));
    set_text(j5, "_agent"@, agent@);
    let j7 = j6.with_text("priority"@, opt_string(priority));
    given_text(j6, "priority"@, opt_string(priority));
    let j8 = j7.with_text("complexity"@, opt_string(complexity));
    given_text(j7, "complexity"@, opt_string(complexity));
    let j9 = with_int(j8, "estimated_edits"@, estimated_edits);
    given_number(j8, "estimated_edits"@, estimated_edits);
    let j10 = j9.with_text("parent_task_id"@, opt_string(parent_task));
    given_text(j9, "parent_task_id"@, opt_string(parent_task));
    let j11 = j10.with_text("cycle_id"@, opt_string(cycle));
    given_text(j10, "cycle_id"@, opt_string(cycle));
    let j12 = j11.with_text("agent_id"@, opt_string(agent_id));
    given_text(j11, "agent_id"@, opt_string(agent_id));
    let author = given_or(assignee, Some(agent@));
    let j13 = match comment {
        Some(c) => j12.with("_comment"@, JsonView::Text(c@)).with_text("_author"@, author),
        None => j12,
    };
    if let Some(c) = comment {
        set_text(j12, "_comment"@, c@);
        given_text(j12.with("_comment"@, JsonView::Text(c@)), "_author"@, author);
    }
    let j14 = j13.with_text("tier"@, opt_string(tier));
    given_text(j13, "tier"@, opt_string(tier));
    let j15 = j14.with_text("scenario_id"@, opt_string(scenario_id));
    given_text(j14, "scenario_id"@, opt_string(scenario_id));
    let j16 = j15.with_text("evidence"@, opt_string(evidence));
    given_text(j15, "evidence"@, opt_string(evidence));
    let j17 = j16.with_text("batch_id"@, opt_string(batch_id));
    given_text(j16, "batch_id"@, opt_string(batch_id));
}

proof fn completing_moves_to_done_keys()
    ensures
        "status"@ != "_agent"@,
        "status"@ != "_comment"@,
        "status"@ != "_author"@,
        "status"@ != "evidence"@,
        "_agent"@ != "_comment"@,
        "_agent"@ != "_author"@,
        "_agent"@ != "evidence"@,
        "_comment"@ != "_author"@,
        "_comment"@ != "evidence"@,
        "_author"@ != "evidence"@,
{
    reveal_strlit("status");
    reveal_strlit("_agent");
    reveal_strlit("_comment");
    reveal_strlit("_author");
    reveal_strlit("evidence");
    assert("status"@.len() == 6);
    assert("_agent"@.len() == 6);
    assert("_comment"@.len() == 8);
    assert("_author"@.len() == 7);
    assert("evidence"@.len() == 8);
    assert("status"@[0] != "_agent"@[0]);
    assert("_comment"@[0] != "evidence"@[0]);
}

/// Completing a task moves it to `done`, with its evidence.
pub proof fn completing_moves_to_done(
    id: String,
    evidence: String,
    comment: Option<String>,
    agent: String,
    here: Option<Seq<char>>,
)
    ensures
        ({
            let r = task_request(TaskAction::Complete { id, evidence, comment, agent }, here);
            &&& r.method == Method::Patch
            &&& r.path == "/tasks/"@ + id@
            &&& says(r, "status"@, "done"@)
            &&& says(r, "_agent"@, agent@)
            &&& says_if_given(r, "_comment"@, opt_string(comment))
            &&& says_if_given(
                r,
                "_author"@,
                if comment is Some {
                    Some(agent@)
                } else {
                    None
                },
            )
            &&& says(r, "evidence"@, evidence@)
        }),
{
    broadcast use get_after_with, with_stays_object, empty_has_no_member;

    completing_moves_to_done_keys();
}

proof fn cancelling_moves_to_cancelled_keys()
    ensures
        "status"@ != "_agent"@,
        "status"@ != "_comment"@,
        "status"@ != "_author"@,
        "status"@ != "evidence"@,
        "_agent"@ != "_comment"@,
        "_agent"@ != "_author"@,
        "_agent"@ != "evidence"@,
        "_comment"@ != "_author"@,
        "_comment"@ != "evidence"@,
        "_author"@ != "evidence"@,
{
    reveal_strlit("status");
    reveal_strlit("_agent");
    reveal_strlit("_comment");
    reveal_strlit("_author");
    reveal_strlit("evidence");
    assert("status"@.len() == 6);
    assert("_agent"@.len() == 6);
    assert("_comment"@.len() == 8);
    assert("_author"@.len() == 7);
    assert("evidence"@.len() == 8);
    assert("status"@[0] != "_agent"@[0]);
    assert("_comment"@[0] != "evidence"@[0]);
}

/// Cancelling a task moves it to `cancelled`.
pub proof fn cancelling_moves_to_cancelled(
    id: String,
    reason: Option<String>,
    agent: String,
    here: Option<Seq<char>>,
)
    ensures
        ({
            let r = task_request(TaskAction::Cancel { id, reason, agent }, here);
            &&& r.method == Method::Patch
            &&& r.path == "/tasks/"@ + id@
            &&& says(r, "status"@, "cancelled"@)
            &&& says(r, "_agent"@, agent@)
            &&& says_if_given(r, "_comment"@, opt_string(reason))
            &&& says_if_given(
                r,
                "_author"@,
                if reason is Some {
                    Some(agent@)
                } else {
                    None
                },
            )
            &&& says_if_given(r, "evidence"@, None)
        }),
{
    broadcast use get_after_with, with_stays_object, empty_has_no_member;

    cancelling_moves_to_cancelled_keys();
}

proof fn blocking_moves_to_blocked_keys()
    ensures
        "status"@ != "_agent"@,
        "status"@ != "_comment"@,
        "status"@ != "_author"@,
        "status"@ != "evidence"@,
        "_agent"@ != "_comment"@,
        "_agent"@ != "_author"@,
        "_agent"@ != "evidence"@,
        "_comment"@ != "_author"@,
        "_comment"@ != "evidence"@,
        "_author"@ != "evidence"@,
{
    reveal_strlit("status");
    reveal_strlit("_agent");
    reveal_strlit("_comment");
    reveal_strlit("_author");
    reveal_strlit("evidence");
    assert("status"@.len() == 6);
    assert("_agent"@.len() == 6);
    assert("_comment"@.len() == 8);
    assert("_author"@.len() == 7);
    assert("evidence"@.len() == 8);
    assert("status"@[0] != "_agent"@[0]);
    assert("_comment"@[0] != "evidence"@[0]);
}

/// Blocking a task moves it to `blocked`.
pub proof fn blocking_moves_to_blocked(
    id: String,
    reason: Option<String>,
    agent: String,
    here: Option<Seq<char>>,
)
    ensures
        ({
            let r = task_request(TaskAction::Block { id, reason, agent }, here);
            &&& r.method == Method::Patch
            &&& r.path == "/tasks/"@ + id@
            &&& says(r, "status"@, "blocked"@)
            &&& says(r, "_agent"@, agent@)
            &&& says_if_given(r, "_comment"@, opt_string(reason))
            &&& says_if_given(
                r,
                "_author"@,
                if reason is Some {
                    Some(agent@)
                } else {
                    None
                },
            )
            &&& says_if_given(r, "evidence"@, None)
        }),
{
    broadcast use get_after_with, with_stays_object, empty_has_no_member;

    blocking_moves_to_blocked_keys();
}

proof fn unblocking_moves_to_todo_keys()
    ensures
        "status"@ != "_agent"@,
        "status"@ != "_comment"@,
        "status"@ != "_author"@,
        "status"@ != "evidence"@,
        "_agent"@ != "_comment"@,
        "_agent"@ != "_author"@,
        "_agent"@ != "evidence"@,
        "_comment"@ != "_author"@,
        "_comment"@ != "evidence"@,
        "_author"@ != "evidence"@,
{
    reveal_strlit("status");
    reveal_strlit("_agent");
    reveal_strlit("_comment");
    reveal_strlit("_author");
    reveal_strlit("evidence");
    assert("status"@.len() == 6);
    assert("_agent"@.len() == 6);
    assert("_comment"@.len() == 8);
    assert("_author"@.len() == 7);
    assert("evidence"@.len() == 8);
    assert("status"@[0] != "_agent"@[0]);
    assert("_comment"@[0] != "evidence"@[0]);
}

/// Unblocking a task moves it to `todo`.
pub proof fn unblocking_moves_to_todo(
    id: String,
    comment: Option<String>,
    agent: String,
    here: Option<Seq<char>>,
)
    ensures
        ({
            let r = task_request(TaskAction::Unblock { id, comment, agent }, here);
            &&& r.method == Method::Patch
            &&& r.path == "/tasks/"@ + id@
            &&& says(r, "status"@, "todo"@)
            &&& says(r, "_agent"@, agent@)
            &&& says_if_given(r, "_comment"@, opt_string(comment))
            &&& says_if_given(
                r,
                "_author"@,
                if comment is Some {
                    Some(agent@)
                } else {
                    None
                },
            )
            &&& says_if_given(r, "evidence"@, None)
        }),
{
    broadcast use get_after_with, with_stays_object, empty_has_no_member;

    unblocking_moves_to_todo_keys();
}

/// More text for a task goes to its body.
pub proof fn more_text_goes_to_the_body(id: String, text: String, here: Option<Seq<char>>)
    ensures
        ({
            let r = task_request(TaskAction::AppendBody { id, text }, here);
            &&& r.method == Method::Post
            &&& r.path == "/tasks/"@ + id@ + "/body"@
            &&& says(r, "text"@, text@)
        }),
{
    broadcast use get_after_with, with_stays_object, empty_has_no_member;

}

proof fn new_entries_say_what_was_given_keys()
    ensures
        "type"@ != "title"@,
        "type"@ != "task_id"@,
        "type"@ != "unit_id"@,
        "type"@ != "plan_id"@,
        "type"@ != "content"@,
        "type"@ != "content_format"@,
        "type"@ != "parent_id"@,
        "title"@ != "task_id"@,
        "title"@ != "unit_id"@,
        "title"@ != "plan_id"@,
        "title"@ != "content"@,
        "title"@ != "content_format"@,
        "title"@ != "parent_id"@,
        "task_id"@ != "unit_id"@,
        "task_id"@ != "plan_id"@,
        "task_id"@ != "content"@,
        "task_id"@ != "content_format"@,
        "task_id"@ != "parent_id"@,
        "unit_id"@ != "plan_id"@,
        "unit_id"@ != "content"@,
        "unit_id"@ != "content_format"@,
        "unit_id"@ != "parent_id"@,
        "plan_id"@ != "content"@,
        "plan_id"@ != "content_format"@,
        "plan_id"@ != "parent_id"@,
        "content"@ != "content_format"@,
        "content"@ != "parent_id"@,
        "content_format"@ != "parent_id"@,
{
    reveal_strlit("type");
    reveal_strlit("title");
    reveal_strlit("task_id");
    reveal_strlit("unit_id");
    reveal_strlit("plan_id");
    reveal_strlit("content");
    reveal_strlit("content_format");
    reveal_strlit("parent_id");
    assert("type"@.len() == 4);
    assert("title"@.len() == 5);
    assert("task_id"@.len() == 7);
    assert("unit_id"@.len() == 7);
    assert("plan_id"@.len() == 7);
    assert("content"@.len() == 7);
    assert("content_format"@.len() == 14);
    assert("parent_id"@.len() == 9);
    assert("task_id"@[0] != "unit_id"@[0]);
    assert("task_id"@[0] != "plan_id"@[0]);
    assert("task_id"@[0] != "content"@[0]);
    assert("unit_id"@[0] != "plan_id"@[0]);
    assert("unit_id"@[0] != "content"@[0]);
    assert("plan_id"@[0] != "content"@[0]);
}

/// A new knowledge entry is sent with everything that was given of it.
pub proof fn new_entries_say_what_was_given(
    title: String,
    kind: String,
    task: Option<String>,
    unit: Option<String>,
    plan: Option<String>,
    content: Option<String>,
    content_format: String,
    parent: Option<String>,
)
    ensures
        ({
            let r = artifact_request(ArtifactAction::Create {
                    title,
                    kind,
                    task,
                    unit,
                    plan,
                    content,
                    content_format,
                    parent,
                });
            &&& r.method == Method::Post
            &&& r.path == "/knowledge"@
            &&& says(r, "type"@, kind@)
            &&& says(r, "title"@, title@)
            &&& says_or_null(r, "task_id"@, opt_string(task))
            &&& says_or_null(r, "unit_id"@, opt_string(unit))
            &&& says_or_null(r, "plan_id"@, opt_string(plan))
            &&& says(r, "content"@, (if content is Some {
                content->0@
            } else {
                Seq::empty()
            }))
            &&& says(r, "content_format"@, content_format@)
            &&& says_or_null(r, "parent_id"@, opt_string(parent))
        }),
{
    broadcast use get_after_with, with_stays_object, empty_has_no_member;

    new_entries_say_what_was_given_keys();
}

proof fn entry_changes_say_what_was_given_keys()
    ensures
        "title"@ != "content"@,
        "title"@ != "content_format"@,
        "title"@ != "created_by"@,
        "content"@ != "content_format"@,
        "content"@ != "created_by"@,
        "content_format"@ != "created_by"@,
{
    reveal_strlit("title");
    reveal_strlit("content");
    reveal_strlit("content_format");
    reveal_strlit("created_by");
    assert("title"@.len() == 5);
    assert("content"@.len() == 7);
    assert("content_format"@.len() == 14);
    assert("created_by"@.len() == 10);
}

/// A change to a knowledge entry sends what was given and nothing else of it.
pub proof fn entry_changes_say_what_was_given(
    id: String,
    title: Option<String>,
    content: Option<String>,
    content_format: Option<String>,
    created_by: Option<String>,
)
    ensures
        ({
            let r = artifact_request(ArtifactAction::Update { id, title, content, content_format, created_by });
            &&& r.method == Method::Patch
            &&& r.path == "/knowledge/"@ + id@
            &&& says_if_given(r, "title"@, opt_string(title))
            &&& says_if_given(r, "content"@, opt_string(content))
            &&& says_if_given(r, "content_format"@, opt_string(content_format))
            &&& says_if_given(r, "created_by"@, opt_string(created_by))
        }),
{
    broadcast use get_after_with, with_stays_object, empty_has_no_member;

    entry_changes_say_what_was_given_keys();
}

proof fn entry_imports_say_what_was_given_keys()
    ensures
        "cwd"@ != "plan_id"@,
        "cwd"@ != "unit_id"@,
        "cwd"@ != "dry_run"@,
        "plan_id"@ != "unit_id"@,
        "plan_id"@ != "dry_run"@,
        "unit_id"@ != "dry_run"@,
{
    reveal_strlit("cwd");
    reveal_strlit("plan_id");
    reveal_strlit("unit_id");
    reveal_strlit("dry_run");
    assert("cwd"@.len() == 3);
    assert("plan_id"@.len() == 7);
    assert("unit_id"@.len() == 7);
    assert("dry_run"@.len() == 7);
    assert("plan_id"@[0] != "unit_id"@[0]);
    assert("plan_id"@[0] != "dry_run"@[0]);
    assert("unit_id"@[0] != "dry_run"@[0]);
}

/// Knowledge is imported from the directory that is named.
pub proof fn entry_imports_say_what_was_given(
    cwd: String,
    plan: Option<String>,
    unit: Option<String>,
    dry_run: bool,
)
    ensures
        ({
            let r = artifact_request(ArtifactAction::Import { cwd, plan, unit, dry_run });
            &&& r.method == Method::Post
            &&& r.path == "/knowledge/import"@
            &&& says(r, "cwd"@, cwd@)
            &&& says_or_null(r, "plan_id"@, opt_string(plan))
            &&& says_or_null(r, "unit_id"@, opt_string(unit))
            &&& flags(r, "dry_run"@, dry_run)
        }),
{
    broadcast use get_after_with, with_stays_object, empty_has_no_member;

    entry_imports_say_what_was_given_keys();
}

proof fn entry_exports_say_what_was_given_keys()
    ensures
        "cwd"@ != "plan_id"@,
        "cwd"@ != "unit_id"@,
        "plan_id"@ != "unit_id"@,
{
    reveal_strlit("cwd");
    reveal_strlit("plan_id");
    reveal_strlit("unit_id");
    assert("cwd"@.len() == 3);
    assert("plan_id"@.len() == 7);
    assert("unit_id"@.len() == 7);
    assert("plan_id"@[0] != "unit_id"@[0]);
}

/// Knowledge is exported to the directory that is named.
pub proof fn entry_exports_say_what_was_given(
    cwd: String,
    plan: Option<String>,
    unit: Option<String>,
)
    ensures
        ({
            let r = artifact_request(ArtifactAction::Export { cwd, plan, unit });
            &&& r.method == Method::Post
            &&& r.path == "/knowledge/export"@
            &&& says(r, "cwd"@, cwd@)
            &&& says_or_null(r, "plan_id"@, opt_string(plan))
            &&& says_or_null(r, "unit_id"@, opt_string(unit))
        }),
{
    broadcast use get_after_with, with_stays_object, empty_has_no_member;

    entry_exports_say_what_was_given_keys();
}

proof fn new_runs_say_what_was_given_keys()
    ensures
        "task_id"@ != "session_id"@,
        "task_id"@ != "agent"@,
        "session_id"@ != "agent"@,
{
    reveal_strlit("task_id");
    reveal_strlit("session_id");
    reveal_strlit("agent");
    assert("task_id"@.len() == 7);
    assert("session_id"@.len() == 10);
    assert("agent"@.len() == 5);
}

/// A run is started on its task, in its session, by its agent.
pub proof fn new_runs_say_what_was_given(task: String, session_id: Option<String>, agent: String)
    ensures
        ({
            let r = run_request(RunAction::Start { task, session_id, agent });
            &&& r.method == Method::Post
            &&& r.path == "/runs"@
            &&& says(r, "task_id"@, task@)
            &&& says_or_null(r, "session_id"@, opt_string(session_id))
            &&& says(r, "agent"@, agent@)
        }),
{
    broadcast use get_after_with, with_stays_object, empty_has_no_member;

    new_runs_say_what_was_given_keys();
}

proof fn finished_runs_say_what_was_given_keys()
    ensures
        "result"@ != "notes"@,
{
    reveal_strlit("result");
    reveal_strlit("notes");
    assert("result"@.len() == 6);
    assert("notes"@.len() == 5);
}

/// A run is finished with its result and notes.
pub proof fn finished_runs_say_what_was_given(id: String, result: String, notes: Option<String>)
    ensures
        ({
            let r = run_request(RunAction::Finish { id, result, notes });
            &&& r.method == Method::Post
            &&& r.path == "/runs/"@ + id@ + "/finish"@
            &&& says(r, "result"@, result@)
            &&& says_or_null(r, "notes"@, opt_string(notes))
        }),
{
    broadcast use get_after_with, with_stays_object, empty_has_no_member;

    finished_runs_say_what_was_given_keys();
}

proof fn new_questions_say_what_was_given_keys()
    ensures
        "plan_id"@ != "unit_id"@,
        "plan_id"@ != "task_id"@,
        "plan_id"@ != "kind"@,
        "plan_id"@ != "origin"@,
        "plan_id"@ != "body"@,
        "plan_id"@ != "asked_by"@,
        "unit_id"@ != "task_id"@,
        "unit_id"@ != "kind"@,
        "unit_id"@ != "origin"@,
        "unit_id"@ != "body"@,
        "unit_id"@ != "asked_by"@,
        "task_id"@ != "kind"@,
        "task_id"@ != "origin"@,
        "task_id"@ != "body"@,
        "task_id"@ != "asked_by"@,
        "kind"@ != "origin"@,
        "kind"@ != "body"@,
        "kind"@ != "asked_by"@,
        "origin"@ != "body"@,
        "origin"@ != "asked_by"@,
        "body"@ != "asked_by"@,
{
    reveal_strlit("plan_id");
    reveal_strlit("unit_id");
    reveal_strlit("task_id");
    reveal_strlit("kind");
    reveal_strlit("origin");
    reveal_strlit("body");
    reveal_strlit("asked_by");
    assert("plan_id"@.len() == 7);
    assert("unit_id"@.len() == 7);
    assert("task_id"@.len() == 7);
    assert("kind"@.len() == 4);
    assert("origin"@.len() == 6);
    assert("body"@.len() == 4);
    assert("asked_by"@.len() == 8);
    assert("plan_id"@[0] != "unit_id"@[0]);
    assert("plan_id"@[0] != "task_id"@[0]);
    assert("unit_id"@[0] != "task_id"@[0]);
    assert("kind"@[0] != "body"@[0]);
}

/// A question is sent with what it is about, of which kind it is, and who asks.
pub proof fn new_questions_say_what_was_given(
    body: String,
    plan: Option<String>,
    unit: Option<String>,
    task: Option<String>,
    kind: String,
    origin: String,
    asked_by: String,
)
    ensures
        ({
            let r = question_request(QuestionAction::Create { body, plan, unit, task, kind, origin, asked_by });
            &&& r.method == Method::Post
            &&& r.path == "/questions"@
            &&& says_or_null(r, "plan_id"@, opt_string(plan))
            &&& says_or_null(r, "unit_id"@, opt_string(unit))
            &&& says_or_null(r, "task_id"@, opt_string(task))
            &&& says(r, "kind"@, kind@)
            &&& says(r, "origin"@, origin@)
            &&& says(r, "body"@, body@)
            &&& says(r, "asked_by"@, asked_by@)
        }),
{
    broadcast use get_after_with, with_stays_object, empty_has_no_member;

    new_questions_say_what_was_given_keys();
}

proof fn answers_say_what_was_given_keys()
    ensures
        "answer"@ != "answered_by"@,
{
    reveal_strlit("answer");
    reveal_strlit("answered_by");
    assert("answer"@.len() == 6);
    assert("answered_by"@.len() == 11);
}

/// An answer is sent with who answers.
pub proof fn answers_say_what_was_given(id: String, text: String, by: String)
    ensures
        ({
            let r = question_request(QuestionAction::Answer { id, text, by });
            &&& r.method == Method::Post
            &&& r.path == "/questions/"@ + id@ + "/answer"@
            &&& says(r, "answer"@, text@)
            &&& says(r, "answered_by"@, by@)
        }),
{
    broadcast use get_after_with, with_stays_object, empty_has_no_member;

    answers_say_what_was_given_keys();
}

/// A setting is assigned the value under its key.
pub proof fn assignments_say_what_was_given(key: String, value: String)
    ensures
        ({
            let r = config_request(ConfigAction::Assign { key, value });
            &&& r.method == Method::Put
            &&& r.path == "/config/"@ + url_encoded(key@)
            &&& says(r, "value"@, value@)
        }),
{
    broadcast use get_after_with, with_stays_object, empty_has_no_member;

}

proof fn backups_say_what_was_given_keys()
    ensures
        "output"@ != "project_id"@,
{
    reveal_strlit("output");
    reveal_strlit("project_id");
    assert("output"@.len() == 6);
    assert("project_id"@.len() == 10);
}

/// A backup is sent with its file and project.
pub proof fn backups_say_what_was_given(output: Option<String>, project: Option<String>)
    ensures
        ({
            let r = backup_request(output, project);
            &&& r.method == Method::Post
            &&& r.path == "/backup"@
            &&& says_or_null(r, "output"@, opt_string(output))
            &&& says_or_null(r, "project_id"@, opt_string(project))
        }),
{
    broadcast use get_after_with, with_stays_object, empty_has_no_member;

    backups_say_what_was_given_keys();
}

proof fn restores_say_what_was_given_keys()
    ensures
        "input"@ != "merge"@,
        "input"@ != "dry_run"@,
        "merge"@ != "dry_run"@,
{
    reveal_strlit("input");
    reveal_strlit("merge");
    reveal_strlit("dry_run");
    assert("input"@.len() == 5);
    assert("merge"@.len() == 5);
    assert("dry_run"@.len() == 7);
    assert("input"@[0] != "merge"@[0]);
}

/// A restore is sent with its file and whether it merges or only tries.
pub proof fn restores_say_what_was_given(input: String, merge: bool, dry_run: bool)
    ensures
        ({
            let r = restore_request(input, merge, dry_run);
            &&& r.method == Method::Post
            &&& r.path == "/restore"@
            &&& says(r, "input"@, input@)
            &&& flags(r, "merge"@, merge)
            &&& flags(r, "dry_run"@, dry_run)
        }),
{
    broadcast use get_after_with, with_stays_object, empty_has_no_member;

    restores_say_what_was_given_keys();
}

/// A migration is sent with whether it only tries.
pub proof fn migrations_say_what_was_given(dry_run: bool)
    ensures
        ({
            let r = migrate_request(dry_run);
            &&& r.method == Method::Post
            &&& r.path == "/migrate"@
            &&& flags(r, "dry_run"@, dry_run)
        }),
{
    broadcast use get_after_with, with_stays_object, empty_has_no_member;

}

proof fn updates_say_what_was_given_keys()
    ensures
        "dry_run"@ != "version"@,
{
    reveal_strlit("dry_run");
    reveal_strlit("version");
    assert("dry_run"@.len() == 7);
    assert("version"@.len() == 7);
    assert("dry_run"@[0] != "version"@[0]);
}

/// An update of the program is sent with its version and whether it only tries.
pub proof fn updates_say_what_was_given(dry_run: bool, version: Option<String>)
    ensures
        ({
            let r = update_request(dry_run, version);
            &&& r.method == Method::Post
            &&& r.path == "/self-update"@
            &&& flags(r, "dry_run"@, dry_run)
            &&& says_or_null(r, "version"@, opt_string(version))
        }),
{
    broadcast use get_after_with, with_stays_object, empty_has_no_member;

    updates_say_what_was_given_keys();
}

proof fn discoveries_say_what_was_given_keys()
    ensures
        "project_id"@ != "domain"@,
        "project_id"@ != "round"@,
        "project_id"@ != "unit_areas"@,
        "project_id"@ != "description"@,
        "domain"@ != "round"@,
        "domain"@ != "unit_areas"@,
        "domain"@ != "description"@,
        "round"@ != "unit_areas"@,
        "round"@ != "description"@,
        "unit_areas"@ != "description"@,
{
    reveal_strlit("project_id");
    reveal_strlit("domain");
    reveal_strlit("round");
    reveal_strlit("unit_areas");
    reveal_strlit("description");
    assert("project_id"@.len() == 10);
    assert("domain"@.len() == 6);
    assert("round"@.len() == 5);
    assert("unit_areas"@.len() == 10);
    assert("description"@.len() == 11);
    assert("project_id"@[0] != "unit_areas"@[0]);
}

/// A discovery is started for its project and domain, with its round and areas.
pub proof fn discoveries_say_what_was_given(
    project: String,
    domain: String,
    round: u32,
    areas: Vec<String>,
    description: Option<String>,
)
    ensures
        ({
            let r = discover_request(DiscoverAction::Start { project, domain, round, areas, description });
            &&& r.method == Method::Post
            &&& r.path == "/discover-loop/start"@
            &&& says(r, "project_id"@, project@)
            &&& says(r, "domain"@, domain@)
            &&& counts(r, "round"@, round as int)
            &&& lists(r, "unit_areas"@, texts(areas@))
            &&& says_or_null(r, "description"@, opt_string(description))
        }),
{
    broadcast use get_after_with, with_stays_object, empty_has_no_member;

    discoveries_say_what_was_given_keys();
}

proof fn rounds_say_what_was_given_keys()
    ensures
        "previous_plan_id"@ != "domain"@,
        "previous_plan_id"@ != "unit_areas"@,
        "previous_plan_id"@ != "round"@,
        "domain"@ != "unit_areas"@,
        "domain"@ != "round"@,
        "unit_areas"@ != "round"@,
{
    reveal_strlit("previous_plan_id");
    reveal_strlit("domain");
    reveal_strlit("unit_areas");
    reveal_strlit("round");
    assert("previous_plan_id"@.len() == 16);
    assert("domain"@.len() == 6);
    assert("unit_areas"@.len() == 10);
    assert("round"@.len() == 5);
}

/// A further round is started after its plan.
pub proof fn rounds_say_what_was_given(
    previous_plan: String,
    domain: Option<String>,
    areas: Option<Vec<String>>,
    round: Option<u32>,
)
    ensures
        ({
            let r = discover_request(DiscoverAction::NextRound { previous_plan, domain, areas, round });
            &&& r.method == Method::Post
            &&& r.path == "/discover-loop/next-round"@
            &&& says(r, "previous_plan_id"@, previous_plan@)
            &&& says_or_null(r, "domain"@, opt_string(domain))
            &&& (areas matches Some(v) ==> lists(r, "unit_areas"@, texts(v@)))
            &&& (areas is None ==> r.body->0.get("unit_areas"@) == Some(JsonView::Null))
            &&& (round matches Some(n) ==> counts(r, "round"@, n as int))
            &&& (round is None ==> r.body->0.get("round"@) == Some(JsonView::Null))
        }),
{
    broadcast use get_after_with, with_stays_object, empty_has_no_member;

    rounds_say_what_was_given_keys();
}

/// Rows are checked as they are sent.
pub proof fn checked_rows_are_sent(tsv: String)
    ensures
        ({
            let r = discover_request(DiscoverAction::VerifyTsv { tsv });
            &&& r.method == Method::Post
            &&& r.path == "/discover-loop/verify-tsv"@
            &&& says(r, "tsv"@, tsv@)
        }),
{
    broadcast use get_after_with, with_stays_object, empty_has_no_member;

}

proof fn syncs_say_what_was_given_keys()
    ensures
        "tsv"@ != "unit_id"@,
        "tsv"@ != "cycle_id"@,
        "tsv"@ != "assignee"@,
        "unit_id"@ != "cycle_id"@,
        "unit_id"@ != "assignee"@,
        "cycle_id"@ != "assignee"@,
{
    reveal_strlit("tsv");
    reveal_strlit("unit_id");
    reveal_strlit("cycle_id");
    reveal_strlit("assignee");
    assert("tsv"@.len() == 3);
    assert("unit_id"@.len() == 7);
    assert("cycle_id"@.len() == 8);
    assert("assignee"@.len() == 8);
    assert("cycle_id"@[0] != "assignee"@[0]);
}

/// Rows are taken over into their unit and cycle.
pub proof fn syncs_say_what_was_given(
    tsv: String,
    unit: String,
    cycle: String,
    assignee: Option<String>,
)
    ensures
        ({
            let r = discover_request(DiscoverAction::Sync { tsv, unit, cycle, assignee });
            &&& r.method == Method::Post
            &&& r.path == "/discover-loop/sync"@
            &&& says(r, "tsv"@, tsv@)
            &&& says(r, "unit_id"@, unit@)
            &&& says(r, "cycle_id"@, cycle@)
            &&& says_or_null(r, "assignee"@, opt_string(assignee))
        }),
{
    broadcast use get_after_with, with_stays_object, empty_has_no_member;

    syncs_say_what_was_given_keys();
}

proof fn new_comments_say_what_was_given_keys()
    ensures
        "author"@ != "body"@,
        "author"@ != "task_id"@,
        "author"@ != "unit_id"@,
        "author"@ != "plan_id"@,
        "author"@ != "label"@,
        "body"@ != "task_id"@,
        "body"@ != "unit_id"@,
        "body"@ != "plan_id"@,
        "body"@ != "label"@,
        "task_id"@ != "unit_id"@,
        "task_id"@ != "plan_id"@,
        "task_id"@ != "label"@,
        "unit_id"@ != "plan_id"@,
        "unit_id"@ != "label"@,
        "plan_id"@ != "label"@,
{
    reveal_strlit("author");
    reveal_strlit("body");
    reveal_strlit("task_id");
    reveal_strlit("unit_id");
    reveal_strlit("plan_id");
    reveal_strlit("label");
    assert("author"@.len() == 6);
    assert("body"@.len() == 4);
    assert("task_id"@.len() == 7);
    assert("unit_id"@.len() == 7);
    assert("plan_id"@.len() == 7);
    assert("label"@.len() == 5);
    assert("task_id"@[0] != "unit_id"@[0]);
    assert("task_id"@[0] != "plan_id"@[0]);
    assert("unit_id"@[0] != "plan_id"@[0]);
}

/// A comment is sent with its author and what it is on.
pub proof fn new_comments_say_what_was_given(
    body: String,
    task: Option<String>,
    unit: Option<String>,
    plan: Option<String>,
    author: String,
    label: Option<String>,
)
    ensures
        ({
            let r = comment_request(CommentAction::Create { body, task, unit, plan, author, label });
            &&& r.method == Method::Post
            &&& r.path == "/comments"@
            &&& says(r, "author"@, author@)
            &&& says(r, "body"@, body@)
            &&& says_or_null(r, "task_id"@, opt_string(task))
            &&& says_or_null(r, "unit_id"@, opt_string(unit))
            &&& says_or_null(r, "plan_id"@, opt_string(plan))
            &&& says_or_null(r, "label"@, opt_string(label))
        }),
{
    broadcast use get_after_with, with_stays_object, empty_has_no_member;

    new_comments_say_what_was_given_keys();
}

/// A comment is changed to the new text.
pub proof fn comment_changes_say_what_was_given(id: String, body: String)
    ensures
        ({
            let r = comment_request(CommentAction::Update { id, body });
            &&& r.method == Method::Patch
            &&& r.path == "/comments/"@ + id@
            &&& says(r, "body"@, body@)
        }),
{
    broadcast use get_after_with, with_stays_object, empty_has_no_member;

}

/// Switching a project off sends a zero.
pub proof fn disabling_switches_off(id: String, here: Option<Seq<char>>)
    ensures
        ({
            let r = project_request(ProjectAction::Disable { id }, here);
            &&& r.method == Method::Patch
            &&& r.path == "/projects/"@ + id@
            &&& counts(r, "enabled"@, 0)
        }),
{
    broadcast use get_after_with, with_stays_object, empty_has_no_member;

}

/// Switching a project on sends a one.
pub proof fn enabling_switches_on(id: String, here: Option<Seq<char>>)
    ensures
        ({
            let r = project_request(ProjectAction::Enable { id }, here);
            &&& r.method == Method::Patch
            &&& r.path == "/projects/"@ + id@
            &&& counts(r, "enabled"@, 1)
        }),
{
    broadcast use get_after_with, with_stays_object, empty_has_no_member;

}

/// A directory is added to a project: the one that is named, else the current one.
pub proof fn added_directories_are_sent(id: String, path: Option<String>, here: Option<Seq<char>>)
    ensures
        ({
            let r = project_request(ProjectAction::CwdAdd { id, path }, here);
            &&& r.method == Method::Post
            &&& r.path == "/projects/"@ + id@ + "/cwds"@
            &&& says_or_null(r, "cwd"@, given_or(path, here))
        }),
{
    broadcast use get_after_with, with_stays_object, empty_has_no_member;

}

/// A directory is taken from a project where it was added.
pub proof fn removed_directories_are_sent(id: String, path: String, here: Option<Seq<char>>)
    ensures
        ({
            let r = project_request(ProjectAction::CwdRemove { id, path }, here);
            &&& r.method == Method::Delete
            &&& r.path == "/projects/"@ + id@ + "/cwds"@
            &&& says(r, "cwd"@, path@)
        }),
{
    broadcast use get_after_with, with_stays_object, empty_has_no_member;

}

/// Completing a plan moves it to `completed`.
pub proof fn completing_a_plan_moves_it(id: String, here: Option<Seq<char>>)
    ensures
        ({
            let r = plan_request(PlanAction::Complete { id }, here);
            &&& r.method == Method::Patch
            &&& r.path == "/plans/"@ + id@
            &&& says(r, "status"@, "completed"@)
        }),
{
    broadcast use get_after_with, with_stays_object, empty_has_no_member;

}

/// Completing a cycle moves it to `completed`.
pub proof fn completing_a_cycle_moves_it(id: String)
    ensures
        ({
            let r = cycle_request(CycleAction::Complete { id });
            &&& r.method == Method::Patch
            &&& r.path == "/cycles/"@ + id@
            &&& says(r, "status"@, "completed"@)
        }),
{
    broadcast use get_after_with, with_stays_object, empty_has_no_member;

}

/// Things are viewed under the path of their kind and their identifier.
pub proof fn views_name_their_thing(id: String, here: Option<Seq<char>>)
    ensures
        bare(
            project_request(ProjectAction::View { id }, here),
            Method::Get,
            "/projects/"@ + id@,
        ),
        bare(
            project_request(ProjectAction::CwdList { id }, here),
            Method::Get,
            "/projects/"@ + id@,
        ),
        bare(
            plan_request(PlanAction::View { id }, here),
            Method::Get,
            "/plans/"@ + id@,
        ),
        unit_request(UnitAction::View { id }) matches Ok(r) && bare(
            r,
            Method::Get,
            "/units/"@ + id@,
        ),
        bare(
            cycle_request(CycleAction::View { id }),
            Method::Get,
            "/cycles/"@ + id@,
        ),
        bare(
            task_request(TaskAction::View { id }, here),
            Method::Get,
            "/tasks/"@ + id@,
        ),
        bare(
            artifact_request(ArtifactAction::View { id }),
            Method::Get,
            "/knowledge/"@ + id@,
        ),
        bare(
            run_request(RunAction::View { id }),
            Method::Get,
            "/runs/"@ + id@,
        ),
        bare(
            question_request(QuestionAction::View { id }),
            Method::Get,
            "/questions/"@ + id@,
        ),
{
}

/// Things are deleted under the path under which they are viewed.
pub proof fn deletions_name_their_thing(id: String, here: Option<Seq<char>>)
    ensures
        bare(
            project_request(ProjectAction::Delete { id }, here),
            Method::Delete,
            "/projects/"@ + id@,
        ),
        bare(
            plan_request(PlanAction::Delete { id }, here),
            Method::Delete,
            "/plans/"@ + id@,
        ),
        unit_request(UnitAction::Delete { id }) matches Ok(r) && bare(
            r,
            Method::Delete,
            "/units/"@ + id@,
        ),
        bare(
            cycle_request(CycleAction::Delete { id }),
            Method::Delete,
            "/cycles/"@ + id@,
        ),
        bare(
            task_request(TaskAction::Delete { id }, here),
            Method::Delete,
            "/tasks/"@ + id@,
        ),
        bare(
            artifact_request(ArtifactAction::Delete { id }),
            Method::Delete,
            "/knowledge/"@ + id@,
        ),
        bare(
            comment_request(CommentAction::Delete { id }),
            Method::Delete,
            "/comments/"@ + id@,
        ),
        bare(
            config_request(ConfigAction::Unset { key: id }),
            Method::Delete,
            "/config/"@ + url_encoded(id@),
        ),
{
}

/// Plans are approved and cycles activated under their own paths, and the other
/// requests without anything to send go to theirs.
pub proof fn bare_requests_go_to_their_path(id: String, here: Option<Seq<char>>)
    ensures
        bare(
            plan_request(PlanAction::Approve { id }, here),
            Method::Post,
            "/plans/"@ + id@ + "/approve"@,
        ),
        bare(
            cycle_request(CycleAction::Activate { id }),
            Method::Post,
            "/cycles/"@ + id@ + "/activate"@,
        ),
        bare(
            project_request(ProjectAction::List, here),
            Method::Get,
            "/projects"@,
        ),
        bare(
            project_request(ProjectAction::Resolve { cwd: id }, here),
            Method::Get,
            "/projects/by-cwd"@ + id@,
        ),
        bare(
            config_request(ConfigAction::Get { key: id }),
            Method::Get,
            "/config/"@ + url_encoded(id@),
        ),
        bare(
            config_request(ConfigAction::List),
            Method::Get,
            "/config"@,
        ),
        bare(
            discover_request(DiscoverAction::BatchId),
            Method::Post,
            "/discover-loop/batch-id"@,
        ),
        bare(
            discover_request(DiscoverAction::Rounds { project: id }),
            Method::Get,
            "/discover-loop/rounds/"@ + url_encoded(id@),
        ),
{
}

proof fn plans_are_listed_by_what_was_given_names()
    ensures
        !"/plans"@.contains('?'),
        is_name("project_id"@),
        is_name("status"@),
        "project_id"@ != "status"@,
{
    reveal_strlit("/plans");
    reveal_strlit("project_id");
    reveal_strlit("status");
    assert("project_id"@.len() == 10);
    assert("status"@.len() == 6);
}

/// Plans are listed by project and status.
pub proof fn plans_are_listed_by_what_was_given(
    project: Option<String>,
    status: Option<String>,
    here: Option<Seq<char>>,
)
    ensures
        ({
            let r = plan_request(PlanAction::List { project, status }, here);
            &&& r.method == Method::Get
            &&& r.body is None
            &&& resource(r.path) == "/plans"@
            &&& asked_for(r.path, "project_id"@) == opt_string(project)
            &&& asked_for(r.path, "status"@) == opt_string(status)
        }),
{
    plans_are_listed_by_what_was_given_names();
    let base = "/plans"@;
    no_query_asks_nothing(base);
    let q0 = Seq::<char>::empty();
    let q1 = with_param(q0, "project_id"@, opt_string(project));
    param_is_read_back(base, q0, "project_id"@, opt_string(project));
    let q2 = with_param(q1, "status"@, opt_string(status));
    param_is_read_back(base, q1, "status"@, opt_string(status));
}

proof fn units_are_listed_by_plan_names()
    ensures
        !"/units"@.contains('?'),
        is_name("plan_id"@),
{
    reveal_strlit("/units");
    reveal_strlit("plan_id");
    assert("plan_id"@.len() == 7);
}

/// Units are listed by plan.
pub proof fn units_are_listed_by_plan(plan: Option<String>)
    ensures
        unit_request(UnitAction::List { plan }) matches Ok(r) && {
            &&& r.method == Method::Get
            &&& r.body is None
            &&& resource(r.path) == "/units"@
            &&& asked_for(r.path, "plan_id"@) == opt_string(plan)
        },
{
    units_are_listed_by_plan_names();
    let base = "/units"@;
    no_query_asks_nothing(base);
    let q0 = Seq::<char>::empty();
    let q1 = with_param(q0, "plan_id"@, opt_string(plan));
    param_is_read_back(base, q0, "plan_id"@, opt_string(plan));
}

proof fn cycles_are_listed_by_what_was_given_names()
    ensures
        !"/cycles"@.contains('?'),
        is_name("project_id"@),
        is_name("status"@),
        "project_id"@ != "status"@,
{
    reveal_strlit("/cycles");
    reveal_strlit("project_id");
    reveal_strlit("status");
    assert("project_id"@.len() == 10);
    assert("status"@.len() == 6);
}

/// Cycles are listed by project and status.
pub proof fn cycles_are_listed_by_what_was_given(project: Option<String>, status: Option<String>)
    ensures
        ({
            let r = cycle_request(CycleAction::List { project, status });
            &&& r.method == Method::Get
            &&& r.body is None
            &&& resource(r.path) == "/cycles"@
            &&& asked_for(r.path, "project_id"@) == opt_string(project)
            &&& asked_for(r.path, "status"@) == opt_string(status)
        }),
{
    cycles_are_listed_by_what_was_given_names();
    let base = "/cycles"@;
    no_query_asks_nothing(base);
    let q0 = Seq::<char>::empty();
    let q1 = with_param(q0, "project_id"@, opt_string(project));
    param_is_read_back(base, q0, "project_id"@, opt_string(project));
    let q2 = with_param(q1, "status"@, opt_string(status));
    param_is_read_back(base, q1, "status"@, opt_string(status));
}

proof fn entries_are_listed_by_what_was_given_names()
    ensures
        !"/knowledge"@.contains('?'),
        is_name("task_id"@),
        is_name("unit_id"@),
        is_name("plan_id"@),
        is_name("type"@),
        "task_id"@ != "unit_id"@,
        "task_id"@ != "plan_id"@,
        "task_id"@ != "type"@,
        "unit_id"@ != "plan_id"@,
        "unit_id"@ != "type"@,
        "plan_id"@ != "type"@,
{
    reveal_strlit("/knowledge");
    reveal_strlit("task_id");
    reveal_strlit("unit_id");
    reveal_strlit("plan_id");
    reveal_strlit("type");
    assert("task_id"@.len() == 7);
    assert("unit_id"@.len() == 7);
    assert("plan_id"@.len() == 7);
    assert("type"@.len() == 4);
    assert("task_id"@[0] != "unit_id"@[0]);
    assert("task_id"@[0] != "plan_id"@[0]);
    assert("unit_id"@[0] != "plan_id"@[0]);
}

/// Knowledge is listed by what it belongs to and by kind.
pub proof fn entries_are_listed_by_what_was_given(
    task: Option<String>,
    unit: Option<String>,
    plan: Option<String>,
    kind: Option<String>,
)
    ensures
        ({
            let r = artifact_request(ArtifactAction::List { task, unit, plan, kind });
            &&& r.method == Method::Get
            &&& r.body is None
            &&& resource(r.path) == "/knowledge"@
            &&& asked_for(r.path, "task_id"@) == opt_string(task)
            &&& asked_for(r.path, "unit_id"@) == opt_string(unit)
            &&& asked_for(r.path, "plan_id"@) == opt_string(plan)
            &&& asked_for(r.path, "type"@) == opt_string(kind)
        }),
{
    entries_are_listed_by_what_was_given_names();
    let base = "/knowledge"@;
    no_query_asks_nothing(base);
    let q0 = Seq::<char>::empty();
    let q1 = with_param(q0, "task_id"@, opt_string(task));
    param_is_read_back(base, q0, "task_id"@, opt_string(task));
    let q2 = with_param(q1, "unit_id"@, opt_string(unit));
    param_is_read_back(base, q1, "unit_id"@, opt_string(unit));
    let q3 = with_param(q2, "plan_id"@, opt_string(plan));
    param_is_read_back(base, q2, "plan_id"@, opt_string(plan));
    let q4 = with_param(q3, "type"@, opt_string(kind));
    param_is_read_back(base, q3, "type"@, opt_string(kind));
}

proof fn runs_are_listed_by_what_was_given_names()
    ensures
        !"/runs"@.contains('?'),
        is_name("task_id"@),
        is_name("session_id"@),
        "task_id"@ != "session_id"@,
{
    reveal_strlit("/runs");
    reveal_strlit("task_id");
    reveal_strlit("session_id");
    assert("task_id"@.len() == 7);
    assert("session_id"@.len() == 10);
}

/// Runs are listed by task and session.
pub proof fn runs_are_listed_by_what_was_given(task: Option<String>, session_id: Option<String>)
    ensures
        ({
            let r = run_request(RunAction::List { task, session_id });
            &&& r.method == Method::Get
            &&& r.body is None
            &&& resource(r.path) == "/runs"@
            &&& asked_for(r.path, "task_id"@) == opt_string(task)
            &&& asked_for(r.path, "session_id"@) == opt_string(session_id)
        }),
{
    runs_are_listed_by_what_was_given_names();
    let base = "/runs"@;
    no_query_asks_nothing(base);
    let q0 = Seq::<char>::empty();
    let q1 = with_param(q0, "task_id"@, opt_string(task));
    param_is_read_back(base, q0, "task_id"@, opt_string(task));
    let q2 = with_param(q1, "session_id"@, opt_string(session_id));
    param_is_read_back(base, q1, "session_id"@, opt_string(session_id));
}

proof fn comments_are_listed_by_what_was_given_names()
    ensures
        !"/comments"@.contains('?'),
        is_name("task_id"@),
        is_name("unit_id"@),
        is_name("plan_id"@),
        "task_id"@ != "unit_id"@,
        "task_id"@ != "plan_id"@,
        "unit_id"@ != "plan_id"@,
{
    reveal_strlit("/comments");
    reveal_strlit("task_id");
    reveal_strlit("unit_id");
    reveal_strlit("plan_id");
    assert("task_id"@.len() == 7);
    assert("unit_id"@.len() == 7);
    assert("plan_id"@.len() == 7);
    assert("task_id"@[0] != "unit_id"@[0]);
    assert("task_id"@[0] != "plan_id"@[0]);
    assert("unit_id"@[0] != "plan_id"@[0]);
}

/// Comments are listed by what they are on.
pub proof fn comments_are_listed_by_what_was_given(
    task: Option<String>,
    unit: Option<String>,
    plan: Option<String>,
)
    ensures
        ({
            let r = comment_request(CommentAction::List { task, unit, plan });
            &&& r.method == Method::Get
            &&& r.body is None
            &&& resource(r.path) == "/comments"@
            &&& asked_for(r.path, "task_id"@) == opt_string(task)
            &&& asked_for(r.path, "unit_id"@) == opt_string(unit)
            &&& asked_for(r.path, "plan_id"@) == opt_string(plan)
        }),
{
    comments_are_listed_by_what_was_given_names();
    let base = "/comments"@;
    no_query_asks_nothing(base);
    let q0 = Seq::<char>::empty();
    let q1 = with_param(q0, "task_id"@, opt_string(task));
    param_is_read_back(base, q0, "task_id"@, opt_string(task));
    let q2 = with_param(q1, "unit_id"@, opt_string(unit));
    param_is_read_back(base, q1, "unit_id"@, opt_string(unit));
    let q3 = with_param(q2, "plan_id"@, opt_string(plan));
    param_is_read_back(base, q2, "plan_id"@, opt_string(plan));
}

proof fn questions_are_listed_by_what_was_given_names()
    ensures
        !"/questions"@.contains('?'),
        is_name("plan_id"@),
        is_name("unit_id"@),
        is_name("task_id"@),
        is_name("pending"@),
        "plan_id"@ != "unit_id"@,
        "plan_id"@ != "task_id"@,
        "plan_id"@ != "pending"@,
        "unit_id"@ != "task_id"@,
        "unit_id"@ != "pending"@,
        "task_id"@ != "pending"@,
{
    reveal_strlit("/questions");
    reveal_strlit("plan_id");
    reveal_strlit("unit_id");
    reveal_strlit("task_id");
    reveal_strlit("pending");
    assert("plan_id"@.len() == 7);
    assert("unit_id"@.len() == 7);
    assert("task_id"@.len() == 7);
    assert("pending"@.len() == 7);
    assert("plan_id"@[0] != "unit_id"@[0]);
    assert("plan_id"@[0] != "task_id"@[0]);
    assert("plan_id"@[1] != "pending"@[1]);
    assert("unit_id"@[0] != "task_id"@[0]);
    assert("unit_id"@[0] != "pending"@[0]);
    assert("task_id"@[0] != "pending"@[0]);
}

/// Questions are listed by what they are on, and by whether they are open.
pub proof fn questions_are_listed_by_what_was_given(
    plan: Option<String>,
    unit: Option<String>,
    task: Option<String>,
    pending: Option<bool>,
)
    ensures
        ({
            let r = question_request(QuestionAction::List { plan, unit, task, pending });
            &&& r.method == Method::Get
            &&& r.body is None
            &&& resource(r.path) == "/questions"@
            &&& asked_for(r.path, "plan_id"@) == opt_string(plan)
            &&& asked_for(r.path, "unit_id"@) == opt_string(unit)
            &&& asked_for(r.path, "task_id"@) == opt_string(task)
            &&& asked_for(r.path, "pending"@) == (match pending {
                Some(true) => Some("true"@),
                Some(false) => Some("false"@),
                None => None,
            })
        }),
{
    questions_are_listed_by_what_was_given_names();
    let base = "/questions"@;
    no_query_asks_nothing(base);
    let q0 = Seq::<char>::empty();
    let q1 = with_param(q0, "plan_id"@, opt_string(plan));
    param_is_read_back(base, q0, "plan_id"@, opt_string(plan));
    let q2 = with_param(q1, "unit_id"@, opt_string(unit));
    param_is_read_back(base, q1, "unit_id"@, opt_string(unit));
    let q3 = with_param(q2, "task_id"@, opt_string(task));
    param_is_read_back(base, q2, "task_id"@, opt_string(task));
    let q4 = with_param(q3, "pending"@, (match pending {
                Some(true) => Some("true"@),
                Some(false) => Some("false"@),
                None => None,
            }));
    param_is_read_back(base, q3, "pending"@, (match pending {
                Some(true) => Some("true"@),
                Some(false) => Some("false"@),
                None => None,
            }));
}

/// What is asked of a project is asked of its resource, with that project.
pub proof fn project_pages_are_of_the_project(path: Seq<char>, project: Option<String>)
    requires
        !path.contains('?'),
    ensures
        ({
            let r = by_project(path, project);
            &&& r.method == Method::Get
            &&& r.body is None
            &&& resource(r.path) == path
            &&& asked_for(r.path, "project_id"@) == opt_string(project)
        }),
{
    reveal_strlit("project_id");
    no_query_asks_nothing(path);
    param_is_read_back(path, Seq::empty(), "project_id"@, opt_string(project));
}

proof fn events_are_of_what_was_given_names()
    ensures
        !"/events"@.contains('?'),
        is_name("project_id"@),
        is_name("task_id"@),
        is_name("cycle_id"@),
        "project_id"@ != "task_id"@,
        "project_id"@ != "cycle_id"@,
        "task_id"@ != "cycle_id"@,
{
    reveal_strlit("/events");
    reveal_strlit("project_id");
    reveal_strlit("task_id");
    reveal_strlit("cycle_id");
    assert("project_id"@.len() == 10);
    assert("task_id"@.len() == 7);
    assert("cycle_id"@.len() == 8);
}

/// Events are followed for what was given.
pub proof fn events_are_of_what_was_given(
    project: Option<String>,
    task: Option<String>,
    cycle: Option<String>,
)
    ensures
        ({
            let r = watch_request(project, task, cycle);
            &&& r.method == Method::Get
            &&& r.body is None
            &&& resource(r.path) == "/events"@
            &&& asked_for(r.path, "project_id"@) == opt_string(project)
            &&& asked_for(r.path, "task_id"@) == opt_string(task)
            &&& asked_for(r.path, "cycle_id"@) == opt_string(cycle)
        }),
{
    events_are_of_what_was_given_names();
    let base = "/events"@;
    no_query_asks_nothing(base);
    let q0 = Seq::<char>::empty();
    let q1 = with_param(q0, "project_id"@, opt_string(project));
    param_is_read_back(base, q0, "project_id"@, opt_string(project));
    let q2 = with_param(q1, "task_id"@, opt_string(task));
    param_is_read_back(base, q1, "task_id"@, opt_string(task));
    let q3 = with_param(q2, "cycle_id"@, opt_string(cycle));
    param_is_read_back(base, q2, "cycle_id"@, opt_string(cycle));
}

proof fn dashboards_are_of_the_directory_names()
    ensures
        !"/dashboard"@.contains('?'),
        is_name("cwd"@),
        is_name("show"@),
        "cwd"@ != "show"@,
{
    reveal_strlit("/dashboard");
    reveal_strlit("cwd");
    reveal_strlit("show");
    assert("cwd"@.len() == 3);
    assert("show"@.len() == 4);
}

/// The dashboard is that of the directory, and shows what was asked for.
pub proof fn dashboards_are_of_the_directory(cwd: String, show: String)
    ensures
        ({
            let r = dashboard_request(cwd, show);
            &&& r.method == Method::Get
            &&& r.body is None
            &&& resource(r.path) == "/dashboard"@
            &&& asked_for(r.path, "cwd"@) == Some(cwd@)
            &&& asked_for(r.path, "show"@) == Some(show@)
        }),
{
    dashboards_are_of_the_directory_names();
    reveal_strlit("/dashboard");
    reveal_strlit("cwd");
    reveal_strlit("show");
    reveal_strlit("?");
    reveal_strlit("&");
    reveal_strlit("=");
    reveal_strlit("/dashboard?cwd=");
    reveal_strlit("&show=");
    let base = "/dashboard"@;
    no_query_asks_nothing(base);
    let q0 = Seq::<char>::empty();
    let q1 = with_param(q0, "cwd"@, Some(cwd@));
    param_is_read_back(base, q0, "cwd"@, Some(cwd@));
    let q2 = with_param(q1, "show"@, Some(show@));
    param_is_read_back(base, q1, "show"@, Some(show@));
    assert(dashboard_request(cwd, show).path =~= base + q2);
}

proof fn replays_are_of_the_task_names()
    ensures
        !"/runs/replay"@.contains('?'),
        is_name("task_id"@),
        is_name("limit"@),
        "task_id"@ != "limit"@,
{
    reveal_strlit("/runs/replay");
    reveal_strlit("task_id");
    reveal_strlit("limit");
    assert("task_id"@.len() == 7);
    assert("limit"@.len() == 5);
}

/// A replay is of the task, and of as much as was asked for.
pub proof fn replays_are_of_the_task(task: String, limit: u32)
    ensures
        ({
            let r = replay_request(task, limit);
            &&& r.method == Method::Get
            &&& r.body is None
            &&& resource(r.path) == "/runs/replay"@
            &&& asked_for(r.path, "task_id"@) == Some(task@)
            &&& asked_for(r.path, "limit"@) == Some(dec(limit as nat))
        }),
{
    replays_are_of_the_task_names();
    reveal_strlit("/runs/replay");
    reveal_strlit("task_id");
    reveal_strlit("limit");
    reveal_strlit("?");
    reveal_strlit("&");
    reveal_strlit("=");
    reveal_strlit("/runs/replay?task_id=");
    reveal_strlit("&limit=");
    number_is_plain(limit as nat);
    let base = "/runs/replay"@;
    no_query_asks_nothing(base);
    let q0 = Seq::<char>::empty();
    let q1 = with_param(q0, "task_id"@, Some(task@));
    param_is_read_back(base, q0, "task_id"@, Some(task@));
    let q2 = with_param(q1, "limit"@, Some(dec(limit as nat)));
    param_is_read_back(base, q1, "limit"@, Some(dec(limit as nat)));
    assert(replay_request(task, limit).path =~= base + q2);
}

proof fn similar_tasks_are_of_what_was_given_names()
    ensures
        !"/tasks/similar"@.contains('?'),
        is_name("q"@),
        is_name("limit"@),
        is_name("project_id"@),
        "q"@ != "limit"@,
        "q"@ != "project_id"@,
        "limit"@ != "project_id"@,
{
    reveal_strlit("/tasks/similar");
    reveal_strlit("q");
    reveal_strlit("limit");
    reveal_strlit("project_id");
    assert("q"@.len() == 1);
    assert("limit"@.len() == 5);
    assert("project_id"@.len() == 10);
}

/// Similar tasks are searched by the query, in the project.
pub proof fn similar_tasks_are_of_what_was_given(query: String, limit: u32, project: Option<String>)
    ensures
        ({
            let r = find_similar_request(query, limit, project);
            &&& r.method == Method::Get
            &&& r.body is None
            &&& resource(r.path) == "/tasks/similar"@
            &&& asked_for(r.path, "q"@) == Some(query@)
            &&& asked_for(r.path, "limit"@) == Some(dec(limit as nat))
            &&& asked_for(r.path, "project_id"@) == opt_string(project)
        }),
{
    similar_tasks_are_of_what_was_given_names();
    reveal_strlit("/tasks/similar");
    reveal_strlit("q");
    reveal_strlit("limit");
    reveal_strlit("project_id");
    reveal_strlit("?");
    reveal_strlit("&");
    reveal_strlit("=");
    reveal_strlit("/tasks/similar?q=");
    reveal_strlit("&limit=");
    reveal_strlit("&project_id=");
    number_is_plain(limit as nat);
    let base = "/tasks/similar"@;
    no_query_asks_nothing(base);
    let q0 = Seq::<char>::empty();
    let q1 = with_param(q0, "q"@, Some(query@));
    param_is_read_back(base, q0, "q"@, Some(query@));
    let q2 = with_param(q1, "limit"@, Some(dec(limit as nat)));
    param_is_read_back(base, q1, "limit"@, Some(dec(limit as nat)));
    let q3 = with_param(q2, "project_id"@, opt_string(project));
    param_is_read_back(base, q2, "project_id"@, opt_string(project));
    assert(find_similar_request(query, limit, project).path =~= base + q3);
}

proof fn decisions_are_of_the_project_names()
    ensures
        !"/knowledge"@.contains('?'),
        is_name("type"@),
        is_name("project_id"@),
        "type"@ != "project_id"@,
{
    reveal_strlit("/knowledge");
    reveal_strlit("type");
    reveal_strlit("project_id");
    assert("type"@.len() == 4);
    assert("project_id"@.len() == 10);
}

/// Decisions are knowledge of that kind, of the project.
pub proof fn decisions_are_of_the_project(project: Option<String>)
    ensures
        ({
            let r = recent_decisions_request(project);
            &&& r.method == Method::Get
            &&& r.body is None
            &&& resource(r.path) == "/knowledge"@
            &&& asked_for(r.path, "type"@) == Some("decision"@)
            &&& asked_for(r.path, "project_id"@) == opt_string(project)
        }),
{
    decisions_are_of_the_project_names();
    reveal_strlit("/knowledge");
    reveal_strlit("type");
    reveal_strlit("project_id");
    reveal_strlit("?");
    reveal_strlit("&");
    reveal_strlit("=");
    reveal_strlit("/knowledge?type=decision");
    reveal_strlit("&project_id=");
    reveal_strlit("decision");
    plain_text("decision"@);
    let base = "/knowledge"@;
    no_query_asks_nothing(base);
    let q0 = Seq::<char>::empty();
    let q1 = with_param(q0, "type"@, Some("decision"@));
    param_is_read_back(base, q0, "type"@, Some("decision"@));
    let q2 = with_param(q1, "project_id"@, opt_string(project));
    param_is_read_back(base, q1, "project_id"@, opt_string(project));
    assert(recent_decisions_request(project).path =~= base + q2);
}

proof fn tasks_are_searched_by_what_was_given_names()
    ensures
        !"/tasks/search"@.contains('?'),
        is_name("q"@),
        is_name("mode"@),
        is_name("limit"@),
        "q"@ != "mode"@,
        "q"@ != "limit"@,
        "mode"@ != "limit"@,
{
    reveal_strlit("/tasks/search");
    reveal_strlit("q");
    reveal_strlit("mode");
    reveal_strlit("limit");
    assert("q"@.len() == 1);
    assert("mode"@.len() == 4);
    assert("limit"@.len() == 5);
}

/// Tasks are searched by the query, in the mode.
pub proof fn tasks_are_searched_by_what_was_given(
    query: String,
    mode: String,
    limit: u32,
    here: Option<Seq<char>>,
)
    ensures
        ({
            let r = task_request(TaskAction::Search { query, mode, limit }, here);
            &&& r.method == Method::Get
            &&& r.body is None
            &&& resource(r.path) == "/tasks/search"@
            &&& asked_for(r.path, "q"@) == Some(query@)
            &&& asked_for(r.path, "mode"@) == Some(mode@)
            &&& asked_for(r.path, "limit"@) == Some(dec(limit as nat))
        }),
{
    tasks_are_searched_by_what_was_given_names();
    reveal_strlit("/tasks/search");
    reveal_strlit("q");
    reveal_strlit("mode");
    reveal_strlit("limit");
    reveal_strlit("?");
    reveal_strlit("&");
    reveal_strlit("=");
    reveal_strlit("/tasks/search?q=");
    reveal_strlit("&mode=");
    reveal_strlit("&limit=");
    number_is_plain(limit as nat);
    let base = "/tasks/search"@;
    no_query_asks_nothing(base);
    let q0 = Seq::<char>::empty();
    let q1 = with_param(q0, "q"@, Some(query@));
    param_is_read_back(base, q0, "q"@, Some(query@));
    let q2 = with_param(q1, "mode"@, Some(mode@));
    param_is_read_back(base, q1, "mode"@, Some(mode@));
    let q3 = with_param(q2, "limit"@, Some(dec(limit as nat)));
    param_is_read_back(base, q2, "limit"@, Some(dec(limit as nat)));
    assert(task_request(TaskAction::Search { query, mode, limit }, here).path =~= base + q3);
}

proof fn entries_are_searched_by_what_was_given_names()
    ensures
        !"/knowledge/search"@.contains('?'),
        is_name("q"@),
        is_name("mode"@),
        is_name("limit"@),
        is_name("type"@),
        "q"@ != "mode"@,
        "q"@ != "limit"@,
        "q"@ != "type"@,
        "mode"@ != "limit"@,
        "mode"@ != "type"@,
        "limit"@ != "type"@,
{
    reveal_strlit("/knowledge/search");
    reveal_strlit("q");
    reveal_strlit("mode");
    reveal_strlit("limit");
    reveal_strlit("type");
    assert("q"@.len() == 1);
    assert("mode"@.len() == 4);
    assert("limit"@.len() == 5);
    assert("type"@.len() == 4);
    assert("mode"@[0] != "type"@[0]);
}

/// Knowledge is searched by the query and kind, in a mode without special
/// characters.
pub proof fn entries_are_searched_by_what_was_given(
    query: String,
    mode: String,
    kind: Option<String>,
    limit: u32,
)
    requires
        url_encoded(mode@) == mode@,
    ensures
        ({
            let r = artifact_request(ArtifactAction::Search { query, mode, kind, limit });
            &&& r.method == Method::Get
            &&& r.body is None
            &&& resource(r.path) == "/knowledge/search"@
            &&& asked_for(r.path, "q"@) == Some(query@)
            &&& asked_for(r.path, "mode"@) == Some(mode@)
            &&& asked_for(r.path, "limit"@) == Some(dec(limit as nat))
            &&& asked_for(r.path, "type"@) == opt_string(kind)
        }),
{
    entries_are_searched_by_what_was_given_names();
    reveal_strlit("/knowledge/search");
    reveal_strlit("q");
    reveal_strlit("mode");
    reveal_strlit("limit");
    reveal_strlit("type");
    reveal_strlit("?");
    reveal_strlit("&");
    reveal_strlit("=");
    reveal_strlit("/knowledge/search?q=");
    reveal_strlit("&mode=");
    reveal_strlit("&limit=");
    reveal_strlit("&type=");
    number_is_plain(limit as nat);
    let base = "/knowledge/search"@;
    no_query_asks_nothing(base);
    let q0 = Seq::<char>::empty();
    let q1 = with_param(q0, "q"@, Some(query@));
    param_is_read_back(base, q0, "q"@, Some(query@));
    let q2 = with_param(q1, "mode"@, Some(mode@));
    param_is_read_back(base, q1, "mode"@, Some(mode@));
    let q3 = with_param(q2, "limit"@, Some(dec(limit as nat)));
    param_is_read_back(base, q2, "limit"@, Some(dec(limit as nat)));
    let q4 = with_param(q3, "type"@, opt_string(kind));
    param_is_read_back(base, q3, "type"@, opt_string(kind));
    assert(artifact_request(ArtifactAction::Search { query, mode, kind, limit }).path =~= base + q4);
}

proof fn batches_are_of_the_plan_names()
    ensures
        !"/discover-loop/dispatch-plan"@.contains('?'),
        is_name("plan_id"@),
        is_name("batch_size"@),
        "plan_id"@ != "batch_size"@,
{
    reveal_strlit("/discover-loop/dispatch-plan");
    reveal_strlit("plan_id");
    reveal_strlit("batch_size");
    assert("plan_id"@.len() == 7);
    assert("batch_size"@.len() == 10);
}

/// Work is dealt out for the plan, in batches of the size.
pub proof fn batches_are_of_the_plan(plan: String, batch_size: u32)
    ensures
        ({
            let r = discover_request(DiscoverAction::DispatchPlan { plan, batch_size });
            &&& r.method == Method::Get
            &&& r.body is None
            &&& resource(r.path) == "/discover-loop/dispatch-plan"@
            &&& asked_for(r.path, "plan_id"@) == Some(plan@)
            &&& asked_for(r.path, "batch_size"@) == Some(dec(batch_size as nat))
        }),
{
    batches_are_of_the_plan_names();
    reveal_strlit("/discover-loop/dispatch-plan");
    reveal_strlit("plan_id");
    reveal_strlit("batch_size");
    reveal_strlit("?");
    reveal_strlit("&");
    reveal_strlit("=");
    reveal_strlit("/discover-loop/dispatch-plan?plan_id=");
    reveal_strlit("&batch_size=");
    number_is_plain(batch_size as nat);
    let base = "/discover-loop/dispatch-plan"@;
    no_query_asks_nothing(base);
    let q0 = Seq::<char>::empty();
    let q1 = with_param(q0, "plan_id"@, Some(plan@));
    param_is_read_back(base, q0, "plan_id"@, Some(plan@));
    let q2 = with_param(q1, "batch_size"@, Some(dec(batch_size as nat)));
    param_is_read_back(base, q1, "batch_size"@, Some(dec(batch_size as nat)));
    assert(discover_request(DiscoverAction::DispatchPlan { plan, batch_size }).path =~= base + q2);
}

proof fn discovery_status_is_of_what_was_given_names()
    ensures
        !"/discover-loop/status"@.contains('?'),
        is_name("plan_id"@),
        is_name("project_id"@),
        "plan_id"@ != "project_id"@,
{
    reveal_strlit("/discover-loop/status");
    reveal_strlit("plan_id");
    reveal_strlit("project_id");
    assert("plan_id"@.len() == 7);
    assert("project_id"@.len() == 10);
}

/// The state of a discovery is that of the plan, else that of the project.
pub proof fn discovery_status_is_of_what_was_given(plan: Option<String>, project: Option<String>)
    ensures
        ({
            let r = discover_request(DiscoverAction::Status { plan, project });
            &&& r.method == Method::Get
            &&& r.body is None
            &&& resource(r.path) == "/discover-loop/status"@
            &&& asked_for(r.path, "plan_id"@) == opt_string(plan)
            &&& asked_for(r.path, "project_id"@) == (if plan is Some {
                None
            } else {
                opt_string(project)
            })
        }),
{
    discovery_status_is_of_what_was_given_names();
    reveal_strlit("/discover-loop/status");
    reveal_strlit("plan_id");
    reveal_strlit("project_id");
    reveal_strlit("?");
    reveal_strlit("&");
    reveal_strlit("=");
    reveal_strlit("?plan_id=");
    reveal_strlit("?project_id=");
    let base = "/discover-loop/status"@;
    no_query_asks_nothing(base);
    let q0 = Seq::<char>::empty();
    let q1 = with_param(q0, "plan_id"@, opt_string(plan));
    param_is_read_back(base, q0, "plan_id"@, opt_string(plan));
    let q2 = with_param(q1, "project_id"@, (if plan is Some {
                None
            } else {
                opt_string(project)
            }));
    param_is_read_back(base, q1, "project_id"@, (if plan is Some {
                None
            } else {
                opt_string(project)
            }));
    assert(discover_request(DiscoverAction::Status { plan, project }).path =~= base + q2);
}

proof fn discovery_converged_is_of_what_was_given_names()
    ensures
        !"/discover-loop/converged"@.contains('?'),
        is_name("plan_id"@),
        is_name("project_id"@),
        "plan_id"@ != "project_id"@,
{
    reveal_strlit("/discover-loop/converged");
    reveal_strlit("plan_id");
    reveal_strlit("project_id");
    assert("plan_id"@.len() == 7);
    assert("project_id"@.len() == 10);
}

/// The end of a discovery is that of the plan, else that of the project.
pub proof fn discovery_converged_is_of_what_was_given(plan: Option<String>, project: Option<String>)
    ensures
        ({
            let r = discover_request(DiscoverAction::Converged { plan, project });
            &&& r.method == Method::Get
            &&& r.body is None
            &&& resource(r.path) == "/discover-loop/converged"@
            &&& asked_for(r.path, "plan_id"@) == opt_string(plan)
            &&& asked_for(r.path, "project_id"@) == (if plan is Some {
                None
            } else {
                opt_string(project)
            })
        }),
{
    discovery_converged_is_of_what_was_given_names();
    reveal_strlit("/discover-loop/converged");
    reveal_strlit("plan_id");
    reveal_strlit("project_id");
    reveal_strlit("?");
    reveal_strlit("&");
    reveal_strlit("=");
    reveal_strlit("?plan_id=");
    reveal_strlit("?project_id=");
    let base = "/discover-loop/converged"@;
    no_query_asks_nothing(base);
    let q0 = Seq::<char>::empty();
    let q1 = with_param(q0, "plan_id"@, opt_string(plan));
    param_is_read_back(base, q0, "plan_id"@, opt_string(plan));
    let q2 = with_param(q1, "project_id"@, (if plan is Some {
                None
            } else {
                opt_string(project)
            }));
    param_is_read_back(base, q1, "project_id"@, (if plan is Some {
                None
            } else {
                opt_string(project)
            }));
    assert(discover_request(DiscoverAction::Converged { plan, project }).path =~= base + q2);
}

proof fn tasks_are_listed_by_what_was_given_names()
    ensures
        !"/tasks"@.contains('?'),
        is_name("unit_id"@),
        is_name("plan_id"@),
        is_name("project_id"@),
        is_name("status"@),
        is_name("agent_id"@),
        is_name("cycle_id"@),
        is_name("label"@),
        is_name("tier"@),
        is_name("scenario_id"@),
        is_name("batch_id"@),
        is_name("evidence_empty"@),
        is_name("limit"@),
        is_name("offset"@),
        "unit_id"@ != "plan_id"@,
        "unit_id"@ != "project_id"@,
        "unit_id"@ != "status"@,
        "unit_id"@ != "agent_id"@,
        "unit_id"@ != "cycle_id"@,
        "unit_id"@ != "label"@,
        "unit_id"@ != "tier"@,
        "unit_id"@ != "scenario_id"@,
        "unit_id"@ != "batch_id"@,
        "unit_id"@ != "evidence_empty"@,
        "unit_id"@ != "limit"@,
        "unit_id"@ != "offset"@,
        "plan_id"@ != "project_id"@,
        "plan_id"@ != "status"@,
        "plan_id"@ != "agent_id"@,
        "plan_id"@ != "cycle_id"@,
        "plan_id"@ != "label"@,
        "plan_id"@ != "tier"@,
        "plan_id"@ != "scenario_id"@,
        "plan_id"@ != "batch_id"@,
        "plan_id"@ != "evidence_empty"@,
        "plan_id"@ != "limit"@,
        "plan_id"@ != "offset"@,
        "project_id"@ != "status"@,
        "project_id"@ != "agent_id"@,
        "project_id"@ != "cycle_id"@,
        "project_id"@ != "label"@,
        "project_id"@ != "tier"@,
        "project_id"@ != "scenario_id"@,
        "project_id"@ != "batch_id"@,
        "project_id"@ != "evidence_empty"@,
        "project_id"@ != "limit"@,
        "project_id"@ != "offset"@,
        "status"@ != "agent_id"@,
        "status"@ != "cycle_id"@,
        "status"@ != "label"@,
        "status"@ != "tier"@,
        "status"@ != "scenario_id"@,
        "status"@ != "batch_id"@,
        "status"@ != "evidence_empty"@,
        "status"@ != "limit"@,
        "status"@ != "offset"@,
        "agent_id"@ != "cycle_id"@,
        "agent_id"@ != "label"@,
        "agent_id"@ != "tier"@,
        "agent_id"@ != "scenario_id"@,
        "agent_id"@ != "batch_id"@,
        "agent_id"@ != "evidence_empty"@,
        "agent_id"@ != "limit"@,
        "agent_id"@ != "offset"@,
        "cycle_id"@ != "label"@,
        "cycle_id"@ != "tier"@,
        "cycle_id"@ != "scenario_id"@,
        "cycle_id"@ != "batch_id"@,
        "cycle_id"@ != "evidence_empty"@,
        "cycle_id"@ != "limit"@,
        "cycle_id"@ != "offset"@,
        "label"@ != "tier"@,
        "label"@ != "scenario_id"@,
        "label"@ != "batch_id"@,
        "label"@ != "evidence_empty"@,
        "label"@ != "limit"@,
        "label"@ != "offset"@,
        "tier"@ != "scenario_id"@,
        "tier"@ != "batch_id"@,
        "tier"@ != "evidence_empty"@,
        "tier"@ != "limit"@,
        "tier"@ != "offset"@,
        "scenario_id"@ != "batch_id"@,
        "scenario_id"@ != "evidence_empty"@,
        "scenario_id"@ != "limit"@,
        "scenario_id"@ != "offset"@,
        "batch_id"@ != "evidence_empty"@,
        "batch_id"@ != "limit"@,
        "batch_id"@ != "offset"@,
        "evidence_empty"@ != "limit"@,
        "evidence_empty"@ != "offset"@,
        "limit"@ != "offset"@,
{
    reveal_strlit("/tasks");
    reveal_strlit("unit_id");
    reveal_strlit("plan_id");
    reveal_strlit("project_id");
    reveal_strlit("status");
    reveal_strlit("agent_id");
    reveal_strlit("cycle_id");
    reveal_strlit("label");
    reveal_strlit("tier");
    reveal_strlit("scenario_id");
    reveal_strlit("batch_id");
    reveal_strlit("evidence_empty");
    reveal_strlit("limit");
    reveal_strlit("offset");
    assert("unit_id"@.len() == 7);
    assert("plan_id"@.len() == 7);
    assert("project_id"@.len() == 10);
    assert("status"@.len() == 6);
    assert("agent_id"@.len() == 8);
    assert("cycle_id"@.len() == 8);
    assert("label"@.len() == 5);
    assert("tier"@.len() == 4);
    assert("scenario_id"@.len() == 11);
    assert("batch_id"@.len() == 8);
    assert("evidence_empty"@.len() == 14);
    assert("limit"@.len() == 5);
    assert("offset"@.len() == 6);
    assert("unit_id"@[0] != "plan_id"@[0]);
    assert("status"@[0] != "offset"@[0]);
    assert("agent_id"@[0] != "cycle_id"@[0]);
    assert("agent_id"@[0] != "batch_id"@[0]);
    assert("cycle_id"@[0] != "batch_id"@[0]);
    assert("label"@[1] != "limit"@[1]);
}

/// Tasks are listed by everything that was given. Those without a cycle are asked
/// for in place of those of one.
#[verifier::rlimit(60)]
pub proof fn tasks_are_listed_by_what_was_given(
    unit: Option<String>,
    plan: Option<String>,
    project: Option<String>,
    status: Option<String>,
    agent_id: Option<String>,
    cycle: Option<String>,
    no_cycle: bool,
    label: Option<String>,
    tier: Option<String>,
    scenario_id: Option<String>,
    batch_id: Option<String>,
    evidence_empty: bool,
    limit: Option<i64>,
    offset: Option<i64>,
    here: Option<Seq<char>>,
)
    ensures
        ({
            let r = task_request(TaskAction::List {
                    unit,
                    plan,
                    project,
                    status,
                    agent_id,
                    cycle,
                    no_cycle,
                    label,
                    tier,
                    scenario_id,
                    batch_id,
                    evidence_empty,
                    limit,
                    offset,
                }, here);
            &&& r.method == Method::Get
            &&& r.body is None
            &&& resource(r.path) == "/tasks"@
            &&& asked_for(r.path, "unit_id"@) == opt_string(unit)
            &&& asked_for(r.path, "plan_id"@) == opt_string(plan)
            &&& asked_for(r.path, "project_id"@) == opt_string(project)
            &&& asked_for(r.path, "status"@) == opt_string(status)
            &&& asked_for(r.path, "agent_id"@) == opt_string(agent_id)
            &&& asked_for(r.path, "cycle_id"@) == (if no_cycle {
                Some("null"@)
            } else {
                opt_string(cycle)
            })
            &&& asked_for(r.path, "label"@) == opt_string(label)
            &&& asked_for(r.path, "tier"@) == opt_string(tier)
            &&& asked_for(r.path, "scenario_id"@) == opt_string(scenario_id)
            &&& asked_for(r.path, "batch_id"@) == opt_string(batch_id)
            &&& asked_for(r.path, "evidence_empty"@) == (if evidence_empty {
                Some("1"@)
            } else {
                None
            })
            &&& asked_for(r.path, "limit"@) == (match limit {
                Some(n) => Some(dec_int(n as int)),
                None => None,
            })
            &&& asked_for(r.path, "offset"@) == (match offset {
                Some(n) => Some(dec_int(n as int)),
                None => None,
            })
        }),
{
    tasks_are_listed_by_what_was_given_names();
    let base = "/tasks"@;
    no_query_asks_nothing(base);
    let q0 = Seq::<char>::empty();
    let q1 = with_param(q0, "unit_id"@, opt_string(unit));
    param_is_read_back(base, q0, "unit_id"@, opt_string(unit));
    let q2 = with_param(q1, "plan_id"@, opt_string(plan));
    param_is_read_back(base, q1, "plan_id"@, opt_string(plan));
    let q3 = with_param(q2, "project_id"@, opt_string(project));
    param_is_read_back(base, q2, "project_id"@, opt_string(project));
    let q4 = with_param(q3, "status"@, opt_string(status));
    param_is_read_back(base, q3, "status"@, opt_string(status));
    let q5 = with_param(q4, "agent_id"@, opt_string(agent_id));
    param_is_read_back(base, q4, "agent_id"@, opt_string(agent_id));
    let q6 = with_param(q5, "cycle_id"@, (if no_cycle {
                Some("null"@)
            } else {
                opt_string(cycle)
            }));
    param_is_read_back(base, q5, "cycle_id"@, (if no_cycle {
                Some("null"@)
            } else {
                opt_string(cycle)
            }));
    let q7 = with_param(q6, "label"@, opt_string(label));
    param_is_read_back(base, q6, "label"@, opt_string(label));
    let q8 = with_param(q7, "tier"@, opt_string(tier));
    param_is_read_back(base, q7, "tier"@, opt_string(tier));
    let q9 = with_param(q8, "scenario_id"@, opt_string(scenario_id));
    param_is_read_back(base, q8, "scenario_id"@, opt_string(scenario_id));
    let q10 = with_param(q9, "batch_id"@, opt_string(batch_id));
    param_is_read_back(base, q9, "batch_id"@, opt_string(batch_id));
    let q11 = with_param(q10, "evidence_empty"@, (if evidence_empty {
                Some("1"@)
            } else {
                None
            }));
    param_is_read_back(base, q10, "evidence_empty"@, (if evidence_empty {
                Some("1"@)
            } else {
                None
            }));
    let q12 = with_param(q11, "limit"@, (match limit {
                Some(n) => Some(dec_int(n as int)),
                None => None,
            }));
    param_is_read_back(base, q11, "limit"@, (match limit {
                Some(n) => Some(dec_int(n as int)),
                None => None,
            }));
    let q13 = with_param(q12, "offset"@, (match offset {
                Some(n) => Some(dec_int(n as int)),
                None => None,
            }));
    param_is_read_back(base, q12, "offset"@, (match offset {
                Some(n) => Some(dec_int(n as int)),
                None => None,
            }));
}

proof fn numbers_are_of_the_batch_names()
    ensures
        !"/tasks/stats"@.contains('?'),
        is_name("batch_id"@),
{
    reveal_strlit("/tasks/stats");
    reveal_strlit("batch_id");
    assert("batch_id"@.len() == 8);
}

/// The numbers of a batch are asked for by its identifier, where that has no special
/// characters.
pub proof fn numbers_are_of_the_batch(batch_id: String, here: Option<Seq<char>>)
    requires
        url_encoded(batch_id@) == batch_id@,
    ensures
        ({
            let r = task_request(TaskAction::Stats { batch_id }, here);
            &&& r.method == Method::Get
            &&& r.body is None
            &&& resource(r.path) == "/tasks/stats"@
            &&& asked_for(r.path, "batch_id"@) == Some(batch_id@)
        }),
{
    numbers_are_of_the_batch_names();
    reveal_strlit("/tasks/stats");
    reveal_strlit("batch_id");
    reveal_strlit("?");
    reveal_strlit("&");
    reveal_strlit("=");
    reveal_strlit("/tasks/stats?batch_id=");
    let base = "/tasks/stats"@;
    no_query_asks_nothing(base);
    let q0 = Seq::<char>::empty();
    let q1 = with_param(q0, "batch_id"@, Some(batch_id@));
    param_is_read_back(base, q0, "batch_id"@, Some(batch_id@));
    assert(task_request(TaskAction::Stats { batch_id }, here).path =~= base + q1);
}

/// Every command asks what its action asks.
pub proof fn commands_ask_what_their_actions_ask(c: Command, here: Option<Seq<char>>)
    ensures
        match c {
            Command::Project { action } => dispatched(c, here) matches Ok(r) && r
                == project_request(action, here),
            Command::Plan { action } => dispatched(c, here) matches Ok(r) && r == plan_request(
                action,
                here,
            ),
            Command::Unit { action } => dispatched(c, here) == unit_request(action),
            Command::Cycle { action } => dispatched(c, here) matches Ok(r) && r == cycle_request(
                action,
            ),
            Command::Task { action } => dispatched(c, here) matches Ok(r) && r == task_request(
                action,
                here,
            ),
            Command::Knowledge { action } => dispatched(c, here) matches Ok(r) && r
                == artifact_request(action),
            Command::Run { action } => dispatched(c, here) matches Ok(r) && r == run_request(action),
            Command::Comment { action } => dispatched(c, here) matches Ok(r) && r
                == comment_request(action),
            Command::Question { action } => dispatched(c, here) matches Ok(r) && r
                == question_request(action),
            Command::Config { action } => dispatched(c, here) matches Ok(r) && r == config_request(
                action,
            ),
            Command::DiscoverLoop { action } => dispatched(c, here) matches Ok(r) && r
                == discover_request(action),
            Command::Backup { output, project } => dispatched(c, here) matches Ok(r) && r
                == backup_request(output, project),
            Command::Restore { input, merge, dry_run } => dispatched(c, here) matches Ok(r) && r
                == restore_request(input, merge, dry_run),
            Command::Migrate { dry_run } => dispatched(c, here) matches Ok(r) && r
                == migrate_request(dry_run),
            Command::Update { dry_run, version } => dispatched(c, here) matches Ok(r) && r
                == update_request(dry_run, version),
            Command::Timeline { project } => dispatched(c, here) matches Ok(r) && r == by_project(
                "/dashboard/timeline"@,
                project,
            ),
            Command::Board { project } => dispatched(c, here) matches Ok(r) && r == by_project(
                "/dashboard/board"@,
                project,
            ),
            Command::Wiki { project } => dispatched(c, here) matches Ok(r) && r == by_project(
                "/dashboard/wiki"@,
                project,
            ),
            Command::Summary { project } => dispatched(c, here) matches Ok(r) && r == by_project(
                "/dashboard/summary"@,
                project,
            ),
            Command::Dashboard { cwd, show } => dispatched(c, here) matches Ok(r) && r
                == dashboard_request(cwd, show),
            Command::Watch { project, task, cycle, .. } => dispatched(c, here) matches Ok(r) && r
                == watch_request(project, task, cycle),
            Command::Replay { task, limit } => dispatched(c, here) matches Ok(r) && r
                == replay_request(task, limit),
            Command::FindSimilar { query, limit, project } => dispatched(c, here) matches Ok(r) && r
                == find_similar_request(query, limit, project),
            Command::GetRecentDecisions { project, .. } => dispatched(c, here) matches Ok(r) && r
                == recent_decisions_request(project),
            Command::GetTaskContext { id } => dispatched(c, here) matches Ok(r) && bare(
                r,
                Method::Get,
                "/tasks/"@ + id@ + "/context"@,
            ),
            Command::VersionCheck => dispatched(c, here) matches Ok(r) && bare(
                r,
                Method::Get,
                "/version-check"@,
            ),
        },
{
}

proof fn path_of(a: Seq<char>, id: Seq<char>, b: Seq<char>)
    requires
        !a.contains('?'),
        !b.contains('?'),
        !id.contains('?'),
    ensures
        !(a + id + b).contains('?'),
{
    let t = a + id + b;
    assert forall|i: int| 0 <= i < t.len() implies t[i] != '?' by {
        if i < a.len() {
            assert(t[i] == a[i]);
        } else if i < a.len() + id.len() {
            assert(t[i] == id[i - a.len()]);
        } else {
            assert(t[i] == b[i - a.len() - id.len()]);
        }
    }
}

proof fn kin_names()
    ensures
        is_name("depth"@),
        is_name("order"@),
        is_name("include_envelope"@),
        "depth"@ != "order"@,
        "depth"@ != "include_envelope"@,
        "order"@ != "include_envelope"@,
        !"/tasks/"@.contains('?'),
        !"/ancestors"@.contains('?'),
        !"/descendants"@.contains('?'),
        url_encoded("false"@) == "false"@,
{
    reveal_strlit("depth");
    reveal_strlit("order");
    reveal_strlit("include_envelope");
    reveal_strlit("/tasks/");
    reveal_strlit("/ancestors");
    reveal_strlit("/descendants");
    reveal_strlit("false");
    assert("depth"@.len() == 5);
    assert("order"@.len() == 5);
    assert("include_envelope"@.len() == 16);
    assert("depth"@[0] != "order"@[0]);
    plain_text("false"@);
}

/// The ancestors of a task are asked for to the depth that was given, to all of
/// them without one, and without their envelopes where none are wanted.
pub proof fn ancestors_are_of_the_task(
    id: String,
    depth: u32,
    no_envelope: bool,
    format: String,
    here: Option<Seq<char>>,
)
    requires
        !id@.contains('?'),
    ensures
        ({
            let r = task_request(TaskAction::Ancestors { id, depth, no_envelope, format }, here);
            &&& r.method == Method::Get
            &&& r.body is None
            &&& resource(r.path) == "/tasks/"@ + id@ + "/ancestors"@
            &&& asked_for(r.path, "depth"@) == (if depth > 0 {
                Some(dec(depth as nat))
            } else {
                None
            })
            &&& asked_for(r.path, "include_envelope"@) == (if no_envelope {
                Some("false"@)
            } else {
                None
            })
        }),
{
    kin_names();
    number_is_plain(depth as nat);
    path_of("/tasks/"@, id@, "/ancestors"@);
    let base = "/tasks/"@ + id@ + "/ancestors"@;
    no_query_asks_nothing(base);
    let d = if depth > 0 {
        Some(dec(depth as nat))
    } else {
        None
    };
    let e = if no_envelope {
        Some("false"@)
    } else {
        None
    };
    let q0 = Seq::<char>::empty();
    let q1 = with_param(q0, "depth"@, d);
    param_is_read_back(base, q0, "depth"@, d);
    let q2 = with_param(q1, "include_envelope"@, e);
    param_is_read_back(base, q1, "include_envelope"@, e);
    assert(crate::task_request::ancestors_query(depth as int, no_envelope) =~= q2) by {
        reveal_strlit("?depth=");
        reveal_strlit("&include_envelope=false");
        reveal_strlit("?include_envelope=false");
        reveal_strlit("depth");
        reveal_strlit("include_envelope");
        reveal_strlit("false");
        reveal_strlit("?");
        reveal_strlit("&");
        reveal_strlit("=");
    }
}

/// The descendants of a task are asked for to the depth and in the order that
/// were given, and without their envelopes where none are wanted.
pub proof fn descendants_are_of_the_task(
    id: String,
    depth: u32,
    order: String,
    no_envelope: bool,
    format: String,
    here: Option<Seq<char>>,
)
    requires
        !id@.contains('?'),
        url_encoded(order@) == order@,
    ensures
        ({
            let r = task_request(
                TaskAction::Descendants { id, depth, order, no_envelope, format },
                here,
            );
            &&& r.method == Method::Get
            &&& r.body is None
            &&& resource(r.path) == "/tasks/"@ + id@ + "/descendants"@
            &&& asked_for(r.path, "depth"@) == Some(dec(depth as nat))
            &&& asked_for(r.path, "order"@) == Some(order@)
            &&& asked_for(r.path, "include_envelope"@) == (if no_envelope {
                Some("false"@)
            } else {
                None
            })
        }),
{
    kin_names();
    number_is_plain(depth as nat);
    path_of("/tasks/"@, id@, "/descendants"@);
    let base = "/tasks/"@ + id@ + "/descendants"@;
    no_query_asks_nothing(base);
    let e = if no_envelope {
        Some("false"@)
    } else {
        None
    };
    let q0 = Seq::<char>::empty();
    let q1 = with_param(q0, "depth"@, Some(dec(depth as nat)));
    param_is_read_back(base, q0, "depth"@, Some(dec(depth as nat)));
    let q2 = with_param(q1, "order"@, Some(order@));
    param_is_read_back(base, q1, "order"@, Some(order@));
    let q3 = with_param(q2, "include_envelope"@, e);
    param_is_read_back(base, q2, "include_envelope"@, e);
    let path = task_request(
        TaskAction::Descendants { id, depth, order, no_envelope, format },
        here,
    ).path;
    assert(path =~= base + q3) by {
        reveal_strlit("/descendants");
        reveal_strlit("/descendants?depth=");
        reveal_strlit("&order=");
        reveal_strlit("&include_envelope=false");
        reveal_strlit("depth");
        reveal_strlit("order");
        reveal_strlit("include_envelope");
        reveal_strlit("false");
        reveal_strlit("?");
        reveal_strlit("&");
        reveal_strlit("=");
    }
}

} // verus!
