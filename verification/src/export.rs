//! Plans written out as markdown and as JSON.

use vstd::prelude::*;
use crate::decompose_flow::{envelope_in, envelope_of};
use crate::json::{
    array, array_view, empty_object, object, object_view, pairs, text, views, Json, JsonView,
};
use crate::json_text::{compact, to_text};
use crate::masking::{
    alike, all_alike, ends, is_made, kept_member, made, made_member, member, seen_at, source_member,
    timed, Form,
};
use crate::request::{get, getting, Request};
use crate::scan::{has_char, occurs_at, occurs_in, trim_end, without_tail};
use crate::text::{cat2, cat3, cat4, cat5, dec, dec_int, decimal, decimal_int, same};

verus! {

/// A plan with everything that belongs to it.
#[derive(Debug)]
pub struct PlanBundle {
    pub plan: Json,
    pub units: Vec<UnitBundle>,
    pub knowledge: Vec<Json>,
}

/// A unit with its tasks.
#[derive(Debug)]
pub struct UnitBundle {
    pub unit: Json,
    pub tasks: Vec<TaskBundle>,
}

/// A task with its resolved envelope, or null where it has none.
#[derive(Debug)]
pub struct TaskBundle {
    pub task: Json,
    pub envelope: Json,
}

/// The fields of an envelope, in the order in which they are written.
pub const ENVELOPE_FIELDS: [&'static str; 19] = [
    "version",
    "intent",
    "target_repo",
    "target_model",
    "max_turns",
    "prompt_template",
    "context_refs",
    "scope_boundary",
    "atomic_size_hint",
    "success_criteria",
    "verification_cmd",
    "depends_on",
    "blocked_by",
    "planned_sha",
    "decomposition_policy",
    "checkpoint_interval",
    "rollback_strategy",
    "origin",
    "assigned_model",
];

/// The bullets for the first `n` fields of an envelope, each with its value as
/// JSON; fields that are missing or null have none.
pub open spec fn bullets_upto(form: Form, env: JsonView, n: nat) -> Seq<char>
    decreases n,
{
    if n == 0 {
        Seq::empty()
    } else {
        let before = bullets_upto(form, env, (n - 1) as nat);
        let field = ENVELOPE_FIELDS[n - 1]@;
        match env.get(field) {
            Some(v) => if v is Null {
                before
            } else {
                before + ("- `"@ + field + "`: "@ + compact(member(form, field, v)) + "\n"@)
            },
            None => before,
        }
    }
}

/// The bullets of an envelope, in the order of the fields.
pub fn render_envelope_bullets(env: &Json) -> (r: String)
    ensures
        r@ == bullets_upto(Form::Plain, env@, 19),
{
    let mut out = String::new();
    let mut i: usize = 0;
    while i < 19
        invariant
            i <= 19,
            out@ == bullets_upto(Form::Plain, env@, i as nat),
        decreases 19 - i,
    {
        let field = ENVELOPE_FIELDS[i];
        if let Some(v) = env.get(field) {
            if !v.is_null() {
                let rendered = to_text(v);
                let line = cat5("- `", field, "`: ", rendered.as_str(), "\n");
                out.append(line.as_str());
            }
        }
        i = i + 1;
    }
    out
}

/// The heading and the description of a plan.
pub open spec fn md_head(plan: JsonView) -> Seq<char> {
    let description = plan.str_or("description"@, ""@);
    "# "@ + plan.str_or("title"@, "(untitled)"@) + "\n\n"@ + (if description.len() > 0 {
        trim_end(description) + "\n\n"@
    } else {
        Seq::empty()
    })
}

/// The section on the plan itself.
pub open spec fn md_meta(form: Form, plan: JsonView) -> Seq<char> {
    "## Meta\n\n- id: `"@ + made(form, plan.str_or("id"@, "?"@)) + "`\n- project: `"@ + made(
        form,
        plan.str_or("project_id"@, "?"@),
    ) + "`\n- status: `"@ + plan.str_or("status"@, "?"@) + "`\n"@ + (match plan.str_at("source"@) {
        Some(s) => "- source: `"@ + timed(form, s) + "`\n"@,
        None => Seq::empty(),
    }) + "\n"@
}

fn push_meta_section(out: &mut String, plan: &Json)
    ensures
        final(out)@ == old(out)@ + md_meta(Form::Plain, plan@),
{
    let mut part = cat5(
        "## Meta\n\n- id: `",
        plan.str_or("id", "?"),
        "`\n- project: `",
        plan.str_or("project_id", "?"),
        "`\n- status: `",
    );
    part.append(plan.str_or("status", "?"));
    part.append("`\n");
    let source = match plan.str_at("source") {
        Some(s) => cat3("- source: `", s, "`\n"),
        None => String::new(),
    };
    part.append(source.as_str());
    part.append("\n");
    out.append(part.as_str());
}

/// Where a task stands.
#[derive(Clone, Copy, PartialEq, Eq, Structural)]
pub enum Progress {
    Todo,
    Doing,
    Done,
    Other,
}

/// Where a task of a status stands.
pub open spec fn progress_of(status: Seq<char>) -> Progress {
    if status == "todo"@ || status == "blocked"@ {
        Progress::Todo
    } else if status == "in_progress"@ {
        Progress::Doing
    } else if status == "done"@ {
        Progress::Done
    } else {
        Progress::Other
    }
}

fn progress(status: &str) -> (r: Progress)
    ensures
        r == progress_of(status@),
{
    if same(status, "todo") || same(status, "blocked") {
        Progress::Todo
    } else if same(status, "in_progress") {
        Progress::Doing
    } else if same(status, "done") {
        Progress::Done
    } else {
        Progress::Other
    }
}

/// How many of the first `n` tasks stand so.
pub open spec fn standing(tasks: Seq<TaskBundle>, p: Progress, n: nat) -> nat
    decreases n,
{
    if n == 0 {
        0
    } else {
        standing(tasks, p, (n - 1) as nat) + (if progress_of(
            tasks[n - 1].task@.str_or("status"@, ""@),
        ) == p {
            1nat
        } else {
            0
        })
    }
}

/// A task is counted once at most: those to do, in work and done are together
/// no more than all.
pub proof fn counts_within_total(tasks: Seq<TaskBundle>, n: nat)
    ensures
        standing(tasks, Progress::Todo, n) + standing(tasks, Progress::Doing, n) + standing(
            tasks,
            Progress::Done,
            n,
        ) + standing(tasks, Progress::Other, n) == n,
    decreases n,
{
    if n > 0 {
        counts_within_total(tasks, (n - 1) as nat);
    }
}

/// The row of a unit in the overview.
pub open spec fn overview_row(i: int, ub: UnitBundle) -> Seq<char> {
    let n = ub.tasks@.len();
    "| "@ + dec((i + 1) as nat) + " | "@ + ub.unit@.str_or("title"@, "?"@) + " | "@ + dec(n)
        + " | "@ + dec(standing(ub.tasks@, Progress::Todo, n)) + " | "@ + dec(
        standing(ub.tasks@, Progress::Doing, n),
    ) + " | "@ + dec(standing(ub.tasks@, Progress::Done, n)) + " |\n"@
}

/// The rows of the first `n` units.
pub open spec fn overview_rows(units: Seq<UnitBundle>, n: nat) -> Seq<char>
    decreases n,
{
    if n == 0 {
        Seq::empty()
    } else {
        overview_rows(units, (n - 1) as nat) + overview_row(n - 1, units[n - 1])
    }
}

/// The overview of a plan.
pub open spec fn md_overview(b: PlanBundle) -> Seq<char> {
    "## Overview\n\n| Unit | Title | Tasks | todo | doing | done |\n|------|-------|------:|-----:|------:|-----:|\n"@
        + overview_rows(b.units@, b.units@.len()) + "\n"@
}

fn overview_line(i: usize, ub: &UnitBundle) -> (r: String)
    requires
        i < usize::MAX,
    ensures
        r@ == overview_row(i as int, *ub),
{
    let mut todo: u64 = 0;
    let mut doing: u64 = 0;
    let mut done: u64 = 0;
    let all: u64 = ub.tasks.len() as u64;
    let mut k: usize = 0;
    while k < ub.tasks.len()
        invariant
            k <= ub.tasks@.len(),
            all == ub.tasks@.len(),
            todo == standing(ub.tasks@, Progress::Todo, k as nat),
            doing == standing(ub.tasks@, Progress::Doing, k as nat),
            done == standing(ub.tasks@, Progress::Done, k as nat),
        decreases ub.tasks@.len() - k,
    {
        proof {
            counts_within_total(ub.tasks@, k as nat);
        }
        match progress(ub.tasks[k].task.str_or("status", "")) {
            Progress::Todo => {
                todo = todo + 1;
            },
            Progress::Doing => {
                doing = doing + 1;
            },
            Progress::Done => {
                done = done + 1;
            },
            Progress::Other => {},
        }
        k = k + 1;
    }
    let n = decimal((i + 1) as u64);
    let total = decimal(all);
    let a = decimal(todo);
    let b = decimal(doing);
    let c = decimal(done);
    let mut row = cat5("| ", n.as_str(), " | ", ub.unit.str_or("title", "?"), " | ");
    row.append(total.as_str());
    row.append(" | ");
    row.append(a.as_str());
    row.append(" | ");
    row.append(b.as_str());
    row.append(" | ");
    row.append(c.as_str());
    row.append(" |\n");
    row
}

fn push_overview_table(out: &mut String, b: &PlanBundle)
    ensures
        final(out)@ == old(out)@ + md_overview(*b),
{
    let mut rows = String::new();
    let mut i: usize = 0;
    while i < b.units.len()
        invariant
            i <= b.units@.len(),
            rows@ == overview_rows(b.units@, i as nat),
        decreases b.units@.len() - i,
    {
        let row = overview_line(i, &b.units[i]);
        rows.append(row.as_str());
        i = i + 1;
    }
    let part = cat3(
        "## Overview\n\n| Unit | Title | Tasks | todo | doing | done |\n|------|-------|------:|-----:|------:|-----:|\n",
        rows.as_str(),
        "\n",
    );
    out.append(part.as_str());
}

/// The names of the first `n` fields.
pub open spec fn legend_upto(n: nat) -> Seq<char>
    decreases n,
{
    if n == 0 {
        Seq::empty()
    } else {
        legend_upto((n - 1) as nat) + ("- `"@ + ENVELOPE_FIELDS[n - 1]@ + "`\n"@)
    }
}

/// The section on the fields of an envelope.
pub open spec fn md_legend() -> Seq<char> {
    "## 표기 규약 (Envelope 19 fields per ADR-0001)\n\nEach task below renders the resolved envelope (parent chain merged) as a bullet list. Fields render in this canonical order:\n\n"@
        + legend_upto(19)
        + "\nFields not in this list are exported in `--format json` but omitted from markdown bullets to keep the export stable.\n\n"@
}

/// Appends the section on the fields of an envelope.
pub fn push_envelope_legend(out: &mut String)
    ensures
        final(out)@ == old(out)@ + md_legend(),
{
    let mut names = String::new();
    let mut i: usize = 0;
    while i < 19
        invariant
            i <= 19,
            names@ == legend_upto(i as nat),
        decreases 19 - i,
    {
        let line = cat3("- `", ENVELOPE_FIELDS[i], "`\n");
        names.append(line.as_str());
        i = i + 1;
    }
    let part = cat3(
        "## 표기 규약 (Envelope 19 fields per ADR-0001)\n\nEach task below renders the resolved envelope (parent chain merged) as a bullet list. Fields render in this canonical order:\n\n",
        names.as_str(),
        "\nFields not in this list are exported in `--format json` but omitted from markdown bullets to keep the export stable.\n\n",
    );
    out.append(part.as_str());
}

/// The section of a task.
pub open spec fn md_task(form: Form, tb: TaskBundle) -> Seq<char> {
    let body = tb.task@.str_or("body"@, ""@);
    "### "@ + tb.task@.str_or("title"@, "?"@) + (match tb.task@.str_at("ticket_number"@) {
        Some(t) => " ("@ + made(form, t) + ")"@,
        None => Seq::empty(),
    }) + " — _"@ + tb.task@.str_or("status"@, "?"@) + "_\n\n"@ + (if body.len() > 0 {
        trim_end(body) + "\n\n"@
    } else {
        Seq::empty()
    }) + (if tb.envelope@ is Null {
        Seq::empty()
    } else {
        "**Envelope:**\n\n"@ + bullets_upto(form, tb.envelope@, 19) + "\n"@
    })
}

fn paragraph(s: &str) -> (r: String)
    ensures
        r@ == if s@.len() > 0 {
            trim_end(s@) + "\n\n"@
        } else {
            Seq::empty()
        },
{
    if s.is_empty() {
        String::new()
    } else {
        let t = without_tail(s);
        cat2(t.as_str(), "\n\n")
    }
}

fn task_section(tb: &TaskBundle) -> (r: String)
    ensures
        r@ == md_task(Form::Plain, *tb),
{
    let ticket = match tb.task.str_at("ticket_number") {
        Some(t) => cat3(" (", t, ")"),
        None => String::new(),
    };
    let body = paragraph(tb.task.str_or("body", ""));
    let envelope = if tb.envelope.is_null() {
        String::new()
    } else {
        let bullets = render_envelope_bullets(&tb.envelope);
        cat3("**Envelope:**\n\n", bullets.as_str(), "\n")
    };
    let mut part = cat5(
        "### ",
        tb.task.str_or("title", "?"),
        ticket.as_str(),
        " — _",
        tb.task.str_or("status", "?"),
    );
    part.append("_\n\n");
    part.append(body.as_str());
    part.append(envelope.as_str());
    part
}

/// The sections of the first `n` tasks.
pub open spec fn md_tasks(form: Form, tasks: Seq<TaskBundle>, n: nat) -> Seq<char>
    decreases n,
{
    if n == 0 {
        Seq::empty()
    } else {
        md_tasks(form, tasks, (n - 1) as nat) + md_task(form, tasks[n - 1])
    }
}

/// The section of a unit.
pub open spec fn md_unit(form: Form, ub: UnitBundle) -> Seq<char> {
    let goal = ub.unit@.str_or("goal"@, ""@);
    "## Unit "@ + dec_int(
        match ub.unit@.i64_at("idx"@) {
            Some(n) => n,
            None => 0,
        },
    ) + ": "@ + ub.unit@.str_or("title"@, "?"@) + "\n\n"@ + (if goal.len() > 0 {
        "**Goal**: "@ + goal + "\n\n"@
    } else {
        Seq::empty()
    }) + md_tasks(form, ub.tasks@, ub.tasks@.len())
}

fn push_unit_section(out: &mut String, ub: &UnitBundle)
    ensures
        final(out)@ == old(out)@ + md_unit(Form::Plain, *ub),
{
    let idx: i64 = match ub.unit.i64_at("idx") {
        Some(n) => n,
        None => 0,
    };
    let n = decimal_int(idx);
    let mut part = cat5("## Unit ", n.as_str(), ": ", ub.unit.str_or("title", "?"), "\n\n");
    let goal = ub.unit.str_or("goal", "");
    let goal_line = if goal.is_empty() {
        String::new()
    } else {
        cat3("**Goal**: ", goal, "\n\n")
    };
    part.append(goal_line.as_str());
    let mut tasks = String::new();
    let mut i: usize = 0;
    while i < ub.tasks.len()
        invariant
            i <= ub.tasks@.len(),
            tasks@ == md_tasks(Form::Plain, ub.tasks@, i as nat),
        decreases ub.tasks@.len() - i,
    {
        let section = task_section(&ub.tasks[i]);
        tasks.append(section.as_str());
        i = i + 1;
    }
    part.append(tasks.as_str());
    out.append(part.as_str());
}

/// The sections of the first `n` units.
pub open spec fn md_units(form: Form, units: Seq<UnitBundle>, n: nat) -> Seq<char>
    decreases n,
{
    if n == 0 {
        Seq::empty()
    } else {
        md_units(form, units, (n - 1) as nat) + md_unit(form, units[n - 1])
    }
}

/// The edges from `from` to the texts among the first `n` items.
pub open spec fn edges_to(from: Seq<char>, a: Seq<JsonView>, n: nat) -> Seq<(Seq<char>, Seq<char>)>
    decreases n,
{
    if n == 0 {
        Seq::empty()
    } else {
        let before = edges_to(from, a, (n - 1) as nat);
        match a[n - 1].as_str() {
            Some(to) => before.push((from, to)),
            None => before,
        }
    }
}

/// The edges of a task to those that it depends on.
pub open spec fn task_edges(task: JsonView) -> Seq<(Seq<char>, Seq<char>)> {
    match task.str_at("id"@) {
        Some(from) => match task.array_at("depends_on"@) {
            Some(a) => edges_to(from, a, a.len()),
            None => Seq::empty(),
        },
        None => Seq::empty(),
    }
}

/// The edges of the first `n` tasks.
pub open spec fn tasks_edges(tasks: Seq<TaskBundle>, n: nat) -> Seq<(Seq<char>, Seq<char>)>
    decreases n,
{
    if n == 0 {
        Seq::empty()
    } else {
        tasks_edges(tasks, (n - 1) as nat) + task_edges(tasks[n - 1].task@)
    }
}

/// The edges of the first `n` units.
pub open spec fn units_edges(units: Seq<UnitBundle>, n: nat) -> Seq<(Seq<char>, Seq<char>)>
    decreases n,
{
    if n == 0 {
        Seq::empty()
    } else {
        units_edges(units, (n - 1) as nat) + tasks_edges(
            units[n - 1].tasks@,
            units[n - 1].tasks@.len(),
        )
    }
}

/// All edges of a plan, each from a task to one that it depends on.
pub open spec fn plan_edges(b: PlanBundle) -> Seq<(Seq<char>, Seq<char>)> {
    units_edges(b.units@, b.units@.len())
}

/// What a list of edges holds.
pub open spec fn edge_views(v: Seq<(String, String)>) -> Seq<(Seq<char>, Seq<char>)> {
    Seq::new(v.len(), |i: int| (v[i].0@, v[i].1@))
}

fn push_task_edges(out: &mut Vec<(String, String)>, task: &Json)
    ensures
        edge_views(final(out)@) == edge_views(old(out)@) + task_edges(task@),
{
    let ghost given = edge_views(out@);
    assert(given + Seq::<(Seq<char>, Seq<char>)>::empty() =~= given);
    let from = match task.str_at("id") {
        Some(s) => s,
        None => {
            return;
        },
    };
    let arr = match task.array_at("depends_on") {
        Some(a) => a,
        None => {
            return;
        },
    };
    let mut i: usize = 0;
    while i < arr.len()
        invariant
            i <= arr@.len(),
            edge_views(out@) == given + edges_to(from@, views(arr@), i as nat),
        decreases arr@.len() - i,
    {
        assert(views(arr@)[i as int] == arr@[i as int]@);
        if let Some(to) = arr[i].as_str() {
            let ghost before = out@;
            let edge = (from.to_owned(), to.to_owned());
            out.push(edge);
            assert(edge_views(out@) =~= edge_views(before).push((from@, to@)));
            assert((given + edges_to(from@, views(arr@), i as nat)).push((from@, to@)) =~= given
                + edges_to(from@, views(arr@), i as nat).push((from@, to@)));
        }
        i = i + 1;
    }
}

/// All edges of a plan, each from a task to one that it depends on.
pub fn collect_depends_on(b: &PlanBundle) -> (r: Vec<(String, String)>)
    ensures
        edge_views(r@) == plan_edges(*b),
{
    let mut out: Vec<(String, String)> = Vec::new();
    let mut u: usize = 0;
    assert(edge_views(out@) =~= Seq::empty());
    while u < b.units.len()
        invariant
            u <= b.units@.len(),
            edge_views(out@) == units_edges(b.units@, u as nat),
        decreases b.units@.len() - u,
    {
        let tasks = &b.units[u].tasks;
        let ghost before = edge_views(out@);
        let mut i: usize = 0;
        assert(before + Seq::<(Seq<char>, Seq<char>)>::empty() =~= before);
        while i < tasks.len()
            invariant
                i <= tasks@.len(),
                edge_views(out@) == before + tasks_edges(tasks@, i as nat),
            decreases tasks@.len() - i,
        {
            push_task_edges(&mut out, &tasks[i].task);
            assert((before + tasks_edges(tasks@, i as nat)) + task_edges(tasks@[i as int].task@)
                =~= before + (tasks_edges(tasks@, i as nat) + task_edges(
                tasks@[i as int].task@,
            )));
            i = i + 1;
        }
        u = u + 1;
    }
    out
}

/// The node of a task in the graph.
pub open spec fn graph_node(form: Form, task: JsonView) -> Seq<char> {
    let label = crate::tree::task_label(task);
    "  "@ + made(form, task.str_or("id"@, label)) + "[\""@ + made(form, label) + "\"]\n"@
}

/// The nodes of the first `n` tasks.
pub open spec fn tasks_nodes(form: Form, tasks: Seq<TaskBundle>, n: nat) -> Seq<char>
    decreases n,
{
    if n == 0 {
        Seq::empty()
    } else {
        tasks_nodes(form, tasks, (n - 1) as nat) + graph_node(form, tasks[n - 1].task@)
    }
}

/// The nodes of the first `n` units.
pub open spec fn units_nodes(form: Form, units: Seq<UnitBundle>, n: nat) -> Seq<char>
    decreases n,
{
    if n == 0 {
        Seq::empty()
    } else {
        units_nodes(form, units, (n - 1) as nat) + tasks_nodes(
            form,
            units[n - 1].tasks@,
            units[n - 1].tasks@.len(),
        )
    }
}

/// One line for each of the first `n` edges.
pub open spec fn edge_lines(form: Form, edges: Seq<(Seq<char>, Seq<char>)>, n: nat) -> Seq<char>
    decreases n,
{
    if n == 0 {
        Seq::empty()
    } else {
        edge_lines(form, edges, (n - 1) as nat) + ("  "@ + made(form, edges[n - 1].0)
            + " --> "@ + made(form, edges[n - 1].1) + "\n"@)
    }
}

/// The graph of the dependencies; none where there are no edges.
pub open spec fn md_graph(form: Form, b: PlanBundle) -> Seq<char> {
    let edges = plan_edges(b);
    if edges.len() == 0 {
        Seq::empty()
    } else {
        "## Dependency Graph\n\n```mermaid\ngraph LR\n"@ + units_nodes(form, b.units@, b.units@.len())
            + edge_lines(form, edges, edges.len()) + "```\n\n"@
    }
}

/// A plan has a graph exactly where some task depends on another.
pub proof fn graph_iff_dependencies(b: PlanBundle)
    ensures
        md_graph(Form::Plain, b).len() == 0 <==> plan_edges(b).len() == 0,
{
    reveal_strlit("```\n\n");
}

fn push_dependency_graph(out: &mut String, b: &PlanBundle)
    ensures
        final(out)@ == old(out)@ + md_graph(Form::Plain, *b),
{
    let edges = collect_depends_on(b);
    assert(edge_views(edges@).len() == edges@.len());
    if edges.len() == 0 {
        assert(out@ + Seq::<char>::empty() =~= out@);
        return;
    }
    let mut nodes = String::new();
    let mut u: usize = 0;
    while u < b.units.len()
        invariant
            u <= b.units@.len(),
            nodes@ == units_nodes(Form::Plain, b.units@, u as nat),
        decreases b.units@.len() - u,
    {
        let tasks = &b.units[u].tasks;
        let mut part = String::new();
        let mut i: usize = 0;
        while i < tasks.len()
            invariant
                i <= tasks@.len(),
                part@ == tasks_nodes(Form::Plain, tasks@, i as nat),
            decreases tasks@.len() - i,
        {
            let task = &tasks[i].task;
            let label = match task.str_at("ticket_number") {
                Some(t) => t,
                None => task.str_or("id", "?"),
            };
            let node = cat5("  ", task.str_or("id", label), "[\"", label, "\"]\n");
            part.append(node.as_str());
            i = i + 1;
        }
        nodes.append(part.as_str());
        u = u + 1;
    }
    let mut lines = String::new();
    let mut e: usize = 0;
    while e < edges.len()
        invariant
            e <= edges@.len(),
            lines@ == edge_lines(Form::Plain, edge_views(edges@), e as nat),
        decreases edges@.len() - e,
    {
        let line = cat5("  ", edges[e].0.as_str(), " --> ", edges[e].1.as_str(), "\n");
        lines.append(line.as_str());
        e = e + 1;
    }
    let part = cat4(
        "## Dependency Graph\n\n```mermaid\ngraph LR\n",
        nodes.as_str(),
        lines.as_str(),
        "```\n\n",
    );
    out.append(part.as_str());
}

/// The line of a milestone.
pub open spec fn milestone_line(m: JsonView) -> Seq<char> {
    let due = m.str_or("due"@, ""@);
    "- **"@ + m.str_or("name"@, "?"@) + "**"@ + (if due.len() > 0 {
        " — due "@ + due
    } else {
        Seq::empty()
    }) + (match m.str_at("description"@) {
        Some(d) => ": "@ + d,
        None => Seq::empty(),
    }) + "\n"@
}

/// The lines of the first `n` milestones.
pub open spec fn milestone_lines(a: Seq<JsonView>, n: nat) -> Seq<char>
    decreases n,
{
    if n == 0 {
        Seq::empty()
    } else {
        milestone_lines(a, (n - 1) as nat) + milestone_line(a[n - 1])
    }
}

/// The section on the milestones; none where there are none.
pub open spec fn md_milestones(plan: JsonView) -> Seq<char> {
    match plan.array_at("milestones_json"@) {
        Some(a) => if a.len() == 0 {
            Seq::empty()
        } else {
            "## Milestones\n\n"@ + milestone_lines(a, a.len()) + "\n"@
        },
        None => Seq::empty(),
    }
}

fn push_milestones(out: &mut String, plan: &Json)
    ensures
        final(out)@ == old(out)@ + md_milestones(plan@),
{
    assert(out@ + Seq::<char>::empty() =~= out@);
    let ms = match plan.array_at("milestones_json") {
        Some(a) => a,
        None => {
            return;
        },
    };
    assert(views(ms@).len() == ms@.len());
    if ms.len() == 0 {
        return;
    }
    let mut lines = String::new();
    let mut i: usize = 0;
    while i < ms.len()
        invariant
            i <= ms@.len(),
            lines@ == milestone_lines(views(ms@), i as nat),
        decreases ms@.len() - i,
    {
        let m = &ms[i];
        assert(views(ms@)[i as int] == m@);
        let due = m.str_or("due", "");
        let due_part = if due.is_empty() {
            String::new()
        } else {
            cat2(" — due ", due)
        };
        let description = match m.str_at("description") {
            Some(d) => cat2(": ", d),
            None => String::new(),
        };
        let mut line = cat5(
            "- **",
            m.str_or("name", "?"),
            "**",
            due_part.as_str(),
            description.as_str(),
        );
        line.append("\n");
        lines.append(line.as_str());
        i = i + 1;
    }
    let part = cat3("## Milestones\n\n", lines.as_str(), "\n");
    out.append(part.as_str());
}

/// The section of a knowledge entry.
pub open spec fn knowledge_entry(form: Form, a: JsonView) -> Seq<char> {
    "### "@ + a.str_or("title"@, "?"@) + " (`"@ + made(form, a.str_or("id"@, "?"@)) + "` · "@ + a.str_or(
        "type"@,
        "?"@,
    ) + ")\n\n"@ + (match a.str_at("body"@) {
        Some(body) => trim_end(body) + "\n\n"@,
        None => Seq::empty(),
    })
}

/// The sections of the first `n` knowledge entries.
pub open spec fn knowledge_entries(form: Form, k: Seq<JsonView>, n: nat) -> Seq<char>
    decreases n,
{
    if n == 0 {
        Seq::empty()
    } else {
        knowledge_entries(form, k, (n - 1) as nat) + knowledge_entry(form, k[n - 1])
    }
}

/// The appendix with the knowledge entries; none where there are none.
pub open spec fn md_knowledge(form: Form, k: Seq<JsonView>) -> Seq<char> {
    if k.len() == 0 {
        Seq::empty()
    } else {
        "## Knowledge\n\n"@ + knowledge_entries(form, k, k.len())
    }
}

fn push_knowledge_appendix(out: &mut String, knowledge: &Vec<Json>)
    ensures
        final(out)@ == old(out)@ + md_knowledge(Form::Plain, views(knowledge@)),
{
    assert(views(knowledge@).len() == knowledge@.len());
    assert(out@ + Seq::<char>::empty() =~= out@);
    if knowledge.len() == 0 {
        return;
    }
    let mut entries = String::new();
    let mut i: usize = 0;
    while i < knowledge.len()
        invariant
            i <= knowledge@.len(),
            entries@ == knowledge_entries(Form::Plain, views(knowledge@), i as nat),
        decreases knowledge@.len() - i,
    {
        let a = &knowledge[i];
        assert(views(knowledge@)[i as int] == a@);
        let mut entry = cat5(
            "### ",
            a.str_or("title", "?"),
            " (`",
            a.str_or("id", "?"),
            "` · ",
        );
        entry.append(a.str_or("type", "?"));
        entry.append(")\n\n");
        let body = match a.str_at("body") {
            Some(b) => {
                let t = without_tail(b);
                cat2(t.as_str(), "\n\n")
            },
            None => String::new(),
        };
        entry.append(body.as_str());
        entries.append(entry.as_str());
        i = i + 1;
    }
    let part = cat2("## Knowledge\n\n", entries.as_str());
    out.append(part.as_str());
}

/// A plan as markdown: its sections, in this order.
pub open spec fn markdown_in(form: Form, b: PlanBundle) -> Seq<char> {
    md_head(b.plan@) + md_meta(form, b.plan@) + md_overview(b) + md_legend() + md_units(
        form,
        b.units@,
        b.units@.len(),
    ) + md_graph(form, b) + md_milestones(b.plan@) + md_knowledge(form, views(b.knowledge@))
}

/// A plan as markdown.
pub open spec fn markdown(b: PlanBundle) -> Seq<char> {
    markdown_in(Form::Plain, b)
}

/// A plan as markdown.
pub fn render_markdown(b: &PlanBundle) -> (r: String)
    ensures
        r@ == markdown(*b),
{
    let description = paragraph(b.plan.str_or("description", ""));
    let mut out = cat4(
        "# ",
        b.plan.str_or("title", "(untitled)"),
        "\n\n",
        description.as_str(),
    );
    push_meta_section(&mut out, &b.plan);
    push_overview_table(&mut out, b);
    push_envelope_legend(&mut out);
    let ghost front = out@;
    let mut i: usize = 0;
    assert(front + md_units(Form::Plain, b.units@, 0) =~= front);
    while i < b.units.len()
        invariant
            i <= b.units@.len(),
            out@ == front + md_units(Form::Plain, b.units@, i as nat),
        decreases b.units@.len() - i,
    {
        push_unit_section(&mut out, &b.units[i]);
        proof {
            let before = md_units(Form::Plain, b.units@, i as nat);
            let more = md_unit(Form::Plain, b.units@[i as int]);
            assert((front + before) + more =~= front + (before + more));
        }
        i = i + 1;
    }
    push_dependency_graph(&mut out, b);
    push_milestones(&mut out, &b.plan);
    push_knowledge_appendix(&mut out, &b.knowledge);
    out
}

/// Two tasks that differ in nothing but what the daemon makes anew.
pub open spec fn tasks_alike(x: TaskBundle, y: TaskBundle) -> bool {
    &&& alike(x.task@, y.task@)
    &&& alike(x.envelope@, y.envelope@)
    &&& x.envelope@ is Null <==> y.envelope@ is Null
}

/// Two units that differ in nothing but what the daemon makes anew.
pub open spec fn units_alike(x: UnitBundle, y: UnitBundle) -> bool {
    &&& alike(x.unit@, y.unit@)
    &&& x.tasks@.len() == y.tasks@.len()
    &&& forall|i: int| 0 <= i < x.tasks@.len() ==> tasks_alike(#[trigger] x.tasks@[i], y.tasks@[i])
}

/// Two plans that differ in nothing but what the daemon makes anew: identifiers,
/// tickets and times.
pub open spec fn plans_alike(x: PlanBundle, y: PlanBundle) -> bool {
    &&& alike(x.plan@, y.plan@)
    &&& x.units@.len() == y.units@.len()
    &&& forall|i: int| 0 <= i < x.units@.len() ==> units_alike(#[trigger] x.units@[i], y.units@[i])
    &&& all_alike(views(x.knowledge@), views(y.knowledge@))
}

proof fn kept_names()
    ensures
        !is_made("title"@) && "title"@ != "source"@,
        !is_made("description"@) && "description"@ != "source"@,
        !is_made("status"@) && "status"@ != "source"@,
        !is_made("goal"@) && "goal"@ != "source"@,
        !is_made("idx"@) && "idx"@ != "source"@,
        !is_made("body"@) && "body"@ != "source"@,
        !is_made("milestones_json"@) && "milestones_json"@ != "source"@,
        !is_made("type"@) && "type"@ != "source"@,
{
    reveal_strlit("source");
    reveal_strlit("title");
    reveal_strlit("description");
    reveal_strlit("status");
    reveal_strlit("goal");
    reveal_strlit("idx");
    reveal_strlit("body");
    reveal_strlit("milestones_json");
    reveal_strlit("type");
    ends("title"@, 'l', 'e');
    ends("description"@, 'o', 'n');
    ends("status"@, 'u', 's');
    ends("goal"@, 'a', 'l');
    ends("idx"@, 'd', 'x');
    ends("body"@, 'd', 'y');
    ends("milestones_json"@, 'o', 'n');
    ends("type"@, 'p', 'e');
    assert("status"@[1] != "source"@[1]);
}

proof fn bullets_alike(x: JsonView, y: JsonView, n: nat)
    requires
        alike(x, y),
        n <= 19,
    ensures
        bullets_upto(Form::Masked, x, n) == bullets_upto(Form::Masked, y, n),
    decreases n,
{
    if n > 0 {
        bullets_alike(x, y, (n - 1) as nat);
        let field = ENVELOPE_FIELDS[n - 1]@;
        assert(seen_at(x, field) == seen_at(y, field));
    }
}

proof fn task_alike(x: TaskBundle, y: TaskBundle)
    requires
        tasks_alike(x, y),
    ensures
        md_task(Form::Masked, x) == md_task(Form::Masked, y),
        graph_node(Form::Masked, x.task@) == graph_node(Form::Masked, y.task@),
        task_edges(x.task@).len() == task_edges(y.task@).len(),
        x.task@.str_or("status"@, ""@) == y.task@.str_or("status"@, ""@),
{
    kept_names();
    kept_member(x.task@, y.task@, "title"@);
    kept_member(x.task@, y.task@, "status"@);
    kept_member(x.task@, y.task@, "body"@);
    made_member(x.task@, y.task@, "id"@);
    made_member(x.task@, y.task@, "ticket_number"@);
    made_member(x.task@, y.task@, "depends_on"@);
    bullets_alike(x.envelope@, y.envelope@, 19);
    if let Some(a) = x.task@.array_at("depends_on"@) {
        let b = y.task@.array_at("depends_on"@)->0;
        edges_alike(
            x.task@.str_or("id"@, ""@),
            a,
            y.task@.str_or("id"@, ""@),
            b,
            a.len(),
        );
    }
}

proof fn edges_alike(
    from: Seq<char>,
    a: Seq<JsonView>,
    other: Seq<char>,
    b: Seq<JsonView>,
    n: nat,
)
    requires
        n <= a.len(),
        a.len() == b.len(),
        forall|i: int|
            0 <= i < a.len() ==> ((#[trigger] a[i]).as_str() is Some <==> b[i].as_str() is Some),
    ensures
        edges_to(from, a, n).len() == edges_to(other, b, n).len(),
    decreases n,
{
    if n > 0 {
        edges_alike(from, a, other, b, (n - 1) as nat);
        assert(a[n - 1].as_str() is Some <==> b[n - 1].as_str() is Some);
    }
}

proof fn tasks_upto_alike(x: Seq<TaskBundle>, y: Seq<TaskBundle>, p: Progress, n: nat)
    requires
        n <= x.len(),
        x.len() == y.len(),
        forall|i: int| 0 <= i < x.len() ==> tasks_alike(#[trigger] x[i], y[i]),
    ensures
        md_tasks(Form::Masked, x, n) == md_tasks(Form::Masked, y, n),
        tasks_nodes(Form::Masked, x, n) == tasks_nodes(Form::Masked, y, n),
        tasks_edges(x, n).len() == tasks_edges(y, n).len(),
        standing(x, p, n) == standing(y, p, n),
    decreases n,
{
    if n > 0 {
        tasks_upto_alike(x, y, p, (n - 1) as nat);
        assert(tasks_alike(x[n - 1], y[n - 1]));
        task_alike(x[n - 1], y[n - 1]);
    }
}

proof fn unit_alike(i: int, x: UnitBundle, y: UnitBundle)
    requires
        units_alike(x, y),
    ensures
        md_unit(Form::Masked, x) == md_unit(Form::Masked, y),
        overview_row(i, x) == overview_row(i, y),
        tasks_nodes(Form::Masked, x.tasks@, x.tasks@.len()) == tasks_nodes(
            Form::Masked,
            y.tasks@,
            y.tasks@.len(),
        ),
        tasks_edges(x.tasks@, x.tasks@.len()).len() == tasks_edges(
            y.tasks@,
            y.tasks@.len(),
        ).len(),
{
    kept_names();
    kept_member(x.unit@, y.unit@, "title"@);
    kept_member(x.unit@, y.unit@, "goal"@);
    kept_member(x.unit@, y.unit@, "idx"@);
    tasks_upto_alike(x.tasks@, y.tasks@, Progress::Todo, x.tasks@.len());
    tasks_upto_alike(x.tasks@, y.tasks@, Progress::Doing, x.tasks@.len());
    tasks_upto_alike(x.tasks@, y.tasks@, Progress::Done, x.tasks@.len());
}

proof fn units_upto_alike(x: Seq<UnitBundle>, y: Seq<UnitBundle>, n: nat)
    requires
        n <= x.len(),
        x.len() == y.len(),
        forall|i: int| 0 <= i < x.len() ==> units_alike(#[trigger] x[i], y[i]),
    ensures
        md_units(Form::Masked, x, n) == md_units(Form::Masked, y, n),
        overview_rows(x, n) == overview_rows(y, n),
        units_nodes(Form::Masked, x, n) == units_nodes(Form::Masked, y, n),
        units_edges(x, n).len() == units_edges(y, n).len(),
    decreases n,
{
    if n > 0 {
        units_upto_alike(x, y, (n - 1) as nat);
        assert(units_alike(x[n - 1], y[n - 1]));
        unit_alike(n - 1, x[n - 1], y[n - 1]);
    }
}

proof fn edge_lines_alike(
    x: Seq<(Seq<char>, Seq<char>)>,
    y: Seq<(Seq<char>, Seq<char>)>,
    n: nat,
)
    ensures
        edge_lines(Form::Masked, x, n) == edge_lines(Form::Masked, y, n),
    decreases n,
{
    if n > 0 {
        edge_lines_alike(x, y, (n - 1) as nat);
    }
}

proof fn knowledge_alike(x: Seq<JsonView>, y: Seq<JsonView>, n: nat)
    requires
        n <= x.len(),
        all_alike(x, y),
    ensures
        knowledge_entries(Form::Masked, x, n) == knowledge_entries(Form::Masked, y, n),
    decreases n,
{
    if n > 0 {
        knowledge_alike(x, y, (n - 1) as nat);
        kept_names();
        assert(alike(x[n - 1], y[n - 1]));
        kept_member(x[n - 1], y[n - 1], "title"@);
        kept_member(x[n - 1], y[n - 1], "type"@);
        kept_member(x[n - 1], y[n - 1], "body"@);
    }
}

/// Two plans that differ in nothing but what the daemon makes anew, such as a
/// plan and what was imported from its export, have the same markdown once
/// that is masked.
pub proof fn alike_plans_export_alike(x: PlanBundle, y: PlanBundle)
    requires
        plans_alike(x, y),
    ensures
        markdown_in(Form::Masked, x) == markdown_in(Form::Masked, y),
{
    kept_names();
    kept_member(x.plan@, y.plan@, "title"@);
    kept_member(x.plan@, y.plan@, "description"@);
    kept_member(x.plan@, y.plan@, "status"@);
    kept_member(x.plan@, y.plan@, "milestones_json"@);
    source_member(x.plan@, y.plan@);
    units_upto_alike(x.units@, y.units@, x.units@.len());
    edge_lines_alike(plan_edges(x), plan_edges(y), plan_edges(x).len());
    knowledge_alike(views(x.knowledge@), views(y.knowledge@), views(x.knowledge@).len());
}

pub(crate) proof fn occurs_around(a: Seq<char>, s: Seq<char>, b: Seq<char>, p: Seq<char>)
    requires
        occurs_in(s, p),
    ensures
        occurs_in(a + s + b, p),
        occurs_in(a + s, p),
        occurs_in(s + b, p),
{
    let i = choose|i: int| occurs_at(s, p, i);
    assert((a + s + b).subrange(a.len() + i, a.len() + i + p.len()) =~= s.subrange(
        i,
        i + p.len(),
    ));
    assert((a + s).subrange(a.len() + i, a.len() + i + p.len()) =~= s.subrange(i, i + p.len()));
    assert((s + b).subrange(i, i + p.len()) =~= s.subrange(i, i + p.len()));
    assert(occurs_at(a + s + b, p, a.len() + i));
    assert(occurs_at(a + s, p, a.len() + i));
    assert(occurs_at(s + b, p, i));
}

proof fn task_shows_envelope(form: Form, tb: TaskBundle)
    requires
        !(tb.envelope@ is Null),
    ensures
        occurs_in(md_task(form, tb), "**Envelope:**"@),
{
    reveal_strlit("**Envelope:**");
    reveal_strlit("**Envelope:**\n\n");
    let head = "**Envelope:**\n\n"@;
    let p = "**Envelope:**"@;
    assert(head.subrange(0, p.len() as int) =~= p);
    assert(occurs_at(head, p, 0));
    let bullets = bullets_upto(form, tb.envelope@, 19);
    let section = head + bullets + "\n"@;
    occurs_around(Seq::empty(), head, bullets, p);
    occurs_around(Seq::empty(), head + bullets, "\n"@, p);
    let all = md_task(form, tb);
    let front = all.take(all.len() - section.len());
    assert(all =~= front + section);
    occurs_around(front, section, Seq::empty(), p);
}

proof fn tasks_show_envelope(form: Form, tasks: Seq<TaskBundle>, n: nat, i: int)
    requires
        0 <= i < n <= tasks.len(),
        !(tasks[i].envelope@ is Null),
    ensures
        occurs_in(md_tasks(form, tasks, n), "**Envelope:**"@),
    decreases n,
{
    let p = "**Envelope:**"@;
    let before = md_tasks(form, tasks, (n - 1) as nat);
    let last = md_task(form, tasks[n - 1]);
    if i == n - 1 {
        task_shows_envelope(form, tasks[i]);
        occurs_around(before, last, Seq::empty(), p);
    } else {
        tasks_show_envelope(form, tasks, (n - 1) as nat, i);
        occurs_around(Seq::empty(), before, last, p);
    }
}

proof fn units_show_envelope(form: Form, units: Seq<UnitBundle>, n: nat, u: int, i: int)
    requires
        0 <= u < n <= units.len(),
        0 <= i < units[u].tasks@.len(),
        !(units[u].tasks@[i].envelope@ is Null),
    ensures
        occurs_in(md_units(form, units, n), "**Envelope:**"@),
    decreases n,
{
    let p = "**Envelope:**"@;
    let before = md_units(form, units, (n - 1) as nat);
    let last = md_unit(form, units[n - 1]);
    if u == n - 1 {
        let tasks = md_tasks(form, units[u].tasks@, units[u].tasks@.len());
        tasks_show_envelope(form, units[u].tasks@, units[u].tasks@.len(), i);
        let front = last.take(last.len() - tasks.len());
        assert(last =~= front + tasks);
        occurs_around(front, tasks, Seq::empty(), p);
        occurs_around(before, last, Seq::empty(), p);
    } else {
        units_show_envelope(form, units, (n - 1) as nat, u, i);
        occurs_around(Seq::empty(), before, last, p);
    }
}

/// Some task of the plan has an envelope.
pub open spec fn has_envelopes(b: PlanBundle) -> bool {
    exists|u: int, i: int|
        0 <= u < b.units@.len() && 0 <= i < b.units@[u].tasks@.len() && !((
        #[trigger] b.units@[u].tasks@[i]).envelope@ is Null)
}

/// The markdown of a plan with envelopes shows them, and that of one with
/// dependencies has their graph, masked or not.
pub proof fn exports_show_envelopes_and_graph(form: Form, b: PlanBundle)
    ensures
        has_envelopes(b) ==> occurs_in(markdown_in(form, b), "**Envelope:**"@),
        plan_edges(b).len() > 0 ==> occurs_in(markdown_in(form, b), "```mermaid"@),
{
    let front = md_head(b.plan@) + md_meta(form, b.plan@) + md_overview(b) + md_legend();
    let units = md_units(form, b.units@, b.units@.len());
    let graph = md_graph(form, b);
    let milestones = md_milestones(b.plan@);
    let knowledge = md_knowledge(form, views(b.knowledge@));
    let tail = milestones + knowledge;
    assert(markdown_in(form, b) =~= front + units + (graph + tail));
    assert(markdown_in(form, b) =~= (front + units) + graph + tail);
    if has_envelopes(b) {
        let (u, i) = choose|u: int, i: int|
            0 <= u < b.units@.len() && 0 <= i < b.units@[u].tasks@.len() && !((
            #[trigger] b.units@[u].tasks@[i]).envelope@ is Null);
        units_show_envelope(form, b.units@, b.units@.len(), u, i);
        occurs_around(front, units, graph + tail, "**Envelope:**"@);
    }
    if plan_edges(b).len() > 0 {
        let edges = plan_edges(b);
        let p = "```mermaid"@;
        let opening = "## Dependency Graph\n\n```mermaid\ngraph LR\n"@;
        reveal_strlit("```mermaid");
        reveal_strlit("## Dependency Graph\n\n```mermaid\ngraph LR\n");
        assert(opening.subrange(21, 31) =~= p);
        assert(occurs_at(opening, p, 21));
        let rest = graph.skip(opening.len() as int);
        assert(graph =~= opening + rest);
        occurs_around(Seq::empty(), opening, rest, p);
        occurs_around(front + units, graph, tail, p);
    }
}

/// A task in the JSON form of a plan.
pub open spec fn task_json(tb: TaskBundle) -> JsonView {
    empty_object().with("task"@, tb.task@).with("envelope"@, tb.envelope@)
}

/// A unit in the JSON form of a plan.
pub open spec fn unit_json(ub: UnitBundle) -> JsonView {
    empty_object().with("unit"@, ub.unit@).with(
        "tasks"@,
        JsonView::Array(Seq::new(ub.tasks@.len(), |i: int| task_json(ub.tasks@[i]))),
    )
}

/// An edge in the JSON form of a plan.
pub open spec fn edge_json(edge: (Seq<char>, Seq<char>)) -> JsonView {
    empty_object().with("from"@, JsonView::Text(edge.0)).with("to"@, JsonView::Text(edge.1))
}

/// A plan as JSON.
pub open spec fn plan_json(b: PlanBundle) -> JsonView {
    empty_object().with("plan"@, b.plan@).with(
        "units"@,
        JsonView::Array(Seq::new(b.units@.len(), |i: int| unit_json(b.units@[i]))),
    ).with(
        "depends_on"@,
        JsonView::Array(Seq::new(plan_edges(b).len(), |i: int| edge_json(plan_edges(b)[i]))),
    ).with("knowledge"@, JsonView::Array(views(b.knowledge@)))
}

fn unit_to_json(ub: &UnitBundle) -> (r: Json)
    ensures
        r@ == unit_json(*ub),
{
    let mut tasks: Vec<Json> = Vec::new();
    let mut i: usize = 0;
    while i < ub.tasks.len()
        invariant
            i <= ub.tasks@.len(),
            tasks@.len() == i,
            forall|k: int| 0 <= k < i ==> (#[trigger] tasks@[k])@ == task_json(ub.tasks@[k]),
        decreases ub.tasks@.len() - i,
    {
        let tb = &ub.tasks[i];
        tasks.push(object().with("task", tb.task.copy()).with("envelope", tb.envelope.copy()));
        i = i + 1;
    }
    assert(views(tasks@) =~= Seq::new(ub.tasks@.len(), |i: int| task_json(ub.tasks@[i])));
    object().with("unit", ub.unit.copy()).with("tasks", array(tasks))
}

/// A plan as JSON.
pub fn render_json(b: &PlanBundle) -> (r: Json)
    ensures
        r@ == plan_json(*b),
{
    let mut units: Vec<Json> = Vec::new();
    let mut i: usize = 0;
    while i < b.units.len()
        invariant
            i <= b.units@.len(),
            units@.len() == i,
            forall|k: int| 0 <= k < i ==> (#[trigger] units@[k])@ == unit_json(b.units@[k]),
        decreases b.units@.len() - i,
    {
        units.push(unit_to_json(&b.units[i]));
        i = i + 1;
    }
    assert(views(units@) =~= Seq::new(b.units@.len(), |i: int| unit_json(b.units@[i])));
    let edges = collect_depends_on(b);
    let mut depends_on: Vec<Json> = Vec::new();
    let mut e: usize = 0;
    let ghost all = edge_views(edges@);
    while e < edges.len()
        invariant
            e <= edges@.len(),
            all == edge_views(edges@),
            depends_on@.len() == e,
            forall|k: int| 0 <= k < e ==> (#[trigger] depends_on@[k])@ == edge_json(all[k]),
        decreases edges@.len() - e,
    {
        depends_on.push(
            object().with("from", text(edges[e].0.as_str())).with(
                "to",
                text(edges[e].1.as_str()),
            ),
        );
        e = e + 1;
    }
    assert(all.len() == edges@.len());
    assert(views(depends_on@) =~= Seq::new(
        plan_edges(*b).len(),
        |i: int| edge_json(plan_edges(*b)[i]),
    ));
    let mut knowledge: Vec<Json> = Vec::new();
    let mut k: usize = 0;
    while k < b.knowledge.len()
        invariant
            k <= b.knowledge@.len(),
            knowledge@.len() == k,
            forall|j: int| 0 <= j < k ==> (#[trigger] knowledge@[j])@ == b.knowledge@[j]@,
        decreases b.knowledge@.len() - k,
    {
        knowledge.push(b.knowledge[k].copy());
        k = k + 1;
    }
    assert(views(knowledge@) =~= views(b.knowledge@));
    object().with("plan", b.plan.copy()).with("units", array(units)).with(
        "depends_on",
        array(depends_on),
    ).with("knowledge", array(knowledge))
}

/// The text in quotes, in the way in which Rust's `Debug` writes it.
pub uninterp spec fn debug_quoted(s: Seq<char>) -> Seq<char>;

/// Calls the `Debug` formatting of `str`. What is claimed of it: the same
/// text is written in the same way.
#[verifier::external_body]
fn debug_quote(s: &str) -> (r: String)
    ensures
        r@ == debug_quoted(s@),
{
    format!("{:?}", s)
}

/// A text that YAML would read in another way is written in quotes.
pub open spec fn needs_quotes(s: Seq<char>) -> bool {
    s.contains('\n') || s.contains(':') || s.contains('#')
}

/// A value that is neither a list nor an object, on a line of its own.
pub open spec fn yaml_line(j: JsonView) -> Seq<char> {
    match j {
        JsonView::Text(s) => if needs_quotes(s) {
            debug_quoted(s) + "\n"@
        } else {
            s + "\n"@
        },
        other => compact(other) + "\n"@,
    }
}

/// The value in the YAML form of an export, indented by `pad`.
pub open spec fn export_yaml(j: JsonView, pad: Seq<char>) -> Seq<char>
    decreases j, 0nat,
{
    match j {
        JsonView::Array(a) => if a.len() == 0 {
            pad + "[]\n"@
        } else {
            export_items(a, pad, a.len())
        },
        JsonView::Object(m) => if m.len() == 0 {
            pad + "{}\n"@
        } else {
            export_members(m, pad, m.len())
        },
        scalar => pad + yaml_line(scalar),
    }
}

/// The first `n` items. Lists and objects are indented below their dash.
pub open spec fn export_items(a: Seq<JsonView>, pad: Seq<char>, n: nat) -> Seq<char>
    decreases a, n,
{
    if n == 0 || n > a.len() {
        Seq::empty()
    } else {
        let item = a[n - 1];
        export_items(a, pad, (n - 1) as nat) + (if item is Object || item is Array {
            pad + "-\n"@ + export_yaml(item, pad + "  "@)
        } else {
            pad + "- "@ + yaml_line(item)
        })
    }
}

/// The first `n` members. Lists and objects are indented below their key.
pub open spec fn export_members(m: Seq<(Seq<char>, JsonView)>, pad: Seq<char>, n: nat) -> Seq<char>
    decreases m, n,
{
    if n == 0 || n > m.len() {
        Seq::empty()
    } else {
        let key = m[n - 1].0;
        let value = m[n - 1].1;
        export_members(m, pad, (n - 1) as nat) + (if value is Object || value is Array {
            pad + key + ":\n"@ + export_yaml(value, pad + "  "@)
        } else {
            pad + key + ": "@ + yaml_line(value)
        })
    }
}

fn line_of_scalar(j: &Json) -> (r: String)
    ensures
        r@ == yaml_line(j@),
{
    match j {
        Json::Text(s) => {
            if has_char(s.as_str(), '\n') || has_char(s.as_str(), ':') || has_char(
                s.as_str(),
                '#',
            ) {
                let q = debug_quote(s.as_str());
                cat2(q.as_str(), "\n")
            } else {
                cat2(s.as_str(), "\n")
            }
        },
        other => {
            let t = to_text(other);
            cat2(t.as_str(), "\n")
        },
    }
}

fn is_nested(j: &Json) -> (r: bool)
    ensures
        r == (j@ is Object || j@ is Array),
{
    match j {
        Json::Object(_) => true,
        Json::Array(_) => true,
        _ => false,
    }
}

/// The value in the YAML form of an export, indented by `pad`.
pub fn json_to_yaml(val: &Json, pad: &str) -> (r: String)
    ensures
        r@ == export_yaml(val@, pad@),
    decreases val,
{
    match val {
        Json::Array(arr) => {
            proof {
                array_view(*arr);
            }
            if arr.len() == 0 {
                return cat2(pad, "[]\n");
            }
            let mut out = String::new();
            let deeper = cat2(pad, "  ");
            let mut i: usize = 0;
            while i < arr.len()
                invariant
                    i <= arr@.len(),
                    val == Json::Array(*arr),
                    deeper@ == pad@ + "  "@,
                    out@ == export_items(views(arr@), pad@, i as nat),
                decreases arr@.len() - i,
            {
                assert(decreases_to!(val => val->Array_0@[i as int]));
                assert(views(arr@)[i as int] == arr@[i as int]@);
                let part = if is_nested(&arr[i]) {
                    let inner = json_to_yaml(&arr[i], deeper.as_str());
                    cat3(pad, "-\n", inner.as_str())
                } else {
                    let line = line_of_scalar(&arr[i]);
                    cat3(pad, "- ", line.as_str())
                };
                out.append(part.as_str());
                i = i + 1;
            }
            out
        },
        Json::Object(obj) => {
            proof {
                object_view(*obj);
            }
            if obj.len() == 0 {
                return cat2(pad, "{}\n");
            }
            let mut out = String::new();
            let deeper = cat2(pad, "  ");
            let mut i: usize = 0;
            while i < obj.len()
                invariant
                    i <= obj@.len(),
                    val == Json::Object(*obj),
                    deeper@ == pad@ + "  "@,
                    out@ == export_members(pairs(obj@), pad@, i as nat),
                decreases obj@.len() - i,
            {
                assert(decreases_to!(val => val->Object_0@[i as int].value));
                assert(pairs(obj@)[i as int] == (obj@[i as int].key@, obj@[i as int].value@));
                let part = if is_nested(&obj[i].value) {
                    let inner = json_to_yaml(&obj[i].value, deeper.as_str());
                    cat4(pad, obj[i].key.as_str(), ":\n", inner.as_str())
                } else {
                    let line = line_of_scalar(&obj[i].value);
                    cat4(pad, obj[i].key.as_str(), ": ", line.as_str())
                };
                out.append(part.as_str());
                i = i + 1;
            }
            out
        },
        scalar => {
            let line = line_of_scalar(scalar);
            cat2(pad, line.as_str())
        },
    }
}

/// A plan in an export form.
pub enum Rendered {
    Text(String),
    /// To be written as indented JSON.
    Json(Json),
}

/// A plan in the asked export form; other forms than `md`, `markdown`, `json`
/// and `yaml` are refused.
pub fn render(b: &PlanBundle, format: &str) -> (r: Result<Rendered, String>)
    ensures
        ({
            if format@ == "md"@ || format@ == "markdown"@ {
                r matches Ok(Rendered::Text(s)) && s@ == markdown(*b)
            } else if format@ == "json"@ {
                r matches Ok(Rendered::Json(j)) && j@ == plan_json(*b)
            } else if format@ == "yaml"@ {
                r matches Ok(Rendered::Text(s)) && s@ == export_yaml(plan_json(*b), ""@)
            } else {
                r matches Err(e) && e@ == "unsupported --format `"@ + format@
                    + "` (md | json | yaml)"@
            }
        }),
{
    if same(format, "md") || same(format, "markdown") {
        Ok(Rendered::Text(render_markdown(b)))
    } else if same(format, "json") {
        Ok(Rendered::Json(render_json(b)))
    } else if same(format, "yaml") {
        let j = render_json(b);
        Ok(Rendered::Text(json_to_yaml(&j, "")))
    } else {
        Err(cat3("unsupported --format `", format, "` (md | json | yaml)"))
    }
}

/// The items of a list that have an identifier, among the first `n`.
pub open spec fn identified_upto(a: Seq<JsonView>, n: nat) -> Seq<(Seq<char>, JsonView)>
    decreases n,
{
    if n == 0 {
        Seq::empty()
    } else {
        let before = identified_upto(a, (n - 1) as nat);
        match a[n - 1].str_at("id"@) {
            Some(id) => before.push((id, a[n - 1])),
            None => before,
        }
    }
}

/// The items of a list that have an identifier; none where it is no list.
pub open spec fn identified(j: JsonView) -> Seq<(Seq<char>, JsonView)> {
    match j {
        JsonView::Array(a) => identified_upto(a, a.len()),
        _ => Seq::empty(),
    }
}

/// What a list of identified items holds.
pub open spec fn identified_views(v: Seq<(String, Json)>) -> Seq<(Seq<char>, JsonView)> {
    Seq::new(v.len(), |i: int| (v[i].0@, v[i].1@))
}

/// The items of a list that have an identifier, each with it: the units and
/// the tasks that an export holds.
pub fn with_ids(list: &Json) -> (r: Vec<(String, Json)>)
    ensures
        identified_views(r@) == identified(list@),
{
    let mut out: Vec<(String, Json)> = Vec::new();
    assert(identified_views(out@) =~= Seq::empty());
    if let Some(arr) = list.as_array() {
        let mut i: usize = 0;
        while i < arr.len()
            invariant
                i <= arr@.len(),
                identified_views(out@) == identified_upto(views(arr@), i as nat),
            decreases arr@.len() - i,
        {
            assert(views(arr@)[i as int] == arr@[i as int]@);
            if let Some(id) = arr[i].str_at("id") {
                let ghost before = out@;
                let item = (id.to_owned(), arr[i].copy());
                out.push(item);
                assert(identified_views(out@) =~= identified_views(before).push(
                    (id@, arr@[i as int]@),
                ));
            }
            i = i + 1;
        }
    }
    out
}

/// The envelope of a task for an export: null where the answer has none, or
/// where there is no answer.
pub fn envelope_or_null(resp: Option<&Json>) -> (r: Json)
    ensures
        r@ == match resp {
            Some(j) => match envelope_in(j@) {
                Some(e) => e,
                None => JsonView::Null,
            },
            None => JsonView::Null,
        },
{
    match resp {
        Some(j) => match envelope_of(j) {
            Some(e) => e.copy(),
            None => Json::Null,
        },
        None => Json::Null,
    }
}

/// The requests of an export: the plan, its units, the tasks of a unit, the
/// envelope of a task and the knowledge of the plan.
pub fn plan_request(plan_id: &str) -> (r: Request)
    ensures
        r@ == getting("/plans/"@ + plan_id@),
{
    get(cat2("/plans/", plan_id))
}

/// See `plan_request`.
pub fn units_request(plan_id: &str) -> (r: Request)
    ensures
        r@ == getting("/units?plan_id="@ + plan_id@),
{
    get(cat2("/units?plan_id=", plan_id))
}

/// See `plan_request`.
pub fn tasks_request(unit_id: &str) -> (r: Request)
    ensures
        r@ == getting("/tasks?unit_id="@ + unit_id@),
{
    get(cat2("/tasks?unit_id=", unit_id))
}

/// See `plan_request`.
pub fn envelope_request(task_id: &str) -> (r: Request)
    ensures
        r@ == getting("/tasks/"@ + task_id@ + "/envelope?resolve=true"@),
{
    get(cat3("/tasks/", task_id, "/envelope?resolve=true"))
}

/// See `plan_request`.
pub fn knowledge_request(plan_id: &str) -> (r: Request)
    ensures
        r@ == getting("/knowledge?plan_id="@ + plan_id@),
{
    get(cat2("/knowledge?plan_id=", plan_id))
}

} // verus!
