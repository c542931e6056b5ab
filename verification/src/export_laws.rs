//! What the export of a plan says, read from its text and its JSON form.

use vstd::prelude::*;
use crate::export::{
    bullets_upto, edge_json, edge_lines, edges_to, graph_node, identified, identified_upto,
    knowledge_entries, knowledge_entry, markdown, md_graph, md_head, md_knowledge, md_legend,
    md_meta, md_milestones, md_overview, md_task, md_tasks, md_unit, md_units, milestone_line,
    milestone_lines, occurs_around, overview_row, overview_rows, plan_edges, plan_json, progress_of,
    standing, task_edges, task_json, tasks_edges, tasks_nodes, unit_json, units_edges, units_nodes,
    PlanBundle, Progress, TaskBundle, UnitBundle, ENVELOPE_FIELDS,
};
use crate::json::{
    empty_has_no_member, get_after_with, views, with_stays_object, JsonView,
};
use crate::json_text::compact;
use crate::masking::Form;
use crate::scan::{occurs_at, occurs_in, trim_end};
use crate::text::{dec, dec_int};

verus! {

proof fn occurs_whole(p: Seq<char>)
    ensures
        occurs_in(p, p),
{
    assert(p.subrange(0, p.len() as int) =~= p);
    assert(occurs_at(p, p, 0));
}

proof fn occurs_inside(whole: Seq<char>, a: Seq<char>, p: Seq<char>, b: Seq<char>)
    requires
        whole == a + p + b,
    ensures
        occurs_in(whole, p),
{
    occurs_whole(p);
    occurs_around(a, p, b, p);
}

proof fn in_tasks(tasks: Seq<TaskBundle>, n: nat, i: int, p: Seq<char>)
    requires
        0 <= i < n <= tasks.len(),
        occurs_in(md_task(Form::Plain, tasks[i]), p),
    ensures
        occurs_in(md_tasks(Form::Plain, tasks, n), p),
    decreases n,
{
    let before = md_tasks(Form::Plain, tasks, (n - 1) as nat);
    let last = md_task(Form::Plain, tasks[n - 1]);
    if i == n - 1 {
        occurs_around(before, last, Seq::empty(), p);
    } else {
        in_tasks(tasks, (n - 1) as nat, i, p);
        occurs_around(Seq::empty(), before, last, p);
    }
}

proof fn in_units(units: Seq<UnitBundle>, n: nat, u: int, p: Seq<char>)
    requires
        0 <= u < n <= units.len(),
        occurs_in(md_unit(Form::Plain, units[u]), p),
    ensures
        occurs_in(md_units(Form::Plain, units, n), p),
    decreases n,
{
    let before = md_units(Form::Plain, units, (n - 1) as nat);
    let last = md_unit(Form::Plain, units[n - 1]);
    if u == n - 1 {
        occurs_around(before, last, Seq::empty(), p);
    } else {
        in_units(units, (n - 1) as nat, u, p);
        occurs_around(Seq::empty(), before, last, p);
    }
}

proof fn task_in_unit(ub: UnitBundle, i: int, p: Seq<char>)
    requires
        0 <= i < ub.tasks@.len(),
        occurs_in(md_task(Form::Plain, ub.tasks@[i]), p),
    ensures
        occurs_in(md_unit(Form::Plain, ub), p),
{
    let all = md_unit(Form::Plain, ub);
    let tasks = md_tasks(Form::Plain, ub.tasks@, ub.tasks@.len());
    in_tasks(ub.tasks@, ub.tasks@.len(), i, p);
    let front = all.take(all.len() - tasks.len());
    assert(all =~= front + tasks);
    occurs_around(front, tasks, Seq::empty(), p);
}

proof fn in_sections(b: PlanBundle, p: Seq<char>)
    ensures
        occurs_in(md_head(b.plan@), p) ==> occurs_in(markdown(b), p),
        occurs_in(md_meta(Form::Plain, b.plan@), p) ==> occurs_in(markdown(b), p),
        occurs_in(md_overview(b), p) ==> occurs_in(markdown(b), p),
        occurs_in(md_units(Form::Plain, b.units@, b.units@.len()), p) ==> occurs_in(
            markdown(b),
            p,
        ),
        occurs_in(md_graph(Form::Plain, b), p) ==> occurs_in(markdown(b), p),
        occurs_in(md_milestones(b.plan@), p) ==> occurs_in(markdown(b), p),
        occurs_in(md_knowledge(Form::Plain, views(b.knowledge@)), p) ==> occurs_in(markdown(b), p),
{
    let t1 = md_head(b.plan@);
    let t2 = t1 + md_meta(Form::Plain, b.plan@);
    let t3 = t2 + md_overview(b);
    let t4 = t3 + md_legend();
    let t5 = t4 + md_units(Form::Plain, b.units@, b.units@.len());
    let t6 = t5 + md_graph(Form::Plain, b);
    let t7 = t6 + md_milestones(b.plan@);
    in_either(t1, md_meta(Form::Plain, b.plan@), p);
    in_either(t2, md_overview(b), p);
    in_either(t3, md_legend(), p);
    in_either(t4, md_units(Form::Plain, b.units@, b.units@.len()), p);
    in_either(t5, md_graph(Form::Plain, b), p);
    in_either(t6, md_milestones(b.plan@), p);
    in_either(t7, md_knowledge(Form::Plain, views(b.knowledge@)), p);
}

proof fn in_either(a: Seq<char>, b: Seq<char>, p: Seq<char>)
    ensures
        occurs_in(a, p) || occurs_in(b, p) ==> occurs_in(a + b, p),
{
    if occurs_in(a, p) {
        occurs_around(Seq::empty(), a, b, p);
    }
    if occurs_in(b, p) {
        occurs_around(a, b, Seq::empty(), p);
    }
}

proof fn meta_lines(
    id: Seq<char>,
    project: Seq<char>,
    status: Seq<char>,
    source: Seq<char>,
)
    ensures
        ({
            let meta = "## Meta\n\n- id: `"@ + id + "`\n- project: `"@ + project
                + "`\n- status: `"@ + status + "`\n"@ + source + "\n"@;
            &&& occurs_in(meta, "- id: `"@ + id + "`\n"@)
            &&& occurs_in(meta, "- project: `"@ + project + "`\n"@)
            &&& occurs_in(meta, "- status: `"@ + status + "`\n"@)
            &&& occurs_in(meta, source)
        }),
{
    let p1 = "- id: `"@ + id + "`\n"@;
    let p2 = "- project: `"@ + project + "`\n"@;
    let p3 = "- status: `"@ + status + "`\n"@;
    meta_shape(id, project, status, source);
    in_row("## Meta\n\n"@, p1, p2, p3, source, "\n"@);
}

proof fn in_row(
    o: Seq<char>,
    a: Seq<char>,
    b: Seq<char>,
    c: Seq<char>,
    d: Seq<char>,
    e: Seq<char>,
)
    ensures
        occurs_in(o + a + b + c + d + e, a),
        occurs_in(o + a + b + c + d + e, b),
        occurs_in(o + a + b + c + d + e, c),
        occurs_in(o + a + b + c + d + e, d),
{
    let all = o + a + b + c + d + e;
    assert(all =~= o + a + (b + c + d + e));
    occurs_inside(all, o, a, b + c + d + e);
    assert(all =~= (o + a) + b + (c + d + e));
    occurs_inside(all, o + a, b, c + d + e);
    assert(all =~= (o + a + b) + c + (d + e));
    occurs_inside(all, o + a + b, c, d + e);
    occurs_inside(all, o + a + b + c, d, e);
}

proof fn meta_shape(
    id: Seq<char>,
    project: Seq<char>,
    status: Seq<char>,
    source: Seq<char>,
)
    ensures
        "## Meta\n\n- id: `"@ + id + "`\n- project: `"@ + project + "`\n- status: `"@ + status
            + "`\n"@ + source + "\n"@ == "## Meta\n\n"@ + ("- id: `"@ + id + "`\n"@) + (
        "- project: `"@ + project + "`\n"@) + ("- status: `"@ + status + "`\n"@) + source + "\n"@,
{
    meta_literals();
    let e = "`\n"@;
    let m1 = "## Meta\n\n- id: `"@ + id;
    let m2 = m1 + "`\n- project: `"@ + project;
    let m3 = m2 + "`\n- status: `"@ + status;
    let t1 = "## Meta\n\n"@ + ("- id: `"@ + id + e);
    let t2 = t1 + ("- project: `"@ + project + e);
    let t3 = t2 + ("- status: `"@ + status + e);
    assert(t1 =~= m1 + e);
    assert(t2 =~= m2 + e);
    assert(t3 =~= m3 + e);
}

proof fn meta_literals()
    ensures
        "## Meta\n\n- id: `"@ == "## Meta\n\n"@ + "- id: `"@,
        "`\n- project: `"@ == "`\n"@ + "- project: `"@,
        "`\n- status: `"@ == "`\n"@ + "- status: `"@,
{
    reveal_strlit("## Meta\n\n- id: `");
    reveal_strlit("- id: `");
    reveal_strlit("`\n- project: `");
    reveal_strlit("- project: `");
    reveal_strlit("`\n- status: `");
    reveal_strlit("- status: `");
    reveal_strlit("`\n");
    reveal_strlit("## Meta\n\n");
    assert("## Meta\n\n- id: `"@ =~= "## Meta\n\n"@ + "- id: `"@);
    assert("`\n- project: `"@ =~= "`\n"@ + "- project: `"@);
    assert("`\n- status: `"@ =~= "`\n"@ + "- status: `"@);
}

proof fn begins_with(a: Seq<char>, b: Seq<char>, p: Seq<char>)
    requires
        p.is_prefix_of(a),
    ensures
        p.is_prefix_of(a + b),
{
    assert((a + b).take(p.len() as int) =~= a.take(p.len() as int));
}

proof fn task_in_markdown(b: PlanBundle, u: int, i: int, p: Seq<char>)
    requires
        0 <= u < b.units@.len(),
        0 <= i < b.units@[u].tasks@.len(),
        occurs_in(md_task(Form::Plain, b.units@[u].tasks@[i]), p),
    ensures
        occurs_in(markdown(b), p),
{
    task_in_unit(b.units@[u], i, p);
    in_units(b.units@, b.units@.len(), u, p);
    in_sections(b, p);
}

/// Every task has its heading in the export: its title, its ticket in brackets,
/// and its status.
pub proof fn exports_head_every_task(
    b: PlanBundle,
    u: int,
    i: int,
    title: Seq<char>,
    ticket: Seq<char>,
    status: Seq<char>,
)
    requires
        0 <= u < b.units@.len(),
        0 <= i < b.units@[u].tasks@.len(),
        b.units@[u].tasks@[i].task@.str_at("title"@) == Some(title),
        b.units@[u].tasks@[i].task@.str_at("ticket_number"@) == Some(ticket),
        b.units@[u].tasks@[i].task@.str_at("status"@) == Some(status),
    ensures
        occurs_in(markdown(b), "### "@ + title + (" ("@ + ticket + ")"@) + " — _"@ + status + "_\n\n"@),
{
    let tb = b.units@[u].tasks@[i];
    let p = "### "@ + title + (" ("@ + ticket + ")"@) + " — _"@ + status + "_\n\n"@;
    let all = md_task(Form::Plain, tb);
    let rest = all.skip(p.len() as int);
    assert(all =~= Seq::<char>::empty() + p + rest);
    occurs_inside(all, Seq::empty(), p, rest);
    task_in_markdown(b, u, i, p);
}

/// A task without a ticket has its heading without the brackets.
pub proof fn exports_head_tasks_without_tickets(
    b: PlanBundle,
    u: int,
    i: int,
    title: Seq<char>,
    status: Seq<char>,
)
    requires
        0 <= u < b.units@.len(),
        0 <= i < b.units@[u].tasks@.len(),
        b.units@[u].tasks@[i].task@.str_at("title"@) == Some(title),
        b.units@[u].tasks@[i].task@.str_at("ticket_number"@) is None,
        b.units@[u].tasks@[i].task@.str_at("status"@) == Some(status),
    ensures
        occurs_in(markdown(b), "### "@ + title + " — _"@ + status + "_\n\n"@),
{
    let tb = b.units@[u].tasks@[i];
    let p = "### "@ + title + " — _"@ + status + "_\n\n"@;
    let all = md_task(Form::Plain, tb);
    let rest = all.skip(p.len() as int);
    assert(all =~= Seq::<char>::empty() + p + rest);
    occurs_inside(all, Seq::empty(), p, rest);
    task_in_markdown(b, u, i, p);
}

proof fn bullet_in(env: JsonView, k: int, n: nat, v: JsonView)
    requires
        0 <= k < n <= 19,
        env.get(ENVELOPE_FIELDS[k]@) == Some(v),
        !(v is Null),
    ensures
        occurs_in(
            bullets_upto(Form::Plain, env, n),
            "- `"@ + ENVELOPE_FIELDS[k]@ + "`: "@ + compact(v) + "\n"@,
        ),
    decreases n,
{
    let p = "- `"@ + ENVELOPE_FIELDS[k]@ + "`: "@ + compact(v) + "\n"@;
    let before = bullets_upto(Form::Plain, env, (n - 1) as nat);
    let all = bullets_upto(Form::Plain, env, n);
    if k == n - 1 {
        assert(all =~= before + p + Seq::<char>::empty());
        occurs_inside(all, before, p, Seq::empty());
    } else {
        bullet_in(env, k, (n - 1) as nat, v);
        let rest = all.skip(before.len() as int);
        assert(all =~= before + rest);
        occurs_around(Seq::empty(), before, rest, p);
    }
}

/// Every field of an envelope that is not null stands in the export as a bullet,
/// with its value as JSON.
pub proof fn exports_show_every_envelope_field(b: PlanBundle, u: int, i: int, k: int, v: JsonView)
    requires
        0 <= u < b.units@.len(),
        0 <= i < b.units@[u].tasks@.len(),
        0 <= k < 19,
        b.units@[u].tasks@[i].envelope@.get(ENVELOPE_FIELDS[k]@) == Some(v),
        !(v is Null),
    ensures
        occurs_in(
            markdown(b),
            "- `"@ + ENVELOPE_FIELDS[k]@ + "`: "@ + compact(v) + "\n"@,
        ),
{
    let tb = b.units@[u].tasks@[i];
    let p = "- `"@ + ENVELOPE_FIELDS[k]@ + "`: "@ + compact(v) + "\n"@;
    let bullets = bullets_upto(Form::Plain, tb.envelope@, 19);
    bullet_in(tb.envelope@, k, 19, v);
    let tail = bullets + "\n"@;
    occurs_around(Seq::empty(), bullets, "\n"@, p);
    let all = md_task(Form::Plain, tb);
    let front = all.take(all.len() - tail.len());
    assert(all =~= front + tail);
    occurs_around(front, tail, Seq::empty(), p);
    task_in_markdown(b, u, i, p);
}

/// Every unit has its heading in the export, with its number and title, and its
/// goal where it has one.
pub proof fn exports_head_every_unit(b: PlanBundle, u: int, idx: int, title: Seq<char>)
    requires
        0 <= u < b.units@.len(),
        b.units@[u].unit@.i64_at("idx"@) == Some(idx),
        b.units@[u].unit@.str_at("title"@) == Some(title),
    ensures
        occurs_in(markdown(b), "## Unit "@ + dec_int(idx) + ": "@ + title + "\n\n"@),
        b.units@[u].unit@.str_at("goal"@) matches Some(goal) && goal.len() > 0 ==> occurs_in(
            markdown(b),
            "**Goal**: "@ + b.units@[u].unit@.str_at("goal"@)->0 + "\n\n"@,
        ),
{
    let ub = b.units@[u];
    let all = md_unit(Form::Plain, ub);
    let p = "## Unit "@ + dec_int(idx) + ": "@ + title + "\n\n"@;
    let rest = all.skip(p.len() as int);
    assert(all =~= Seq::<char>::empty() + p + rest);
    occurs_inside(all, Seq::empty(), p, rest);
    in_units(b.units@, b.units@.len(), u, p);
    in_sections(b, p);
    if let Some(goal) = ub.unit@.str_at("goal"@) {
        if goal.len() > 0 {
            let g = "**Goal**: "@ + goal + "\n\n"@;
            let tasks = md_tasks(Form::Plain, ub.tasks@, ub.tasks@.len());
            assert(all =~= p + g + tasks);
            occurs_inside(all, p, g, tasks);
            in_units(b.units@, b.units@.len(), u, g);
            in_sections(b, g);
        }
    }
}

/// The export begins with the title of the plan, and names its identifier, its
/// project and its status.
pub proof fn exports_name_the_plan(
    b: PlanBundle,
    title: Seq<char>,
    id: Seq<char>,
    project: Seq<char>,
    status: Seq<char>,
)
    requires
        b.plan@.str_at("title"@) == Some(title),
        b.plan@.str_at("id"@) == Some(id),
        b.plan@.str_at("project_id"@) == Some(project),
        b.plan@.str_at("status"@) == Some(status),
    ensures
        ("# "@ + title + "\n\n"@).is_prefix_of(markdown(b)),
        occurs_in(markdown(b), "- id: `"@ + id + "`\n"@),
        occurs_in(markdown(b), "- project: `"@ + project + "`\n"@),
        occurs_in(markdown(b), "- status: `"@ + status + "`\n"@),
        b.plan@.str_at("source"@) is Some ==> occurs_in(
            markdown(b),
            "- source: `"@ + b.plan@.str_at("source"@)->0 + "`\n"@,
        ),
{
    let p = "# "@ + title + "\n\n"@;
    let t1 = md_head(b.plan@);
    let t2 = t1 + md_meta(Form::Plain, b.plan@);
    let t3 = t2 + md_overview(b);
    let t4 = t3 + md_legend();
    let t5 = t4 + md_units(Form::Plain, b.units@, b.units@.len());
    let t6 = t5 + md_graph(Form::Plain, b);
    let t7 = t6 + md_milestones(b.plan@);
    assert(t1.take(p.len() as int) =~= p);
    begins_with(t1, md_meta(Form::Plain, b.plan@), p);
    begins_with(t2, md_overview(b), p);
    begins_with(t3, md_legend(), p);
    begins_with(t4, md_units(Form::Plain, b.units@, b.units@.len()), p);
    begins_with(t5, md_graph(Form::Plain, b), p);
    begins_with(t6, md_milestones(b.plan@), p);
    begins_with(t7, md_knowledge(Form::Plain, views(b.knowledge@)), p);
    let source = match b.plan@.str_at("source"@) {
        Some(s) => "- source: `"@ + s + "`\n"@,
        None => Seq::empty(),
    };
    meta_lines(id, project, status, source);
    in_sections(b, "- id: `"@ + id + "`\n"@);
    in_sections(b, "- project: `"@ + project + "`\n"@);
    in_sections(b, "- status: `"@ + status + "`\n"@);
    in_sections(b, source);
}

/// The item of a list is the text.
pub open spec fn names(a: Seq<JsonView>, to: Seq<char>) -> bool {
    exists|k: int| 0 <= k < a.len() && #[trigger] a[k] == JsonView::Text(to)
}

/// Some task of the plan has the identifier, and lists the other among those
/// that it depends on.
pub open spec fn depends(b: PlanBundle, u: int, i: int, from: Seq<char>, to: Seq<char>) -> bool {
    &&& 0 <= u < b.units@.len()
    &&& 0 <= i < b.units@[u].tasks@.len()
    &&& b.units@[u].tasks@[i].task@.str_at("id"@) == Some(from)
    &&& b.units@[u].tasks@[i].task@.array_at("depends_on"@) matches Some(a) && names(a, to)
}

proof fn edges_to_name(from: Seq<char>, a: Seq<JsonView>, n: nat, to: Seq<char>)
    requires
        n <= a.len(),
    ensures
        edges_to(from, a, n).contains((from, to)) <==> exists|k: int|
            0 <= k < n && #[trigger] a[k] == JsonView::Text(to),
        forall|e: (Seq<char>, Seq<char>)| #[trigger]
            edges_to(from, a, n).contains(e) ==> e.0 == from,
    decreases n,
{
    if n > 0 {
        edges_to_name(from, a, (n - 1) as nat, to);
        let before = edges_to(from, a, (n - 1) as nat);
        let all = edges_to(from, a, n);
        match a[n - 1].as_str() {
            Some(t) => {
                assert(all == before.push((from, t)));
                assert(all[before.len() as int] == (from, t));
                assert forall|e: (Seq<char>, Seq<char>)| #[trigger] all.contains(e) implies e.0
                    == from by {
                    let k = choose|k: int| 0 <= k < all.len() && all[k] == e;
                    if k < before.len() {
                        assert(before[k] == e);
                        assert(before.contains(e));
                    }
                }
                if before.contains((from, to)) {
                    let k = choose|k: int| 0 <= k < before.len() && before[k] == (from, to);
                    assert(all[k] == (from, to));
                }
                if all.contains((from, to)) && !before.contains((from, to)) {
                    let k = choose|k: int| 0 <= k < all.len() && all[k] == (from, to);
                    if k < before.len() {
                        assert(before[k] == (from, to));
                    }
                    assert(a[n - 1] == JsonView::Text(to));
                }
            },
            None => {},
        }
    }
}

proof fn plan_keys()
    ensures
        "plan"@ != "units"@,
        "plan"@ != "depends_on"@,
        "plan"@ != "knowledge"@,
        "units"@ != "depends_on"@,
        "units"@ != "knowledge"@,
        "depends_on"@ != "knowledge"@,
{
    reveal_strlit("plan");
    reveal_strlit("units");
    reveal_strlit("depends_on");
    reveal_strlit("knowledge");
    assert("plan"@.len() == 4);
    assert("units"@.len() == 5);
    assert("depends_on"@.len() == 10);
    assert("knowledge"@.len() == 9);
}

proof fn unit_keys()
    ensures
        "unit"@ != "tasks"@,
{
    reveal_strlit("unit");
    reveal_strlit("tasks");
    assert("unit"@.len() == 4);
    assert("tasks"@.len() == 5);
}

proof fn task_keys()
    ensures
        "task"@ != "envelope"@,
{
    reveal_strlit("task");
    reveal_strlit("envelope");
    assert("task"@.len() == 4);
    assert("envelope"@.len() == 8);
}

proof fn edge_keys()
    ensures
        "from"@ != "to"@,
{
    reveal_strlit("from");
    reveal_strlit("to");
    assert("from"@.len() == 4);
    assert("to"@.len() == 2);
}

/// The JSON form holds the plan, its units with their tasks and envelopes, and
/// its knowledge, each as it is and in order.
pub proof fn json_exports_hold_everything(b: PlanBundle)
    ensures
        ({
            let j = plan_json(b);
            &&& j.get("plan"@) == Some(b.plan@)
            &&& j.array_at("knowledge"@) == Some(views(b.knowledge@))
            &&& j.array_at("units"@) matches Some(units) && units.len() == b.units@.len()
                && forall|u: int|
                0 <= u < units.len() ==> (#[trigger] units[u]).get("unit"@) == Some(
                    b.units@[u].unit@,
                ) && (units[u].array_at("tasks"@) matches Some(tasks) && tasks.len()
                    == b.units@[u].tasks@.len() && forall|i: int|
                    0 <= i < tasks.len() ==> (#[trigger] tasks[i]).get("task"@) == Some(
                        b.units@[u].tasks@[i].task@,
                    ) && tasks[i].get("envelope"@) == Some(b.units@[u].tasks@[i].envelope@))
        }),
{
    let j = plan_json(b);
    plan_members(b);
    assert forall|u: int| 0 <= u < b.units@.len() implies ({
        let x = #[trigger] unit_json(b.units@[u]);
        &&& x.get("unit"@) == Some(b.units@[u].unit@)
        &&& x.array_at("tasks"@) matches Some(tasks) && tasks.len() == b.units@[u].tasks@.len()
            && forall|i: int|
            0 <= i < tasks.len() ==> (#[trigger] tasks[i]).get("task"@) == Some(
                b.units@[u].tasks@[i].task@,
            ) && tasks[i].get("envelope"@) == Some(b.units@[u].tasks@[i].envelope@)
    }) by {
        unit_members(b.units@[u]);
    }
    let units = j.array_at("units"@)->0;
    assert forall|u: int| 0 <= u < units.len() implies #[trigger] units[u] == unit_json(
        b.units@[u],
    ) by {}
}

proof fn plan_members(b: PlanBundle)
    ensures
        plan_json(b).get("plan"@) == Some(b.plan@),
        plan_json(b).get("knowledge"@) == Some(JsonView::Array(views(b.knowledge@))),
        plan_json(b).get("units"@) == Some(
            JsonView::Array(Seq::new(b.units@.len(), |i: int| unit_json(b.units@[i]))),
        ),
        plan_json(b).get("depends_on"@) == Some(
            JsonView::Array(Seq::new(plan_edges(b).len(), |i: int| edge_json(plan_edges(b)[i]))),
        ),
{
    broadcast use get_after_with, with_stays_object, empty_has_no_member;

    plan_keys();
}

proof fn unit_members(ub: UnitBundle)
    ensures
        unit_json(ub).get("unit"@) == Some(ub.unit@),
        unit_json(ub).array_at("tasks"@) matches Some(tasks) && tasks.len() == ub.tasks@.len()
            && forall|i: int|
            0 <= i < tasks.len() ==> (#[trigger] tasks[i]).get("task"@) == Some(
                ub.tasks@[i].task@,
            ) && tasks[i].get("envelope"@) == Some(ub.tasks@[i].envelope@),
{
    broadcast use get_after_with, with_stays_object, empty_has_no_member;

    unit_keys();
    assert(unit_json(ub).get("tasks"@) is Some);
    let tasks = unit_json(ub).array_at("tasks"@)->0;
    assert forall|i: int| 0 <= i < tasks.len() implies (#[trigger] tasks[i]).get("task"@) == Some(
        ub.tasks@[i].task@,
    ) && tasks[i].get("envelope"@) == Some(ub.tasks@[i].envelope@) by {
        assert(tasks[i] == task_json(ub.tasks@[i]));
        task_members(ub.tasks@[i]);
    }
}

proof fn task_members(tb: TaskBundle)
    ensures
        task_json(tb).get("task"@) == Some(tb.task@),
        task_json(tb).get("envelope"@) == Some(tb.envelope@),
{
    broadcast use get_after_with, with_stays_object, empty_has_no_member;

    task_keys();
}

/// The JSON form lists every edge, from the task that depends to the one that
/// it depends on.
pub proof fn json_exports_list_the_edges(b: PlanBundle)
    ensures
        plan_json(b).array_at("depends_on"@) matches Some(a) && a.len() == plan_edges(b).len()
            && forall|i: int|
            0 <= i < a.len() ==> (#[trigger] a[i]).str_at("from"@) == Some(plan_edges(b)[i].0)
                && a[i].str_at("to"@) == Some(plan_edges(b)[i].1),
{
    plan_members(b);
    let a = plan_json(b).array_at("depends_on"@)->0;
    assert forall|i: int| 0 <= i < a.len() implies (#[trigger] a[i]).str_at("from"@) == Some(
        plan_edges(b)[i].0,
    ) && a[i].str_at("to"@) == Some(plan_edges(b)[i].1) by {
        assert(a[i] == edge_json(plan_edges(b)[i]));
        edge_members(plan_edges(b)[i]);
    }
}

proof fn edge_members(e: (Seq<char>, Seq<char>))
    ensures
        edge_json(e).str_at("from"@) == Some(e.0),
        edge_json(e).str_at("to"@) == Some(e.1),
{
    broadcast use get_after_with, with_stays_object, empty_has_no_member;

    edge_keys();
}

/// A task that depends on another has an edge to it, and every edge of a task
/// goes from the task to one that it depends on.
pub proof fn edges_are_dependencies(task: JsonView, from: Seq<char>, to: Seq<char>)
    ensures
        task_edges(task).contains((from, to)) <==> task.str_at("id"@) == Some(from) && (
        task.array_at("depends_on"@) matches Some(a) && names(a, to)),
{
    if let Some(id) = task.str_at("id"@) {
        if let Some(a) = task.array_at("depends_on"@) {
            edges_to_name(id, a, a.len(), to);
            if task_edges(task).contains((from, to)) {
                assert(edges_to(id, a, a.len()).contains((from, to)));
            }
        }
    }
}

proof fn edges_in_tasks(tasks: Seq<TaskBundle>, n: nat, i: int, e: (Seq<char>, Seq<char>))
    requires
        0 <= i < n <= tasks.len(),
        task_edges(tasks[i].task@).contains(e),
    ensures
        tasks_edges(tasks, n).contains(e),
    decreases n,
{
    let before = tasks_edges(tasks, (n - 1) as nat);
    let last = task_edges(tasks[n - 1].task@);
    if i == n - 1 {
        let k = choose|k: int| 0 <= k < last.len() && last[k] == e;
        assert((before + last)[before.len() + k] == e);
    } else {
        edges_in_tasks(tasks, (n - 1) as nat, i, e);
        let k = choose|k: int| 0 <= k < before.len() && before[k] == e;
        assert((before + last)[k] == e);
    }
}

proof fn edges_in_units(units: Seq<UnitBundle>, n: nat, u: int, e: (Seq<char>, Seq<char>))
    requires
        0 <= u < n <= units.len(),
        tasks_edges(units[u].tasks@, units[u].tasks@.len()).contains(e),
    ensures
        units_edges(units, n).contains(e),
    decreases n,
{
    let before = units_edges(units, (n - 1) as nat);
    let last = tasks_edges(units[n - 1].tasks@, units[n - 1].tasks@.len());
    if u == n - 1 {
        let k = choose|k: int| 0 <= k < last.len() && last[k] == e;
        assert((before + last)[before.len() + k] == e);
    } else {
        edges_in_units(units, (n - 1) as nat, u, e);
        let k = choose|k: int| 0 <= k < before.len() && before[k] == e;
        assert((before + last)[k] == e);
    }
}

proof fn edge_line_in(edges: Seq<(Seq<char>, Seq<char>)>, n: nat, k: int)
    requires
        0 <= k < n <= edges.len(),
    ensures
        occurs_in(
            edge_lines(Form::Plain, edges, n),
            "  "@ + edges[k].0 + " --> "@ + edges[k].1 + "\n"@,
        ),
    decreases n,
{
    let p = "  "@ + edges[k].0 + " --> "@ + edges[k].1 + "\n"@;
    let before = edge_lines(Form::Plain, edges, (n - 1) as nat);
    let all = edge_lines(Form::Plain, edges, n);
    if k == n - 1 {
        assert(all =~= before + p + Seq::<char>::empty());
        occurs_inside(all, before, p, Seq::empty());
    } else {
        edge_line_in(edges, (n - 1) as nat, k);
        let rest = all.skip(before.len() as int);
        assert(all =~= before + rest);
        occurs_around(Seq::empty(), before, rest, p);
    }
}

/// Every dependency of a task is an edge of the plan, and stands in the graph as
/// an arrow from the task to the one that it depends on.
pub proof fn exports_draw_every_dependency(
    b: PlanBundle,
    u: int,
    i: int,
    from: Seq<char>,
    to: Seq<char>,
)
    requires
        depends(b, u, i, from, to),
    ensures
        plan_edges(b).contains((from, to)),
        occurs_in(markdown(b), "  "@ + from + " --> "@ + to + "\n"@),
{
    let task = b.units@[u].tasks@[i].task@;
    edges_are_dependencies(task, from, to);
    edges_in_tasks(b.units@[u].tasks@, b.units@[u].tasks@.len(), i, (from, to));
    edges_in_units(b.units@, b.units@.len(), u, (from, to));
    let edges = plan_edges(b);
    let k = choose|k: int| 0 <= k < edges.len() && edges[k] == (from, to);
    edge_line_in(edges, edges.len(), k);
    let p = "  "@ + from + " --> "@ + to + "\n"@;
    let lines = edge_lines(Form::Plain, edges, edges.len());
    let graph = md_graph(Form::Plain, b);
    let opening = "## Dependency Graph\n\n```mermaid\ngraph LR\n"@ + units_nodes(
        Form::Plain,
        b.units@,
        b.units@.len(),
    );
    assert(graph =~= opening + lines + "```\n\n"@);
    occurs_around(opening, lines, "```\n\n"@, p);
    in_sections(b, p);
}

proof fn counted(tasks: Seq<TaskBundle>, p: Progress, n: nat)
    requires
        n <= tasks.len(),
    ensures
        standing(tasks, p, n) == tasks.take(n as int).filter(
            |t: TaskBundle| progress_of(t.task@.str_or("status"@, ""@)) == p,
        ).len(),
    decreases n,
{
    let f = |t: TaskBundle| progress_of(t.task@.str_or("status"@, ""@)) == p;
    reveal(Seq::filter);
    if n > 0 {
        counted(tasks, p, (n - 1) as nat);
        assert(tasks.take(n as int).drop_last() =~= tasks.take(n - 1));
        assert(tasks.take(n as int).last() == tasks[n - 1]);
    } else {
        assert(tasks.take(0).len() == 0);
    }
}

/// The overview counts the tasks of a unit: those to do or blocked, those in
/// work, and those done.
pub proof fn overviews_count_the_tasks(tasks: Seq<TaskBundle>)
    ensures
        standing(tasks, Progress::Todo, tasks.len()) == tasks.filter(
            |t: TaskBundle| progress_of(t.task@.str_or("status"@, ""@)) == Progress::Todo,
        ).len(),
        standing(tasks, Progress::Doing, tasks.len()) == tasks.filter(
            |t: TaskBundle| progress_of(t.task@.str_or("status"@, ""@)) == Progress::Doing,
        ).len(),
        standing(tasks, Progress::Done, tasks.len()) == tasks.filter(
            |t: TaskBundle| progress_of(t.task@.str_or("status"@, ""@)) == Progress::Done,
        ).len(),
        progress_of("todo"@) == Progress::Todo,
        progress_of("blocked"@) == Progress::Todo,
        progress_of("in_progress"@) == Progress::Doing,
        progress_of("done"@) == Progress::Done,
        progress_of("cancelled"@) == Progress::Other,
{
    counted(tasks, Progress::Todo, tasks.len());
    counted(tasks, Progress::Doing, tasks.len());
    counted(tasks, Progress::Done, tasks.len());
    assert(tasks.take(tasks.len() as int) =~= tasks);
    reveal_strlit("todo");
    reveal_strlit("blocked");
    reveal_strlit("in_progress");
    reveal_strlit("done");
    reveal_strlit("cancelled");
    assert("todo"@.len() == 4);
    assert("blocked"@.len() == 7);
    assert("in_progress"@.len() == 11);
    assert("done"@.len() == 4);
    assert("cancelled"@.len() == 9);
    assert("todo"@[0] != "done"@[0]);
}

proof fn row_in(units: Seq<UnitBundle>, n: nat, u: int)
    requires
        0 <= u < n <= units.len(),
    ensures
        occurs_in(overview_rows(units, n), overview_row(u, units[u])),
    decreases n,
{
    let p = overview_row(u, units[u]);
    let before = overview_rows(units, (n - 1) as nat);
    let all = overview_rows(units, n);
    if u == n - 1 {
        assert(all =~= before + p + Seq::<char>::empty());
        occurs_inside(all, before, p, Seq::empty());
    } else {
        row_in(units, (n - 1) as nat, u);
        occurs_around(Seq::empty(), before, overview_row(n - 1, units[n - 1]), p);
    }
}

/// Every unit has its row in the overview: its place, its title, how many tasks
/// it has, and how many of them are to do, in work and done.
pub proof fn exports_count_every_unit(b: PlanBundle, u: int, title: Seq<char>)
    requires
        0 <= u < b.units@.len(),
        b.units@[u].unit@.str_at("title"@) == Some(title),
    ensures
        ({
            let tasks = b.units@[u].tasks@;
            let n = tasks.len();
            occurs_in(
                markdown(b),
                "| "@ + dec((u + 1) as nat) + " | "@ + title + " | "@ + dec(n) + " | "@ + dec(
                    standing(tasks, Progress::Todo, n),
                ) + " | "@ + dec(standing(tasks, Progress::Doing, n)) + " | "@ + dec(
                    standing(tasks, Progress::Done, n),
                ) + " |\n"@,
            )
        }),
{
    let p = overview_row(u, b.units@[u]);
    row_in(b.units@, b.units@.len(), u);
    let rows = overview_rows(b.units@, b.units@.len());
    let all = md_overview(b);
    let front = all.take(all.len() - rows.len() - "\n"@.len());
    assert(all =~= front + rows + "\n"@);
    occurs_around(front, rows, "\n"@, p);
    in_sections(b, p);
}

proof fn entry_in(k: Seq<JsonView>, n: nat, i: int)
    requires
        0 <= i < n <= k.len(),
    ensures
        occurs_in(knowledge_entries(Form::Plain, k, n), knowledge_entry(Form::Plain, k[i])),
    decreases n,
{
    let p = knowledge_entry(Form::Plain, k[i]);
    let before = knowledge_entries(Form::Plain, k, (n - 1) as nat);
    let last = knowledge_entry(Form::Plain, k[n - 1]);
    if i == n - 1 {
        occurs_whole(p);
        occurs_around(before, last, Seq::empty(), p);
    } else {
        entry_in(k, (n - 1) as nat, i);
        occurs_around(Seq::empty(), before, last, p);
    }
}

/// Every knowledge entry has its heading in the export: its title, its
/// identifier and its kind.
pub proof fn exports_head_every_entry(
    b: PlanBundle,
    i: int,
    title: Seq<char>,
    id: Seq<char>,
    kind: Seq<char>,
)
    requires
        0 <= i < b.knowledge@.len(),
        b.knowledge@[i]@.str_at("title"@) == Some(title),
        b.knowledge@[i]@.str_at("id"@) == Some(id),
        b.knowledge@[i]@.str_at("type"@) == Some(kind),
    ensures
        occurs_in(markdown(b), "### "@ + title + " (`"@ + id + "` · "@ + kind + ")\n\n"@),
{
    let k = views(b.knowledge@);
    let p = "### "@ + title + " (`"@ + id + "` · "@ + kind + ")\n\n"@;
    let e = knowledge_entry(Form::Plain, k[i]);
    entry_in(k, k.len(), i);
    let all = knowledge_entries(Form::Plain, k, k.len());
    let rest = e.skip(p.len() as int);
    assert(e =~= p + rest);
    let at = choose|at: int| occurs_at(all, e, at);
    assert(all =~= all.take(at) + p + all.skip(at + p.len())) by {
        assert(all.subrange(at, at + e.len()) == e);
        assert forall|j: int| 0 <= j < p.len() implies all[at + j] == p[j] by {
            assert(all.subrange(at, at + e.len())[j] == e[j]);
        }
    }
    occurs_inside(all, all.take(at), p, all.skip(at + p.len()));
    occurs_around("## Knowledge\n\n"@, all, Seq::empty(), p);
    in_sections(b, p);
}

/// The body of a task stands in the export, without the white space at its end.
pub proof fn exports_show_every_body(b: PlanBundle, u: int, i: int, body: Seq<char>)
    requires
        0 <= u < b.units@.len(),
        0 <= i < b.units@[u].tasks@.len(),
        b.units@[u].tasks@[i].task@.str_at("body"@) == Some(body),
        body.len() > 0,
    ensures
        occurs_in(markdown(b), trim_end(body) + "\n\n"@),
{
    let tb = b.units@[u].tasks@[i];
    let p = trim_end(body) + "\n\n"@;
    let all = md_task(Form::Plain, tb);
    let tail = if tb.envelope@ is Null {
        Seq::empty()
    } else {
        "**Envelope:**\n\n"@ + bullets_upto(Form::Plain, tb.envelope@, 19) + "\n"@
    };
    let front = all.take(all.len() - tail.len() - p.len());
    assert(all =~= front + p + tail);
    occurs_inside(all, front, p, tail);
    task_in_markdown(b, u, i, p);
}

proof fn node_in_tasks(tasks: Seq<TaskBundle>, n: nat, i: int)
    requires
        0 <= i < n <= tasks.len(),
    ensures
        occurs_in(tasks_nodes(Form::Plain, tasks, n), graph_node(Form::Plain, tasks[i].task@)),
    decreases n,
{
    let p = graph_node(Form::Plain, tasks[i].task@);
    let before = tasks_nodes(Form::Plain, tasks, (n - 1) as nat);
    let last = graph_node(Form::Plain, tasks[n - 1].task@);
    if i < n - 1 {
        node_in_tasks(tasks, (n - 1) as nat, i);
    } else {
        occurs_whole(p);
    }
    in_either(before, last, p);
}

proof fn node_in_units(units: Seq<UnitBundle>, n: nat, u: int, i: int)
    requires
        0 <= u < n <= units.len(),
        0 <= i < units[u].tasks@.len(),
    ensures
        occurs_in(
            units_nodes(Form::Plain, units, n),
            graph_node(Form::Plain, units[u].tasks@[i].task@),
        ),
    decreases n,
{
    let p = graph_node(Form::Plain, units[u].tasks@[i].task@);
    let before = units_nodes(Form::Plain, units, (n - 1) as nat);
    let last = tasks_nodes(Form::Plain, units[n - 1].tasks@, units[n - 1].tasks@.len());
    if u < n - 1 {
        node_in_units(units, (n - 1) as nat, u, i);
    } else {
        node_in_tasks(units[u].tasks@, units[u].tasks@.len(), i);
    }
    in_either(before, last, p);
}

/// Where there are dependencies, the graph has a node for every task, by its
/// identifier, with its ticket on it.
pub proof fn exports_draw_every_task(
    b: PlanBundle,
    u: int,
    i: int,
    id: Seq<char>,
    ticket: Seq<char>,
)
    requires
        plan_edges(b).len() > 0,
        0 <= u < b.units@.len(),
        0 <= i < b.units@[u].tasks@.len(),
        b.units@[u].tasks@[i].task@.str_at("id"@) == Some(id),
        b.units@[u].tasks@[i].task@.str_at("ticket_number"@) == Some(ticket),
    ensures
        occurs_in(markdown(b), "  "@ + id + "[\""@ + ticket + "\"]\n"@),
{
    let p = "  "@ + id + "[\""@ + ticket + "\"]\n"@;
    node_in_units(b.units@, b.units@.len(), u, i);
    let opening = "## Dependency Graph\n\n```mermaid\ngraph LR\n"@;
    let nodes = units_nodes(Form::Plain, b.units@, b.units@.len());
    let edges = plan_edges(b);
    let lines = edge_lines(Form::Plain, edges, edges.len());
    in_either(opening, nodes, p);
    in_either(opening + nodes, lines, p);
    in_either(opening + nodes + lines, "```\n\n"@, p);
    in_sections(b, p);
}

proof fn milestone_in(a: Seq<JsonView>, n: nat, i: int)
    requires
        0 <= i < n <= a.len(),
    ensures
        occurs_in(milestone_lines(a, n), milestone_line(a[i])),
    decreases n,
{
    let p = milestone_line(a[i]);
    let before = milestone_lines(a, (n - 1) as nat);
    if i < n - 1 {
        milestone_in(a, (n - 1) as nat, i);
    } else {
        occurs_whole(p);
    }
    in_either(before, milestone_line(a[n - 1]), p);
}

/// Every milestone has its line in the export: its name, when it is due, and
/// what it is.
pub proof fn exports_list_every_milestone(
    b: PlanBundle,
    a: Seq<JsonView>,
    i: int,
    name: Seq<char>,
    due: Seq<char>,
    description: Seq<char>,
)
    requires
        b.plan@.array_at("milestones_json"@) == Some(a),
        0 <= i < a.len(),
        a[i].str_at("name"@) == Some(name),
        a[i].str_at("due"@) == Some(due),
        due.len() > 0,
        a[i].str_at("description"@) == Some(description),
    ensures
        occurs_in(
            markdown(b),
            "- **"@ + name + "**"@ + (" — due "@ + due) + (": "@ + description) + "\n"@,
        ),
{
    let p = milestone_line(a[i]);
    milestone_in(a, a.len(), i);
    let lines = milestone_lines(a, a.len());
    in_either("## Milestones\n\n"@, lines, p);
    in_either("## Milestones\n\n"@ + lines, "\n"@, p);
    in_sections(b, p);
}

proof fn identified_are_kept(a: Seq<JsonView>, n: nat)
    requires
        n <= a.len(),
    ensures
        identified_upto(a, n) == a.take(n as int).filter(
            |x: JsonView| x.str_at("id"@) is Some,
        ).map_values(|x: JsonView| (x.str_at("id"@)->0, x)),
    decreases n,
{
    let f = |x: JsonView| x.str_at("id"@) is Some;
    let g = |x: JsonView| (x.str_at("id"@)->0, x);
    reveal(Seq::filter);
    if n > 0 {
        identified_are_kept(a, (n - 1) as nat);
        assert(a.take(n as int).drop_last() =~= a.take(n - 1));
        assert(a.take(n as int).last() == a[n - 1]);
        let before = a.take(n - 1).filter(f);
        assert(before.push(a[n - 1]).map_values(g) =~= before.map_values(g).push(g(a[n - 1])));
    } else {
        assert(a.take(0).len() == 0);
        assert(identified_upto(a, 0) =~= a.take(0).filter(f).map_values(g));
    }
}

/// The units and the tasks that are followed are those with an identifier, in
/// order, each with its own.
pub proof fn things_are_followed_by_identifier(a: Seq<JsonView>)
    ensures
        identified(JsonView::Array(a)) == a.filter(
            |x: JsonView| x.str_at("id"@) is Some,
        ).map_values(|x: JsonView| (x.str_at("id"@)->0, x)),
{
    identified_are_kept(a, a.len());
    assert(a.take(a.len() as int) =~= a);
}

} // verus!
