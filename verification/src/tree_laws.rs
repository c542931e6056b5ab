//! What the tree of a task shows, read from its lines.

use vstd::prelude::*;
use crate::json::JsonView;
use crate::query::{
    asked_for, is_name, no_query_asks_nothing, param_is_read_back, resource, with_param,
};
use crate::reply::EndView;
use crate::request::Method;
use crate::request_laws::{number_is_plain, plain_text};
use crate::text::dec;
use crate::tree::{
    bars, depths_of, has_younger_sibling, indent_follows_depth, subtree_asked, subtree_nodes,
    tree_lines, tree_prefix, tree_reply, was_last,
};

verus! {

/// The task of a row: what stands under `task`, else the row itself.
pub open spec fn task_in(row: JsonView) -> JsonView {
    if row.get("task"@) is Some {
        row.get("task"@)->0
    } else {
        row
    }
}

/// How deep a row stands below the root.
pub open spec fn levels(row: JsonView) -> int {
    match row.i64_at("depth"@) {
        Some(d) => if 0 < d <= 0xffff_ffff {
            d
        } else {
            0
        },
        None => 0,
    }
}

/// The text without what goes beyond 80 characters, which an ellipsis stands
/// for.
pub open spec fn cut(s: Seq<char>) -> Seq<char> {
    if s.len() <= 80 {
        s
    } else {
        s.take(80) + "…"@
    }
}

/// There is a line for each row, in their order. Behind its indent, of four
/// columns for each level, it names the ticket of the row's task, its status in
/// brackets, and its title; with a summary also what its envelope is for.
pub proof fn lines_show_their_tasks(
    rows: Seq<JsonView>,
    envelope_summary: bool,
    i: int,
    ticket: Seq<char>,
    status: Seq<char>,
    title: Seq<char>,
)
    requires
        0 <= i < rows.len(),
        rows[i].i64_at("depth"@) matches Some(d) ==> d <= 0xffff_ffff,
        task_in(rows[i]).str_at("ticket_number"@) == Some(ticket),
        task_in(rows[i]).str_at("status"@) == Some(status),
        task_in(rows[i]).str_at("title"@) == Some(title),
    ensures
        ({
            let lines = tree_lines(subtree_nodes(JsonView::Array(rows)), envelope_summary);
            let words = lines[i].skip(4 * levels(rows[i]));
            let named = ticket + " ["@ + status + "] "@ + cut(title);
            let intent = match rows[i].get("resolved_envelope"@) {
                Some(e) => e.str_at("intent"@),
                None => None,
            };
            &&& lines.len() == rows.len()
            &&& lines[i].len() >= 4 * levels(rows[i])
            &&& !envelope_summary || intent is None ==> words == named
            &&& envelope_summary && intent is Some ==> words == named + ("  · "@ + cut(intent->0))
        }),
{
    let nodes = subtree_nodes(JsonView::Array(rows));
    let depths = depths_of(nodes);
    indent_follows_depth(depths, i);
    assert(depths[i] == levels(rows[i]));
    let prefix = tree_prefix(depths, i);
    let line = tree_lines(nodes, envelope_summary)[i];
    let words = line.skip(4 * levels(rows[i]));
    assert(words =~= line.skip(prefix.len() as int));
    let named = ticket + " ["@ + status + "] "@ + cut(title);
    assert(named + Seq::<char>::empty() =~= named);
    assert(line =~= prefix + words);
    assert(words =~= crate::tree::node_text(nodes[i], envelope_summary));
}

/// A task without a ticket goes by its identifier, and one without a title or a
/// status by what stands for them.
pub proof fn lines_show_what_there_is(rows: Seq<JsonView>, i: int)
    requires
        0 <= i < rows.len(),
    ensures
        ({
            let n = subtree_nodes(JsonView::Array(rows))[i];
            let task = task_in(rows[i]);
            &&& task.str_at("ticket_number"@) is None && task.str_at("id"@) is Some ==> n.ticket
                == task.str_at("id"@)->0
            &&& task.str_at("ticket_number"@) is None && task.str_at("id"@) is None ==> n.ticket
                == "?"@
            &&& task.str_at("title"@) is None ==> n.title == "(untitled)"@
            &&& task.str_at("status"@) is None ==> n.status == "?"@
        }),
{
}

/// The node at `j` is the ancestor of the node at `i` at its own depth: nothing
/// between them is as shallow.
pub open spec fn is_ancestor(depths: Seq<usize>, j: int, i: int) -> bool {
    0 <= j < i < depths.len() && depths[j] < depths[i] && forall|k: int|
        j < k < i ==> #[trigger] depths[k] > depths[j]
}

proof fn nearest_is(depths: Seq<usize>, j: int, i: int, at: int)
    requires
        0 <= j < at <= i < depths.len(),
        is_ancestor(depths, j, i),
    ensures
        was_last(depths, at, depths[j] as int) == !has_younger_sibling(depths, j),
    decreases at,
{
    if at - 1 > j {
        assert(depths[at - 1] > depths[j]);
        nearest_is(depths, j, i, at - 1);
    }
}

proof fn bars_len(depths: Seq<usize>, i: int, k: int)
    requires
        k >= 0,
    ensures
        bars(depths, i, k).len() == 4 * k,
    decreases k,
{
    reveal_strlit("    ");
    reveal_strlit("│   ");
    if k > 0 {
        bars_len(depths, i, k - 1);
    }
}

proof fn bar_at(depths: Seq<usize>, i: int, k: int, n: int)
    requires
        0 < k <= n,
    ensures
        bars(depths, i, n).subrange(4 * (k - 1), 4 * k) == if was_last(depths, i, k) {
            "    "@
        } else {
            "│   "@
        },
        bars(depths, i, n).len() == 4 * n,
    decreases n,
{
    reveal_strlit("    ");
    reveal_strlit("│   ");
    bars_len(depths, i, n);
    bars_len(depths, i, n - 1);
    let all = bars(depths, i, n);
    let before = bars(depths, i, n - 1);
    if k < n {
        bar_at(depths, i, k, n - 1);
        assert(all.subrange(4 * (k - 1), 4 * k) =~= before.subrange(4 * (k - 1), 4 * k));
    } else {
        assert(all.subrange(4 * (k - 1), 4 * k) =~= if was_last(depths, i, k) {
            "    "@
        } else {
            "│   "@
        });
    }
}

/// In front of a node a bar runs down from each ancestor below the root that has
/// a younger sibling, and nothing from one that has none; the last four columns
/// join it to its parent, with a corner where it is the last child.
pub proof fn bars_run_between_siblings(depths: Seq<usize>, i: int, j: int)
    requires
        0 <= i < depths.len(),
        depths[i] > 0,
        is_ancestor(depths, j, i),
        depths[j] > 0,
    ensures
        ({
            let indent = tree_prefix(depths, i);
            let d = depths[j] as int;
            &&& indent.len() == 4 * depths[i]
            &&& indent.subrange(4 * (d - 1), 4 * d) == if has_younger_sibling(depths, j) {
                "│   "@
            } else {
                "    "@
            }
        }),
{
    indent_follows_depth(depths, i);
    nearest_is(depths, j, i, i);
    let d = depths[j] as int;
    let n = depths[i] - 1;
    bar_at(depths, i, d, n);
    let indent = tree_prefix(depths, i);
    assert(indent.subrange(4 * (d - 1), 4 * d) =~= bars(depths, i, n).subrange(
        4 * (d - 1),
        4 * d,
    ));
}

/// A child is joined to its parent with a corner exactly where no sibling
/// follows.
pub proof fn last_children_have_corners(depths: Seq<usize>, i: int)
    requires
        0 <= i < depths.len(),
    ensures
        depths[i] == 0 ==> tree_prefix(depths, i).len() == 0,
        depths[i] > 0 ==> ({
            let indent = tree_prefix(depths, i);
            &&& indent.len() >= 4
            &&& indent.skip(indent.len() - 4) == if has_younger_sibling(depths, i) {
                "├── "@
            } else {
                "└── "@
            }
        }),
{
    reveal_strlit("├── ");
    reveal_strlit("└── ");
    if depths[i] > 0 {
        indent_follows_depth(depths, i);
        let indent = tree_prefix(depths, i);
        assert(indent.skip(indent.len() - 4) =~= if has_younger_sibling(depths, i) {
            "├── "@
        } else {
            "└── "@
        });
    }
}

/// An answer without rows is an error that names the task; with rows there is
/// none.
pub proof fn empty_trees_fail(
    task_id: Seq<char>,
    raw: JsonView,
    format: Seq<char>,
    envelope_summary: bool,
)
    requires
        format != "json"@,
    ensures
        tree_reply(task_id, raw, format, envelope_summary).end is Fail <==> !(raw matches JsonView::Array(
            rows,
        ) && rows.len() > 0),
        tree_reply(task_id, raw, format, envelope_summary).end matches EndView::Fail(m) ==> m
            == "subtree empty — task "@ + task_id + " not found?"@,
{
}

proof fn tree_names()
    ensures
        is_name("depth"@),
        is_name("order"@),
        is_name("include_envelope"@),
        "depth"@ != "order"@,
        "depth"@ != "include_envelope"@,
        "order"@ != "include_envelope"@,
{
    reveal_strlit("depth");
    reveal_strlit("order");
    reveal_strlit("include_envelope");
    assert("depth"@.len() == 5);
    assert("order"@.len() == 5);
    assert("include_envelope"@.len() == 16);
    assert("depth"@[0] != "order"@[0]);
}

/// The subtree is asked for to the depth that was given, in depth-first order,
/// with envelopes exactly where they are shown.
pub proof fn trees_are_asked_for_in_order(task_id: Seq<char>, depth: u32, envelope_summary: bool)
    requires
        !task_id.contains('?'),
    ensures
        ({
            let r = subtree_asked(task_id, depth, envelope_summary);
            &&& r.method == Method::Get
            &&& r.body is None
            &&& resource(r.path) == "/tasks/"@ + task_id + "/subtree"@
            &&& asked_for(r.path, "depth"@) == Some(dec(depth as nat))
            &&& asked_for(r.path, "order"@) == Some("dfs"@)
            &&& asked_for(r.path, "include_envelope"@) == Some(
                if envelope_summary {
                    "true"@
                } else {
                    "false"@
                },
            )
        }),
{
    tree_names();
    reveal_strlit("/tasks/");
    reveal_strlit("/subtree");
    reveal_strlit("/subtree?depth=");
    reveal_strlit("&order=dfs&include_envelope=");
    reveal_strlit("depth");
    reveal_strlit("order");
    reveal_strlit("include_envelope");
    reveal_strlit("?");
    reveal_strlit("&");
    reveal_strlit("=");
    reveal_strlit("dfs");
    reveal_strlit("true");
    reveal_strlit("false");
    plain_text("dfs"@);
    plain_text("true"@);
    plain_text("false"@);
    number_is_plain(depth as nat);
    let base = "/tasks/"@ + task_id + "/subtree"@;
    assert forall|i: int| 0 <= i < base.len() implies base[i] != '?' by {
        if 7 <= i < 7 + task_id.len() {
            assert(base[i] == task_id[i - 7]);
        }
    }
    no_query_asks_nothing(base);
    let shown = if envelope_summary {
        "true"@
    } else {
        "false"@
    };
    let q0 = Seq::<char>::empty();
    let q1 = with_param(q0, "depth"@, Some(dec(depth as nat)));
    param_is_read_back(base, q0, "depth"@, Some(dec(depth as nat)));
    let q2 = with_param(q1, "order"@, Some("dfs"@));
    param_is_read_back(base, q1, "order"@, Some("dfs"@));
    let q3 = with_param(q2, "include_envelope"@, Some(shown));
    param_is_read_back(base, q2, "include_envelope"@, Some(shown));
    assert(subtree_asked(task_id, depth, envelope_summary).path =~= base + q3);
}

} // verus!
