//! The subtree of a task, drawn with box characters.

use vstd::prelude::*;
use crate::decompose::{truncate, truncated};
use crate::json::{array_view, Json, JsonView};
use crate::output::{end_lines, ended_lines, output_fmt, printed, Format};
use crate::reply::{End, EndView, Outcome, OutcomeView};
use crate::request::{get, getting, Request, RequestView};
use crate::scan::opt_string;
use crate::text::{cat2, cat3, cat5, dec, decimal, same, texts};

verus! {

/// One task of a subtree.
#[derive(Debug, Clone)]
pub struct Node {
    pub depth: usize,
    pub ticket: String,
    pub title: String,
    pub status: String,
    pub intent: Option<String>,
}

/// What a task of a subtree is.
pub struct NodeView {
    pub depth: usize,
    pub ticket: Seq<char>,
    pub title: Seq<char>,
    pub status: Seq<char>,
    pub intent: Option<Seq<char>>,
}

impl View for Node {
    type V = NodeView;

    open spec fn view(&self) -> NodeView {
        NodeView {
            depth: self.depth,
            ticket: self.ticket@,
            title: self.title@,
            status: self.status@,
            intent: opt_string(self.intent),
        }
    }
}

/// What a list of tasks holds.
pub open spec fn node_views(v: Seq<Node>) -> Seq<NodeView> {
    Seq::new(v.len(), |i: int| v[i]@)
}

/// The task of a row: its `task` member, or the row itself.
pub open spec fn row_task(row: JsonView) -> JsonView {
    match row.get("task"@) {
        Some(t) => t,
        None => row,
    }
}

/// The depth of a row; zero where it is missing or negative.
pub open spec fn row_depth(row: JsonView) -> usize {
    match row.i64_at("depth"@) {
        Some(d) => if d > 0 {
            (d as i64) as usize
        } else {
            0
        },
        None => 0,
    }
}

/// The ticket of a task, else its identifier.
pub open spec fn task_label(task: JsonView) -> Seq<char> {
    match task.str_at("ticket_number"@) {
        Some(t) => t,
        None => task.str_or("id"@, "?"@),
    }
}

/// The task that a row stands for.
pub open spec fn row_node(row: JsonView) -> NodeView {
    let task = row_task(row);
    NodeView {
        depth: row_depth(row),
        ticket: task_label(task),
        title: task.str_or("title"@, "(untitled)"@),
        status: task.str_or("status"@, "?"@),
        intent: match row.get("resolved_envelope"@) {
            Some(e) => e.str_at("intent"@),
            None => None,
        },
    }
}

/// The tasks of an answer; none where it is no list.
pub open spec fn subtree_nodes(raw: JsonView) -> Seq<NodeView> {
    match raw {
        JsonView::Array(a) => Seq::new(a.len(), |i: int| row_node(a[i])),
        _ => Seq::empty(),
    }
}

fn node_of(row: &Json) -> (r: Node)
    ensures
        r@ == row_node(row@),
{
    let task = match row.get("task") {
        Some(t) => t,
        None => row,
    };
    let depth: usize = match row.i64_at("depth") {
        Some(d) => if d > 0 {
            d as usize
        } else {
            0
        },
        None => 0,
    };
    let ticket = match task.str_at("ticket_number") {
        Some(t) => t,
        None => task.str_or("id", "?"),
    };
    let intent = match row.get("resolved_envelope") {
        Some(e) => match e.str_at("intent") {
            Some(s) => Some(s.to_owned()),
            None => None,
        },
        None => None,
    };
    Node {
        depth,
        ticket: ticket.to_owned(),
        title: task.str_or("title", "(untitled)").to_owned(),
        status: task.str_or("status", "?").to_owned(),
        intent,
    }
}

/// The tasks of an answer.
pub fn nodes_from_subtree(raw: &Json) -> (r: Vec<Node>)
    ensures
        node_views(r@) == subtree_nodes(raw@),
{
    let mut out: Vec<Node> = Vec::new();
    if let Json::Array(arr) = raw {
        proof {
            array_view(*arr);
        }
        let mut i: usize = 0;
        while i < arr.len()
            invariant
                i <= arr@.len(),
                out@.len() == i,
                forall|k: int| 0 <= k < i ==> (#[trigger] out@[k])@ == row_node(arr@[k]@),
            decreases arr@.len() - i,
        {
            out.push(node_of(&arr[i]));
            i = i + 1;
        }
    }
    assert(node_views(out@) =~= subtree_nodes(raw@));
    out
}

/// A later node at the same depth follows before any shallower one.
pub open spec fn has_younger_sibling(depths: Seq<usize>, i: int) -> bool {
    exists|j: int|
        i < j < depths.len() && #[trigger] depths[j] == depths[i] && forall|k: int|
            i < k < j ==> #[trigger] depths[k] >= depths[i]
}

/// For each node whether it is the last child of its parent: in depth-first
/// order no later node at its depth follows before a shallower one.
pub fn compute_is_last(depths: &[usize]) -> (r: Vec<bool>)
    ensures
        r@.len() == depths@.len(),
        forall|i: int|
            0 <= i < depths@.len() ==> #[trigger] r@[i] == !has_younger_sibling(depths@, i),
{
    let n = depths.len();
    let mut out: Vec<bool> = Vec::new();
    let mut i: usize = 0;
    while i < n
        invariant
            i <= n,
            n == depths@.len(),
            out@.len() == i,
            forall|k: int| 0 <= k < i ==> #[trigger] out@[k] == !has_younger_sibling(depths@, k),
        decreases n - i,
    {
        let d = depths[i];
        let mut last = true;
        let mut j: usize = i + 1;
        while j < n && last && depths[j] >= d
            invariant
                i < j <= n,
                n == depths@.len(),
                d == depths@[i as int],
                last ==> forall|k: int| i < k < j ==> #[trigger] depths@[k] > d,
                !last ==> has_younger_sibling(depths@, i as int),
            decreases n - j,
        {
            if depths[j] == d {
                last = false;
                assert(depths@[j as int] == depths@[i as int]);
            }
            j = j + 1;
        }
        proof {
            if last && has_younger_sibling(depths@, i as int) {
                let s = choose|s: int|
                    i < s < depths@.len() && #[trigger] depths@[s] == depths@[i as int] && forall|
                        k: int,
                    |
                        i < k < s ==> #[trigger] depths@[k] >= depths@[i as int];
                if s >= j {
                    if s > j {
                        assert(depths@[j as int] >= d);
                    }
                }
            }
        }
        out.push(last);
        i = i + 1;
    }
    out
}

/// Whether the nearest node before `i` at depth `k` is a last child; where
/// there is no such node, as if it were.
pub open spec fn was_last(depths: Seq<usize>, i: int, k: int) -> bool
    decreases i,
{
    if i <= 0 {
        true
    } else if depths[i - 1] == k {
        !has_younger_sibling(depths, i - 1)
    } else {
        was_last(depths, i - 1, k)
    }
}

/// The bars for the ancestors of node `i` at the depths from 1 up to `k`.
pub open spec fn bars(depths: Seq<usize>, i: int, k: int) -> Seq<char>
    decreases k,
{
    if k <= 0 {
        Seq::empty()
    } else {
        bars(depths, i, k - 1) + (if was_last(depths, i, k) {
            "    "@
        } else {
            "│   "@
        })
    }
}

/// What stands in front of node `i`: nothing for a root, else a bar for each
/// ancestor below the root that has younger siblings, and a connector.
pub open spec fn tree_prefix(depths: Seq<usize>, i: int) -> Seq<char> {
    if depths[i] == 0 {
        Seq::empty()
    } else {
        bars(depths, i, depths[i] - 1) + (if has_younger_sibling(depths, i) {
            "├── "@
        } else {
            "└── "@
        })
    }
}

/// The depths of a list of nodes.
pub open spec fn depths_of(nodes: Seq<NodeView>) -> Seq<usize> {
    Seq::new(nodes.len(), |i: int| nodes[i].depth)
}

/// The words of a node.
pub open spec fn node_text(n: NodeView, envelope_summary: bool) -> Seq<char> {
    n.ticket + " ["@ + n.status + "] "@ + truncated(n.title, 80) + (match n.intent {
        Some(s) => if envelope_summary {
            "  · "@ + truncated(s, 80)
        } else {
            Seq::empty()
        },
        None => Seq::empty(),
    })
}

/// One line for each node.
pub open spec fn tree_lines(nodes: Seq<NodeView>, envelope_summary: bool) -> Seq<Seq<char>> {
    Seq::new(
        nodes.len(),
        |i: int| tree_prefix(depths_of(nodes), i) + node_text(nodes[i], envelope_summary),
    )
}

fn ancestor_was_last(depths: &Vec<usize>, is_last: &Vec<bool>, i: usize, k: usize) -> (r: bool)
    requires
        i <= depths@.len(),
        is_last@.len() == depths@.len(),
        forall|j: int|
            0 <= j < depths@.len() ==> #[trigger] is_last@[j] == !has_younger_sibling(depths@, j),
    ensures
        r == was_last(depths@, i as int, k as int),
{
    let mut j: usize = i;
    while j > 0 && depths[j - 1] != k
        invariant
            j <= i <= depths@.len(),
            was_last(depths@, i as int, k as int) == was_last(depths@, j as int, k as int),
        decreases j,
    {
        j = j - 1;
    }
    if j == 0 {
        true
    } else {
        is_last[j - 1]
    }
}

fn words_of_node(node: &Node, envelope_summary: bool) -> (r: String)
    ensures
        r@ == node_text(node@, envelope_summary),
{
    let title = truncate(node.title.as_str(), 80);
    let mut out = cat5(node.ticket.as_str(), " [", node.status.as_str(), "] ", title.as_str());
    let ghost base = out@;
    assert(base + Seq::<char>::empty() =~= base);
    if envelope_summary {
        if let Some(intent) = &node.intent {
            let cut = truncate(intent.as_str(), 80);
            let part = cat2("  · ", cut.as_str());
            out.append(part.as_str());
        }
    }
    out
}

/// One line for each node of a subtree in depth-first order.
pub fn render_tree_lines(nodes: &[Node], envelope_summary: bool) -> (r: Vec<String>)
    ensures
        texts(r@) == tree_lines(node_views(nodes@), envelope_summary),
{
    let mut depths: Vec<usize> = Vec::new();
    let mut n: usize = 0;
    while n < nodes.len()
        invariant
            n <= nodes@.len(),
            depths@.len() == n,
            forall|k: int| 0 <= k < n ==> depths@[k] == nodes@[k].depth,
        decreases nodes@.len() - n,
    {
        depths.push(nodes[n].depth);
        n = n + 1;
    }
    let ghost all = depths_of(node_views(nodes@));
    assert(depths@ =~= all);
    let is_last = compute_is_last(depths.as_slice());
    let mut out: Vec<String> = Vec::new();
    let mut i: usize = 0;
    while i < nodes.len()
        invariant
            i <= nodes@.len(),
            depths@ == all,
            all == depths_of(node_views(nodes@)),
            is_last@.len() == depths@.len(),
            forall|j: int|
                0 <= j < depths@.len() ==> #[trigger] is_last@[j] == !has_younger_sibling(
                    depths@,
                    j,
                ),
            out@.len() == i,
            forall|k: int|
                0 <= k < i ==> (#[trigger] out@[k])@ == tree_prefix(all, k) + node_text(
                    nodes@[k]@,
                    envelope_summary,
                ),
        decreases nodes@.len() - i,
    {
        let d = nodes[i].depth;
        let mut line = String::new();
        if d > 0 {
            let mut k: usize = 1;
            while k < d
                invariant
                    1 <= k <= d,
                    i < depths@.len(),
                    depths@ == all,
                    is_last@.len() == depths@.len(),
                    forall|j: int|
                        0 <= j < depths@.len() ==> #[trigger] is_last@[j] == !has_younger_sibling(
                            depths@,
                            j,
                        ),
                    line@ == bars(all, i as int, k - 1),
                decreases d - k,
            {
                if ancestor_was_last(&depths, &is_last, i, k) {
                    line.append("    ");
                } else {
                    line.append("│   ");
                }
                k = k + 1;
            }
            if is_last[i] {
                line.append("└── ");
            } else {
                line.append("├── ");
            }
        }
        assert(line@ == tree_prefix(all, i as int));
        let words = words_of_node(&nodes[i], envelope_summary);
        line.append(words.as_str());
        out.push(line);
        i = i + 1;
    }
    assert(texts(out@) =~= tree_lines(node_views(nodes@), envelope_summary));
    out
}

proof fn bars_len(depths: Seq<usize>, i: int, k: int)
    requires
        k >= 0,
    ensures
        bars(depths, i, k).len() == 4 * k,
    decreases k,
{
    reveal_strlit("    ");
    reveal_strlit("│   ");
    if k > 0 {
        bars_len(depths, i, k - 1);
    }
}

/// Every node is indented by four columns for each level below the root.
pub proof fn indent_follows_depth(depths: Seq<usize>, i: int)
    requires
        0 <= i < depths.len(),
    ensures
        tree_prefix(depths, i).len() == 4 * depths[i],
{
    reveal_strlit("├── ");
    reveal_strlit("└── ");
    if depths[i] > 0 {
        bars_len(depths, i, depths[i] - 1);
    }
}

/// Of two siblings with nothing shallower between them only the later can be
/// a last child, and the last node of all is one.
pub proof fn last_children(depths: Seq<usize>, i: int, j: int)
    requires
        0 <= i < j < depths.len(),
        depths[i] == depths[j],
        forall|k: int| i < k < j ==> #[trigger] depths[k] >= depths[i],
    ensures
        has_younger_sibling(depths, i),
        !has_younger_sibling(depths, depths.len() - 1),
{
}

/// What `task tree` asks of the daemon.
pub open spec fn subtree_asked(
    task_id: Seq<char>,
    depth: u32,
    envelope_summary: bool,
) -> RequestView {
    getting(
        "/tasks/"@ + task_id + "/subtree?depth="@ + dec(depth as nat)
            + "&order=dfs&include_envelope="@ + (if envelope_summary {
            "true"@
        } else {
            "false"@
        }),
    )
}

/// What `task tree` asks of the daemon.
pub fn tree_request(task_id: &str, depth: u32, envelope_summary: bool) -> (r: Request)
    ensures
        r@ == subtree_asked(task_id@, depth, envelope_summary),
{
    let n = decimal(depth as u64);
    let mut path = cat5(
        "/tasks/",
        task_id,
        "/subtree?depth=",
        n.as_str(),
        "&order=dfs&include_envelope=",
    );
    path.append(
        if envelope_summary {
            "true"
        } else {
            "false"
        },
    );
    get(path)
}

/// What `task tree` prints: JSON where that form is asked for, else the tree;
/// an answer without tasks is an error.
pub open spec fn tree_reply(
    task_id: Seq<char>,
    raw: JsonView,
    format: Seq<char>,
    envelope_summary: bool,
) -> OutcomeView {
    let nodes = subtree_nodes(raw);
    if format == "json"@ {
        OutcomeView {
            stdout: printed(raw, Format::Json),
            stderr: Seq::empty(),
            end: EndView::Done,
        }
    } else if nodes.len() == 0 {
        OutcomeView {
            stdout: Seq::empty(),
            stderr: Seq::empty(),
            end: EndView::Fail("subtree empty — task "@ + task_id + " not found?"@),
        }
    } else {
        OutcomeView {
            stdout: ended_lines(tree_lines(nodes, envelope_summary), nodes.len()),
            stderr: Seq::empty(),
            end: EndView::Done,
        }
    }
}

/// What `task tree` prints.
pub fn handle_tree(task_id: &str, raw: &Json, format: &str, envelope_summary: bool) -> (r: Outcome)
    ensures
        r@ == tree_reply(task_id@, raw@, format@, envelope_summary),
{
    proof {
        tree_format_names();
    }
    if same(format, "json") {
        return match output_fmt(raw, "json") {
            Ok(s) => Outcome { stdout: s, stderr: String::new(), end: End::Done },
            Err(m) => Outcome { stdout: m, stderr: String::new(), end: End::Done },
        };
    }
    let nodes = nodes_from_subtree(raw);
    assert(node_views(nodes@).len() == nodes@.len());
    if nodes.len() == 0 {
        return Outcome {
            stdout: String::new(),
            stderr: String::new(),
            end: End::Fail(cat3("subtree empty — task ", task_id, " not found?")),
        };
    }
    let lines = render_tree_lines(nodes.as_slice(), envelope_summary);
    assert(texts(lines@).len() == lines@.len());
    Outcome { stdout: end_lines(&lines), stderr: String::new(), end: End::Done }
}

proof fn tree_format_names()
    ensures
        "json"@ != "table"@,
        "json"@ != "yaml"@,
{
    reveal_strlit("json");
    reveal_strlit("table");
    reveal_strlit("yaml");
    assert("json"@[0] == 'j' && "table"@[0] == 't' && "yaml"@[0] == 'y');
}

} // verus!
