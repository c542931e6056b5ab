//! What each task command asks of the daemon.

use vstd::prelude::*;
use crate::command::TaskAction;
use crate::json::{
    empty_object, list_of_texts, object, opt_ref, opt_text, or_null, text, text_list, text_or_null,
    Json, JsonView,
};
use crate::query::{add_param, url_encoded, urlenc, with_param};
use crate::request::{
    add_int, delete, deleting, first_of, get, getting, int_json, int_or_null, int_param, int_text,
    or_else, patch, patching, post, posting, with_int, Request, RequestView,
};
use crate::scan::opt_string;
use crate::text::{cat2, cat3, dec, decimal, texts};

verus! {

/// The body that moves a task to another status.
pub open spec fn transition_body(
    status: Seq<char>,
    comment: Option<Seq<char>>,
    evidence: Option<Seq<char>>,
    agent: Seq<char>,
) -> JsonView {
    let moved = empty_object().with("status"@, JsonView::Text(status)).with(
        "_agent"@,
        JsonView::Text(agent),
    );
    let said = match comment {
        Some(c) => moved.with("_comment"@, JsonView::Text(c)).with(
            "_author"@,
            JsonView::Text(agent),
        ),
        None => moved,
    };
    said.with_text("evidence"@, evidence)
}

/// The request that moves a task to another status.
pub fn task_transition(
    id: &str,
    status: &str,
    comment: Option<&str>,
    evidence: Option<&str>,
    agent: &str,
) -> (r: Request)
    ensures
        r@ == patching(
            "/tasks/"@ + id@,
            transition_body(status@, opt_text(comment), opt_text(evidence), agent@),
        ),
{
    let mut payload = object().with("status", text(status)).with("_agent", text(agent));
    if let Some(c) = comment {
        payload = payload.with("_comment", text(c)).with("_author", text(agent));
    }
    patch(cat2("/tasks/", id), payload.with_text("evidence", evidence))
}

/// The query of a list of tasks.
pub open spec fn task_list_query(a: TaskAction) -> Seq<char>
    recommends
        a is List,
{
    match a {
        TaskAction::List {
            unit,
            plan,
            project,
            status,
            agent_id,
            cycle,
            no_cycle,
            label,
            tier,
            scenario_id,
            batch_id,
            evidence_empty,
            limit,
            offset,
        } => {
            let q = with_param(Seq::empty(), "unit_id"@, opt_string(unit));
            let q = with_param(q, "plan_id"@, opt_string(plan));
            let q = with_param(q, "project_id"@, opt_string(project));
            let q = with_param(q, "status"@, opt_string(status));
            let q = with_param(q, "agent_id"@, opt_string(agent_id));
            let q = with_param(
                q,
                "cycle_id"@,
                if no_cycle {
                    Some("null"@)
                } else {
                    opt_string(cycle)
                },
            );
            let q = with_param(q, "label"@, opt_string(label));
            let q = with_param(q, "tier"@, opt_string(tier));
            let q = with_param(q, "scenario_id"@, opt_string(scenario_id));
            let q = with_param(q, "batch_id"@, opt_string(batch_id));
            let q = with_param(
                q,
                "evidence_empty"@,
                if evidence_empty {
                    Some("1"@)
                } else {
                    None
                },
            );
            let q = with_param(q, "limit"@, int_text(limit));
            with_param(q, "offset"@, int_text(offset))
        },
        _ => Seq::empty(),
    }
}

fn task_list(a: &TaskAction) -> (r: String)
    ensures
        r@ == task_list_query(*a),
{
    match a {
        TaskAction::List {
            unit,
            plan,
            project,
            status,
            agent_id,
            cycle,
            no_cycle,
            label,
            tier,
            scenario_id,
            batch_id,
            evidence_empty,
            limit,
            offset,
        } => {
            let q = add_param(String::new(), "unit_id", opt_ref(unit));
            let q = add_param(q, "plan_id", opt_ref(plan));
            let q = add_param(q, "project_id", opt_ref(project));
            let q = add_param(q, "status", opt_ref(status));
            let q = add_param(q, "agent_id", opt_ref(agent_id));
            let q = add_param(
                q,
                "cycle_id",
                if *no_cycle {
                    Some("null")
                } else {
                    opt_ref(cycle)
                },
            );
            let q = add_param(q, "label", opt_ref(label));
            let q = add_param(q, "tier", opt_ref(tier));
            let q = add_param(q, "scenario_id", opt_ref(scenario_id));
            let q = add_param(q, "batch_id", opt_ref(batch_id));
            let q = add_param(
                q,
                "evidence_empty",
                if *evidence_empty {
                    Some("1")
                } else {
                    None
                },
            );
            let limit_text = int_param(limit);
            let offset_text = int_param(offset);
            let q = add_param(q, "limit", opt_ref(&limit_text));
            add_param(q, "offset", opt_ref(&offset_text))
        },
        _ => String::new(),
    }
}

/// The labels of a new task: null where there are none.
pub open spec fn labels_json(label: Seq<Seq<char>>) -> JsonView {
    if label.len() == 0 {
        JsonView::Null
    } else {
        text_list(label)
    }
}

/// A text that is empty where it was not given.
pub open spec fn or_empty(o: Option<Seq<char>>) -> Seq<char> {
    match o {
        Some(s) => s,
        None => Seq::empty(),
    }
}

/// The body of a new task.
pub open spec fn task_body(a: TaskAction, here: Option<Seq<char>>) -> JsonView
    recommends
        a is Create,
{
    match a {
        TaskAction::Create {
            title,
            unit,
            body,
            assignee,
            idx,
            depends_on,
            parent_task,
            priority,
            complexity,
            estimated_edits,
            cycle,
            kind,
            label,
            tier,
            scenario_id,
            evidence,
            batch_id,
        } => {
            let j = empty_object().with("unit_id"@, text_or_null(opt_string(unit))).with(
                "title"@,
                JsonView::Text(title@),
            ).with("body"@, JsonView::Text(or_empty(opt_string(body)))).with(
                "assignee"@,
                text_or_null(opt_string(assignee)),
            ).with("idx"@, int_or_null(idx)).with("depends_on"@, text_list(texts(depends_on@)));
            let j = j.with("parent_task_id"@, text_or_null(opt_string(parent_task))).with(
                "priority"@,
                JsonView::Text(priority@),
            ).with("complexity"@, text_or_null(opt_string(complexity))).with(
                "estimated_edits"@,
                int_or_null(estimated_edits),
            ).with("cycle_id"@, text_or_null(opt_string(cycle))).with("cwd"@, text_or_null(here));
            j.with("type"@, JsonView::Text(kind@)).with(
                "labels"@,
                labels_json(texts(label@)),
            ).with("tier"@, text_or_null(opt_string(tier))).with(
                "scenario_id"@,
                text_or_null(opt_string(scenario_id)),
            ).with("evidence"@, text_or_null(opt_string(evidence))).with(
                "batch_id"@,
                text_or_null(opt_string(batch_id)),
            )
        },
        _ => empty_object(),
    }
}

fn new_task(a: &TaskAction, here: Option<&str>) -> (r: Json)
    ensures
        r@ == task_body(*a, opt_text(here)),
{
    match a {
        TaskAction::Create {
            title,
            unit,
            body,
            assignee,
            idx,
            depends_on,
            parent_task,
            priority,
            complexity,
            estimated_edits,
            cycle,
            kind,
            label,
            tier,
            scenario_id,
            evidence,
            batch_id,
        } => {
            let content = match body {
                Some(b) => b.clone(),
                None => String::new(),
            };
            let j = object().with("unit_id", or_null(opt_ref(unit))).with(
                "title",
                text(title.as_str()),
            ).with("body", text(content.as_str())).with(
                "assignee",
                or_null(opt_ref(assignee)),
            ).with("idx", int_json(idx)).with("depends_on", list_of_texts(depends_on));
            let j = j.with("parent_task_id", or_null(opt_ref(parent_task))).with(
                "priority",
                text(priority.as_str()),
            ).with("complexity", or_null(opt_ref(complexity))).with(
                "estimated_edits",
                int_json(estimated_edits),
            ).with("cycle_id", or_null(opt_ref(cycle))).with("cwd", or_null(here));
            let labels = if label.len() == 0 {
                assert(texts(label@).len() == 0);
                Json::Null
            } else {
                assert(texts(label@).len() > 0);
                list_of_texts(label)
            };
            j.with("type", text(kind.as_str())).with("labels", labels).with(
                "tier",
                or_null(opt_ref(tier)),
            ).with("scenario_id", or_null(opt_ref(scenario_id))).with(
                "evidence",
                or_null(opt_ref(evidence)),
            ).with("batch_id", or_null(opt_ref(batch_id)))
        },
        _ => object(),
    }
}

/// The body of a change to a task: the members that were given, who makes
/// the change, and with a comment its author.
pub open spec fn task_changes(a: TaskAction) -> JsonView
    recommends
        a is Update,
{
    match a {
        TaskAction::Update {
            id,
            title,
            body,
            status,
            assignee,
            session_id,
            agent,
            priority,
            complexity,
            estimated_edits,
            parent_task,
            cycle,
            agent_id,
            comment,
            tier,
            scenario_id,
            evidence,
            batch_id,
        } => {
            let j = empty_object().with_text("title"@, opt_string(title)).with_text(
                "body"@,
                opt_string(body),
            ).with_text("status"@, opt_string(status)).with_text(
                "assignee"@,
                opt_string(assignee),
            ).with_text("_session_id"@, opt_string(session_id)).with(
                "_agent"@,
                JsonView::Text(agent@),
            );
            let j = with_int(
                j.with_text("priority"@, opt_string(priority)).with_text(
                    "complexity"@,
                    opt_string(complexity),
                ),
                "estimated_edits"@,
                estimated_edits,
            );
            let j = j.with_text("parent_task_id"@, opt_string(parent_task)).with_text(
                "cycle_id"@,
                opt_string(cycle),
            ).with_text("agent_id"@, opt_string(agent_id));
            let j = match comment {
                Some(c) => j.with("_comment"@, JsonView::Text(c@)).with_text(
                    "_author"@,
                    or_else(opt_string(assignee), Some(agent@)),
                ),
                None => j,
            };
            j.with_text("tier"@, opt_string(tier)).with_text(
                "scenario_id"@,
                opt_string(scenario_id),
            ).with_text("evidence"@, opt_string(evidence)).with_text(
                "batch_id"@,
                opt_string(batch_id),
            )
        },
        _ => empty_object(),
    }
}

fn changed_task(a: &TaskAction) -> (r: Json)
    ensures
        r@ == task_changes(*a),
{
    match a {
        TaskAction::Update {
            id,
            title,
            body,
            status,
            assignee,
            session_id,
            agent,
            priority,
            complexity,
            estimated_edits,
            parent_task,
            cycle,
            agent_id,
            comment,
            tier,
            scenario_id,
            evidence,
            batch_id,
        } => {
            let j = object().with_text("title", opt_ref(title)).with_text(
                "body",
                opt_ref(body),
            ).with_text("status", opt_ref(status)).with_text(
                "assignee",
                opt_ref(assignee),
            ).with_text("_session_id", opt_ref(session_id)).with("_agent", text(agent.as_str()));
            let j = add_int(
                j.with_text("priority", opt_ref(priority)).with_text(
                    "complexity",
                    opt_ref(complexity),
                ),
                "estimated_edits",
                estimated_edits,
            );
            let mut j = j.with_text("parent_task_id", opt_ref(parent_task)).with_text(
                "cycle_id",
                opt_ref(cycle),
            ).with_text("agent_id", opt_ref(agent_id));
            if let Some(c) = comment {
                j = j.with("_comment", text(c.as_str())).with_text(
                    "_author",
                    first_of(opt_ref(assignee), Some(agent.as_str())),
                );
            }
            j.with_text("tier", opt_ref(tier)).with_text(
                "scenario_id",
                opt_ref(scenario_id),
            ).with_text("evidence", opt_ref(evidence)).with_text("batch_id", opt_ref(batch_id))
        },
        _ => object(),
    }
}

/// The query of a list of ancestors.
pub open spec fn ancestors_query(depth: int, no_envelope: bool) -> Seq<char> {
    if depth > 0 {
        if no_envelope {
            "?depth="@ + dec(depth as nat) + "&include_envelope=false"@
        } else {
            "?depth="@ + dec(depth as nat)
        }
    } else if no_envelope {
        "?include_envelope=false"@
    } else {
        Seq::empty()
    }
}

fn ancestors(depth: u32, no_envelope: bool) -> (r: String)
    ensures
        r@ == ancestors_query(depth as int, no_envelope),
{
    if depth > 0 {
        let n = decimal(depth as u64);
        if no_envelope {
            cat3("?depth=", n.as_str(), "&include_envelope=false")
        } else {
            cat2("?depth=", n.as_str())
        }
    } else if no_envelope {
        "?include_envelope=false".to_owned()
    } else {
        String::new()
    }
}

/// What a task command asks. `here` is the current directory.
pub open spec fn task_request(a: TaskAction, here: Option<Seq<char>>) -> RequestView {
    match a {
        TaskAction::Create { .. } => posting("/tasks"@, task_body(a, here)),
        TaskAction::View { id } => getting("/tasks/"@ + id@),
        TaskAction::List { .. } => getting("/tasks"@ + task_list_query(a)),
        TaskAction::Update { id, .. } => patching("/tasks/"@ + id@, task_changes(a)),
        TaskAction::Delete { id } => deleting("/tasks/"@ + id@),
        TaskAction::AppendBody { id, text } => posting(
                "/tasks/"@ + id@ + "/body"@,
                empty_object().with("text"@, JsonView::Text(text@)),
            ),
        TaskAction::Search { query, mode, limit } => getting(
                "/tasks/search?q="@ + url_encoded(query@) + "&mode="@ + url_encoded(mode@)
                    + "&limit="@ + dec(limit as nat),
            ),
        TaskAction::Complete { id, evidence, comment, agent } => patching(
                "/tasks/"@ + id@,
                transition_body("done"@, opt_string(comment), Some(evidence@), agent@),
            ),
        TaskAction::Cancel { id, reason, agent } => patching(
                "/tasks/"@ + id@,
                transition_body("cancelled"@, opt_string(reason), None, agent@),
            ),
        TaskAction::Block { id, reason, agent } => patching(
                "/tasks/"@ + id@,
                transition_body("blocked"@, opt_string(reason), None, agent@),
            ),
        TaskAction::Unblock { id, comment, agent } => patching(
                "/tasks/"@ + id@,
                transition_body("todo"@, opt_string(comment), None, agent@),
            ),
        TaskAction::Ancestors { id, depth, no_envelope, .. } => getting(
                "/tasks/"@ + id@ + "/ancestors"@ + ancestors_query(depth as int, no_envelope),
            ),
        TaskAction::Descendants { id, depth, order, no_envelope, .. } => getting(
                "/tasks/"@ + id@ + "/descendants?depth="@ + dec(depth as nat) + "&order="@ + order@
                    + (if no_envelope {
                    "&include_envelope=false"@
                } else {
                    Seq::empty()
                }),
            ),
        TaskAction::Stats { batch_id } => getting("/tasks/stats?batch_id="@ + batch_id@),
    }
}

pub(crate) fn task(a: &TaskAction, here: Option<&str>) -> (r: Request)
    ensures
        r@ == task_request(*a, opt_text(here)),
{
    match a {
        TaskAction::Create { .. } => post("/tasks".to_owned(), new_task(a, here)),
        TaskAction::View { id } => get(cat2("/tasks/", id.as_str())),
        TaskAction::List { .. } => {
            let q = task_list(a);
            get(cat2("/tasks", q.as_str()))
        },
        TaskAction::Update { id, .. } => patch(cat2("/tasks/", id.as_str()), changed_task(a)),
        TaskAction::Delete { id } => delete(cat2("/tasks/", id.as_str())),
        TaskAction::AppendBody { id, text: more } => post(
                cat3("/tasks/", id.as_str(), "/body"),
                object().with("text", text(more.as_str())),
            ),
        TaskAction::Search { query, mode, limit } => {
            let q = urlenc(query.as_str());
            let m = urlenc(mode.as_str());
            let n = decimal(*limit as u64);
            let mut path = cat2("/tasks/search?q=", q.as_str());
            path.append("&mode=");
            path.append(m.as_str());
            path.append("&limit=");
            path.append(n.as_str());
            get(path)
        },
        TaskAction::Complete { id, evidence, comment, agent } => task_transition(
                id.as_str(),
                "done",
                opt_ref(comment),
                Some(evidence.as_str()),
                agent.as_str(),
            ),
        TaskAction::Cancel { id, reason, agent } => task_transition(id.as_str(), "cancelled", opt_ref(reason), None, agent.as_str()),
        TaskAction::Block { id, reason, agent } => task_transition(id.as_str(), "blocked", opt_ref(reason), None, agent.as_str()),
        TaskAction::Unblock { id, comment, agent } => task_transition(id.as_str(), "todo", opt_ref(comment), None, agent.as_str()),
        TaskAction::Ancestors { id, depth, no_envelope, .. } => {
            let q = ancestors(*depth, *no_envelope);
            let path = cat3("/tasks/", id.as_str(), "/ancestors");
            get(cat2(path.as_str(), q.as_str()))
        },
        TaskAction::Descendants { id, depth, order, no_envelope, .. } => {
            let n = decimal(*depth as u64);
            let mut path = cat3("/tasks/", id.as_str(), "/descendants?depth=");
            path.append(n.as_str());
            path.append("&order=");
            path.append(order.as_str());
            let ghost base = path@;
            if *no_envelope {
                path.append("&include_envelope=false");
            }
            assert(base + Seq::<char>::empty() =~= base);
            get(path)
        },
        TaskAction::Stats { batch_id } => get(cat2("/tasks/stats?batch_id=", batch_id.as_str())),
    }
}

proof fn transition_keys()
    ensures
        "status"@ != "_agent"@,
        "status"@ != "_comment"@,
        "status"@ != "_author"@,
        "status"@ != "evidence"@,
        "evidence"@ != "_agent"@,
        "evidence"@ != "_comment"@,
        "evidence"@ != "_author"@,
        "_agent"@ != "_comment"@,
        "_agent"@ != "_author"@,
        "_comment"@ != "_author"@,
{
    reveal_strlit("status");
    reveal_strlit("_agent");
    reveal_strlit("_comment");
    reveal_strlit("_author");
    reveal_strlit("evidence");
    assert("status"@[0] == 's');
    assert("evidence"@[0] == 'e');
    assert("_agent"@[2] == 'g');
    assert("_author"@[2] == 'u');
    assert("_comment"@[1] == 'c');
    assert("_agent"@[1] == 'a');
    assert("_author"@[1] == 'a');
}

/// A move to another status says which status and who moves the task; it
/// carries evidence exactly where evidence was given, and a comment together
/// with its author exactly where a comment was given.
pub proof fn transition_says_what_was_given(
    status: Seq<char>,
    comment: Option<Seq<char>>,
    evidence: Option<Seq<char>>,
    agent: Seq<char>,
)
    ensures
        ({
            let body = transition_body(status, comment, evidence, agent);
            &&& body.str_at("status"@) == Some(status)
            &&& body.str_at("_agent"@) == Some(agent)
            &&& body.str_at("evidence"@) == evidence
            &&& body.str_at("_comment"@) == comment
            &&& body.str_at("_author"@) == if comment is Some {
                Some(agent)
            } else {
                None
            }
        }),
{
    broadcast use crate::json::get_after_with, crate::json::with_stays_object;

    transition_keys();
    assert(empty_object().get("evidence"@) is None);
    assert(empty_object().get("_comment"@) is None);
    assert(empty_object().get("_author"@) is None);
}

/// A task is never completed without evidence: the request that moves it to
/// `done` carries the evidence that the command was given.
pub proof fn completion_carries_evidence(a: TaskAction, here: Option<Seq<char>>)
    requires
        a is Complete,
    ensures
        ({
            let body = task_request(a, here).body->0;
            &&& body.str_at("status"@) == Some("done"@)
            &&& body.str_at("evidence"@) == Some(a->Complete_evidence@)
        }),
{
    transition_says_what_was_given(
        "done"@,
        opt_string(a->Complete_comment),
        Some(a->Complete_evidence@),
        a->Complete_agent@,
    );
}

} // verus!
