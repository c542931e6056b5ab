//! What the tools for language models answer, read from the answers.

use vstd::prelude::*;
use vstd::seq_lib::*;
use crate::export::occurs_around;
use crate::json::{empty_has_no_member, get_after_with, with_stays_object, JsonView};
use crate::mcp::{
    artifacts_asked, discussion_upto, enriched, error_body, extracted, found_artifact,
    found_artifacts, items_in, markers_in, result_limit, similar_asked, similar_entry,
    similar_found, snippet_of, summary_of, tasks_asked, tasks_of_status, FindSimilarTasksArgs,
    GetRecentDecisionsArgs, GetTaskContextArgs, SearchArtifactsArgs, SearchTasksArgs,
    DECISION_PATTERN, ISSUE_PATTERN,
};
use crate::mcp_context::{
    context_artifact, context_artifacts, context_body, context_comment, context_id,
    context_relation, context_task, decision_summary, decisions_asked, due_decisions,
    grouped_relations, inserted, is_due, is_wanted, relations_of, section_asked, ContextReplies,
    Section,
};
use crate::query::{
    asked_for, is_name, no_query_asks_nothing, param_is_read_back, resource, url_encoded,
    with_param,
};
use crate::request::Method;
use crate::request_laws::{number_is_plain, plain_text};
use crate::scan::{occurs_in, opt_string};
use crate::text::dec;

verus! {

/// The member of `j` under the key is that of `from` under its own, and null
/// where `from` has none.
pub open spec fn shows(j: JsonView, key: Seq<char>, from: JsonView, own: Seq<char>) -> bool {
    j.get(key) == match from.get(own) {
        Some(v) => Some(v),
        None => Some(JsonView::Null),
    }
}

proof fn context_shows_the_task_keys()
    ensures
        "id"@ != "ticket_number"@,
        "id"@ != "title"@,
        "id"@ != "status"@,
        "id"@ != "priority"@,
        "id"@ != "type"@,
        "id"@ != "unit_id"@,
        "id"@ != "cycle_id"@,
        "id"@ != "body"@,
        "id"@ != "created_at"@,
        "id"@ != "started_at"@,
        "id"@ != "completed_at"@,
        "ticket_number"@ != "title"@,
        "ticket_number"@ != "status"@,
        "ticket_number"@ != "priority"@,
        "ticket_number"@ != "type"@,
        "ticket_number"@ != "unit_id"@,
        "ticket_number"@ != "cycle_id"@,
        "ticket_number"@ != "body"@,
        "ticket_number"@ != "created_at"@,
        "ticket_number"@ != "started_at"@,
        "ticket_number"@ != "completed_at"@,
        "title"@ != "status"@,
        "title"@ != "priority"@,
        "title"@ != "type"@,
        "title"@ != "unit_id"@,
        "title"@ != "cycle_id"@,
        "title"@ != "body"@,
        "title"@ != "created_at"@,
        "title"@ != "started_at"@,
        "title"@ != "completed_at"@,
        "status"@ != "priority"@,
        "status"@ != "type"@,
        "status"@ != "unit_id"@,
        "status"@ != "cycle_id"@,
        "status"@ != "body"@,
        "status"@ != "created_at"@,
        "status"@ != "started_at"@,
        "status"@ != "completed_at"@,
        "priority"@ != "type"@,
        "priority"@ != "unit_id"@,
        "priority"@ != "cycle_id"@,
        "priority"@ != "body"@,
        "priority"@ != "created_at"@,
        "priority"@ != "started_at"@,
        "priority"@ != "completed_at"@,
        "type"@ != "unit_id"@,
        "type"@ != "cycle_id"@,
        "type"@ != "body"@,
        "type"@ != "created_at"@,
        "type"@ != "started_at"@,
        "type"@ != "completed_at"@,
        "unit_id"@ != "cycle_id"@,
        "unit_id"@ != "body"@,
        "unit_id"@ != "created_at"@,
        "unit_id"@ != "started_at"@,
        "unit_id"@ != "completed_at"@,
        "cycle_id"@ != "body"@,
        "cycle_id"@ != "created_at"@,
        "cycle_id"@ != "started_at"@,
        "cycle_id"@ != "completed_at"@,
        "body"@ != "created_at"@,
        "body"@ != "started_at"@,
        "body"@ != "completed_at"@,
        "created_at"@ != "started_at"@,
        "created_at"@ != "completed_at"@,
        "started_at"@ != "completed_at"@,
{
    reveal_strlit("id");
    reveal_strlit("ticket_number");
    reveal_strlit("title");
    reveal_strlit("status");
    reveal_strlit("priority");
    reveal_strlit("type");
    reveal_strlit("unit_id");
    reveal_strlit("cycle_id");
    reveal_strlit("body");
    reveal_strlit("created_at");
    reveal_strlit("started_at");
    reveal_strlit("completed_at");
    assert("id"@.len() == 2);
    assert("ticket_number"@.len() == 13);
    assert("title"@.len() == 5);
    assert("status"@.len() == 6);
    assert("priority"@.len() == 8);
    assert("type"@.len() == 4);
    assert("unit_id"@.len() == 7);
    assert("cycle_id"@.len() == 8);
    assert("body"@.len() == 4);
    assert("created_at"@.len() == 10);
    assert("started_at"@.len() == 10);
    assert("completed_at"@.len() == 12);
    assert("priority"@[0] != "cycle_id"@[0]);
    assert("type"@[0] != "body"@[0]);
    assert("created_at"@[0] != "started_at"@[0]);
}

/// The task in its context shows its own members.
pub proof fn context_shows_the_task(t: JsonView)
    ensures
        shows(context_task(t), "id"@, t, "id"@),
        shows(context_task(t), "ticket_number"@, t, "ticket_number"@),
        shows(context_task(t), "title"@, t, "title"@),
        shows(context_task(t), "status"@, t, "status"@),
        shows(context_task(t), "priority"@, t, "priority"@),
        shows(context_task(t), "type"@, t, "type"@),
        shows(context_task(t), "unit_id"@, t, "unit_id"@),
        shows(context_task(t), "cycle_id"@, t, "cycle_id"@),
        shows(context_task(t), "body"@, t, "body"@),
        shows(context_task(t), "created_at"@, t, "created_at"@),
        shows(context_task(t), "started_at"@, t, "started_at"@),
        shows(context_task(t), "completed_at"@, t, "completed_at"@),
{
    broadcast use get_after_with, with_stays_object, empty_has_no_member;

    context_shows_the_task_keys();
}

proof fn summaries_show_the_task_keys()
    ensures
        "id"@ != "ticket_number"@,
        "id"@ != "title"@,
        "id"@ != "status"@,
        "id"@ != "priority"@,
        "id"@ != "type"@,
        "id"@ != "unit_id"@,
        "id"@ != "distance"@,
        "ticket_number"@ != "title"@,
        "ticket_number"@ != "status"@,
        "ticket_number"@ != "priority"@,
        "ticket_number"@ != "type"@,
        "ticket_number"@ != "unit_id"@,
        "ticket_number"@ != "distance"@,
        "title"@ != "status"@,
        "title"@ != "priority"@,
        "title"@ != "type"@,
        "title"@ != "unit_id"@,
        "title"@ != "distance"@,
        "status"@ != "priority"@,
        "status"@ != "type"@,
        "status"@ != "unit_id"@,
        "status"@ != "distance"@,
        "priority"@ != "type"@,
        "priority"@ != "unit_id"@,
        "priority"@ != "distance"@,
        "type"@ != "unit_id"@,
        "type"@ != "distance"@,
        "unit_id"@ != "distance"@,
{
    reveal_strlit("id");
    reveal_strlit("ticket_number");
    reveal_strlit("title");
    reveal_strlit("status");
    reveal_strlit("priority");
    reveal_strlit("type");
    reveal_strlit("unit_id");
    reveal_strlit("distance");
    assert("id"@.len() == 2);
    assert("ticket_number"@.len() == 13);
    assert("title"@.len() == 5);
    assert("status"@.len() == 6);
    assert("priority"@.len() == 8);
    assert("type"@.len() == 4);
    assert("unit_id"@.len() == 7);
    assert("distance"@.len() == 8);
    assert("priority"@[0] != "distance"@[0]);
}

/// A task in short shows its own members.
pub proof fn summaries_show_the_task(t: JsonView)
    ensures
        shows(summary_of(t), "id"@, t, "id"@),
        shows(summary_of(t), "ticket_number"@, t, "ticket_number"@),
        shows(summary_of(t), "title"@, t, "title"@),
        shows(summary_of(t), "status"@, t, "status"@),
        shows(summary_of(t), "priority"@, t, "priority"@),
        shows(summary_of(t), "type"@, t, "type"@),
        shows(summary_of(t), "unit_id"@, t, "unit_id"@),
        shows(summary_of(t), "distance"@, t, "_distance"@),
{
    broadcast use get_after_with, with_stays_object, empty_has_no_member;

    summaries_show_the_task_keys();
}

proof fn context_shows_the_artifact_keys()
    ensures
        "id"@ != "title"@,
        "id"@ != "type"@,
        "id"@ != "snippet"@,
        "title"@ != "type"@,
        "title"@ != "snippet"@,
        "type"@ != "snippet"@,
{
    reveal_strlit("id");
    reveal_strlit("title");
    reveal_strlit("type");
    reveal_strlit("snippet");
    assert("id"@.len() == 2);
    assert("title"@.len() == 5);
    assert("type"@.len() == 4);
    assert("snippet"@.len() == 7);
}

/// An artifact in a context shows its own members, and its content in short.
pub proof fn context_shows_the_artifact(a: JsonView)
    ensures
        shows(context_artifact(a), "id"@, a, "id"@),
        shows(context_artifact(a), "title"@, a, "title"@),
        shows(context_artifact(a), "type"@, a, "type"@),
        context_artifact(a).get("snippet"@) == Some(
            JsonView::Text(
                snippet_of(
                    if a.str_at("content"@) is Some {
                        a.str_at("content"@)->0
                    } else {
                        ""@
                    },
                    300,
                ),
            ),
        ),
{
    broadcast use get_after_with, with_stays_object, empty_has_no_member;

    context_shows_the_artifact_keys();
}

proof fn context_shows_the_relation_keys()
    ensures
        "id"@ != "source_task_id"@,
        "id"@ != "target_task_id"@,
        "source_task_id"@ != "target_task_id"@,
{
    reveal_strlit("id");
    reveal_strlit("source_task_id");
    reveal_strlit("target_task_id");
    assert("id"@.len() == 2);
    assert("source_task_id"@.len() == 14);
    assert("target_task_id"@.len() == 14);
    assert("source_task_id"@[0] != "target_task_id"@[0]);
}

/// A relation in a context shows which tasks it is between.
pub proof fn context_shows_the_relation(r: JsonView)
    ensures
        shows(context_relation(r), "id"@, r, "id"@),
        shows(context_relation(r), "source_task_id"@, r, "source_task_id"@),
        shows(context_relation(r), "target_task_id"@, r, "target_task_id"@),
{
    broadcast use get_after_with, with_stays_object, empty_has_no_member;

    context_shows_the_relation_keys();
}

proof fn context_shows_the_comment_keys()
    ensures
        "id"@ != "author"@,
        "id"@ != "created_at"@,
        "id"@ != "body"@,
        "author"@ != "created_at"@,
        "author"@ != "body"@,
        "created_at"@ != "body"@,
{
    reveal_strlit("id");
    reveal_strlit("author");
    reveal_strlit("created_at");
    reveal_strlit("body");
    assert("id"@.len() == 2);
    assert("author"@.len() == 6);
    assert("created_at"@.len() == 10);
    assert("body"@.len() == 4);
}

/// A comment in a context shows its own members.
pub proof fn context_shows_the_comment(c: JsonView)
    ensures
        shows(context_comment(c), "id"@, c, "id"@),
        shows(context_comment(c), "author"@, c, "author"@),
        shows(context_comment(c), "created_at"@, c, "created_at"@),
        shows(context_comment(c), "body"@, c, "body"@),
{
    broadcast use get_after_with, with_stays_object, empty_has_no_member;

    context_shows_the_comment_keys();
}

proof fn decisions_show_themselves_keys()
    ensures
        "id"@ != "title"@,
        "id"@ != "plan_id"@,
        "id"@ != "unit_id"@,
        "id"@ != "created_at"@,
        "id"@ != "snippet"@,
        "title"@ != "plan_id"@,
        "title"@ != "unit_id"@,
        "title"@ != "created_at"@,
        "title"@ != "snippet"@,
        "plan_id"@ != "unit_id"@,
        "plan_id"@ != "created_at"@,
        "plan_id"@ != "snippet"@,
        "unit_id"@ != "created_at"@,
        "unit_id"@ != "snippet"@,
        "created_at"@ != "snippet"@,
{
    reveal_strlit("id");
    reveal_strlit("title");
    reveal_strlit("plan_id");
    reveal_strlit("unit_id");
    reveal_strlit("created_at");
    reveal_strlit("snippet");
    assert("id"@.len() == 2);
    assert("title"@.len() == 5);
    assert("plan_id"@.len() == 7);
    assert("unit_id"@.len() == 7);
    assert("created_at"@.len() == 10);
    assert("snippet"@.len() == 7);
    assert("plan_id"@[0] != "unit_id"@[0]);
    assert("plan_id"@[0] != "snippet"@[0]);
    assert("unit_id"@[0] != "snippet"@[0]);
}

/// A decision shows its own members, and its content in short.
pub proof fn decisions_show_themselves(a: JsonView)
    ensures
        shows(decision_summary(a), "id"@, a, "id"@),
        shows(decision_summary(a), "title"@, a, "title"@),
        shows(decision_summary(a), "plan_id"@, a, "plan_id"@),
        shows(decision_summary(a), "unit_id"@, a, "unit_id"@),
        shows(decision_summary(a), "created_at"@, a, "created_at"@),
        decision_summary(a).get("snippet"@) == Some(
            JsonView::Text(
                snippet_of(
                    if a.str_at("content"@) is Some {
                        a.str_at("content"@)->0
                    } else {
                        ""@
                    },
                    500,
                ),
            ),
        ),
{
    broadcast use get_after_with, with_stays_object, empty_has_no_member;

    decisions_show_themselves_keys();
}

proof fn found_entries_show_themselves_keys()
    ensures
        "id"@ != "title"@,
        "id"@ != "type"@,
        "id"@ != "plan_id"@,
        "id"@ != "unit_id"@,
        "id"@ != "distance"@,
        "id"@ != "snippet"@,
        "title"@ != "type"@,
        "title"@ != "plan_id"@,
        "title"@ != "unit_id"@,
        "title"@ != "distance"@,
        "title"@ != "snippet"@,
        "type"@ != "plan_id"@,
        "type"@ != "unit_id"@,
        "type"@ != "distance"@,
        "type"@ != "snippet"@,
        "plan_id"@ != "unit_id"@,
        "plan_id"@ != "distance"@,
        "plan_id"@ != "snippet"@,
        "unit_id"@ != "distance"@,
        "unit_id"@ != "snippet"@,
        "distance"@ != "snippet"@,
{
    reveal_strlit("id");
    reveal_strlit("title");
    reveal_strlit("type");
    reveal_strlit("plan_id");
    reveal_strlit("unit_id");
    reveal_strlit("distance");
    reveal_strlit("snippet");
    assert("id"@.len() == 2);
    assert("title"@.len() == 5);
    assert("type"@.len() == 4);
    assert("plan_id"@.len() == 7);
    assert("unit_id"@.len() == 7);
    assert("distance"@.len() == 8);
    assert("snippet"@.len() == 7);
    assert("plan_id"@[0] != "unit_id"@[0]);
    assert("plan_id"@[0] != "snippet"@[0]);
    assert("unit_id"@[0] != "snippet"@[0]);
}

/// An entry that was found shows its own members, and its content in short.
pub proof fn found_entries_show_themselves(a: JsonView)
    ensures
        shows(found_artifact(a), "id"@, a, "id"@),
        shows(found_artifact(a), "title"@, a, "title"@),
        shows(found_artifact(a), "type"@, a, "type"@),
        shows(found_artifact(a), "plan_id"@, a, "plan_id"@),
        shows(found_artifact(a), "unit_id"@, a, "unit_id"@),
        shows(found_artifact(a), "distance"@, a, "_distance"@),
        found_artifact(a).get("snippet"@) == Some(
            JsonView::Text(
                snippet_of(
                    if a.str_at("content"@) is Some {
                        a.str_at("content"@)->0
                    } else {
                        ""@
                    },
                    300,
                ),
            ),
        ),
{
    broadcast use get_after_with, with_stays_object, empty_has_no_member;

    found_entries_show_themselves_keys();
}

/// The relations of a kind.
pub open spec fn of_kind(rels: Seq<JsonView>, kind: Seq<char>) -> Seq<JsonView> {
    rels.filter(|r: JsonView| r.str_at("relation_type"@) == Some(kind))
}

proof fn filter_step(a: Seq<JsonView>, p: spec_fn(JsonView) -> bool, n: nat)
    requires
        0 < n <= a.len(),
    ensures
        a.take(n as int).filter(p) == if p(a[n - 1]) {
            a.take(n - 1).filter(p).push(a[n - 1])
        } else {
            a.take(n - 1).filter(p)
        },
{
    reveal(Seq::filter);
    assert(a.take(n as int).drop_last() =~= a.take(n - 1));
    assert(a.take(n as int).last() == a[n - 1]);
}

proof fn filter_none(a: Seq<JsonView>, p: spec_fn(JsonView) -> bool)
    ensures
        a.take(0).filter(p) == Seq::<JsonView>::empty(),
        a.take(a.len() as int) == a,
{
    reveal(Seq::filter);
    assert(a.take(0).len() == 0);
    assert(a.take(0).filter(p) =~= Seq::empty());
    assert(a.take(a.len() as int) =~= a);
}

proof fn relations_are_filtered(rels: Seq<JsonView>, kind: Seq<char>, n: nat)
    requires
        n <= rels.len(),
        kind.len() > 0,
    ensures
        ({
            let kept = rels.take(n as int).filter(
                |r: JsonView| r.str_at("relation_type"@) == Some(kind),
            );
            &&& relations_of(rels, kind, n).len() == kept.len()
            &&& forall|i: int|
                0 <= i < kept.len() ==> #[trigger] relations_of(rels, kind, n)[i]
                    == context_relation(kept[i])
        }),
    decreases n,
{
    let p = |r: JsonView| r.str_at("relation_type"@) == Some(kind);
    filter_none(rels, p);
    if n > 0 {
        relations_are_filtered(rels, kind, (n - 1) as nat);
        filter_step(rels, p, n);
        reveal_strlit("");
    }
}

/// The list holds the relations, in order, each with the tasks that it is
/// between.
pub open spec fn lists_relations(j: Option<JsonView>, rels: Seq<JsonView>) -> bool {
    j matches Some(JsonView::Array(a)) && a.len() == rels.len() && forall|i: int|
        0 <= i < rels.len() ==> shows(#[trigger] a[i], "id"@, rels[i], "id"@) && shows(
            a[i],
            "source_task_id"@,
            rels[i],
            "source_task_id"@,
        ) && shows(a[i], "target_task_id"@, rels[i], "target_task_id"@)
}

proof fn kinds_differ()
    ensures
        "blocks"@ != "blocked_by"@,
        "blocks"@ != "relates_to"@,
        "blocks"@ != "duplicates"@,
        "blocked_by"@ != "relates_to"@,
        "blocked_by"@ != "duplicates"@,
        "relates_to"@ != "duplicates"@,
{
    reveal_strlit("blocks");
    reveal_strlit("blocked_by");
    reveal_strlit("relates_to");
    reveal_strlit("duplicates");
    assert("blocks"@.len() == 6);
    assert("blocked_by"@.len() == 10);
    assert("relates_to"@.len() == 10);
    assert("duplicates"@.len() == 10);
    assert("blocked_by"@[0] != "relates_to"@[0]);
    assert("blocked_by"@[0] != "duplicates"@[0]);
    assert("relates_to"@[0] != "duplicates"@[0]);
}

/// Under each kind stand exactly the relations of that kind, in their order.
pub proof fn relations_stand_under_their_kind(rels: Seq<JsonView>, kind: Seq<char>)
    requires
        kind == "blocks"@ || kind == "blocked_by"@ || kind == "relates_to"@ || kind
            == "duplicates"@,
    ensures
        lists_relations(grouped_relations(rels).get(kind), of_kind(rels, kind)),
{
    broadcast use get_after_with, with_stays_object, empty_has_no_member;

    kinds_differ();
    reveal_strlit("blocks");
    reveal_strlit("blocked_by");
    reveal_strlit("relates_to");
    reveal_strlit("duplicates");
    relations_are_filtered(rels, kind, rels.len());
    filter_none(rels, |r: JsonView| r.str_at("relation_type"@) == Some(kind));
    let kept = of_kind(rels, kind);
    let shown = relations_of(rels, kind, rels.len());
    assert(grouped_relations(rels).get(kind) == Some(JsonView::Array(shown)));
    assert forall|i: int| 0 <= i < kept.len() implies shows(
        #[trigger] shown[i],
        "id"@,
        kept[i],
        "id"@,
    ) && shows(shown[i], "source_task_id"@, kept[i], "source_task_id"@) && shows(
        shown[i],
        "target_task_id"@,
        kept[i],
        "target_task_id"@,
    ) by {
        context_shows_the_relation(kept[i]);
    }
}

proof fn artifacts_are_filtered(a: Seq<JsonView>, n: nat)
    requires
        n <= a.len(),
    ensures
        ({
            let kept = a.take(n as int).filter(|x: JsonView| x.str_at("scope"@) == Some("rag"@));
            &&& context_artifacts(a, n).len() == kept.len()
            &&& forall|i: int|
                0 <= i < kept.len() ==> #[trigger] context_artifacts(a, n)[i] == context_artifact(
                    kept[i],
                )
        }),
    decreases n,
{
    let p = |x: JsonView| x.str_at("scope"@) == Some("rag"@);
    filter_none(a, p);
    if n > 0 {
        artifacts_are_filtered(a, (n - 1) as nat);
        filter_step(a, p, n);
    }
}

/// The context of a task is made of the answers: where they are wanted, its
/// relations by kind, its artifacts that may be shown, its comments one by one,
/// and its history as it is.
pub proof fn contexts_are_made_of_the_answers(
    args: GetTaskContextArgs,
    task: JsonView,
    replies: ContextReplies,
    kind: Seq<char>,
)
    requires
        kind == "blocks"@ || kind == "blocked_by"@ || kind == "relates_to"@ || kind
            == "duplicates"@,
    ensures
        ({
            let c = context_body(args, task, replies);
            let arts = items_in(replies.artifacts).filter(
                |x: JsonView| x.str_at("scope"@) == Some("rag"@),
            );
            let cmts = items_in(replies.comments);
            &&& is_wanted(args, Section::Relations) ==> (c.get("relations"@) matches Some(g)
                && lists_relations(g.get(kind), of_kind(items_in(replies.relations), kind)))
            &&& is_wanted(args, Section::Artifacts) ==> (c.get("artifacts"@) matches Some(
                JsonView::Array(a),
            ) && a.len() == arts.len() && forall|i: int|
                0 <= i < arts.len() ==> #[trigger] a[i] == context_artifact(arts[i]))
            &&& is_wanted(args, Section::Comments) ==> (c.get("comments"@) matches Some(
                JsonView::Array(a),
            ) && a.len() == cmts.len() && forall|i: int|
                0 <= i < cmts.len() ==> #[trigger] a[i] == context_comment(cmts[i]))
            &&& is_wanted(args, Section::History) ==> c.get("history"@) == Some(
                JsonView::Array(items_in(replies.history)),
            )
            &&& c.get("task"@) == Some(context_task(task))
        }),
{
    relations_stand_under_their_kind(items_in(replies.relations), kind);
    let arts = items_in(replies.artifacts);
    artifacts_are_filtered(arts, arts.len());
    filter_none(arts, |x: JsonView| x.str_at("scope"@) == Some("rag"@));
    sections_are_kept(args, task, replies);
}

proof fn sections_differ()
    ensures
        "artifacts"@ != "relations"@,
        "artifacts"@ != "comments"@,
        "artifacts"@ != "history"@,
        "artifacts"@ != "task"@,
        "relations"@ != "comments"@,
        "relations"@ != "history"@,
        "relations"@ != "task"@,
        "comments"@ != "history"@,
        "comments"@ != "task"@,
        "history"@ != "task"@,
{
    reveal_strlit("artifacts");
    reveal_strlit("relations");
    reveal_strlit("comments");
    reveal_strlit("history");
    reveal_strlit("task");
    assert("artifacts"@.len() == 9);
    assert("relations"@.len() == 9);
    assert("comments"@.len() == 8);
    assert("history"@.len() == 7);
    assert("task"@.len() == 4);
    assert("artifacts"@[0] != "relations"@[0]);
}

proof fn sections_are_kept(args: GetTaskContextArgs, task: JsonView, replies: ContextReplies)
    ensures
        ({
            let c = context_body(args, task, replies);
            let arts = items_in(replies.artifacts);
            let cmts = items_in(replies.comments);
            &&& c.get("task"@) == Some(context_task(task))
            &&& is_wanted(args, Section::Artifacts) ==> c.get("artifacts"@) == Some(
                JsonView::Array(context_artifacts(arts, arts.len())),
            )
            &&& is_wanted(args, Section::Relations) ==> c.get("relations"@) == Some(
                grouped_relations(items_in(replies.relations)),
            )
            &&& is_wanted(args, Section::Comments) ==> c.get("comments"@) == Some(
                JsonView::Array(Seq::new(cmts.len(), |i: int| context_comment(cmts[i]))),
            )
            &&& is_wanted(args, Section::History) ==> c.get("history"@) == Some(
                JsonView::Array(items_in(replies.history)),
            )
        }),
{
    broadcast use get_after_with, with_stays_object, empty_has_no_member;

    sections_differ();
}

/// Without a list the artifacts and the relations are wanted; a list wants the
/// sections that it names.
pub proof fn sections_are_wanted_by_name(args: GetTaskContextArgs)
    ensures
        args.sections is None ==> is_wanted(args, Section::Artifacts) && is_wanted(
            args,
            Section::Relations,
        ) && !is_wanted(args, Section::Comments) && !is_wanted(args, Section::History),
        args.sections matches Some(v) ==> {
            let names = crate::text::texts(v@);
            &&& is_wanted(args, Section::Artifacts) <==> names.contains("artifacts"@)
            &&& is_wanted(args, Section::Relations) <==> names.contains("relations"@)
            &&& is_wanted(args, Section::Comments) <==> names.contains("comments"@)
            &&& is_wanted(args, Section::History) <==> names.contains("history"@)
        },
{
}

proof fn found_are_filtered(a: Seq<JsonView>, args: SearchArtifactsArgs, n: nat)
    requires
        n <= a.len(),
    ensures
        ({
            let kept = a.take(n as int).filter(
                |x: JsonView|
                    (args.type_filter is Some ==> x.str_at("type"@) == Some(args.type_filter->0@))
                        && (args.plan_id is Some ==> x.str_at("plan_id"@) == Some(
                        args.plan_id->0@,
                    )),
            );
            &&& found_artifacts(a, args, n).len() == kept.len()
            &&& forall|i: int|
                0 <= i < kept.len() ==> #[trigger] found_artifacts(a, args, n)[i]
                    == found_artifact(kept[i])
        }),
    decreases n,
{
    let p = |x: JsonView|
        (args.type_filter is Some ==> x.str_at("type"@) == Some(args.type_filter->0@)) && (
        args.plan_id is Some ==> x.str_at("plan_id"@) == Some(args.plan_id->0@));
    filter_none(a, p);
    if n > 0 {
        found_are_filtered(a, args, (n - 1) as nat);
        filter_step(a, p, n);
    }
}

/// A search for knowledge answers the entries of the kind and of the plan that
/// were asked for, in their order, and no others.
pub proof fn searches_answer_what_matches(a: Seq<JsonView>, args: SearchArtifactsArgs)
    ensures
        ({
            let kept = a.filter(
                |x: JsonView|
                    (args.type_filter is Some ==> x.str_at("type"@) == Some(args.type_filter->0@))
                        && (args.plan_id is Some ==> x.str_at("plan_id"@) == Some(
                        args.plan_id->0@,
                    )),
            );
            &&& found_artifacts(a, args, a.len()).len() == kept.len()
            &&& forall|i: int|
                0 <= i < kept.len() ==> #[trigger] found_artifacts(a, args, a.len())[i]
                    == found_artifact(kept[i])
        }),
{
    found_are_filtered(a, args, a.len());
    assert(a.take(a.len() as int) =~= a);
}

proof fn statuses_are_filtered(a: Seq<JsonView>, status: Option<String>, n: nat)
    requires
        n <= a.len(),
    ensures
        tasks_of_status(a, status, n) == a.take(n as int).filter(
            |x: JsonView| status is Some ==> x.str_at("status"@) == Some(status->0@),
        ),
    decreases n,
{
    let p = |x: JsonView| status is Some ==> x.str_at("status"@) == Some(status->0@);
    filter_none(a, p);
    if n > 0 {
        statuses_are_filtered(a, status, (n - 1) as nat);
        filter_step(a, p, n);
    }
}

/// The tasks of a status are those that have it, in their order.
pub proof fn tasks_are_kept_by_status(a: Seq<JsonView>, status: Option<String>)
    ensures
        tasks_of_status(a, status, a.len()) == a.filter(
            |x: JsonView| status is Some ==> x.str_at("status"@) == Some(status->0@),
        ),
{
    statuses_are_filtered(a, status, a.len());
    assert(a.take(a.len() as int) =~= a);
}

proof fn inserted_once(s: Seq<JsonView>, x: JsonView)
    ensures
        inserted(s, x).to_multiset() == s.to_multiset().insert(x),
    decreases s.len(),
{
    broadcast use group_to_multiset_ensures;

    if s.len() > 0 && crate::mcp_context::made_at(s.last()) < crate::mcp_context::made_at(x) {
        inserted_once(s.drop_last(), x);
        assert(s.drop_last().push(s.last()) =~= s);
        assert(s.to_multiset() =~= s.drop_last().to_multiset().insert(s.last()));
        assert(inserted(s, x).to_multiset() =~= s.to_multiset().insert(x));
    }
}

proof fn due_are_filtered(a: Seq<JsonView>, since: Option<i64>, n: nat)
    requires
        n <= a.len(),
    ensures
        due_decisions(a, since, n).to_multiset() == a.take(n as int).filter(
            |x: JsonView| is_due(x, since),
        ).to_multiset(),
    decreases n,
{
    broadcast use group_to_multiset_ensures;

    let p = |x: JsonView| is_due(x, since);
    filter_none(a, p);
    if n > 0 {
        due_are_filtered(a, since, (n - 1) as nat);
        filter_step(a, p, n);
        if is_due(a[n - 1], since) {
            inserted_once(due_decisions(a, since, (n - 1) as nat), a[n - 1]);
        }
    }
}

/// The decisions that are due are those that may be shown and are not older
/// than was asked for, each as often as it was there.
pub proof fn due_decisions_are_all_there(a: Seq<JsonView>, since: Option<i64>)
    ensures
        due_decisions(a, since, a.len()).to_multiset() == a.filter(
            |x: JsonView| is_due(x, since),
        ).to_multiset(),
        forall|x: JsonView| #[trigger]
            is_due(x, since) <==> x.str_at("scope"@) == Some("rag"@) && (since is Some ==> (match x.i64_at(
                "created_at"@,
            ) {
                Some(t) => t,
                None => 0,
            }) >= since->0),
{
    due_are_filtered(a, since, a.len());
    assert(a.take(a.len() as int) =~= a);
}

proof fn error_keys()
    ensures
        "code"@ != "message"@,
{
    reveal_strlit("code");
    reveal_strlit("message");
    assert("code"@.len() == 4);
    assert("message"@.len() == 7);
}

/// An error says its code and its message.
pub proof fn errors_say_what_went_wrong(code: Seq<char>, message: Seq<char>)
    ensures
        error_body(code, message).get("error"@) matches Some(e) && e.str_at("code"@) == Some(code)
            && e.str_at("message"@) == Some(message),
{
    broadcast use get_after_with, with_stays_object, empty_has_no_member;

    error_keys();
}

proof fn marker_keys()
    ensures
        "decisions"@ != "issues"@,
{
    reveal_strlit("decisions");
    reveal_strlit("issues");
    assert("decisions"@.len() == 9);
    assert("issues"@.len() == 6);
}

/// What was found in a discussion stands under its own name.
pub proof fn markers_stand_under_their_name(decisions: Seq<Seq<char>>, issues: Seq<Seq<char>>)
    ensures
        extracted(decisions, issues).array_at("decisions"@) matches Some(a) && a.len()
            == decisions.len() && forall|i: int|
            0 <= i < a.len() ==> #[trigger] a[i] == JsonView::Text(decisions[i]),
        extracted(decisions, issues).array_at("issues"@) matches Some(a) && a.len() == issues.len()
            && forall|i: int| 0 <= i < a.len() ==> #[trigger] a[i] == JsonView::Text(issues[i]),
{
    broadcast use get_after_with, with_stays_object, empty_has_no_member;

    marker_keys();
}

proof fn enriched_keys()
    ensures
        "id"@ != "ticket_number"@,
        "id"@ != "title"@,
        "id"@ != "status"@,
        "id"@ != "priority"@,
        "id"@ != "type"@,
        "id"@ != "unit_id"@,
        "id"@ != "distance"@,
        "id"@ != "extracted"@,
        "ticket_number"@ != "title"@,
        "ticket_number"@ != "status"@,
        "ticket_number"@ != "priority"@,
        "ticket_number"@ != "type"@,
        "ticket_number"@ != "unit_id"@,
        "ticket_number"@ != "distance"@,
        "ticket_number"@ != "extracted"@,
        "title"@ != "status"@,
        "title"@ != "priority"@,
        "title"@ != "type"@,
        "title"@ != "unit_id"@,
        "title"@ != "distance"@,
        "title"@ != "extracted"@,
        "status"@ != "priority"@,
        "status"@ != "type"@,
        "status"@ != "unit_id"@,
        "status"@ != "distance"@,
        "status"@ != "extracted"@,
        "priority"@ != "type"@,
        "priority"@ != "unit_id"@,
        "priority"@ != "distance"@,
        "priority"@ != "extracted"@,
        "type"@ != "unit_id"@,
        "type"@ != "distance"@,
        "type"@ != "extracted"@,
        "unit_id"@ != "distance"@,
        "unit_id"@ != "extracted"@,
        "distance"@ != "extracted"@,
{
    reveal_strlit("id");
    reveal_strlit("ticket_number");
    reveal_strlit("title");
    reveal_strlit("status");
    reveal_strlit("priority");
    reveal_strlit("type");
    reveal_strlit("unit_id");
    reveal_strlit("distance");
    reveal_strlit("extracted");
    assert("id"@.len() == 2);
    assert("ticket_number"@.len() == 13);
    assert("title"@.len() == 5);
    assert("status"@.len() == 6);
    assert("priority"@.len() == 8);
    assert("type"@.len() == 4);
    assert("unit_id"@.len() == 7);
    assert("distance"@.len() == 8);
    assert("extracted"@.len() == 9);
    assert("priority"@[0] != "distance"@[0]);
}

/// A task with what was found in its discussion still shows itself.
pub proof fn enriched_tasks_show_themselves(t: JsonView, comments: Seq<JsonView>)
    ensures
        shows(enriched(t, comments), "id"@, t, "id"@),
        shows(enriched(t, comments), "title"@, t, "title"@),
        shows(enriched(t, comments), "status"@, t, "status"@),
        shows(enriched(t, comments), "ticket_number"@, t, "ticket_number"@),
        shows(enriched(t, comments), "distance"@, t, "_distance"@),
        enriched(t, comments).get("extracted"@) is Some,
{
    broadcast use get_after_with, with_stays_object;

    enriched_keys();
    summaries_show_the_task(t);
    assert(summary_of(t) is Object);
}

/// As many results are asked for as was said, else as many as is usual, and
/// never more than thirty.
pub proof fn results_are_limited(asked: Option<u32>, default: u32)
    ensures
        result_limit(asked, default) <= 30,
        asked is Some && asked->0 <= 30 ==> result_limit(asked, default) == asked->0,
        asked is Some && asked->0 > 30 ==> result_limit(asked, default) == 30,
        asked is None && default <= 30 ==> result_limit(asked, default) == default,
{
}

proof fn task_searches_ask_what_was_given_names()
    ensures
        is_name("q"@),
        is_name("mode"@),
        is_name("limit"@),
        !"/tasks/search"@.contains('?'),
        "q"@ != "mode"@,
        "q"@ != "limit"@,
        "mode"@ != "limit"@,
{
    reveal_strlit("/tasks/search");
    reveal_strlit("q");
    reveal_strlit("mode");
    reveal_strlit("limit");
    assert("q"@.len() == 1);
    assert("mode"@.len() == 4);
    assert("limit"@.len() == 5);
}

/// Tasks are searched by the query, in the mode that was given, else in both.
pub proof fn task_searches_ask_what_was_given(args: SearchTasksArgs)
    ensures
        ({
            let r = tasks_asked(args);
            &&& r.method == Method::Get
            &&& r.body is None
            &&& resource(r.path) == "/tasks/search"@
            &&& asked_for(r.path, "q"@) == Some(args.query@)
            &&& asked_for(r.path, "mode"@) == Some(
                if args.mode is Some {
                    args.mode->0@
                } else {
                    "hybrid"@
                },
            )
            &&& asked_for(r.path, "limit"@) == Some(
                dec(result_limit(args.limit, 10) as nat),
            )
        }),
{
    task_searches_ask_what_was_given_names();
    reveal_strlit("/tasks/search");
    reveal_strlit("q");
    reveal_strlit("mode");
    reveal_strlit("limit");
    reveal_strlit("?");
    reveal_strlit("&");
    reveal_strlit("=");
    reveal_strlit("/tasks/search?q=");
    reveal_strlit("&mode=");
    reveal_strlit("&limit=");
    number_is_plain(result_limit(args.limit, 10) as nat);
    let base = "/tasks/search"@;
    no_query_asks_nothing(base);
    let q0 = Seq::<char>::empty();
    let q1 = with_param(q0, "q"@, Some(args.query@));
    param_is_read_back(base, q0, "q"@, Some(args.query@));
    let q2 = with_param(q1, "mode"@, Some(
                if args.mode is Some {
                    args.mode->0@
                } else {
                    "hybrid"@
                },
            ));
    param_is_read_back(base, q1, "mode"@, Some(
                if args.mode is Some {
                    args.mode->0@
                } else {
                    "hybrid"@
                },
            ));
    let q3 = with_param(q2, "limit"@, Some(
                dec(result_limit(args.limit, 10) as nat),
            ));
    param_is_read_back(base, q2, "limit"@, Some(
                dec(result_limit(args.limit, 10) as nat),
            ));
    assert(tasks_asked(args).path =~= base + q3);
}

proof fn entry_searches_ask_what_was_given_names()
    ensures
        is_name("q"@),
        is_name("mode"@),
        is_name("scope"@),
        is_name("limit"@),
        !"/artifacts/search"@.contains('?'),
        "q"@ != "mode"@,
        "q"@ != "scope"@,
        "q"@ != "limit"@,
        "mode"@ != "scope"@,
        "mode"@ != "limit"@,
        "scope"@ != "limit"@,
{
    reveal_strlit("/artifacts/search");
    reveal_strlit("q");
    reveal_strlit("mode");
    reveal_strlit("scope");
    reveal_strlit("limit");
    assert("q"@.len() == 1);
    assert("mode"@.len() == 4);
    assert("scope"@.len() == 5);
    assert("limit"@.len() == 5);
    assert("scope"@[0] != "limit"@[0]);
}

/// Knowledge is searched by the query, and only what may be shown.
pub proof fn entry_searches_ask_what_was_given(args: SearchArtifactsArgs)
    ensures
        ({
            let r = artifacts_asked(args);
            &&& r.method == Method::Get
            &&& r.body is None
            &&& resource(r.path) == "/artifacts/search"@
            &&& asked_for(r.path, "q"@) == Some(args.query@)
            &&& asked_for(r.path, "mode"@) == Some(
                if args.mode is Some {
                    args.mode->0@
                } else {
                    "hybrid"@
                },
            )
            &&& asked_for(r.path, "scope"@) == Some("rag"@)
            &&& asked_for(r.path, "limit"@) == Some(
                dec(result_limit(args.limit, 10) as nat),
            )
        }),
{
    entry_searches_ask_what_was_given_names();
    reveal_strlit("/artifacts/search");
    reveal_strlit("q");
    reveal_strlit("mode");
    reveal_strlit("scope");
    reveal_strlit("limit");
    reveal_strlit("?");
    reveal_strlit("&");
    reveal_strlit("=");
    reveal_strlit("/artifacts/search?q=");
    reveal_strlit("&mode=");
    reveal_strlit("&scope=rag&limit=");
    number_is_plain(result_limit(args.limit, 10) as nat);
    reveal_strlit("rag");
    plain_text("rag"@);
    let base = "/artifacts/search"@;
    no_query_asks_nothing(base);
    let q0 = Seq::<char>::empty();
    let q1 = with_param(q0, "q"@, Some(args.query@));
    param_is_read_back(base, q0, "q"@, Some(args.query@));
    let q2 = with_param(q1, "mode"@, Some(
                if args.mode is Some {
                    args.mode->0@
                } else {
                    "hybrid"@
                },
            ));
    param_is_read_back(base, q1, "mode"@, Some(
                if args.mode is Some {
                    args.mode->0@
                } else {
                    "hybrid"@
                },
            ));
    let q3 = with_param(q2, "scope"@, Some("rag"@));
    param_is_read_back(base, q2, "scope"@, Some("rag"@));
    let q4 = with_param(q3, "limit"@, Some(
                dec(result_limit(args.limit, 10) as nat),
            ));
    param_is_read_back(base, q3, "limit"@, Some(
                dec(result_limit(args.limit, 10) as nat),
            ));
    assert(artifacts_asked(args).path =~= base + q4);
}

proof fn decisions_are_asked_for_by_kind_names()
    ensures
        is_name("type"@),
        is_name("plan_id"@),
        !"/artifacts"@.contains('?'),
        "type"@ != "plan_id"@,
{
    reveal_strlit("/artifacts");
    reveal_strlit("type");
    reveal_strlit("plan_id");
    assert("type"@.len() == 4);
    assert("plan_id"@.len() == 7);
}

/// Decisions are artifacts of that kind, of the plan where one is given.
pub proof fn decisions_are_asked_for_by_kind(args: GetRecentDecisionsArgs)
    ensures
        ({
            let r = decisions_asked(args);
            &&& r.method == Method::Get
            &&& r.body is None
            &&& resource(r.path) == "/artifacts"@
            &&& asked_for(r.path, "type"@) == Some("decision"@)
            &&& asked_for(r.path, "plan_id"@) == opt_string(args.plan_id)
        }),
{
    decisions_are_asked_for_by_kind_names();
    reveal_strlit("/artifacts");
    reveal_strlit("type");
    reveal_strlit("plan_id");
    reveal_strlit("?");
    reveal_strlit("&");
    reveal_strlit("=");
    reveal_strlit("/artifacts?type=decision");
    reveal_strlit("&plan_id=");
    reveal_strlit("decision");
    plain_text("decision"@);
    let base = "/artifacts"@;
    no_query_asks_nothing(base);
    let q0 = Seq::<char>::empty();
    let q1 = with_param(q0, "type"@, Some("decision"@));
    param_is_read_back(base, q0, "type"@, Some("decision"@));
    let q2 = with_param(q1, "plan_id"@, opt_string(args.plan_id));
    param_is_read_back(base, q1, "plan_id"@, opt_string(args.plan_id));
    assert(decisions_asked(args).path =~= base + q2);
}

/// Each section is asked for under the identifier of the task.
pub proof fn sections_are_asked_for_by_task(args: GetTaskContextArgs, task: JsonView)
    ensures
        task.str_at("id"@) matches Some(id) ==> context_id(args, task) == id,
        task.str_at("id"@) is None ==> context_id(args, task) == args.task_id@,
{
}

proof fn no_question(a: Seq<char>, id: Seq<char>, b: Seq<char>)
    requires
        !a.contains('?'),
        !b.contains('?'),
        !url_encoded(id).contains('?'),
    ensures
        !(a + url_encoded(id) + b).contains('?'),
{
    let t = a + url_encoded(id) + b;
    let e = url_encoded(id);
    assert forall|i: int| 0 <= i < t.len() implies t[i] != '?' by {
        if i < a.len() {
            assert(t[i] == a[i]);
        } else if i < a.len() + e.len() {
            assert(t[i] == e[i - a.len()]);
        } else {
            assert(t[i] == b[i - a.len() - e.len()]);
        }
    }
}

proof fn similar_names()
    ensures
        is_name("limit"@),
        is_name("status"@),
        is_name("q"@),
        is_name("mode"@),
        "limit"@ != "status"@,
        "q"@ != "mode"@,
        "q"@ != "limit"@,
        "mode"@ != "limit"@,
        !"/tasks/search"@.contains('?'),
        !"/tasks/"@.contains('?'),
        !"/similar"@.contains('?'),
{
    reveal_strlit("limit");
    reveal_strlit("status");
    reveal_strlit("q");
    reveal_strlit("mode");
    reveal_strlit("/tasks/search");
    reveal_strlit("/tasks/");
    reveal_strlit("/similar");
    assert("limit"@.len() == 5);
    assert("status"@.len() == 6);
    assert("q"@.len() == 1);
    assert("mode"@.len() == 4);
}

/// Similar tasks are asked for by the task where one is given, with the status
/// left to the daemon.
pub proof fn similar_tasks_are_asked_for_by_task(args: FindSimilarTasksArgs, id: String)
    requires
        args.task_id == Some(id),
        !url_encoded(id@).contains('?'),
    ensures
        similar_asked(args) matches Some(r) && {
            &&& r.method == Method::Get
            &&& r.body is None
            &&& resource(r.path) == "/tasks/"@ + url_encoded(id@) + "/similar"@
            &&& asked_for(r.path, "limit"@) == Some(dec(result_limit(args.limit, 5) as nat))
            &&& asked_for(r.path, "status"@) == opt_string(args.status)
        },
{
    similar_names();
    reveal_strlit("/similar");
    reveal_strlit("/similar?limit=");
    reveal_strlit("&status=");
    reveal_strlit("limit");
    reveal_strlit("status");
    reveal_strlit("?");
    reveal_strlit("&");
    reveal_strlit("=");
    let n = dec(result_limit(args.limit, 5) as nat);
    number_is_plain(result_limit(args.limit, 5) as nat);
    no_question("/tasks/"@, id@, "/similar"@);
    let base = "/tasks/"@ + url_encoded(id@) + "/similar"@;
    no_query_asks_nothing(base);
    let q0 = Seq::<char>::empty();
    let q1 = with_param(q0, "limit"@, Some(n));
    param_is_read_back(base, q0, "limit"@, Some(n));
    let q2 = with_param(q1, "status"@, opt_string(args.status));
    param_is_read_back(base, q1, "status"@, opt_string(args.status));
    assert((similar_asked(args)->0).path =~= base + q2);
}

/// Without a task they are searched by meaning; with neither a task nor a query
/// nothing is asked for.
pub proof fn similar_tasks_are_searched_by_meaning(args: FindSimilarTasksArgs)
    requires
        args.task_id is None,
    ensures
        args.query is None <==> similar_asked(args) is None,
        args.query is Some ==> (similar_asked(args) matches Some(r) && {
            &&& r.method == Method::Get
            &&& r.body is None
            &&& resource(r.path) == "/tasks/search"@
            &&& asked_for(r.path, "q"@) == opt_string(args.query)
            &&& asked_for(r.path, "mode"@) == Some("semantic"@)
            &&& asked_for(r.path, "limit"@) == Some(dec(result_limit(args.limit, 5) as nat))
        }),
{
    if let Some(q) = args.query {
        similar_names();
        reveal_strlit("/tasks/search");
        reveal_strlit("/tasks/search?q=");
        reveal_strlit("&mode=semantic&limit=");
        reveal_strlit("limit");
        reveal_strlit("mode");
        reveal_strlit("q");
        reveal_strlit("semantic");
        reveal_strlit("?");
        reveal_strlit("&");
        reveal_strlit("=");
        plain_text("semantic"@);
        let n = dec(result_limit(args.limit, 5) as nat);
        number_is_plain(result_limit(args.limit, 5) as nat);
        let base = "/tasks/search"@;
        no_query_asks_nothing(base);
        let q0 = Seq::<char>::empty();
        let q1 = with_param(q0, "q"@, Some(q@));
        param_is_read_back(base, q0, "q"@, Some(q@));
        let q2 = with_param(q1, "mode"@, Some("semantic"@));
        param_is_read_back(base, q1, "mode"@, Some("semantic"@));
        let q3 = with_param(q2, "limit"@, Some(n));
        param_is_read_back(base, q2, "limit"@, Some(n));
        assert((similar_asked(args)->0).path =~= base + q3);
    }
}

/// The relations and the comments of a task are asked for under its path, its
/// artifacts and its history by its identifier.
pub proof fn sections_are_asked_for_in_their_place(id: Seq<char>)
    ensures
        section_asked(id, Section::Relations).path == "/tasks/"@ + url_encoded(id) + "/relations"@,
        section_asked(id, Section::Comments).path == "/tasks/"@ + url_encoded(id) + "/comments"@,
        resource(section_asked(id, Section::Artifacts).path) == "/artifacts"@,
        asked_for(section_asked(id, Section::Artifacts).path, "task_id"@) == Some(id),
        resource(section_asked(id, Section::History).path) == "/activity"@,
        asked_for(section_asked(id, Section::History).path, "entity_type"@) == Some("task"@),
        asked_for(section_asked(id, Section::History).path, "entity_id"@) == Some(id),
        asked_for(section_asked(id, Section::History).path, "limit"@) == Some("50"@),
        section_asked(id, Section::Relations).method == Method::Get,
        section_asked(id, Section::Comments).method == Method::Get,
        section_asked(id, Section::Artifacts).method == Method::Get,
        section_asked(id, Section::History).method == Method::Get,
{
    artifacts_of(id);
    history_of(id);
}

proof fn artifacts_of(id: Seq<char>)
    ensures
        resource(section_asked(id, Section::Artifacts).path) == "/artifacts"@,
        asked_for(section_asked(id, Section::Artifacts).path, "task_id"@) == Some(id),
{
    reveal_strlit("/artifacts");
    reveal_strlit("/artifacts?task_id=");
    reveal_strlit("task_id");
    reveal_strlit("?");
    reveal_strlit("=");
    let base = "/artifacts"@;
    no_query_asks_nothing(base);
    let q0 = Seq::<char>::empty();
    param_is_read_back(base, q0, "task_id"@, Some(id));
    assert(section_asked(id, Section::Artifacts).path =~= base + with_param(
        q0,
        "task_id"@,
        Some(id),
    ));
}

proof fn history_names()
    ensures
        is_name("entity_type"@),
        is_name("entity_id"@),
        is_name("limit"@),
        "entity_type"@ != "entity_id"@,
        "entity_type"@ != "limit"@,
        "entity_id"@ != "limit"@,
        !"/activity"@.contains('?'),
        url_encoded("task"@) == "task"@,
        url_encoded("50"@) == "50"@,
{
    reveal_strlit("entity_type");
    reveal_strlit("entity_id");
    reveal_strlit("limit");
    reveal_strlit("/activity");
    assert("entity_type"@.len() == 11);
    assert("entity_id"@.len() == 9);
    assert("limit"@.len() == 5);
    reveal_strlit("task");
    reveal_strlit("50");
    plain_text("task"@);
    plain_text("50"@);
}

proof fn history_of(id: Seq<char>)
    ensures
        resource(section_asked(id, Section::History).path) == "/activity"@,
        asked_for(section_asked(id, Section::History).path, "entity_type"@) == Some("task"@),
        asked_for(section_asked(id, Section::History).path, "entity_id"@) == Some(id),
        asked_for(section_asked(id, Section::History).path, "limit"@) == Some("50"@),
{
    history_names();
    let base = "/activity"@;
    no_query_asks_nothing(base);
    let q0 = Seq::<char>::empty();
    let q1 = with_param(q0, "entity_type"@, Some("task"@));
    param_is_read_back(base, q0, "entity_type"@, Some("task"@));
    let q2 = with_param(q1, "entity_id"@, Some(id));
    param_is_read_back(base, q1, "entity_id"@, Some(id));
    let q3 = with_param(q2, "limit"@, Some("50"@));
    param_is_read_back(base, q2, "limit"@, Some("50"@));
    assert(section_asked(id, Section::History).path =~= base + q3) by {
        reveal_strlit("/activity");
        reveal_strlit("/activity?entity_type=task&entity_id=");
        reveal_strlit("&limit=50");
        reveal_strlit("entity_type");
        reveal_strlit("entity_id");
        reveal_strlit("limit");
        reveal_strlit("task");
        reveal_strlit("50");
        reveal_strlit("?");
        reveal_strlit("&");
        reveal_strlit("=");
    }
}

proof fn comment_is_in(body: Seq<char>, comments: Seq<JsonView>, n: nat, i: int, p: Seq<char>)
    requires
        n <= comments.len(),
        occurs_in(body, p) || (0 <= i < n && comments[i].str_at("body"@) is Some && occurs_in(
            comments[i].str_at("body"@)->0,
            p,
        )),
    ensures
        occurs_in(discussion_upto(body, comments, n), p),
    decreases n,
{
    if n > 0 {
        let before = discussion_upto(body, comments, (n - 1) as nat);
        if occurs_in(body, p) || i < n - 1 {
            comment_is_in(body, comments, (n - 1) as nat, i, p);
        }
        if let Some(c) = comments[n - 1].str_at("body"@) {
            if before.len() > 0 {
                if occurs_in(before, p) {
                    occurs_around(Seq::empty(), before, "\n\n"@ + c, p);
                    assert(before + ("\n\n"@ + c) =~= before + "\n\n"@ + c);
                } else {
                    occurs_around(before + "\n\n"@, c, Seq::empty(), p);
                }
            } else if occurs_in(before, p) {
                let k = choose|k: int| crate::scan::occurs_at(before, p, k);
                assert(p.len() == 0);
                assert(c.subrange(0, 0) =~= p);
                assert(crate::scan::occurs_at(c, p, 0));
            }
        }
    }
}

/// The discussion of a task holds its body and the body of every comment.
pub proof fn discussions_hold_every_comment(body: Seq<char>, comments: Seq<JsonView>, i: int)
    requires
        0 <= i < comments.len(),
    ensures
        occurs_in(discussion_upto(body, comments, comments.len()), body),
        comments[i].str_at("body"@) matches Some(c) ==> occurs_in(
            discussion_upto(body, comments, comments.len()),
            c,
        ),
{
    whole(body);
    comment_is_in(body, comments, comments.len(), i, body);
    if let Some(c) = comments[i].str_at("body"@) {
        whole(c);
        comment_is_in(body, comments, comments.len(), i, c);
    }
}

proof fn whole(p: Seq<char>)
    ensures
        occurs_in(p, p),
{
    assert(p.subrange(0, p.len() as int) =~= p);
    assert(crate::scan::occurs_at(p, p, 0));
}

/// In the discussion of a task the decisions are found by the pattern for
/// decisions, the issues by that for issues, at most five of each.
pub proof fn discussions_are_searched_for_both(t: JsonView, comments: Seq<JsonView>)
    ensures
        ({
            let talk = discussion_upto(
                if t.str_at("body"@) is Some {
                    t.str_at("body"@)->0
                } else {
                    ""@
                },
                comments,
                comments.len(),
            );
            let decisions = markers_in(DECISION_PATTERN@, talk, 5);
            let issues = markers_in(ISSUE_PATTERN@, talk, 5);
            enriched(t, comments).get("extracted"@) matches Some(x) && {
                &&& x.array_at("decisions"@) matches Some(a) && a.len() == decisions.len()
                    && forall|i: int|
                    0 <= i < a.len() ==> #[trigger] a[i] == JsonView::Text(decisions[i])
                &&& x.array_at("issues"@) matches Some(a) && a.len() == issues.len() && forall|
                    i: int,
                |
                    0 <= i < a.len() ==> #[trigger] a[i] == JsonView::Text(issues[i])
            }
        }),
{
    broadcast use get_after_with, with_stays_object;

    let talk = discussion_upto(t.str_or("body"@, ""@), comments, comments.len());
    let decisions = markers_in(DECISION_PATTERN@, talk, 5);
    let issues = markers_in(ISSUE_PATTERN@, talk, 5);
    markers_stand_under_their_name(decisions, issues);
    assert(summary_of(t) is Object);
    assert(enriched(t, comments).get("extracted"@) == Some(extracted(decisions, issues)));
}

/// A task that was found is answered in short exactly where its discussion is
/// not wanted, and with what its discussion holds else.
pub proof fn found_tasks_are_answered_as_wanted(
    args: FindSimilarTasksArgs,
    t: JsonView,
    reply: Option<crate::json::Json>,
)
    ensures
        args.include_extracted == Some(false) ==> similar_entry(args, t, reply) == summary_of(t)
            && similar_entry(args, t, reply).get("extracted"@) is None,
        args.include_extracted != Some(false) ==> similar_entry(args, t, reply).get("extracted"@)
            is Some,
        shows(similar_entry(args, t, reply), "id"@, t, "id"@),
        shows(similar_entry(args, t, reply), "title"@, t, "title"@),
{
    summaries_show_the_task(t);
    enriched_tasks_show_themselves(t, items_in(reply));
    short_has_no_extract(t);
}

proof fn short_has_no_extract(t: JsonView)
    ensures
        summary_of(t).get("extracted"@) is None,
{
    broadcast use get_after_with, with_stays_object, empty_has_no_member;

    enriched_keys();
}

/// By an identifier everything that was found is kept, by a query what has the
/// status that was asked for.
pub proof fn found_tasks_are_kept(args: FindSimilarTasksArgs, val: JsonView)
    ensures
        args.task_id is Some ==> similar_found(args, val) == val.items(),
        args.task_id is None ==> similar_found(args, val) == val.items().filter(
            |x: JsonView| args.status is Some ==> x.str_at("status"@) == Some(args.status->0@),
        ),
{
    tasks_are_kept_by_status(val.items(), args.status);
}

} // verus!
