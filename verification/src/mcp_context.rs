//! The tools that give the context of a task and the recent decisions.

use vstd::prelude::*;
use crate::json::{array, empty_object, object, text, views, Json, JsonView};
use crate::mcp::{
    content_json, content_snippet, items_in, limited, push_view, reply_items, result_limit,
    success_json, GetRecentDecisionsArgs, GetTaskContextArgs, ToolResult,
};
use crate::query::{url_encoded, urlenc};
use crate::request::{get, getting, Request, RequestView};
use crate::text::{cat2, cat3, same, texts};

verus! {

/// What asks for the task itself.
pub fn context_task_request(args: &GetTaskContextArgs) -> (r: Request)
    ensures
        r@ == getting("/tasks/"@ + url_encoded(args.task_id@)),
{
    let id = urlenc(args.task_id.as_str());
    get(cat2("/tasks/", id.as_str()))
}

/// The parts of a task's context.
#[derive(Clone, Copy, PartialEq, Eq, Structural)]
pub enum Section {
    Artifacts,
    Relations,
    Comments,
    History,
}

/// The name of a section.
pub open spec fn section_name(s: Section) -> Seq<char> {
    match s {
        Section::Artifacts => "artifacts"@,
        Section::Relations => "relations"@,
        Section::Comments => "comments"@,
        Section::History => "history"@,
    }
}

/// The sections that are asked for; without a list the artifacts and the
/// relations.
pub open spec fn is_wanted(args: GetTaskContextArgs, s: Section) -> bool {
    match args.sections {
        Some(v) => texts(v@).contains(section_name(s)),
        None => s == Section::Artifacts || s == Section::Relations,
    }
}

/// Whether a section is asked for.
pub fn wants(args: &GetTaskContextArgs, s: Section) -> (r: bool)
    ensures
        r == is_wanted(*args, s),
{
    match &args.sections {
        Some(v) => {
            let name = match s {
                Section::Artifacts => "artifacts",
                Section::Relations => "relations",
                Section::Comments => "comments",
                Section::History => "history",
            };
            let ghost all = texts(v@);
            let mut i: usize = 0;
            while i < v.len()
                invariant
                    i <= v@.len(),
                    all == texts(v@),
                    is_wanted(*args, s) == all.contains(name@),
                    forall|k: int| 0 <= k < i ==> all[k] != name@,
                decreases v@.len() - i,
            {
                if same(v[i].as_str(), name) {
                    assert(all[i as int] == name@);
                    return true;
                }
                i = i + 1;
            }
            false
        },
        None => match s {
            Section::Artifacts => true,
            Section::Relations => true,
            _ => false,
        },
    }
}

/// The identifier under which the sections are asked for: that of the task,
/// or what was given.
pub open spec fn context_id(args: GetTaskContextArgs, task: JsonView) -> Seq<char> {
    task.str_or("id"@, args.task_id@)
}

/// What asks for a section.
pub open spec fn section_asked(id: Seq<char>, s: Section) -> RequestView {
    match s {
        Section::Artifacts => getting("/artifacts?task_id="@ + url_encoded(id)),
        Section::Relations => getting("/tasks/"@ + url_encoded(id) + "/relations"@),
        Section::Comments => getting("/tasks/"@ + url_encoded(id) + "/comments"@),
        Section::History => getting(
            "/activity?entity_type=task&entity_id="@ + url_encoded(id) + "&limit=50"@,
        ),
    }
}

/// What asks for a section of a task's context.
pub fn section_request(args: &GetTaskContextArgs, task: &Json, s: Section) -> (r: Request)
    ensures
        r@ == section_asked(context_id(*args, task@), s),
{
    let id = urlenc(task.str_or("id", args.task_id.as_str()));
    match s {
        Section::Artifacts => get(cat2("/artifacts?task_id=", id.as_str())),
        Section::Relations => get(cat3("/tasks/", id.as_str(), "/relations")),
        Section::Comments => get(cat3("/tasks/", id.as_str(), "/comments")),
        Section::History => get(
            cat3("/activity?entity_type=task&entity_id=", id.as_str(), "&limit=50"),
        ),
    }
}

/// The answers that were asked for: none where a section was not asked for or
/// its request failed.
pub struct ContextReplies {
    pub artifacts: Option<Json>,
    pub relations: Option<Json>,
    pub comments: Option<Json>,
    pub history: Option<Json>,
}

/// The task itself in its context.
pub open spec fn context_task(t: JsonView) -> JsonView {
    let first = empty_object().with("id"@, t.member("id"@)).with(
        "ticket_number"@,
        t.member("ticket_number"@),
    ).with("title"@, t.member("title"@)).with("status"@, t.member("status"@)).with(
        "priority"@,
        t.member("priority"@),
    ).with("type"@, t.member("type"@));
    first.with("unit_id"@, t.member("unit_id"@)).with("cycle_id"@, t.member("cycle_id"@)).with(
        "body"@,
        t.member("body"@),
    ).with("created_at"@, t.member("created_at"@)).with("started_at"@, t.member("started_at"@)).with(
        "completed_at"@,
        t.member("completed_at"@),
    )
}

fn task_in_context(t: &Json) -> (r: Json)
    ensures
        r@ == context_task(t@),
{
    let first = object().with("id", t.member("id")).with(
        "ticket_number",
        t.member("ticket_number"),
    ).with("title", t.member("title")).with("status", t.member("status")).with(
        "priority",
        t.member("priority"),
    ).with("type", t.member("type"));
    first.with("unit_id", t.member("unit_id")).with("cycle_id", t.member("cycle_id")).with(
        "body",
        t.member("body"),
    ).with("created_at", t.member("created_at")).with("started_at", t.member("started_at")).with(
        "completed_at",
        t.member("completed_at"),
    )
}

/// An artifact in the context of a task.
pub open spec fn context_artifact(a: JsonView) -> JsonView {
    empty_object().with("id"@, a.member("id"@)).with("title"@, a.member("title"@)).with(
        "type"@,
        a.member("type"@),
    ).with("snippet"@, content_snippet(a, 300))
}

/// The artifacts among the first `n` that may be shown.
pub open spec fn context_artifacts(a: Seq<JsonView>, n: nat) -> Seq<JsonView>
    decreases n,
{
    if n == 0 {
        Seq::empty()
    } else {
        let before = context_artifacts(a, (n - 1) as nat);
        if a[n - 1].str_at("scope"@) == Some("rag"@) {
            before.push(context_artifact(a[n - 1]))
        } else {
            before
        }
    }
}

fn in_scope(a: &Json) -> (r: bool)
    ensures
        r == (a@.str_at("scope"@) == Some("rag"@)),
{
    match a.str_at("scope") {
        Some(s) => same(s, "rag"),
        None => false,
    }
}

fn artifacts_in_context(arr: &Vec<Json>) -> (r: Vec<Json>)
    ensures
        views(r@) == context_artifacts(views(arr@), arr@.len()),
{
    let mut out: Vec<Json> = Vec::new();
    let mut i: usize = 0;
    assert(views(out@) =~= Seq::empty());
    while i < arr.len()
        invariant
            i <= arr@.len(),
            views(out@) == context_artifacts(views(arr@), i as nat),
        decreases arr@.len() - i,
    {
        let a = &arr[i];
        assert(views(arr@)[i as int] == a@);
        if in_scope(a) {
            let item = object().with("id", a.member("id")).with("title", a.member("title")).with(
                "type",
                a.member("type"),
            ).with("snippet", content_json(a, 300));
            push_view(&mut out, item);
        }
        i = i + 1;
    }
    out
}

/// A relation in the context of a task.
pub open spec fn context_relation(r: JsonView) -> JsonView {
    empty_object().with("id"@, r.member("id"@)).with(
        "source_task_id"@,
        r.member("source_task_id"@),
    ).with("target_task_id"@, r.member("target_task_id"@))
}

/// The relations of a kind among the first `n`.
pub open spec fn relations_of(rels: Seq<JsonView>, kind: Seq<char>, n: nat) -> Seq<JsonView>
    decreases n,
{
    if n == 0 {
        Seq::empty()
    } else {
        let before = relations_of(rels, kind, (n - 1) as nat);
        if rels[n - 1].str_or("relation_type"@, ""@) == kind {
            before.push(context_relation(rels[n - 1]))
        } else {
            before
        }
    }
}

fn relations_of_kind(rels: &Vec<Json>, kind: &str) -> (r: Json)
    ensures
        r@ == JsonView::Array(relations_of(views(rels@), kind@, rels@.len())),
{
    let mut out: Vec<Json> = Vec::new();
    let mut i: usize = 0;
    assert(views(out@) =~= Seq::empty());
    while i < rels.len()
        invariant
            i <= rels@.len(),
            views(out@) == relations_of(views(rels@), kind@, i as nat),
        decreases rels@.len() - i,
    {
        let x = &rels[i];
        assert(views(rels@)[i as int] == x@);
        if same(x.str_or("relation_type", ""), kind) {
            let item = object().with("id", x.member("id")).with(
                "source_task_id",
                x.member("source_task_id"),
            ).with("target_task_id", x.member("target_task_id"));
            push_view(&mut out, item);
        }
        i = i + 1;
    }
    array(out)
}

/// The relations by kind; those of another kind are left out.
pub open spec fn grouped_relations(rels: Seq<JsonView>) -> JsonView {
    let n = rels.len();
    empty_object().with("blocks"@, JsonView::Array(relations_of(rels, "blocks"@, n))).with(
        "blocked_by"@,
        JsonView::Array(relations_of(rels, "blocked_by"@, n)),
    ).with("relates_to"@, JsonView::Array(relations_of(rels, "relates_to"@, n))).with(
        "duplicates"@,
        JsonView::Array(relations_of(rels, "duplicates"@, n)),
    )
}

/// A comment in the context of a task.
pub open spec fn context_comment(c: JsonView) -> JsonView {
    empty_object().with("id"@, c.member("id"@)).with("author"@, c.member("author"@)).with(
        "created_at"@,
        c.member("created_at"@),
    ).with("body"@, c.member("body"@))
}

fn comments_in_context(arr: &Vec<Json>) -> (r: Vec<Json>)
    ensures
        views(r@) == Seq::new(arr@.len(), |i: int| context_comment(views(arr@)[i])),
{
    let mut out: Vec<Json> = Vec::new();
    let mut i: usize = 0;
    while i < arr.len()
        invariant
            i <= arr@.len(),
            out@.len() == i,
            forall|k: int| 0 <= k < i ==> (#[trigger] out@[k])@ == context_comment(arr@[k]@),
        decreases arr@.len() - i,
    {
        let c = &arr[i];
        out.push(
            object().with("id", c.member("id")).with("author", c.member("author")).with(
                "created_at",
                c.member("created_at"),
            ).with("body", c.member("body")),
        );
        i = i + 1;
    }
    assert(views(out@) =~= Seq::new(arr@.len(), |i: int| context_comment(views(arr@)[i])));
    out
}

/// The object with a section more, where it is wanted.
pub open spec fn with_section(
    j: JsonView,
    args: GetTaskContextArgs,
    s: Section,
    value: JsonView,
) -> JsonView {
    if is_wanted(args, s) {
        j.with(section_name(s), value)
    } else {
        j
    }
}

/// The context of a task: the task, and the sections that are asked for.
pub open spec fn context_body(
    args: GetTaskContextArgs,
    task: JsonView,
    replies: ContextReplies,
) -> JsonView {
    let arts = items_in(replies.artifacts);
    let cmts = items_in(replies.comments);
    let a = with_section(
        empty_object().with("task"@, context_task(task)),
        args,
        Section::Artifacts,
        JsonView::Array(context_artifacts(arts, arts.len())),
    );
    let b = with_section(
        a,
        args,
        Section::Relations,
        grouped_relations(items_in(replies.relations)),
    );
    let c = with_section(
        b,
        args,
        Section::Comments,
        JsonView::Array(Seq::new(cmts.len(), |i: int| context_comment(cmts[i]))),
    );
    with_section(c, args, Section::History, JsonView::Array(items_in(replies.history)))
}

/// What the context tool answers.
pub fn task_context(args: &GetTaskContextArgs, task: &Json, replies: &ContextReplies) -> (r:
    ToolResult)
    ensures
        !r.is_error,
        r.body@ == context_body(*args, task@, *replies),
{
    let mut response = object().with("task", task_in_context(task));
    if wants(args, Section::Artifacts) {
        let arr = reply_items(&replies.artifacts);
        assert(views(arr@).len() == arr@.len());
        response = response.with("artifacts", array(artifacts_in_context(&arr)));
    }
    if wants(args, Section::Relations) {
        let rels = reply_items(&replies.relations);
        assert(views(rels@).len() == rels@.len());
        let groups = object().with("blocks", relations_of_kind(&rels, "blocks")).with(
            "blocked_by",
            relations_of_kind(&rels, "blocked_by"),
        ).with("relates_to", relations_of_kind(&rels, "relates_to")).with(
            "duplicates",
            relations_of_kind(&rels, "duplicates"),
        );
        response = response.with("relations", groups);
    }
    if wants(args, Section::Comments) {
        let arr = reply_items(&replies.comments);
        assert(views(arr@).len() == arr@.len());
        response = response.with("comments", array(comments_in_context(&arr)));
    }
    if wants(args, Section::History) {
        response = response.with("history", array(reply_items(&replies.history)));
    }
    ToolResult { is_error: false, body: response }
}

/// The sections of a context are exactly those that are asked for.
pub proof fn context_has_the_wanted_sections(
    args: GetTaskContextArgs,
    task: JsonView,
    replies: ContextReplies,
    s: Section,
)
    ensures
        context_body(args, task, replies).get(section_name(s)) is Some <==> is_wanted(args, s),
        context_body(args, task, replies).get("task"@) == Some(context_task(task)),
{
    broadcast use crate::json::get_after_with, crate::json::with_stays_object;

    section_names_differ();
    assert(empty_object().get(section_name(s)) is None);
}

proof fn section_names_differ()
    ensures
        "artifacts"@ != "relations"@,
        "artifacts"@ != "comments"@,
        "artifacts"@ != "history"@,
        "relations"@ != "comments"@,
        "relations"@ != "history"@,
        "comments"@ != "history"@,
        "task"@ != "artifacts"@,
        "task"@ != "relations"@,
        "task"@ != "comments"@,
        "task"@ != "history"@,
{
    reveal_strlit("artifacts");
    reveal_strlit("relations");
    reveal_strlit("comments");
    reveal_strlit("history");
    reveal_strlit("task");
    assert("artifacts"@[0] == 'a' && "relations"@[0] == 'r' && "comments"@[0] == 'c'
        && "history"@[0] == 'h' && "task"@[0] == 't');
}

/// What asks for the decisions.
pub open spec fn decisions_asked(args: GetRecentDecisionsArgs) -> RequestView {
    getting(
        match args.plan_id {
            Some(p) => "/artifacts?type=decision"@ + "&plan_id="@ + url_encoded(p@),
            None => "/artifacts?type=decision"@,
        },
    )
}

/// What asks for the decisions.
pub fn decisions_request(args: &GetRecentDecisionsArgs) -> (r: Request)
    ensures
        r@ == decisions_asked(*args),
{
    let mut path = "/artifacts?type=decision".to_owned();
    if let Some(p) = &args.plan_id {
        let e = urlenc(p.as_str());
        path.append("&plan_id=");
        path.append(e.as_str());
    }
    get(path)
}

/// When a decision was made, in milliseconds.
pub open spec fn made_at(a: JsonView) -> int {
    match a.i64_at("created_at"@) {
        Some(t) => t,
        None => 0,
    }
}

fn time_of(a: &Json) -> (r: i64)
    ensures
        r == made_at(a@),
{
    match a.i64_at("created_at") {
        Some(t) => t,
        None => 0,
    }
}

/// A decision that may be shown, and that is not too old.
pub open spec fn is_due(a: JsonView, since: Option<i64>) -> bool {
    a.str_at("scope"@) == Some("rag"@) && (since is Some ==> made_at(a) >= since->0)
}

/// The decisions with one more, behind all that are not older.
pub open spec fn inserted(s: Seq<JsonView>, x: JsonView) -> Seq<JsonView>
    decreases s.len(),
{
    if s.len() > 0 && made_at(s.last()) < made_at(x) {
        inserted(s.drop_last(), x).push(s.last())
    } else {
        s.push(x)
    }
}

/// The decisions among the first `n` that are due, from the newest to the
/// oldest; those of one time stay in their order.
pub open spec fn due_decisions(a: Seq<JsonView>, since: Option<i64>, n: nat) -> Seq<JsonView>
    decreases n,
{
    if n == 0 {
        Seq::empty()
    } else {
        let before = due_decisions(a, since, (n - 1) as nat);
        if is_due(a[n - 1], since) {
            inserted(before, a[n - 1])
        } else {
            before
        }
    }
}

fn insert(out: &mut Vec<Json>, x: Json)
    ensures
        views(final(out)@) == inserted(views(old(out)@), x@),
{
    let t = time_of(&x);
    let ghost all = views(out@);
    let mut i: usize = out.len();
    assert(all.take(i as int) =~= all);
    assert(all.skip(i as int) =~= Seq::empty());
    assert(inserted(all, x@) =~= inserted(all.take(i as int), x@) + all.skip(i as int));
    while i > 0 && time_of(&out[i - 1]) < t
        invariant
            i <= out@.len(),
            all == views(out@),
            t == made_at(x@),
            inserted(all, x@) == inserted(all.take(i as int), x@) + all.skip(i as int),
        decreases i,
    {
        proof {
            let front = all.take(i as int);
            assert(front.last() == all[i - 1]);
            assert(front.drop_last() =~= all.take(i - 1));
            assert(inserted(front.drop_last(), x@).push(front.last()) + all.skip(i as int)
                =~= inserted(all.take(i - 1), x@) + all.skip(i - 1));
        }
        i = i - 1;
    }
    proof {
        let front = all.take(i as int);
        if i > 0 {
            assert(front.last() == all[i - 1]);
        }
        assert(inserted(front, x@) == front.push(x@));
    }
    let ghost xv = x@;
    out.insert(i, x);
    assert(views(out@) =~= all.take(i as int).push(xv) + all.skip(i as int));
}

/// A decision, in short.
pub open spec fn decision_summary(a: JsonView) -> JsonView {
    empty_object().with("id"@, a.member("id"@)).with("title"@, a.member("title"@)).with(
        "plan_id"@,
        a.member("plan_id"@),
    ).with("unit_id"@, a.member("unit_id"@)).with("created_at"@, a.member("created_at"@)).with(
        "snippet"@,
        content_snippet(a, 500),
    )
}

/// The newest of the decisions that are due.
pub open spec fn newest_decisions(args: GetRecentDecisionsArgs, val: JsonView) -> Seq<JsonView> {
    crate::reply::at_most(
        due_decisions(val.items(), args.since_ts, val.items().len()),
        result_limit(args.limit, 10),
    )
}

/// What the tool for recent decisions answers.
pub fn recent_decisions(args: &GetRecentDecisionsArgs, val: &Json) -> (r: ToolResult)
    ensures
        !r.is_error,
        r.body@ == ({
            let kept = newest_decisions(*args, val@);
            JsonView::Array(Seq::new(kept.len(), |i: int| decision_summary(kept[i])))
        }),
{
    let limit = limited(args.limit, 10) as usize;
    let arr = val.items();
    let ghost all = val@.items();
    assert(all.len() == arr@.len());
    let mut kept: Vec<Json> = Vec::new();
    let mut i: usize = 0;
    assert(views(kept@) =~= Seq::empty());
    while i < arr.len()
        invariant
            i <= arr@.len(),
            all == views(arr@),
            views(kept@) == due_decisions(all, args.since_ts, i as nat),
        decreases arr@.len() - i,
    {
        assert(all[i as int] == arr@[i as int]@);
        let recent = match args.since_ts {
            Some(since) => time_of(&arr[i]) >= since,
            None => true,
        };
        if in_scope(&arr[i]) && recent {
            insert(&mut kept, arr[i].copy());
        }
        i = i + 1;
    }
    let ghost sorted = views(kept@);
    assert(sorted.len() == kept@.len());
    if kept.len() > limit {
        kept.truncate(limit);
        assert(views(kept@) =~= sorted.take(limit as int));
    }
    let ghost shown = newest_decisions(*args, val@);
    assert(views(kept@) == shown);
    let mut out: Vec<Json> = Vec::new();
    let mut k: usize = 0;
    while k < kept.len()
        invariant
            k <= kept@.len(),
            shown == views(kept@),
            out@.len() == k,
            forall|j: int| 0 <= j < k ==> (#[trigger] out@[j])@ == decision_summary(shown[j]),
        decreases kept@.len() - k,
    {
        let a = &kept[k];
        assert(shown[k as int] == a@);
        out.push(
            object().with("id", a.member("id")).with("title", a.member("title")).with(
                "plan_id",
                a.member("plan_id"),
            ).with("unit_id", a.member("unit_id")).with(
                "created_at",
                a.member("created_at"),
            ).with("snippet", content_json(a, 500)),
        );
        k = k + 1;
    }
    assert(shown.len() == kept@.len());
    assert(views(out@) =~= Seq::new(shown.len(), |i: int| decision_summary(shown[i])));
    success_json(out)
}

/// No decision stands behind an older one.
pub open spec fn in_time_order(s: Seq<JsonView>) -> bool {
    forall|i: int, j: int|
        0 <= i < j < s.len() ==> made_at(#[trigger] s[i]) >= made_at(#[trigger] s[j])
}

proof fn inserted_facts(s: Seq<JsonView>, x: JsonView, since: Option<i64>)
    requires
        in_time_order(s),
        forall|i: int| 0 <= i < s.len() ==> is_due(#[trigger] s[i], since),
        is_due(x, since),
    ensures
        in_time_order(inserted(s, x)),
        inserted(s, x).len() == s.len() + 1,
        forall|i: int| 0 <= i < inserted(s, x).len() ==> is_due(#[trigger] inserted(s, x)[i], since),
        forall|i: int|
            0 <= i < inserted(s, x).len() && s.len() > 0 ==> made_at(
                #[trigger] inserted(s, x)[i],
            ) >= made_at(s.last()) || made_at(inserted(s, x)[i]) >= made_at(x),
    decreases s.len(),
{
    if s.len() > 0 && made_at(s.last()) < made_at(x) {
        let front = s.drop_last();
        assert forall|i: int, j: int| 0 <= i < j < front.len() implies made_at(
            #[trigger] front[i],
        ) >= made_at(#[trigger] front[j]) by {
            assert(front[i] == s[i]);
            assert(front[j] == s[j]);
        }
        assert forall|i: int| 0 <= i < front.len() implies is_due(#[trigger] front[i], since) by {
            assert(front[i] == s[i]);
        }
        inserted_facts(front, x, since);
        let inner = inserted(front, x);
        let last = s.last();
        let p = inserted(s, x);
        assert(is_due(s[s.len() - 1], since));
        assert forall|i: int| 0 <= i < inner.len() implies made_at(#[trigger] inner[i])
            >= made_at(last) by {
            if front.len() > 0 {
                assert(s[front.len() - 1] == front.last());
                assert(s[s.len() - 1] == last);
            } else {
                assert(inner =~= seq![x]);
            }
        }
        assert forall|i: int, j: int| 0 <= i < j < p.len() implies made_at(#[trigger] p[i])
            >= made_at(#[trigger] p[j]) by {
            assert(p[i] == inner[i]);
            if j < inner.len() {
                assert(p[j] == inner[j]);
            }
        }
        assert forall|i: int| 0 <= i < p.len() implies is_due(#[trigger] p[i], since) by {
            if i < inner.len() {
                assert(p[i] == inner[i]);
            }
        }
        assert forall|i: int| 0 <= i < p.len() implies made_at(#[trigger] p[i]) >= made_at(
            s.last(),
        ) || made_at(p[i]) >= made_at(x) by {
            if i < inner.len() {
                assert(p[i] == inner[i]);
            }
        }
    } else {
        let p = inserted(s, x);
        assert forall|i: int, j: int| 0 <= i < j < p.len() implies made_at(#[trigger] p[i])
            >= made_at(#[trigger] p[j]) by {
            assert(p[i] == s[i]);
            if j < s.len() {
                assert(p[j] == s[j]);
            } else {
                assert(s[s.len() - 1] == s.last());
            }
        }
        assert forall|i: int| 0 <= i < p.len() implies is_due(#[trigger] p[i], since) by {
            if i < s.len() {
                assert(p[i] == s[i]);
            }
        }
        assert forall|i: int| 0 <= i < p.len() && s.len() > 0 implies made_at(#[trigger] p[i])
            >= made_at(s.last()) || made_at(p[i]) >= made_at(x) by {
            if i < s.len() {
                assert(p[i] == s[i]);
                assert(s[s.len() - 1] == s.last());
            }
        }
    }
}

/// The decisions that are shown are never more than was asked for, nor more
/// than 30.
pub proof fn decisions_within_limit(args: GetRecentDecisionsArgs, val: JsonView)
    ensures
        newest_decisions(args, val).len() <= 30,
        args.limit is Some ==> newest_decisions(args, val).len() <= args.limit->0,
{
}

/// The decisions that are due stand from the newest to the oldest, and nothing
/// else stands among them.
pub proof fn decisions_in_order(a: Seq<JsonView>, since: Option<i64>, n: nat)
    ensures
        in_time_order(due_decisions(a, since, n)),
        forall|i: int|
            0 <= i < due_decisions(a, since, n).len() ==> is_due(
                #[trigger] due_decisions(a, since, n)[i],
                since,
            ),
        due_decisions(a, since, n).len() <= n,
    decreases n,
{
    if n > 0 {
        decisions_in_order(a, since, (n - 1) as nat);
        if is_due(a[n - 1], since) {
            inserted_facts(due_decisions(a, since, (n - 1) as nat), a[n - 1], since);
        }
    }
}

} // verus!
