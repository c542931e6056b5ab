//! What the decomposition of a task does, read from its requests and reports.

use vstd::prelude::*;
use crate::accept::{
    accepted, is_atomic, is_listed, size_cap, size_violation, within_size, AcceptView,
};
use crate::decompose::{
    criteria, listed_criteria, nothing_left, policy_cap, policy_violations, suggestions_for, too_deep,
    too_few, too_many, violation,
};
use crate::decompose_flow::{
    all_violations, atomic_report, child_asked, created_entry, decided, envelope_in, has_error,
    preview, proposed, summary_json, DecisionView, DecomposeArgs, Parent,
};
use crate::json::{
    empty_has_no_member, get_after_with, with_stays_object, JsonView, NumberView,
};
use crate::request::Method;
use crate::scan::trimmed;
use crate::text::dec;

verus! {

proof fn child_keys()
    ensures
        "title"@ != "body"@,
        "title"@ != "parent_task_id"@,
        "title"@ != "unit_id"@,
        "body"@ != "parent_task_id"@,
        "body"@ != "unit_id"@,
        "parent_task_id"@ != "unit_id"@,
{
    reveal_strlit("title");
    reveal_strlit("body");
    reveal_strlit("parent_task_id");
    reveal_strlit("unit_id");
    assert("title"@.len() == 5);
    assert("body"@.len() == 4);
    assert("parent_task_id"@.len() == 14);
    assert("unit_id"@.len() == 7);
}

/// The sub-task of a suggestion is created under the title that was suggested,
/// with the reason as its body, below the task that is taken apart and in the
/// unit of that task.
pub proof fn sub_tasks_are_as_suggested(
    task_id: Seq<char>,
    unit_id: Option<Seq<char>>,
    s: JsonView,
)
    ensures
        ({
            let r = child_asked(task_id, unit_id, s);
            &&& r.method == Method::Post
            &&& r.path == "/tasks"@
            &&& r.body matches Some(b) && {
                &&& s.str_at("title"@) is Some ==> b.str_at("title"@) == s.str_at("title"@)
                &&& s.str_at("title"@) is None ==> b.str_at("title"@) == Some(""@)
                &&& s.str_at("rationale"@) is Some ==> b.str_at("body"@) == s.str_at("rationale"@)
                &&& s.str_at("rationale"@) is None ==> b.str_at("body"@) == Some(""@)
                &&& b.str_at("parent_task_id"@) == Some(task_id)
                &&& b.str_at("unit_id"@) == unit_id
                &&& unit_id is None ==> b.get("unit_id"@) is None
            }
        }),
{
    broadcast use get_after_with, with_stays_object, empty_has_no_member;

    child_keys();
}

proof fn suggestion_keys()
    ensures
        "idx"@ != "title"@,
        "idx"@ != "rationale"@,
        "idx"@ != "scope_hint"@,
        "idx"@ != "inherited_envelope_keys"@,
        "title"@ != "rationale"@,
        "title"@ != "scope_hint"@,
        "title"@ != "inherited_envelope_keys"@,
        "rationale"@ != "scope_hint"@,
        "rationale"@ != "inherited_envelope_keys"@,
        "scope_hint"@ != "inherited_envelope_keys"@,
{
    reveal_strlit("idx");
    reveal_strlit("title");
    reveal_strlit("rationale");
    reveal_strlit("scope_hint");
    reveal_strlit("inherited_envelope_keys");
    assert("idx"@.len() == 3);
    assert("title"@.len() == 5);
    assert("rationale"@.len() == 9);
    assert("scope_hint"@.len() == 10);
    assert("inherited_envelope_keys"@.len() == 23);
}

/// There is one suggestion for each criterion, in their order: its title is
/// that of the task, a dash and the criterion, its reason the criterion with its
/// number, each cut where it is long.
pub proof fn suggestions_follow_the_criteria(
    parent_title: Seq<char>,
    lines: Seq<Seq<char>>,
    strategy: Seq<char>,
    i: int,
)
    requires
        0 <= i < lines.len(),
    ensures
        ({
            let all = suggestions_for(parent_title, lines, strategy);
            let title = parent_title + " — "@;
            let reason = "success_criteria #"@ + dec((i + 1) as nat) + ": "@;
            &&& all.len() == lines.len()
            &&& all[i].get("idx"@) == Some(JsonView::Number(NumberView::Integer(i)))
            &&& all[i].str_at("title"@) is Some
            &&& lines[i].len() <= 80 ==> all[i].str_at("title"@) == Some(title + lines[i])
            &&& lines[i].len() > 80 ==> all[i].str_at("title"@) == Some(
                title + lines[i].take(80) + "…"@,
            )
            &&& all[i].str_at("rationale"@) is Some
            &&& lines[i].len() <= 120 ==> all[i].str_at("rationale"@) == Some(reason + lines[i])
            &&& lines[i].len() > 120 ==> all[i].str_at("rationale"@) == Some(
                reason + lines[i].take(120) + "…"@,
            )
            &&& strategy == "by-repo"@ ==> all[i].str_at("scope_hint"@) == Some(
                "scope by-repo (cli/daemon/web 분리)"@,
            )
            &&& strategy == "scoped"@ ==> all[i].str_at("scope_hint"@) == Some(
                "scope by surface (api|ui|infra)"@,
            )
            &&& strategy != "by-repo"@ && strategy != "scoped"@ ==> all[i].str_at("scope_hint"@)
                == Some("auto"@)
            &&& all[i].array_at("inherited_envelope_keys"@) == Some(
                seq![
                    JsonView::Text("intent"@),
                    JsonView::Text("prompt_template"@),
                    JsonView::Text("decomposition_policy"@),
                ],
            )
        }),
{
    broadcast use get_after_with, with_stays_object, empty_has_no_member;

    suggestion_keys();
    reveal_strlit("by-repo");
    reveal_strlit("scoped");
    assert("by-repo"@.len() == 7);
    assert("scoped"@.len() == 6);
    let title = parent_title + " — "@;
    let reason = "success_criteria #"@ + dec((i + 1) as nat) + ": "@;
    assert(title + lines[i].take(80) + "…"@ =~= title + (lines[i].take(80) + "…"@));
    assert(reason + lines[i].take(120) + "…"@ =~= reason + (lines[i].take(120) + "…"@));
    let names = seq!["intent"@, "prompt_template"@, "decomposition_policy"@];
    assert(Seq::new(names.len(), |k: int| JsonView::Text(names[k])) =~= seq![
        JsonView::Text("intent"@),
        JsonView::Text("prompt_template"@),
        JsonView::Text("decomposition_policy"@),
    ]);
}

proof fn listed_one_by_one(a: Seq<JsonView>, n: nat)
    requires
        n <= a.len(),
        forall|k: int|
            0 <= k < a.len() ==> (#[trigger] a[k]).as_str() is Some && trimmed(
                a[k].as_str()->0,
            ).len() > 0,
    ensures
        listed_criteria(a, n).len() == n,
        forall|k: int| 0 <= k < n ==> #[trigger] listed_criteria(a, n)[k] == trimmed(a[k].as_str()->0),
    decreases n,
{
    if n > 0 {
        listed_one_by_one(a, (n - 1) as nat);
        assert(a[n - 1].as_str() is Some);
    }
}

/// A list of texts of which none is blank gives its texts, trimmed, in order.
pub proof fn listed_criteria_are_taken(envelope: JsonView, a: Seq<JsonView>, i: int)
    requires
        envelope.get("success_criteria"@) == Some(JsonView::Array(a)),
        forall|k: int|
            0 <= k < a.len() ==> (#[trigger] a[k]).as_str() is Some && trimmed(
                a[k].as_str()->0,
            ).len() > 0,
        0 <= i < a.len(),
    ensures
        criteria(envelope).len() == a.len(),
        Some(criteria(envelope)[i]) == (match a[i].as_str() {
            Some(s) => Some(trimmed(s)),
            None => None,
        }),
{
    listed_one_by_one(a, a.len());
}

/// What is proposed are the first suggestions, as many as there are criteria
/// but no more than the policy and the size allow.
pub proof fn proposals_are_the_first_suggestions(p: Parent, envelope: JsonView, args: DecomposeArgs)
    requires
        criteria(envelope).len() <= usize::MAX,
    ensures
        ({
            let all = suggestions_for(p.title@, criteria(envelope), args.strategy@);
            let some = proposed(p, envelope, args);
            let policy = match envelope.get("decomposition_policy"@) {
                Some(q) => q.u64_at("max_subtasks"@),
                None => None,
            };
            &&& some.len() <= all.len()
            &&& forall|i: int| 0 <= i < some.len() ==> #[trigger] some[i] == all[i]
            &&& policy matches Some(max) ==> some.len() <= max
            &&& size_cap(p.size_hint@) matches Some(cap) ==> some.len() <= cap
            &&& some.len() == all.len() || (policy matches Some(max) && some.len() == max) || (
            size_cap(p.size_hint@) matches Some(cap) && some.len() == cap)
        }),
{
}

proof fn violation_keys()
    ensures
        "field"@ != "severity"@,
        "field"@ != "message"@,
        "severity"@ != "message"@,
{
    reveal_strlit("field");
    reveal_strlit("severity");
    reveal_strlit("message");
    assert("field"@.len() == 5);
    assert("severity"@.len() == 8);
    assert("message"@.len() == 7);
}

/// A violation says which rule it breaks, how bad that is, and why.
pub proof fn violations_say_what_is_wrong(
    field: Seq<char>,
    severity: Seq<char>,
    message: Seq<char>,
)
    ensures
        violation(field, severity, message).str_at("field"@) == Some(field),
        violation(field, severity, message).str_at("severity"@) == Some(severity),
        violation(field, severity, message).str_at("message"@) == Some(message),
{
    broadcast use get_after_with, with_stays_object, empty_has_no_member;

    violation_keys();
}

proof fn preview_keys()
    ensures
        "parent_task"@ != "parent_title"@,
        "parent_task"@ != "strategy"@,
        "parent_task"@ != "max_depth"@,
        "parent_task"@ != "atomic_size_hint"@,
        "parent_task"@ != "decomposition_policy"@,
        "parent_task"@ != "suggestions"@,
        "parent_task"@ != "violations"@,
        "parent_title"@ != "strategy"@,
        "parent_title"@ != "max_depth"@,
        "parent_title"@ != "atomic_size_hint"@,
        "parent_title"@ != "decomposition_policy"@,
        "parent_title"@ != "suggestions"@,
        "parent_title"@ != "violations"@,
        "strategy"@ != "max_depth"@,
        "strategy"@ != "atomic_size_hint"@,
        "strategy"@ != "decomposition_policy"@,
        "strategy"@ != "suggestions"@,
        "strategy"@ != "violations"@,
        "max_depth"@ != "atomic_size_hint"@,
        "max_depth"@ != "decomposition_policy"@,
        "max_depth"@ != "suggestions"@,
        "max_depth"@ != "violations"@,
        "atomic_size_hint"@ != "decomposition_policy"@,
        "atomic_size_hint"@ != "suggestions"@,
        "atomic_size_hint"@ != "violations"@,
        "decomposition_policy"@ != "suggestions"@,
        "decomposition_policy"@ != "violations"@,
        "suggestions"@ != "violations"@,
{
    reveal_strlit("parent_task");
    reveal_strlit("parent_title");
    reveal_strlit("strategy");
    reveal_strlit("max_depth");
    reveal_strlit("atomic_size_hint");
    reveal_strlit("decomposition_policy");
    reveal_strlit("suggestions");
    reveal_strlit("violations");
    assert("parent_task"@.len() == 11);
    assert("parent_title"@.len() == 12);
    assert("strategy"@.len() == 8);
    assert("max_depth"@.len() == 9);
    assert("atomic_size_hint"@.len() == 16);
    assert("decomposition_policy"@.len() == 20);
    assert("suggestions"@.len() == 11);
    assert("violations"@.len() == 10);
    assert("parent_task"@[0] != "suggestions"@[0]);
}

/// A preview names the task, what was asked for, what is proposed, and what is
/// wrong with it.
pub proof fn previews_show_what_is_proposed(p: Parent, envelope: JsonView, args: DecomposeArgs)
    ensures
        ({
            let j = preview(p, envelope, args);
            &&& j.str_at("parent_task"@) == Some(args.task_id@)
            &&& j.str_at("parent_title"@) == Some(p.title@)
            &&& j.str_at("strategy"@) == Some(args.strategy@)
            &&& j.get("max_depth"@) == Some(
                JsonView::Number(NumberView::Integer(args.max_depth as int)),
            )
            &&& j.str_at("atomic_size_hint"@) == Some(p.size_hint@)
            &&& j.str_at("decomposition_policy"@) == Some(p.policy@)
            &&& j.array_at("suggestions"@) == Some(proposed(p, envelope, args))
            &&& j.array_at("violations"@) == Some(all_violations(p, envelope, args))
        }),
{
    broadcast use get_after_with, with_stays_object, empty_has_no_member;

    preview_keys();
}

proof fn atomic_keys()
    ensures
        "error"@ != "parent_task"@,
        "error"@ != "atomic_size_hint"@,
        "error"@ != "suggestion"@,
        "parent_task"@ != "atomic_size_hint"@,
        "parent_task"@ != "suggestion"@,
        "atomic_size_hint"@ != "suggestion"@,
{
    reveal_strlit("error");
    reveal_strlit("parent_task");
    reveal_strlit("atomic_size_hint");
    reveal_strlit("suggestion");
    assert("error"@.len() == 5);
    assert("parent_task"@.len() == 11);
    assert("atomic_size_hint"@.len() == 16);
    assert("suggestion"@.len() == 10);
}

/// The refusal of a small task names it and its size.
pub proof fn refusals_name_the_task(task_id: Seq<char>, hint: Seq<char>)
    ensures
        ({
            let j = atomic_report(task_id, hint);
            &&& j.str_at("error"@) == Some("already_atomic"@)
            &&& j.str_at("parent_task"@) == Some(task_id)
            &&& j.str_at("atomic_size_hint"@) == Some(hint)
            &&& j.str_at("suggestion"@) is Some
        }),
{
    broadcast use get_after_with, with_stays_object, empty_has_no_member;

    atomic_keys();
}

proof fn entry_keys()
    ensures
        "id"@ != "ticket"@,
        "id"@ != "title"@,
        "ticket"@ != "title"@,
{
    reveal_strlit("id");
    reveal_strlit("ticket");
    reveal_strlit("title");
    assert("id"@.len() == 2);
    assert("ticket"@.len() == 6);
    assert("title"@.len() == 5);
}

/// A sub-task that was created is noted with the identifier and the ticket that
/// it got, and with the title that was suggested.
pub proof fn created_tasks_are_noted(resp: JsonView, s: JsonView)
    ensures
        ({
            let j = created_entry(resp, s);
            &&& resp.get("id"@) is Some ==> j.get("id"@) == resp.get("id"@)
            &&& resp.get("id"@) is None ==> j.get("id"@) == Some(JsonView::Null)
            &&& resp.get("ticket"@) is Some ==> j.get("ticket"@) == resp.get("ticket"@)
            &&& resp.get("ticket"@) is None ==> j.get("ticket"@) == Some(JsonView::Null)
            &&& s.str_at("title"@) is Some ==> j.str_at("title"@) == s.str_at("title"@)
        }),
{
    broadcast use get_after_with, with_stays_object, empty_has_no_member;

    entry_keys();
}

proof fn summary_keys()
    ensures
        "parent_task"@ != "created"@,
        "parent_task"@ != "violations"@,
        "parent_task"@ != "dropped_indices"@,
        "created"@ != "violations"@,
        "created"@ != "dropped_indices"@,
        "violations"@ != "dropped_indices"@,
{
    reveal_strlit("parent_task");
    reveal_strlit("created");
    reveal_strlit("violations");
    reveal_strlit("dropped_indices");
    assert("parent_task"@.len() == 11);
    assert("created"@.len() == 7);
    assert("violations"@.len() == 10);
    assert("dropped_indices"@.len() == 15);
}

/// The summary names the task, what was created and what was wrong, and tells
/// the positions that chose nothing exactly where there are any.
pub proof fn summaries_tell_what_was_done(
    task_id: Seq<char>,
    created: Seq<JsonView>,
    violations: Seq<JsonView>,
    dropped: Seq<usize>,
)
    ensures
        ({
            let j = summary_json(task_id, created, violations, dropped);
            &&& j.str_at("parent_task"@) == Some(task_id)
            &&& j.array_at("created"@) == Some(created)
            &&& j.array_at("violations"@) == Some(violations)
            &&& dropped.len() == 0 ==> j.get("dropped_indices"@) is None
            &&& dropped.len() > 0 ==> (j.array_at("dropped_indices"@) matches Some(a) && a.len()
                == dropped.len() && forall|i: int|
                0 <= i < a.len() ==> #[trigger] a[i] == JsonView::Number(
                    NumberView::Integer(dropped[i] as int),
                ))
        }),
{
    broadcast use get_after_with, with_stays_object, empty_has_no_member;

    summary_keys();
}

proof fn severities(field: Seq<char>, message: Seq<char>)
    ensures
        has_error(seq![violation(field, "error"@, message)]),
        !has_error(seq![violation(field, "warning"@, message)]),
{
    violations_say_what_is_wrong(field, "error"@, message);
    violations_say_what_is_wrong(field, "warning"@, message);
    reveal_strlit("error");
    reveal_strlit("warning");
    assert("error"@.len() == 5);
    assert("warning"@.len() == 7);
    let e = seq![violation(field, "error"@, message)];
    assert(e[0].str_at("severity"@) == Some("error"@));
}

proof fn errors_of_parts(a: Seq<JsonView>, b: Seq<JsonView>)
    ensures
        has_error(a + b) <==> has_error(a) || has_error(b),
{
    if has_error(a) {
        let i = choose|i: int|
            0 <= i < a.len() && (#[trigger] a[i]).str_at("severity"@) == Some("error"@);
        assert((a + b)[i] == a[i]);
    }
    if has_error(b) {
        let i = choose|i: int|
            0 <= i < b.len() && (#[trigger] b[i]).str_at("severity"@) == Some("error"@);
        assert((a + b)[a.len() + i] == b[i]);
    }
    if has_error(a + b) {
        let i = choose|i: int|
            0 <= i < (a + b).len() && (#[trigger] (a + b)[i]).str_at("severity"@) == Some(
                "error"@,
            );
        if i < a.len() {
            assert(a[i].str_at("severity"@) == Some("error"@));
        } else {
            assert(b[i - a.len()].str_at("severity"@) == Some("error"@));
        }
    }
}

proof fn policy_errors(envelope: JsonView, n: int, max_depth: int)
    ensures
        has_error(policy_violations(envelope, n, max_depth)) <==> policy_cap(envelope, n) == 0 || (
        envelope.get("decomposition_policy"@) matches Some(p) && p.u64_at("max_depth"@) matches Some(
            limit,
        ) && max_depth > limit),
{
    let none = Seq::<JsonView>::empty();
    assert(!has_error(none));
    let last = nothing_left(policy_cap(envelope, n));
    if policy_cap(envelope, n) == 0 {
        severities(
            "success_criteria"@,
            "no parseable success_criteria — cannot derive subtasks. Add a bullet list under success_criteria."@,
        );
    } else {
        assert(last =~= none);
    }
    match envelope.get("decomposition_policy"@) {
        Some(p) => {
            let a = too_few(p, n);
            let b = too_many(p, n);
            let c = too_deep(p, max_depth);
            errors_of_parts(a + b + c, last);
            errors_of_parts(a + b, c);
            errors_of_parts(a, b);
            if let Some(min) = p.u64_at("min_subtasks"@) {
                severities(
                    "min_subtasks"@,
                    "only "@ + dec(n as nat) + " suggestions, min_subtasks="@ + dec(min as nat),
                );
            }
            if let Some(max) = p.u64_at("max_subtasks"@) {
                severities(
                    "max_subtasks"@,
                    dec(n as nat) + " suggestions exceed max_subtasks="@ + dec(max as nat),
                );
            }
            if let Some(limit) = p.u64_at("max_depth"@) {
                severities(
                    "max_depth"@,
                    "requested max_depth="@ + dec(max_depth as nat) + " exceeds policy max_depth="@
                        + dec(limit as nat),
                );
            }
        },
        None => {
            let one = seq![
                violation(
                    "decomposition_policy"@,
                    "warning"@,
                    "no decomposition_policy on resolved envelope — using default"@,
                ),
            ];
            severities(
                "decomposition_policy"@,
                "no decomposition_policy on resolved envelope — using default"@,
            );
            errors_of_parts(one, last);
        },
    }
}

/// A decomposition has an error exactly where nothing is left to suggest, or
/// where it goes deeper than the policy allows. Too many suggestions, too few
/// and the manual policy are only warned of.
pub proof fn errors_stop_a_decomposition(p: Parent, envelope: JsonView, args: DecomposeArgs)
    ensures
        has_error(all_violations(p, envelope, args)) <==> policy_cap(
            envelope,
            criteria(envelope).len() as int,
        ) == 0 || (envelope.get("decomposition_policy"@) matches Some(q) && q.u64_at("max_depth"@)
            matches Some(limit) && args.max_depth > limit),
{
    let total = criteria(envelope).len() as int;
    let first = policy_violations(envelope, total, args.max_depth as int);
    policy_errors(envelope, total, args.max_depth as int);
    let n = policy_cap(envelope, total);
    let second = match size_violation(p.size_hint@, n) {
        Some(v) => first.push(v),
        None => first,
    };
    if let Some(v) = size_violation(p.size_hint@, n) {
        assert(first.push(v) =~= first + seq![v]);
        errors_of_parts(first, seq![v]);
        size_is_a_warning(p.size_hint@, n);
    }
    if p.policy@ == "manual"@ {
        let m =
            "decomposition_policy=\"manual\" forces dry-run; --accept will not create sub-tasks. Re-author the plan with policy=\"auto\" to enable creation."@;
        let v = violation("decomposition_policy"@, "warning"@, m);
        severities("decomposition_policy"@, m);
        assert(second.push(v) =~= second + seq![v]);
        errors_of_parts(second, seq![v]);
    }
}

proof fn size_is_a_warning(hint: Seq<char>, n: int)
    ensures
        size_violation(hint, n) matches Some(v) ==> !has_error(seq![v]),
{
    if let Some(v) = size_violation(hint, n) {
        broadcast use get_after_with, with_stays_object, empty_has_no_member;

        violation_keys();
        reveal_strlit("error");
        reveal_strlit("warning");
        assert("error"@.len() == 5);
        assert("warning"@.len() == 7);
        assert(v.str_at("severity"@) == Some("warning"@));
    }
}

/// What follows when nothing stands against it: everything that is proposed is
/// created on `ALL`, only what was named on a list of positions, and nothing
/// where what was given names none.
pub proof fn what_is_accepted_is_created(p: Parent, envelope: JsonView, args: DecomposeArgs)
    requires
        !args.dry_run,
        p.policy@ != "manual"@,
        args.accept is Some,
        !has_error(all_violations(p, envelope, args)),
        criteria(envelope).len() <= usize::MAX,
    ensures
        ({
            let some = proposed(p, envelope, args);
            let d = decided(p, envelope, args);
            match accepted(args.accept->0@) {
                Err(_) => d is Fail,
                Ok(AcceptView::All) => if some.len() > 0 {
                    d matches DecisionView::Create { accepted: taken, violations, dropped: none }
                        && taken == some && violations == all_violations(p, envelope, args)
                        && none.len() == 0
                } else {
                    d is Fail
                },
                Ok(AcceptView::Indices(v)) => d matches DecisionView::Create { accepted: taken, .. }
                    ==> taken.len() > 0 && forall|k: int|
                    0 <= k < taken.len() ==> is_listed(some, v, #[trigger] taken[k]),
            }
        }),
{
    if let Ok(a) = accepted(args.accept->0@) {
        crate::accept::choosing_takes_only_what_is_listed(proposed(p, envelope, args), a);
    }
}

/// A preview is all that a dry run, the manual policy and a command without
/// `--accept` give: what is proposed is shown, or shown to be broken.
pub proof fn previews_create_nothing(p: Parent, envelope: JsonView, args: DecomposeArgs)
    requires
        args.dry_run || p.policy@ == "manual"@ || args.accept is None,
    ensures
        has_error(all_violations(p, envelope, args)) ==> (decided(p, envelope, args) matches
            DecisionView::Broken { printed, .. } && printed == preview(p, envelope, args)),
        !has_error(all_violations(p, envelope, args)) ==> (decided(p, envelope, args) matches
            DecisionView::Preview { printed, note } && printed == preview(p, envelope, args) && (note
            is None <==> args.accept is Some && p.policy@ != "manual"@)),
{
}

/// A larger task may be split further: small ones not at all, a medium one less
/// than a large one, and others as far as their policy allows.
pub proof fn larger_tasks_are_split_further(n: int)
    requires
        n >= 0,
    ensures
        within_size("medium"@, n) <= within_size("large"@, n) <= n,
        n <= 3 ==> within_size("medium"@, n) == n,
        n > 3 ==> within_size("medium"@, n) == 3,
        n <= 5 ==> within_size("large"@, n) == n,
        n > 5 ==> within_size("large"@, n) == 5,
        is_atomic("tiny"@),
        is_atomic("small"@),
        !is_atomic("medium"@),
        !is_atomic("large"@),
{
    reveal_strlit("tiny");
    reveal_strlit("small");
    reveal_strlit("medium");
    reveal_strlit("large");
    assert("tiny"@.len() == 4);
    assert("small"@.len() == 5);
    assert("medium"@.len() == 6);
    assert("large"@.len() == 5);
    assert("small"@[0] != "large"@[0]);
}

/// The resolved envelope is taken before the raw one.
pub proof fn resolved_envelopes_go_first(j: JsonView)
    ensures
        j.get("resolved_envelope"@) is Some ==> envelope_in(j) == j.get("resolved_envelope"@),
        j.get("resolved_envelope"@) is None ==> envelope_in(j) == j.get("raw_envelope"@),
{
}

} // verus!
