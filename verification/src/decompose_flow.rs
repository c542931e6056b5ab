//! The course of `task decompose`: what is asked, decided and created.

use vstd::prelude::*;
use crate::accept::{
    accepted, apply_accept, apply_size_cap, atomic_advice, check_atomic_size_hint, chosen, dropped,
    dropped_positions, is_atomic, is_manual_policy, parse_accept, size_violation, within_size,
    AtomicGate,
};
use crate::decompose::{
    build_suggestions, check_policy_violations, criteria, extract_success_criteria, policy_cap,
    policy_violations, suggestions_for, violation,
};
use crate::json::{
    array, empty_object, json_int, number, object, opt_text, text, views, Json, JsonView,
};
use crate::request::{get, getting, post, posting, Request, RequestView};
use crate::scan::opt_string;
use crate::text::{cat2, cat3, cat5, same};

verus! {

/// What the command was given.
pub struct DecomposeArgs {
    pub task_id: String,
    pub max_depth: u32,
    pub strategy: String,
    pub dry_run: bool,
    pub accept: Option<String>,
}

/// What of the task the decomposition needs.
pub struct Parent {
    pub title: String,
    pub unit_id: Option<String>,
    pub size_hint: String,
    pub policy: String,
}

/// Whether the task may be split.
pub enum Gate {
    /// It is atomic: this is printed, and the command fails with the error.
    Refuse { printed: Json, error: String },
    Proceed(Parent),
}

/// The size hint of a task.
pub open spec fn task_size_hint(task: JsonView) -> Seq<char> {
    task.str_or("atomic_size_hint"@, "small"@)
}

/// What is printed for a task that is atomic.
pub open spec fn atomic_report(task_id: Seq<char>, hint: Seq<char>) -> JsonView {
    empty_object().with("error"@, JsonView::Text("already_atomic"@)).with(
        "parent_task"@,
        JsonView::Text(task_id),
    ).with("atomic_size_hint"@, JsonView::Text(hint)).with(
        "suggestion"@,
        JsonView::Text(atomic_advice()),
    )
}

/// Decides from the task whether it may be split.
pub fn gate(task_id: &str, task: &Json) -> (r: Gate)
    ensures
        match r {
            Gate::Refuse { printed, error } => {
                let hint = task_size_hint(task@);
                &&& is_atomic(hint)
                &&& printed@ == atomic_report(task_id@, hint)
                &&& error@ == "task "@ + task_id@ + " is atomic (atomic_size_hint=\""@ + hint
                    + "\") — refusing decompose"@
            },
            Gate::Proceed(p) => {
                &&& !is_atomic(task_size_hint(task@))
                &&& p.title@ == task@.str_or("title"@, "(untitled)"@)
                &&& opt_string(p.unit_id) == task@.str_at("unit_id"@)
                &&& p.size_hint@ == task_size_hint(task@)
                &&& p.policy@ == task@.str_or("decomposition_policy"@, "auto"@)
            },
        },
{
    let hint = task.str_or("atomic_size_hint", "small");
    if let AtomicGate::Refuse { size_hint, suggestion } = check_atomic_size_hint(hint) {
        let printed = object().with("error", text("already_atomic")).with(
            "parent_task",
            text(task_id),
        ).with("atomic_size_hint", text(size_hint.as_str())).with(
            "suggestion",
            text(suggestion.as_str()),
        );
        let error = cat5(
            "task ",
            task_id,
            " is atomic (atomic_size_hint=\"",
            size_hint.as_str(),
            "\") — refusing decompose",
        );
        return Gate::Refuse { printed, error };
    }
    let unit_id = match task.str_at("unit_id") {
        Some(u) => Some(u.to_owned()),
        None => None,
    };
    Gate::Proceed(
        Parent {
            title: task.str_or("title", "(untitled)").to_owned(),
            unit_id,
            size_hint: hint.to_owned(),
            policy: task.str_or("decomposition_policy", "auto").to_owned(),
        },
    )
}

/// The envelope in an answer: the resolved one, else the raw one.
pub open spec fn envelope_in(j: JsonView) -> Option<JsonView> {
    match j.get("resolved_envelope"@) {
        Some(e) => Some(e),
        None => j.get("raw_envelope"@),
    }
}

/// What asks for the task.
pub fn parent_request(task_id: &str) -> (r: Request)
    ensures
        r@ == getting("/tasks/"@ + task_id@),
{
    get(cat2("/tasks/", task_id))
}

/// The refusal of a task without an envelope.
pub fn no_envelope(task_id: &str) -> (r: String)
    ensures
        r@ == "task "@ + task_id@ + " has no envelope — `clawket task envelope set` first"@,
{
    cat3("task ", task_id, " has no envelope — `clawket task envelope set` first")
}

/// The envelope in an answer: the resolved one, else the raw one.
pub fn envelope_of(resp: &Json) -> (r: Option<&Json>)
    ensures
        match r {
            Some(e) => envelope_in(resp@) == Some(e@),
            None => envelope_in(resp@) is None,
        },
{
    match resp.get("resolved_envelope") {
        Some(e) => Some(e),
        None => resp.get("raw_envelope"),
    }
}

/// The suggestions for the task, within the bounds of the policy and of the
/// size.
pub open spec fn proposed(p: Parent, envelope: JsonView, args: DecomposeArgs) -> Seq<JsonView> {
    let all = suggestions_for(p.title@, criteria(envelope), args.strategy@);
    let n = policy_cap(envelope, all.len() as int);
    all.take(n).take(within_size(p.size_hint@, n))
}

/// What is wrong with the decomposition.
pub open spec fn all_violations(p: Parent, envelope: JsonView, args: DecomposeArgs) -> Seq<
    JsonView,
> {
    let total = criteria(envelope).len() as int;
    let first = policy_violations(envelope, total, args.max_depth as int);
    let second = match size_violation(p.size_hint@, policy_cap(envelope, total)) {
        Some(v) => first.push(v),
        None => first,
    };
    if p.policy@ == "manual"@ {
        second.push(
            violation(
                "decomposition_policy"@,
                "warning"@,
                "decomposition_policy=\"manual\" forces dry-run; --accept will not create sub-tasks. Re-author the plan with policy=\"auto\" to enable creation."@,
            ),
        )
    } else {
        second
    }
}

/// Some violation is an error.
pub open spec fn has_error(violations: Seq<JsonView>) -> bool {
    exists|i: int|
        0 <= i < violations.len() && (#[trigger] violations[i]).str_at("severity"@) == Some(
            "error"@,
        )
}

/// The preview of a decomposition.
pub open spec fn preview(p: Parent, envelope: JsonView, args: DecomposeArgs) -> JsonView {
    empty_object().with("parent_task"@, JsonView::Text(args.task_id@)).with(
        "parent_title"@,
        JsonView::Text(p.title@),
    ).with("strategy"@, JsonView::Text(args.strategy@)).with(
        "max_depth"@,
        json_int(args.max_depth as int),
    ).with("atomic_size_hint"@, JsonView::Text(p.size_hint@)).with(
        "decomposition_policy"@,
        JsonView::Text(p.policy@),
    ).with("suggestions"@, JsonView::Array(proposed(p, envelope, args))).with(
        "violations"@,
        JsonView::Array(all_violations(p, envelope, args)),
    )
}

/// What follows from a task, its envelope and the arguments.
pub enum Decision {
    /// The preview is printed, and after it the note on the error output.
    Preview { printed: Json, note: Option<String> },
    /// The preview is printed, and the command fails.
    Broken { printed: Json, error: String },
    /// The command fails.
    Fail(String),
    /// These sub-tasks are created; `dropped` are the positions that chose
    /// none.
    Create { accepted: Vec<Json>, violations: Vec<Json>, dropped: Vec<usize> },
}

/// What a decision is.
pub enum DecisionView {
    Preview { printed: JsonView, note: Option<Seq<char>> },
    Broken { printed: JsonView, error: Seq<char> },
    Fail(Seq<char>),
    Create { accepted: Seq<JsonView>, violations: Seq<JsonView>, dropped: Seq<usize> },
}

impl View for Decision {
    type V = DecisionView;

    open spec fn view(&self) -> DecisionView {
        match self {
            Decision::Preview { printed, note } => DecisionView::Preview {
                printed: printed@,
                note: opt_string(*note),
            },
            Decision::Broken { printed, error } => DecisionView::Broken {
                printed: printed@,
                error: error@,
            },
            Decision::Fail(e) => DecisionView::Fail(e@),
            Decision::Create { accepted, violations, dropped } => DecisionView::Create {
                accepted: views(accepted@),
                violations: views(violations@),
                dropped: dropped@,
            },
        }
    }
}

/// What follows from a task, its envelope and the arguments: a preview where
/// nothing is accepted, on a dry run and under the manual policy; no sub-task
/// where a violation is an error.
pub open spec fn decided(p: Parent, envelope: JsonView, args: DecomposeArgs) -> DecisionView {
    let manual = p.policy@ == "manual"@;
    let printed = preview(p, envelope, args);
    if args.dry_run || manual || args.accept is None {
        if has_error(all_violations(p, envelope, args)) {
            DecisionView::Broken {
                printed,
                error: "decomposition has errors — fix the envelope before --accept"@,
            }
        } else {
            DecisionView::Preview {
                printed,
                note: if args.accept is Some && manual {
                    Some(
                        "decomposition_policy=\"manual\" — `--accept` ignored, dry-run preview only."@,
                    )
                } else if args.accept is None {
                    Some(
                        "preview only — re-run with `--accept ALL` or `--accept 1,3` to create sub-tasks"@,
                    )
                } else {
                    None
                },
            }
        }
    } else if has_error(all_violations(p, envelope, args)) {
        DecisionView::Broken {
            printed,
            error: "decomposition has errors — refusing to create sub-tasks"@,
        }
    } else {
        match accepted(args.accept->0@) {
            Err(e) => DecisionView::Fail(e.message()),
            Ok(a) => {
                let taken = chosen(proposed(p, envelope, args), a);
                if taken.len() == 0 {
                    DecisionView::Fail(
                        "--accept produced no surviving suggestions (all out of range?)"@,
                    )
                } else {
                    DecisionView::Create {
                        accepted: taken,
                        violations: all_violations(p, envelope, args),
                        dropped: dropped(a, proposed(p, envelope, args).len() as int),
                    }
                }
            },
        }
    }
}

fn any_error(violations: &Vec<Json>) -> (r: bool)
    ensures
        r == has_error(views(violations@)),
{
    let mut i: usize = 0;
    let ghost all = views(violations@);
    while i < violations.len()
        invariant
            i <= violations@.len(),
            all == views(violations@),
            forall|k: int|
                0 <= k < i ==> (#[trigger] all[k]).str_at("severity"@) != Some("error"@),
        decreases violations@.len() - i,
    {
        assert(all[i as int] == violations@[i as int]@);
        if let Some(s) = violations[i].str_at("severity") {
            if same(s, "error") {
                return true;
            }
        }
        i = i + 1;
    }
    false
}

fn copies(v: &Vec<Json>) -> (r: Vec<Json>)
    ensures
        views(r@) == views(v@),
{
    let mut out: Vec<Json> = Vec::new();
    let mut i: usize = 0;
    while i < v.len()
        invariant
            i <= v@.len(),
            out@.len() == i,
            forall|k: int| 0 <= k < i ==> (#[trigger] out@[k])@ == v@[k]@,
        decreases v@.len() - i,
    {
        out.push(v[i].copy());
        i = i + 1;
    }
    assert(views(out@) =~= views(v@));
    out
}

/// What follows from a task, its envelope and the arguments.
pub fn decide(p: &Parent, envelope: &Json, args: &DecomposeArgs) -> (r: Decision)
    ensures
        r@ == decided(*p, envelope@, *args),
{
    let found = extract_success_criteria(envelope);
    let mut suggestions = build_suggestions(p.title.as_str(), &found, args.strategy.as_str());
    let ghost all = suggestions_for(p.title@, criteria(envelope@), args.strategy@);
    assert(views(suggestions@).len() == all.len());
    let ghost s0 = suggestions@;
    let mut violations = check_policy_violations(envelope, &mut suggestions, args.max_depth);
    let ghost s1 = suggestions@;
    let ghost n = policy_cap(envelope@, all.len() as int);
    assert(views(s1) =~= all.take(n));
    if let Some(v) = apply_size_cap(&mut suggestions, p.size_hint.as_str()) {
        let ghost before = violations@;
        violations.push(v);
        assert(views(violations@) =~= views(before).push(v@));
    }
    assert(views(suggestions@) =~= proposed(*p, envelope@, *args));
    let manual = is_manual_policy(p.policy.as_str());
    if manual {
        let v = object().with("field", text("decomposition_policy")).with(
            "severity",
            text("warning"),
        ).with(
            "message",
            text(
                "decomposition_policy=\"manual\" forces dry-run; --accept will not create sub-tasks. Re-author the plan with policy=\"auto\" to enable creation.",
            ),
        );
        let ghost before = violations@;
        violations.push(v);
        assert(views(violations@) =~= views(before).push(v@));
    }
    assert(views(violations@) == all_violations(*p, envelope@, *args));
    let printed = object().with("parent_task", text(args.task_id.as_str())).with(
        "parent_title",
        text(p.title.as_str()),
    ).with("strategy", text(args.strategy.as_str())).with(
        "max_depth",
        number(args.max_depth as u64),
    ).with("atomic_size_hint", text(p.size_hint.as_str())).with(
        "decomposition_policy",
        text(p.policy.as_str()),
    ).with("suggestions", array(copies(&suggestions))).with(
        "violations",
        array(copies(&violations)),
    );
    let broken = any_error(&violations);
    match &args.accept {
        Some(raw) => {
            if args.dry_run || manual {
                if broken {
                    return Decision::Broken {
                        printed,
                        error:
                            "decomposition has errors — fix the envelope before --accept".to_owned(),
                    };
                }
                let note = if manual {
                    Some(
                        "decomposition_policy=\"manual\" — `--accept` ignored, dry-run preview only.".to_owned(),
                    )
                } else {
                    None
                };
                return Decision::Preview { printed, note };
            }
            if broken {
                return Decision::Broken {
                    printed,
                    error: "decomposition has errors — refusing to create sub-tasks".to_owned(),
                };
            }
            match parse_accept(raw.as_str()) {
                Err(e) => Decision::Fail(e.message()),
                Ok(acc) => {
                    let beyond = dropped_positions(&acc, suggestions.len());
                    assert(views(suggestions@).len() == suggestions@.len());
                    let taken = apply_accept(suggestions, &acc);
                    assert(views(taken@).len() == taken@.len());
                    if taken.len() == 0 {
                        return Decision::Fail(
                            "--accept produced no surviving suggestions (all out of range?)".to_owned(),
                        );
                    }
                    Decision::Create { accepted: taken, violations, dropped: beyond }
                },
            }
        },
        None => {
            if broken {
                return Decision::Broken {
                    printed,
                    error:
                        "decomposition has errors — fix the envelope before --accept".to_owned(),
                };
            }
            Decision::Preview {
                printed,
                note: Some(
                    "preview only — re-run with `--accept ALL` or `--accept 1,3` to create sub-tasks".to_owned(),
                ),
            }
        },
    }
}

/// The body that creates a sub-task.
pub open spec fn child_body(
    task_id: Seq<char>,
    unit_id: Option<Seq<char>>,
    s: JsonView,
) -> JsonView {
    empty_object().with("title"@, JsonView::Text(s.str_or("title"@, ""@))).with(
        "body"@,
        JsonView::Text(s.str_or("rationale"@, ""@)),
    ).with("parent_task_id"@, JsonView::Text(task_id)).with_text("unit_id"@, unit_id)
}

/// The request that creates the sub-task of a suggestion.
pub open spec fn child_asked(
    task_id: Seq<char>,
    unit_id: Option<Seq<char>>,
    s: JsonView,
) -> RequestView {
    posting("/tasks"@, child_body(task_id, unit_id, s))
}

/// The request that creates the sub-task of a suggestion.
pub fn child_request(task_id: &str, unit_id: Option<&str>, suggestion: &Json) -> (r: Request)
    ensures
        r@ == child_asked(task_id@, opt_text(unit_id), suggestion@),
{
    let body = object().with("title", text(suggestion.str_or("title", ""))).with(
        "body",
        text(suggestion.str_or("rationale", "")),
    ).with("parent_task_id", text(task_id)).with_text("unit_id", unit_id);
    post("/tasks".to_owned(), body)
}

/// What is noted of a sub-task that was created.
pub open spec fn created_entry(resp: JsonView, s: JsonView) -> JsonView {
    empty_object().with("id"@, resp.member("id"@)).with(
        "ticket"@,
        resp.member("ticket"@),
    ).with("title"@, JsonView::Text(s.str_or("title"@, ""@)))
}

/// What is noted of a sub-task that was created.
pub fn note_created(resp: &Json, suggestion: &Json) -> (r: Json)
    ensures
        r@ == created_entry(resp@, suggestion@),
{
    object().with("id", resp.member("id")).with("ticket", resp.member("ticket")).with(
        "title",
        text(suggestion.str_or("title", "")),
    )
}

/// A list of positions.
pub open spec fn position_list(v: Seq<usize>) -> JsonView {
    JsonView::Array(v.map(|i: int, n: usize| json_int(n as int)))
}

/// What is printed when all sub-tasks were created. The positions that chose
/// nothing are told, where there are any.
pub open spec fn summary_json(
    task_id: Seq<char>,
    created: Seq<JsonView>,
    violations: Seq<JsonView>,
    dropped: Seq<usize>,
) -> JsonView {
    let j = empty_object().with("parent_task"@, JsonView::Text(task_id)).with(
        "created"@,
        JsonView::Array(created),
    ).with("violations"@, JsonView::Array(violations));
    if dropped.len() > 0 {
        j.with("dropped_indices"@, position_list(dropped))
    } else {
        j
    }
}

/// What is printed when all sub-tasks were created.
pub fn created_summary(
    task_id: &str,
    created: Vec<Json>,
    violations: Vec<Json>,
    dropped: &Vec<usize>,
) -> (r: Json)
    ensures
        r@ == summary_json(task_id@, views(created@), views(violations@), dropped@),
{
    let j = object().with("parent_task", text(task_id)).with("created", array(created)).with(
        "violations",
        array(violations),
    );
    if dropped.len() == 0 {
        return j;
    }
    let mut list: Vec<Json> = Vec::new();
    let mut i: usize = 0;
    while i < dropped.len()
        invariant
            i <= dropped@.len(),
            list@.len() == i,
            forall|k: int| 0 <= k < i ==> (#[trigger] list@[k])@ == json_int(dropped@[k] as int),
        decreases dropped@.len() - i,
    {
        list.push(number(dropped[i] as u64));
        i = i + 1;
    }
    assert(JsonView::Array(views(list@)) == position_list(dropped@)) by {
        assert(views(list@) =~= dropped@.map(|i: int, n: usize| json_int(n as int)));
    }
    j.with("dropped_indices", array(list))
}

/// Nothing is created on a dry run, under the manual policy, without
/// `--accept`, or where a violation is an error.
pub proof fn creation_is_guarded(p: Parent, envelope: JsonView, args: DecomposeArgs)
    ensures
        decided(p, envelope, args) is Create ==> !args.dry_run && p.policy@ != "manual"@
            && args.accept is Some && !has_error(all_violations(p, envelope, args)),
{
}

/// The smaller of the two bounds wins: there are never more suggestions, nor
/// more sub-tasks, than the policy's `max_subtasks` or the bound of the size.
pub proof fn smaller_bound_wins(p: Parent, envelope: JsonView, args: DecomposeArgs)
    requires
        criteria(envelope).len() <= usize::MAX,
    ensures
        ({
            let n = proposed(p, envelope, args).len();
            &&& envelope.get("decomposition_policy"@) matches Some(policy) ==> policy.u64_at(
                "max_subtasks"@,
            ) matches Some(max) ==> n <= max
            &&& crate::accept::size_cap(p.size_hint@) matches Some(cap) ==> n <= cap
            &&& n <= criteria(envelope).len()
        }),
        decided(p, envelope, args) matches DecisionView::Create { accepted, .. }
            ==> accepted.len() <= proposed(p, envelope, args).len(),
{
    if decided(p, envelope, args) is Create {
        crate::accept::choosing_takes_only_what_is_listed(
            proposed(p, envelope, args),
            accepted(args.accept->0@)->Ok_0,
        );
    }
}

} // verus!
