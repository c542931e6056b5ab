//! Sub-tasks proposed from a task's envelope.

use vstd::prelude::*;
use crate::json::{
    array_view, empty_object, json_int, list_of_texts, number, object, text, text_list, views, Json,
    JsonView,
};
use crate::scan::{lines, lines_of, run_length, trim, trimmed};
use crate::text::{cat2, cat3, cat4, chars_of, dec, decimal, same, text_between, texts, texts_push};

verus! {

/// The marks that stand in front of a bullet.
pub open spec fn is_bullet(c: char) -> bool {
    c == '-' || c == '*' || c == ' ' || c == '\t'
}

/// A line without the bullet in front and without white space around it.
pub open spec fn bullet_text(line: Seq<char>) -> Seq<char> {
    trimmed(line.skip(run_length(line, |c: char| is_bullet(c))))
}

/// The texts among the first `n` items, trimmed, without the blank ones.
pub open spec fn listed_criteria(a: Seq<JsonView>, n: nat) -> Seq<Seq<char>>
    decreases n,
{
    if n == 0 {
        Seq::empty()
    } else {
        let before = listed_criteria(a, (n - 1) as nat);
        match a[n - 1] {
            JsonView::Text(s) => if trimmed(s).len() > 0 {
                before.push(trimmed(s))
            } else {
                before
            },
            _ => before,
        }
    }
}

/// The bullets among the first `n` lines, without the blank ones.
pub open spec fn bulleted_criteria(ls: Seq<Seq<char>>, n: nat) -> Seq<Seq<char>>
    decreases n,
{
    if n == 0 {
        Seq::empty()
    } else {
        let before = bulleted_criteria(ls, (n - 1) as nat);
        if bullet_text(ls[n - 1]).len() > 0 {
            before.push(bullet_text(ls[n - 1]))
        } else {
            before
        }
    }
}

/// The success criteria of an envelope: a list of texts, or the lines of a
/// text with bullets.
pub open spec fn criteria(envelope: JsonView) -> Seq<Seq<char>> {
    match envelope.get("success_criteria"@) {
        Some(JsonView::Array(a)) => listed_criteria(a, a.len()),
        Some(JsonView::Text(s)) => bulleted_criteria(lines_of(s), lines_of(s).len()),
        _ => Seq::empty(),
    }
}

fn bullet_line(line: &str) -> (r: String)
    ensures
        r@ == bullet_text(line@),
{
    let v = chars_of(line);
    let mut i: usize = 0;
    let ghost p = |c: char| is_bullet(c);
    assert(v@.skip(0) =~= v@);
    while i < v.len() && (v[i] == '-' || v[i] == '*' || v[i] == ' ' || v[i] == '\t')
        invariant
            i <= v@.len(),
            v@ == line@,
            p == (|c: char| is_bullet(c)),
            run_length(line@, p) == i + run_length(v@.skip(i as int), p),
        decreases v@.len() - i,
    {
        assert(v@.skip(i as int).skip(1) =~= v@.skip(i + 1));
        i = i + 1;
    }
    let rest = text_between(&v, i, v.len());
    assert(rest@ =~= line@.skip(run_length(line@, p)));
    trim(rest.as_str())
}

/// The success criteria of an envelope.
pub fn extract_success_criteria(envelope: &Json) -> (r: Vec<String>)
    ensures
        texts(r@) == criteria(envelope@),
{
    let mut out: Vec<String> = Vec::new();
    assert(texts(out@) =~= Seq::empty());
    match envelope.get("success_criteria") {
        Some(Json::Array(a)) => {
            proof {
                array_view(*a);
            }
            let mut i: usize = 0;
            while i < a.len()
                invariant
                    i <= a@.len(),
                    texts(out@) == listed_criteria(views(a@), i as nat),
                decreases a@.len() - i,
            {
                assert(views(a@)[i as int] == a@[i as int]@);
                if let Some(s) = a[i].as_str() {
                    let item = trim(s);
                    if !item.as_str().is_empty() {
                        proof {
                            texts_push(out@, item);
                        }
                        out.push(item);
                    }
                }
                i = i + 1;
            }
        },
        Some(Json::Text(s)) => {
            let ls = lines(s.as_str());
            let mut i: usize = 0;
            while i < ls.len()
                invariant
                    i <= ls@.len(),
                    texts(out@) == bulleted_criteria(texts(ls@), i as nat),
                decreases ls@.len() - i,
            {
                let item = bullet_line(ls[i].as_str());
                if !item.as_str().is_empty() {
                    proof {
                        texts_push(out@, item);
                    }
                    out.push(item);
                }
                i = i + 1;
            }
            assert(texts(ls@).len() == ls@.len());
        },
        _ => {},
    }
    out
}

/// A text cut to `max` characters, with an ellipsis where something was cut.
pub open spec fn truncated(s: Seq<char>, max: int) -> Seq<char> {
    if s.len() > max {
        s.take(max) + "…"@
    } else {
        s
    }
}

/// A text cut to `max` characters, with an ellipsis where something was cut.
pub fn truncate(s: &str, max: usize) -> (r: String)
    ensures
        r@ == truncated(s@, max as int),
{
    let v = chars_of(s);
    if v.len() > max {
        let cut = text_between(&v, 0, max);
        cat2(cut.as_str(), "…")
    } else {
        s.to_owned()
    }
}

/// Cutting leaves at most one character more than asked for, leaves a short
/// text alone, and cutting again changes nothing.
pub proof fn truncation_bounds(s: Seq<char>, max: int)
    requires
        max >= 0,
    ensures
        truncated(s, max).len() <= max + 1,
        s.len() <= max ==> truncated(s, max) == s,
        truncated(truncated(s, max), max) == truncated(s, max),
{
    reveal_strlit("…");
    if s.len() > max {
        let t = truncated(s, max);
        assert(t.take(max) =~= s.take(max));
    }
}

/// What a strategy says about the scope of a sub-task.
pub open spec fn scope_hint(strategy: Seq<char>) -> Seq<char> {
    if strategy == "by-repo"@ {
        "scope by-repo (cli/daemon/web 분리)"@
    } else if strategy == "scoped"@ {
        "scope by surface (api|ui|infra)"@
    } else {
        "auto"@
    }
}

/// The members of the envelope that a sub-task inherits.
pub open spec fn inherited_keys() -> JsonView {
    text_list(seq!["intent"@, "prompt_template"@, "decomposition_policy"@])
}

/// The suggestion for the criterion at position `i`.
pub open spec fn suggestion(
    parent_title: Seq<char>,
    line: Seq<char>,
    i: int,
    strategy: Seq<char>,
) -> JsonView {
    empty_object().with("idx"@, json_int(i)).with(
        "title"@,
        JsonView::Text(parent_title + " — "@ + truncated(line, 80)),
    ).with(
        "rationale"@,
        JsonView::Text(
            "success_criteria #"@ + dec((i + 1) as nat) + ": "@ + truncated(line, 120),
        ),
    ).with("scope_hint"@, JsonView::Text(scope_hint(strategy))).with(
        "inherited_envelope_keys"@,
        inherited_keys(),
    )
}

/// One suggestion for each criterion, in their order.
pub open spec fn suggestions_for(
    parent_title: Seq<char>,
    lines: Seq<Seq<char>>,
    strategy: Seq<char>,
) -> Seq<JsonView> {
    Seq::new(lines.len(), |i: int| suggestion(parent_title, lines[i], i, strategy))
}

fn inherited() -> (r: Json)
    ensures
        r@ == inherited_keys(),
{
    let mut keys: Vec<String> = Vec::new();
    keys.push("intent".to_owned());
    keys.push("prompt_template".to_owned());
    keys.push("decomposition_policy".to_owned());
    assert(texts(keys@) =~= seq!["intent"@, "prompt_template"@, "decomposition_policy"@]);
    list_of_texts(&keys)
}

/// One suggestion for each criterion, in their order.
pub fn build_suggestions(parent_title: &str, criteria: &Vec<String>, strategy: &str) -> (r: Vec<
    Json,
>)
    ensures
        views(r@) == suggestions_for(parent_title@, texts(criteria@), strategy@),
{
    let hint = if same(strategy, "by-repo") {
        "scope by-repo (cli/daemon/web 분리)"
    } else if same(strategy, "scoped") {
        "scope by surface (api|ui|infra)"
    } else {
        "auto"
    };
    let mut out: Vec<Json> = Vec::new();
    let mut i: usize = 0;
    while i < criteria.len()
        invariant
            i <= criteria@.len(),
            hint@ == scope_hint(strategy@),
            out@.len() == i,
            forall|k: int|
                0 <= k < i ==> (#[trigger] out@[k])@ == suggestion(
                    parent_title@,
                    criteria@[k]@,
                    k,
                    strategy@,
                ),
        decreases criteria@.len() - i,
    {
        let line = criteria[i].as_str();
        let title_cut = truncate(line, 80);
        let reason_cut = truncate(line, 120);
        let title = cat3(parent_title, " — ", title_cut.as_str());
        let nth = decimal((i + 1) as u64);
        let rationale = cat4("success_criteria #", nth.as_str(), ": ", reason_cut.as_str());
        let item = object().with("idx", number(i as u64)).with("title", text(title.as_str())).with(
            "rationale",
            text(rationale.as_str()),
        ).with("scope_hint", text(hint)).with("inherited_envelope_keys", inherited());
        out.push(item);
        i = i + 1;
    }
    assert(views(out@) =~= suggestions_for(parent_title@, texts(criteria@), strategy@));
    out
}

/// A violation of the rules for decomposition.
pub open spec fn violation(
    field: Seq<char>,
    severity: Seq<char>,
    message: Seq<char>,
) -> JsonView {
    empty_object().with("field"@, JsonView::Text(field)).with(
        "severity"@,
        JsonView::Text(severity),
    ).with("message"@, JsonView::Text(message))
}

fn new_violation(field: &str, severity: &str, message: &str) -> (r: Json)
    ensures
        r@ == violation(field@, severity@, message@),
{
    object().with("field", text(field)).with("severity", text(severity)).with(
        "message",
        text(message),
    )
}

/// How many of `n` suggestions the policy of the envelope leaves.
pub open spec fn policy_cap(envelope: JsonView, n: int) -> int {
    match envelope.get("decomposition_policy"@) {
        Some(p) => match p.u64_at("max_subtasks"@) {
            Some(max) => if n > max {
                max
            } else {
                n
            },
            None => n,
        },
        None => n,
    }
}

/// Too few suggestions for the policy.
pub open spec fn too_few(p: JsonView, n: int) -> Seq<JsonView> {
    match p.u64_at("min_subtasks"@) {
        Some(min) => if n < min {
            seq![
                violation(
                    "min_subtasks"@,
                    "warning"@,
                    "only "@ + dec(n as nat) + " suggestions, min_subtasks="@ + dec(min as nat),
                ),
            ]
        } else {
            Seq::empty()
        },
        None => Seq::empty(),
    }
}

/// Too many suggestions for the policy.
pub open spec fn too_many(p: JsonView, n: int) -> Seq<JsonView> {
    match p.u64_at("max_subtasks"@) {
        Some(max) => if n > max {
            seq![
                violation(
                    "max_subtasks"@,
                    "warning"@,
                    dec(n as nat) + " suggestions exceed max_subtasks="@ + dec(max as nat),
                ),
            ]
        } else {
            Seq::empty()
        },
        None => Seq::empty(),
    }
}

/// A deeper decomposition than the policy allows.
pub open spec fn too_deep(p: JsonView, max_depth: int) -> Seq<JsonView> {
    match p.u64_at("max_depth"@) {
        Some(limit) => if max_depth > limit {
            seq![
                violation(
                    "max_depth"@,
                    "error"@,
                    "requested max_depth="@ + dec(max_depth as nat) + " exceeds policy max_depth="@
                        + dec(limit as nat),
                ),
            ]
        } else {
            Seq::empty()
        },
        None => Seq::empty(),
    }
}

/// Nothing to suggest.
pub open spec fn nothing_left(n: int) -> Seq<JsonView> {
    if n == 0 {
        seq![
            violation(
                "success_criteria"@,
                "error"@,
                "no parseable success_criteria — cannot derive subtasks. Add a bullet list under success_criteria."@,
            ),
        ]
    } else {
        Seq::empty()
    }
}

/// The violations of the envelope's policy by `n` suggestions.
pub open spec fn policy_violations(envelope: JsonView, n: int, max_depth: int) -> Seq<JsonView> {
    (match envelope.get("decomposition_policy"@) {
        Some(p) => too_few(p, n) + too_many(p, n) + too_deep(p, max_depth),
        None => seq![
            violation(
                "decomposition_policy"@,
                "warning"@,
                "no decomposition_policy on resolved envelope — using default"@,
            ),
        ],
    }) + nothing_left(policy_cap(envelope, n))
}

fn push_json(out: &mut Vec<Json>, x: Json)
    ensures
        views(final(out)@) == views(old(out)@).push(x@),
{
    let ghost v = x@;
    let ghost before = out@;
    out.push(x);
    assert(views(out@) =~= views(before).push(v));
}

/// The violations of the envelope's policy. Suggestions beyond its
/// `max_subtasks` are dropped.
pub fn check_policy_violations(
    envelope: &Json,
    suggestions: &mut Vec<Json>,
    max_depth: u32,
) -> (r: Vec<Json>)
    ensures
        views(r@) == policy_violations(
            envelope@,
            old(suggestions)@.len() as int,
            max_depth as int,
        ),
        final(suggestions)@ == old(suggestions)@.take(
            policy_cap(envelope@, old(suggestions)@.len() as int),
        ),
{
    let mut out: Vec<Json> = Vec::new();
    let ghost given = suggestions@;
    let count: u64 = suggestions.len() as u64;
    assert(views(out@) =~= Seq::empty());
    assert(given.take(given.len() as int) =~= given);
    match envelope.get("decomposition_policy") {
        Some(p) => {
            if let Some(min) = p.u64_at("min_subtasks") {
                if count < min {
                    let n = decimal(count);
                    let m = decimal(min);
                    let msg = cat4("only ", n.as_str(), " suggestions, min_subtasks=", m.as_str());
                    push_json(&mut out, new_violation("min_subtasks", "warning", msg.as_str()));
                }
            }
            assert(views(out@) =~= too_few(p@, count as int));
            if let Some(max) = p.u64_at("max_subtasks") {
                if count > max {
                    let n = decimal(count);
                    let m = decimal(max);
                    let msg = cat3(n.as_str(), " suggestions exceed max_subtasks=", m.as_str());
                    push_json(&mut out, new_violation("max_subtasks", "warning", msg.as_str()));
                    suggestions.truncate(max as usize);
                }
            }
            assert(views(out@) =~= too_few(p@, count as int) + too_many(p@, count as int));
            assert(suggestions@ =~= given.take(policy_cap(envelope@, given.len() as int)));
            if let Some(limit) = p.u64_at("max_depth") {
                if max_depth as u64 > limit {
                    let n = decimal(max_depth as u64);
                    let m = decimal(limit);
                    let msg = cat4(
                        "requested max_depth=",
                        n.as_str(),
                        " exceeds policy max_depth=",
                        m.as_str(),
                    );
                    push_json(&mut out, new_violation("max_depth", "error", msg.as_str()));
                }
            }
            assert(views(out@) =~= too_few(p@, count as int) + too_many(p@, count as int)
                + too_deep(p@, max_depth as int));
        },
        None => {
            push_json(
                &mut out,
                new_violation(
                    "decomposition_policy",
                    "warning",
                    "no decomposition_policy on resolved envelope — using default",
                ),
            );
            assert(views(out@) =~= seq![
                violation(
                    "decomposition_policy"@,
                    "warning"@,
                    "no decomposition_policy on resolved envelope — using default"@,
                ),
            ]);
        },
    }
    let ghost first = views(out@);
    if suggestions.len() == 0 {
        push_json(
            &mut out,
            new_violation(
                "success_criteria",
                "error",
                "no parseable success_criteria — cannot derive subtasks. Add a bullet list under success_criteria.",
            ),
        );
    }
    assert(views(out@) =~= first + nothing_left(policy_cap(envelope@, given.len() as int)));
    out
}

} // verus!
