//! The parts of the health report on the tiers of the tasks.

use vstd::prelude::*;
use crate::agent::Agent;
use crate::doctor_checks::Severity;
use crate::doctor_report::{blank, Report, ReportView};
use crate::json::{opt_text, views, Json, JsonView};
use crate::query::{percent_encoded, urlencoding};
use crate::request::{get, getting, Request, RequestView};
use crate::text::{
    before, cat2, cat3, cat5, dec, decimal, lex_irreflexive, lex_lt, lex_total, lex_transitive,
    same, texts,
};

verus! {

/// The question for the tasks, of one plan where one is given.
pub open spec fn tasks_asked(plan: Option<Seq<char>>) -> RequestView {
    match plan {
        Some(p) => getting("/tasks?plan_id="@ + percent_encoded(p)),
        None => getting("/tasks"@),
    }
}

/// The question for the tasks, of one plan where one is given.
pub fn tasks_request(plan: Option<&str>) -> (r: Request)
    ensures
        r@ == tasks_asked(opt_text(plan)),
{
    match plan {
        Some(p) => {
            let id = urlencoding(p);
            get(cat2("/tasks?plan_id=", id.as_str()))
        },
        None => get("/tasks".to_owned()),
    }
}

/// The tier of a task.
pub open spec fn tier_of(task: JsonView) -> Seq<char> {
    task.str_or("tier"@, "none"@)
}

/// Whether a task says why it was escalated.
pub open spec fn has_reason(task: JsonView) -> bool {
    match task.get("escalation_reason"@) {
        None => false,
        Some(JsonView::Null) => false,
        Some(JsonView::Text(s)) => s.len() > 0,
        Some(_) => true,
    }
}

fn gives_reason(task: &Json) -> (r: bool)
    ensures
        r == has_reason(task@),
{
    match task.get("escalation_reason") {
        None => false,
        Some(v) => {
            if v.is_null() {
                return false;
            }
            match v.as_str() {
                Some(s) => {
                    let e = same(s, "");
                    proof {
                        reveal_strlit("");
                        if s@.len() == 0 {
                            assert(s@ =~= ""@);
                        }
                    }
                    !e
                },
                None => true,
            }
        },
    }
}

/// How many of the first `n` tasks have the tier.
pub open spec fn in_tier(tasks: Seq<JsonView>, tier: Seq<char>, n: nat) -> nat
    decreases n,
{
    if n == 0 {
        0
    } else {
        in_tier(tasks, tier, (n - 1) as nat) + if tier_of(tasks[n - 1]) == tier {
            1nat
        } else {
            0nat
        }
    }
}

/// How many of the first `n` tasks have the tier and say why they were
/// escalated.
pub open spec fn explained_in_tier(tasks: Seq<JsonView>, tier: Seq<char>, n: nat) -> nat
    decreases n,
{
    if n == 0 {
        0
    } else {
        explained_in_tier(tasks, tier, (n - 1) as nat) + if tier_of(tasks[n - 1]) == tier
            && has_reason(tasks[n - 1]) {
            1nat
        } else {
            0nat
        }
    }
}

/// The tasks of one tier.
pub struct TierGroup {
    pub tier: String,
    pub total: usize,
    pub escalated: usize,
}

/// What the tasks of one tier are.
#[verifier::ext_equal]
pub struct TierGroupView {
    pub tier: Seq<char>,
    pub total: nat,
    pub escalated: nat,
}

impl View for TierGroup {
    type V = TierGroupView;

    open spec fn view(&self) -> TierGroupView {
        TierGroupView {
            tier: self.tier@,
            total: self.total as nat,
            escalated: self.escalated as nat,
        }
    }
}

/// What a list of groups holds.
pub open spec fn group_views(g: Seq<TierGroup>) -> Seq<TierGroupView> {
    Seq::new(g.len(), |i: int| g[i]@)
}

/// Whether these are the tiers of the first `n` tasks: each once, in order,
/// with the numbers of its tasks.
pub open spec fn is_grouping(g: Seq<TierGroupView>, tasks: Seq<JsonView>, n: nat) -> bool {
    &&& forall|i: int, j: int|
        0 <= i < j < g.len() ==> lex_lt(#[trigger] g[i].tier, #[trigger] g[j].tier)
    &&& forall|i: int|
        0 <= i < g.len() ==> (#[trigger] g[i]).total == in_tier(tasks, g[i].tier, n) && g[i].total
            > 0 && g[i].escalated == explained_in_tier(tasks, g[i].tier, n)
    &&& forall|k: int| 0 <= k < n ==> lists(g, tier_of(#[trigger] tasks[k]))
}

/// Whether the tier is among the groups.
pub open spec fn lists(g: Seq<TierGroupView>, tier: Seq<char>) -> bool {
    exists|i: int| 0 <= i < g.len() && (#[trigger] g[i]).tier == tier
}

/// The tiers of the tasks.
pub open spec fn groups_of(tasks: Seq<JsonView>) -> Seq<TierGroupView> {
    choose|g: Seq<TierGroupView>| is_grouping(g, tasks, tasks.len())
}

proof fn in_tier_has_witness(tasks: Seq<JsonView>, tier: Seq<char>, n: nat)
    ensures
        in_tier(tasks, tier, n) <= n,
        explained_in_tier(tasks, tier, n) <= in_tier(tasks, tier, n),
        in_tier(tasks, tier, n) > 0 <==> exists|k: int|
            0 <= k < n && tier_of(#[trigger] tasks[k]) == tier,
    decreases n,
{
    if n > 0 {
        in_tier_has_witness(tasks, tier, (n - 1) as nat);
        if in_tier(tasks, tier, (n - 1) as nat) > 0 {
            let k = choose|k: int| 0 <= k < n - 1 && tier_of(#[trigger] tasks[k]) == tier;
            assert(0 <= k < n && tier_of(tasks[k]) == tier);
        }
        if tier_of(tasks[n - 1]) == tier {
            assert(0 <= n - 1 < n && tier_of(tasks[n - 1]) == tier);
        }
    }
}

proof fn same_tiers_same_order(a: Seq<TierGroupView>, b: Seq<TierGroupView>)
    requires
        forall|i: int, j: int|
            0 <= i < j < a.len() ==> lex_lt(#[trigger] a[i].tier, #[trigger] a[j].tier),
        forall|i: int, j: int|
            0 <= i < j < b.len() ==> lex_lt(#[trigger] b[i].tier, #[trigger] b[j].tier),
        forall|i: int| 0 <= i < a.len() ==> lists(b, (#[trigger] a[i]).tier),
        forall|i: int| 0 <= i < b.len() ==> lists(a, (#[trigger] b[i]).tier),
    ensures
        a.len() == b.len(),
        forall|i: int| 0 <= i < a.len() ==> (#[trigger] a[i]).tier == b[i].tier,
    decreases a.len(),
{
    if a.len() == 0 {
        if b.len() > 0 {
            assert(lists(a, b[0].tier));
        }
    } else if b.len() == 0 {
        assert(lists(b, a[0].tier));
    } else {
        let x = a.last();
        let y = b.last();
        assert(lists(b, a[a.len() - 1].tier));
        assert(lists(a, b[b.len() - 1].tier));
        let j = choose|j: int| 0 <= j < b.len() && (#[trigger] b[j]).tier == x.tier;
        let i = choose|i: int| 0 <= i < a.len() && (#[trigger] a[i]).tier == y.tier;
        if x.tier != y.tier {
            assert(lex_lt(b[j].tier, b[b.len() - 1].tier));
            assert(lex_lt(a[i].tier, a[a.len() - 1].tier));
            lex_transitive(x.tier, y.tier, x.tier);
            lex_irreflexive(x.tier);
        }
        let a1 = a.drop_last();
        let b1 = b.drop_last();
        assert forall|k: int| 0 <= k < a1.len() implies lists(b1, (#[trigger] a1[k]).tier) by {
            assert(lists(b, a[k].tier));
            let m = choose|m: int| 0 <= m < b.len() && (#[trigger] b[m]).tier == a[k].tier;
            assert(lex_lt(a[k].tier, a[a.len() - 1].tier));
            lex_irreflexive(x.tier);
            assert(m < b.len() - 1);
            assert(b1[m].tier == a1[k].tier);
        }
        assert forall|k: int| 0 <= k < b1.len() implies lists(a1, (#[trigger] b1[k]).tier) by {
            assert(lists(a, b[k].tier));
            let m = choose|m: int| 0 <= m < a.len() && (#[trigger] a[m]).tier == b[k].tier;
            assert(lex_lt(b[k].tier, b[b.len() - 1].tier));
            lex_irreflexive(x.tier);
            assert(m < a.len() - 1);
            assert(a1[m].tier == b1[k].tier);
        }
        same_tiers_same_order(a1, b1);
        assert forall|k: int| 0 <= k < a.len() implies (#[trigger] a[k]).tier == b[k].tier by {
            if k < a.len() - 1 {
                assert(a1[k].tier == b1[k].tier);
            }
        }
    }
}

/// Tasks are grouped by their tiers in one way only.
pub proof fn grouping_is_unique(a: Seq<TierGroupView>, b: Seq<TierGroupView>, tasks: Seq<JsonView>)
    requires
        is_grouping(a, tasks, tasks.len()),
        is_grouping(b, tasks, tasks.len()),
    ensures
        a == b,
{
    let n = tasks.len();
    assert forall|i: int| 0 <= i < a.len() implies lists(b, (#[trigger] a[i]).tier) by {
        in_tier_has_witness(tasks, a[i].tier, n);
        let k = choose|k: int| 0 <= k < n && tier_of(#[trigger] tasks[k]) == a[i].tier;
        assert(lists(b, tier_of(tasks[k])));
    }
    assert forall|i: int| 0 <= i < b.len() implies lists(a, (#[trigger] b[i]).tier) by {
        in_tier_has_witness(tasks, b[i].tier, n);
        let k = choose|k: int| 0 <= k < n && tier_of(#[trigger] tasks[k]) == b[i].tier;
        assert(lists(a, tier_of(tasks[k])));
    }
    same_tiers_same_order(a, b);
    assert(a =~= b);
}

fn count_task(groups: Vec<TierGroup>, tasks: &Vec<Json>, k: usize) -> (r: Vec<TierGroup>)
    requires
        k < tasks@.len(),
        is_grouping(group_views(groups@), views(tasks@), k as nat),
    ensures
        is_grouping(group_views(r@), views(tasks@), (k + 1) as nat),
{
    let ghost all = views(tasks@);
    let mut groups = groups;
    let ghost old_views = group_views(groups@);
    let tier = tasks[k].str_or("tier", "none");
    let reason = gives_reason(&tasks[k]);
    assert(all[k as int] == tasks@[k as int]@);
    let mut i: usize = 0;
    while i < groups.len() && before(groups[i].tier.as_str(), tier)
        invariant
            i <= groups@.len(),
            old_views == group_views(groups@),
            forall|m: int| 0 <= m < i ==> lex_lt((#[trigger] old_views[m]).tier, tier@),
        decreases groups@.len() - i,
    {
        assert(old_views[i as int].tier == groups@[i as int].tier@);
        i = i + 1;
    }
    if i < groups.len() && same(groups[i].tier.as_str(), tier) {
        let g = &groups[i];
        proof {
            assert(old_views[i as int] == groups@[i as int]@);
            in_tier_has_witness(all, tier@, k as nat);
            assert(old_views[i as int].total <= k < tasks.len());
        }
        let name = g.tier.clone();
        let new = TierGroup {
            tier: name,
            total: g.total + 1,
            escalated: if reason {
                g.escalated + 1
            } else {
                g.escalated
            },
        };
        groups.set(i, new);
        proof {
            let now = group_views(groups@);
            let n1 = (k + 1) as nat;
            assert forall|m: int| 0 <= m < now.len() implies (#[trigger] now[m]).tier
                == old_views[m].tier by {}
            assert forall|a: int, b: int| 0 <= a < b < now.len() implies lex_lt(
                #[trigger] now[a].tier,
                #[trigger] now[b].tier,
            ) by {
                assert(lex_lt(old_views[a].tier, old_views[b].tier));
            }
            assert forall|m: int| 0 <= m < now.len() implies (#[trigger] now[m]).total == in_tier(
                all,
                now[m].tier,
                n1,
            ) && now[m].total > 0 && now[m].escalated == explained_in_tier(all, now[m].tier, n1) by {
                if m == i {
                } else {
                    assert(now[m] == old_views[m]);
                    if m < i {
                        assert(lex_lt(old_views[m].tier, old_views[i as int].tier));
                    } else {
                        assert(lex_lt(old_views[i as int].tier, old_views[m].tier));
                    }
                    lex_irreflexive(tier@);
                }
            }
            assert forall|t: int| 0 <= t < n1 implies lists(now, tier_of(#[trigger] all[t])) by {
                if t < k {
                    assert(lists(old_views, tier_of(all[t])));
                    let m = choose|m: int|
                        0 <= m < old_views.len() && (#[trigger] old_views[m]).tier == tier_of(
                            all[t],
                        );
                    assert(now[m].tier == tier_of(all[t]));
                } else {
                    assert(now[i as int].tier == tier@);
                }
            }
        }
    } else {
        proof {
            in_tier_has_witness(all, tier@, k as nat);
            if i < groups.len() {
                assert(old_views[i as int].tier == groups@[i as int].tier@);
                lex_total(old_views[i as int].tier, tier@);
            }
            assert forall|m: int| i <= m < old_views.len() implies lex_lt(
                tier@,
                (#[trigger] old_views[m]).tier,
            ) by {
                if m > i {
                    assert(lex_lt(old_views[i as int].tier, old_views[m].tier));
                    lex_transitive(tier@, old_views[i as int].tier, old_views[m].tier);
                }
            }
            lex_irreflexive(tier@);
            if in_tier(all, tier@, k as nat) > 0 {
                let t = choose|t: int| 0 <= t < k && tier_of(#[trigger] all[t]) == tier@;
                assert(lists(old_views, tier_of(all[t])));
                let m = choose|m: int|
                    0 <= m < old_views.len() && (#[trigger] old_views[m]).tier == tier@;
                assert(false);
            }
        }
        let new = TierGroup {
            tier: tier.to_owned(),
            total: 1,
            escalated: if reason {
                1
            } else {
                0
            },
        };
        groups.insert(i, new);
        proof {
            let now = group_views(groups@);
            let n1 = (k + 1) as nat;
            assert(now =~= old_views.insert(i as int, new@));
            assert forall|a: int, b: int| 0 <= a < b < now.len() implies lex_lt(
                #[trigger] now[a].tier,
                #[trigger] now[b].tier,
            ) by {
                let a1 = if a < i { a } else { a - 1 };
                let b1 = if b < i { b } else { b - 1 };
                if a == i {
                    assert(lex_lt(tier@, old_views[b1].tier));
                } else if b == i {
                    assert(lex_lt(old_views[a1].tier, tier@));
                } else {
                    assert(lex_lt(old_views[a1].tier, old_views[b1].tier));
                }
            }
            assert forall|m: int| 0 <= m < now.len() implies (#[trigger] now[m]).total == in_tier(
                all,
                now[m].tier,
                n1,
            ) && now[m].total > 0 && now[m].escalated == explained_in_tier(all, now[m].tier, n1) by {
                if m == i {
                } else {
                    let m1 = if m < i { m } else { m - 1 };
                    assert(now[m] == old_views[m1]);
                    lex_irreflexive(tier@);
                }
            }
            assert forall|t: int| 0 <= t < n1 implies lists(now, tier_of(#[trigger] all[t])) by {
                if t < k {
                    assert(lists(old_views, tier_of(all[t])));
                    let m = choose|m: int|
                        0 <= m < old_views.len() && (#[trigger] old_views[m]).tier == tier_of(
                            all[t],
                        );
                    let m1 = if m < i { m } else { m + 1 };
                    assert(now[m1].tier == tier_of(all[t]));
                } else {
                    assert(now[i as int].tier == tier@);
                }
            }
        }
    }
    groups
}

/// The tiers of the tasks, in order, each with the number of its tasks and of
/// those that say why they were escalated.
pub fn tier_groups(tasks: &Vec<Json>) -> (r: Vec<TierGroup>)
    ensures
        is_grouping(group_views(r@), views(tasks@), tasks@.len()),
        group_views(r@) == groups_of(views(tasks@)),
{
    let mut r: Vec<TierGroup> = Vec::new();
    let mut k: usize = 0;
    while k < tasks.len()
        invariant
            k <= tasks@.len(),
            is_grouping(group_views(r@), views(tasks@), k as nat),
        decreases tasks@.len() - k,
    {
        r = count_task(r, tasks, k);
        k = k + 1;
    }
    proof {
        let all = views(tasks@);
        assert(is_grouping(group_views(r@), all, all.len()));
        grouping_is_unique(group_views(r@), groups_of(all), all);
    }
    r
}

/// The tasks of the first `m` groups.
pub open spec fn total_upto(g: Seq<TierGroupView>, m: nat) -> nat
    decreases m,
{
    if m == 0 {
        0
    } else {
        total_upto(g, (m - 1) as nat) + g[m - 1].total
    }
}

/// The tasks of the first `m` groups that say why they were escalated.
pub open spec fn escalated_upto(g: Seq<TierGroupView>, m: nat) -> nat
    decreases m,
{
    if m == 0 {
        0
    } else {
        escalated_upto(g, (m - 1) as nat) + g[m - 1].escalated
    }
}

/// How many of the first `n` tasks say why they were escalated.
pub open spec fn explained(tasks: Seq<JsonView>, n: nat) -> nat
    decreases n,
{
    if n == 0 {
        0
    } else {
        explained(tasks, (n - 1) as nat) + if has_reason(tasks[n - 1]) {
            1nat
        } else {
            0nat
        }
    }
}

/// The sum over the first `m` groups of how many of the first `n` tasks each
/// has.
spec fn spread(g: Seq<TierGroupView>, tasks: Seq<JsonView>, m: nat, n: nat) -> nat
    decreases m,
{
    if m == 0 {
        0
    } else {
        spread(g, tasks, (m - 1) as nat, n) + in_tier(tasks, g[m - 1].tier, n)
    }
}

spec fn spread_explained(g: Seq<TierGroupView>, tasks: Seq<JsonView>, m: nat, n: nat) -> nat
    decreases m,
{
    if m == 0 {
        0
    } else {
        spread_explained(g, tasks, (m - 1) as nat, n) + explained_in_tier(
            tasks,
            g[m - 1].tier,
            n,
        )
    }
}

/// One more task is one more in the group of its tier, and in no other.
proof fn spread_step(g: Seq<TierGroupView>, tasks: Seq<JsonView>, m: nat, n: nat)
    requires
        n > 0,
        m <= g.len(),
        forall|i: int, j: int|
            0 <= i < j < g.len() ==> lex_lt(#[trigger] g[i].tier, #[trigger] g[j].tier),
    ensures
        spread(g, tasks, m, n) == spread(g, tasks, m, (n - 1) as nat) + if lists(
            g.take(m as int),
            tier_of(tasks[n - 1]),
        ) {
            1nat
        } else {
            0nat
        },
        spread_explained(g, tasks, m, n) == spread_explained(g, tasks, m, (n - 1) as nat) + if lists(
            g.take(m as int),
            tier_of(tasks[n - 1]),
        ) && has_reason(tasks[n - 1]) {
            1nat
        } else {
            0nat
        },
    decreases m,
{
    let t = tier_of(tasks[n - 1]);
    if m > 0 {
        spread_step(g, tasks, (m - 1) as nat, n);
        let now = g.take(m as int);
        let was = g.take(m - 1);
        if lists(was, t) {
            let i = choose|i: int| 0 <= i < was.len() && (#[trigger] was[i]).tier == t;
            assert(now[i].tier == t);
            assert(lex_lt(g[i].tier, g[m - 1].tier));
            lex_irreflexive(t);
        } else if g[m - 1].tier == t {
            assert(now[m - 1].tier == t);
        } else if lists(now, t) {
            let i = choose|i: int| 0 <= i < now.len() && (#[trigger] now[i]).tier == t;
            assert(was[i].tier == t);
        }
    }
}

proof fn spread_counts(g: Seq<TierGroupView>, tasks: Seq<JsonView>, n: nat)
    requires
        forall|i: int, j: int|
            0 <= i < j < g.len() ==> lex_lt(#[trigger] g[i].tier, #[trigger] g[j].tier),
        forall|k: int| 0 <= k < n ==> lists(g, tier_of(#[trigger] tasks[k])),
    ensures
        spread(g, tasks, g.len(), n) == n,
        spread_explained(g, tasks, g.len(), n) == explained(tasks, n),
    decreases n,
{
    if n == 0 {
        spread_of_nothing(g, tasks, g.len());
    } else {
        spread_counts(g, tasks, (n - 1) as nat);
        spread_step(g, tasks, g.len(), n);
        assert(g.take(g.len() as int) =~= g);
        assert(lists(g, tier_of(tasks[n - 1])));
    }
}

proof fn spread_of_nothing(g: Seq<TierGroupView>, tasks: Seq<JsonView>, m: nat)
    ensures
        spread(g, tasks, m, 0) == 0,
        spread_explained(g, tasks, m, 0) == 0,
    decreases m,
{
    if m > 0 {
        spread_of_nothing(g, tasks, (m - 1) as nat);
    }
}

proof fn spread_is_total(g: Seq<TierGroupView>, tasks: Seq<JsonView>, m: nat, n: nat)
    requires
        m <= g.len(),
        is_grouping(g, tasks, n),
    ensures
        spread(g, tasks, m, n) == total_upto(g, m),
        spread_explained(g, tasks, m, n) == escalated_upto(g, m),
    decreases m,
{
    if m > 0 {
        spread_is_total(g, tasks, (m - 1) as nat, n);
        assert(g[m - 1].total == in_tier(tasks, g[m - 1].tier, n));
    }
}

/// The groups hold every task once, and so also every task that says why it
/// was escalated.
pub proof fn groups_hold_every_task(g: Seq<TierGroupView>, tasks: Seq<JsonView>)
    requires
        is_grouping(g, tasks, tasks.len()),
    ensures
        total_upto(g, g.len()) == tasks.len(),
        escalated_upto(g, g.len()) == explained(tasks, tasks.len()),
{
    spread_counts(g, tasks, tasks.len());
    spread_is_total(g, tasks, g.len(), tasks.len());
}

/// The report, with a line on the plan where only its tasks are looked at.
pub open spec fn filter_view(r: ReportView, plan: Option<Seq<char>>) -> ReportView {
    match plan {
        Some(p) => r.line("  plan filter: "@ + p),
        None => r,
    }
}

fn filter_line(r: Report, plan: Option<&str>) -> (out: Report)
    ensures
        out@ == filter_view(r@, opt_text(plan)),
{
    match plan {
        Some(p) => r.line(cat2("  plan filter: ", p)),
        None => r,
    }
}

/// The first `n` tiers, each with its tasks and their share.
pub open spec fn shares_upto(
    r: ReportView,
    g: Seq<TierGroupView>,
    shares: Seq<Seq<char>>,
    n: nat,
) -> ReportView
    decreases n,
{
    if n == 0 {
        r
    } else {
        shares_upto(r, g, shares, (n - 1) as nat).line(
            "      "@ + g[n - 1].tier + ": "@ + dec(g[n - 1].total) + " ("@ + shares[n - 1]
                + "%)"@,
        )
    }
}

/// What is said of the tiers. The shares, in percent, come as texts.
pub open spec fn tier_distribution_view(
    reply: Result<Json, String>,
    plan: Option<Seq<char>>,
    shares: Seq<Seq<char>>,
) -> ReportView {
    match reply {
        Ok(j) => match j@ {
            JsonView::Array(tasks) => shares_upto(
                filter_view(blank(), plan).show(
                    Severity::Good,
                    "total tasks: "@ + dec(tasks.len()),
                ),
                groups_of(tasks),
                shares,
                groups_of(tasks).len(),
            ).count(Severity::Good),
            _ => blank().note(
                Severity::Info,
                "daemon returned unexpected shape for /tasks"@,
            ),
        },
        Err(e) => blank().note(
            Severity::Info,
            "daemon unavailable — tier_distribution skipped ("@ + e@ + ")"@,
        ),
    }
}

/// The tasks of a reply.
pub open spec fn replied_tasks(reply: Result<Json, String>) -> Seq<JsonView> {
    match reply {
        Ok(j) => j@.items(),
        Err(_) => Seq::empty(),
    }
}

/// What is said of the tiers.
pub fn tier_distribution(reply: &Result<Json, String>, plan: Option<&str>, shares: &Vec<String>) -> (r:
    Report)
    requires
        shares@.len() == groups_of(replied_tasks(*reply)).len(),
    ensures
        r@ == tier_distribution_view(*reply, opt_text(plan), texts(shares@)),
{
    let j = match reply {
        Ok(j) => j,
        Err(e) => {
            let s = cat3("daemon unavailable — tier_distribution skipped (", e.as_str(), ")");
            return Report::new().note(Severity::Info, s.as_str());
        },
    };
    let tasks = match j.as_array() {
        Some(t) => t,
        None => {
            return Report::new().note(
                Severity::Info,
                "daemon returned unexpected shape for /tasks",
            );
        },
    };
    let groups = tier_groups(tasks);
    let d = decimal(tasks.len() as u64);
    let s = cat2("total tasks: ", d.as_str());
    let mut r = filter_line(Report::new(), plan).show(Severity::Good, s.as_str());
    let ghost start = r@;
    let ghost g = group_views(groups@);
    let mut i: usize = 0;
    while i < groups.len()
        invariant
            i <= groups@.len(),
            g == group_views(groups@),
            shares@.len() == groups@.len(),
            r@ == shares_upto(start, g, texts(shares@), i as nat),
        decreases groups@.len() - i,
    {
        assert(g[i as int] == groups@[i as int]@);
        assert(texts(shares@)[i as int] == shares@[i as int]@);
        let n = decimal(groups[i].total as u64);
        let a = cat5("      ", groups[i].tier.as_str(), ": ", n.as_str(), " (");
        r = r.line(cat3(a.as_str(), shares[i].as_str(), "%)"));
        i = i + 1;
    }
    r.count(Severity::Good)
}

/// Whether a tier is the lowest.
pub open spec fn is_lowest(tier: Seq<char>) -> bool {
    tier == "low"@ || tier == "haiku"@ || tier == "none"@ || tier == "g1"@
}

/// How many of the first `n` tasks are not of the lowest tier.
pub open spec fn raised(tasks: Seq<JsonView>, n: nat) -> nat
    decreases n,
{
    if n == 0 {
        0
    } else {
        raised(tasks, (n - 1) as nat) + if is_lowest(tier_of(tasks[n - 1])) {
            0nat
        } else {
            1nat
        }
    }
}

/// How many tasks are not of the lowest tier.
pub fn escalated_tasks(tasks: &Vec<Json>) -> (r: usize)
    ensures
        r == raised(views(tasks@), tasks@.len()),
        r <= tasks@.len(),
{
    let mut n: usize = 0;
    let mut i: usize = 0;
    while i < tasks.len()
        invariant
            i <= tasks@.len(),
            n <= i,
            n == raised(views(tasks@), i as nat),
        decreases tasks@.len() - i,
    {
        assert(views(tasks@)[i as int] == tasks@[i as int]@);
        let tier = tasks[i].str_or("tier", "none");
        if !(same(tier, "low") || same(tier, "haiku") || same(tier, "none") || same(tier, "g1")) {
            n = n + 1;
        }
        i = i + 1;
    }
    n
}

/// How grave it is that so many of the tasks are not of the lowest tier: more
/// than 30 percent are a warning.
pub open spec fn escalation_severity(escalated: nat, total: nat) -> Severity {
    if 100 * escalated > 30 * total {
        Severity::Warn
    } else {
        Severity::Good
    }
}

/// What is said of the share of tasks that are not of the lowest tier. The
/// share, in percent, comes as a text.
pub open spec fn escalation_rate_view(
    reply: Result<Json, String>,
    plan: Option<Seq<char>>,
    share: Seq<char>,
) -> ReportView {
    match reply {
        Ok(j) => match j@ {
            JsonView::Array(tasks) => if tasks.len() == 0 {
                blank().note(Severity::Info, "no tasks — escalation_rate N/A"@)
            } else {
                let n = raised(tasks, tasks.len());
                let sev = escalation_severity(n, tasks.len());
                let r = filter_view(blank(), plan).show(
                    sev,
                    "escalated tasks: "@ + dec(n) + " / "@ + dec(tasks.len()) + " ("@ + share
                        + "%)"@,
                );
                (if sev == Severity::Warn {
                    r.line("      > 30% escalated — check G2/G3 task assignment policy"@)
                } else {
                    r
                }).count(sev)
            },
            _ => blank().note(
                Severity::Info,
                "daemon unavailable — escalation_rate skipped"@,
            ),
        },
        Err(e) => blank().note(Severity::Info, "daemon unavailable — escalation_rate skipped"@),
    }
}

/// What is said of the share of tasks that are not of the lowest tier.
pub fn escalation_rate(reply: &Result<Json, String>, plan: Option<&str>, share: &str) -> (r: Report)
    ensures
        r@ == escalation_rate_view(*reply, opt_text(plan), share@),
{
    let found = match reply {
        Ok(j) => j.as_array(),
        Err(_) => None,
    };
    let tasks = match found {
        Some(t) => t,
        None => {
            return Report::new().note(
                Severity::Info,
                "daemon unavailable — escalation_rate skipped",
            );
        },
    };
    if tasks.len() == 0 {
        return Report::new().note(Severity::Info, "no tasks — escalation_rate N/A");
    }
    let n = escalated_tasks(tasks);
    let sev = if 100 * (n as u128) > 30 * (tasks.len() as u128) {
        Severity::Warn
    } else {
        Severity::Good
    };
    let d = decimal(n as u64);
    let t = decimal(tasks.len() as u64);
    let a = cat5("escalated tasks: ", d.as_str(), " / ", t.as_str(), " (");
    let s = cat3(a.as_str(), share, "%)");
    let r = filter_line(Report::new(), plan).show(sev, s.as_str());
    if sev == Severity::Warn {
        r.say("      > 30% escalated — check G2/G3 task assignment policy").count(sev)
    } else {
        r.count(sev)
    }
}

/// The first `n` tiers, each with its tasks that say why they were escalated,
/// all its tasks, and their share.
pub open spec fn reasons_upto(
    r: ReportView,
    g: Seq<TierGroupView>,
    shares: Seq<Seq<char>>,
    n: nat,
) -> ReportView
    decreases n,
{
    if n == 0 {
        r
    } else {
        reasons_upto(r, g, shares, (n - 1) as nat).line(
            "      "@ + g[n - 1].tier + ": "@ + dec(g[n - 1].escalated) + " / "@ + dec(
                g[n - 1].total,
            ) + " ("@ + shares[n - 1] + "%)"@,
        )
    }
}

/// What is said of the tasks that say why they were escalated. The shares, in
/// percent, come as texts.
pub open spec fn escalation_report_view(
    reply: Result<Json, String>,
    plan: Option<Seq<char>>,
    overall: Seq<char>,
    shares: Seq<Seq<char>>,
) -> ReportView {
    match reply {
        Ok(j) => match j@ {
            JsonView::Array(tasks) => if tasks.len() == 0 {
                blank().note(Severity::Info, "no tasks — escalation report N/A"@)
            } else {
                reasons_upto(
                    filter_view(blank(), plan).show(
                        Severity::Good,
                        "tasks with escalation_reason: "@ + dec(explained(tasks, tasks.len()))
                            + " / "@ + dec(tasks.len()) + " ("@ + overall + "%)"@,
                    ),
                    groups_of(tasks),
                    shares,
                    groups_of(tasks).len(),
                ).count(Severity::Good)
            },
            _ => blank().note(
                Severity::Info,
                "daemon unavailable — escalation report skipped"@,
            ),
        },
        Err(e) => blank().note(
            Severity::Info,
            "daemon unavailable — escalation report skipped"@,
        ),
    }
}

proof fn explained_bound(tasks: Seq<JsonView>, n: nat)
    ensures
        explained(tasks, n) <= n,
    decreases n,
{
    if n > 0 {
        explained_bound(tasks, (n - 1) as nat);
    }
}

proof fn escalated_grows(g: Seq<TierGroupView>, a: nat, b: nat)
    requires
        a <= b <= g.len(),
    ensures
        escalated_upto(g, a) <= escalated_upto(g, b),
    decreases b,
{
    if a < b {
        escalated_grows(g, a, (b - 1) as nat);
    }
}

/// How many tasks of the groups say why they were escalated.
pub fn explained_tasks(groups: &Vec<TierGroup>, tasks: &Vec<Json>) -> (r: usize)
    requires
        is_grouping(group_views(groups@), views(tasks@), tasks@.len()),
    ensures
        r == explained(views(tasks@), tasks@.len()),
        r <= tasks@.len(),
{
    let ghost g = group_views(groups@);
    let ghost all = views(tasks@);
    proof {
        groups_hold_every_task(g, all);
        explained_bound(all, all.len());
    }
    let len = tasks.len();
    let mut n: usize = 0;
    let mut i: usize = 0;
    while i < groups.len()
        invariant
            i <= groups@.len(),
            g == group_views(groups@),
            n == escalated_upto(g, i as nat),
            escalated_upto(g, g.len()) <= len,
        decreases groups@.len() - i,
    {
        proof {
            assert(g[i as int] == groups@[i as int]@);
            escalated_grows(g, (i + 1) as nat, g.len());
        }
        n = n + groups[i].escalated;
        i = i + 1;
    }
    n
}

/// What is said of the tasks that say why they were escalated.
pub fn escalation_report(
    reply: &Result<Json, String>,
    plan: Option<&str>,
    overall: &str,
    shares: &Vec<String>,
) -> (r: Report)
    requires
        shares@.len() == groups_of(replied_tasks(*reply)).len(),
    ensures
        r@ == escalation_report_view(*reply, opt_text(plan), overall@, texts(shares@)),
{
    let found = match reply {
        Ok(j) => j.as_array(),
        Err(_) => None,
    };
    let tasks = match found {
        Some(t) => t,
        None => {
            return Report::new().note(
                Severity::Info,
                "daemon unavailable — escalation report skipped",
            );
        },
    };
    if tasks.len() == 0 {
        return Report::new().note(Severity::Info, "no tasks — escalation report N/A");
    }
    let groups = tier_groups(tasks);
    let n = explained_tasks(&groups, tasks);
    let d = decimal(n as u64);
    let t = decimal(tasks.len() as u64);
    let a = cat5("tasks with escalation_reason: ", d.as_str(), " / ", t.as_str(), " (");
    let s = cat3(a.as_str(), overall, "%)");
    let mut r = filter_line(Report::new(), plan).show(Severity::Good, s.as_str());
    let ghost start = r@;
    let ghost g = group_views(groups@);
    let mut i: usize = 0;
    while i < groups.len()
        invariant
            i <= groups@.len(),
            g == group_views(groups@),
            shares@.len() == groups@.len(),
            r@ == reasons_upto(start, g, texts(shares@), i as nat),
        decreases groups@.len() - i,
    {
        assert(g[i as int] == groups@[i as int]@);
        assert(texts(shares@)[i as int] == shares@[i as int]@);
        let e = decimal(groups[i].escalated as u64);
        let m = decimal(groups[i].total as u64);
        let b = cat5("      ", groups[i].tier.as_str(), ": ", e.as_str(), " / ");
        r = r.line(cat5(b.as_str(), m.as_str(), " (", shares[i].as_str(), "%)"));
        i = i + 1;
    }
    r.count(Severity::Good)
}

/// What is said of the tier that tasks get.
pub open spec fn tier_aware_view(
    default_tier: Option<Seq<char>>,
    tier: Option<Seq<char>>,
    a: Agent,
) -> ReportView {
    blank().line(
        "  default tier policy: "@ + match default_tier {
            Some(t) => t,
            None => "med"@,
        },
    ).line(
        "  --tier (current): "@ + match tier {
            Some(t) => t,
            None => "(unset)"@,
        },
    ).note(Severity::Good, "Within-"@ + a.family@ + " only (cross-vendor disabled in v3)"@)
}

/// What is said of the tier that tasks get.
pub fn tier_aware(default_tier: Option<&str>, tier: Option<&str>, a: &Agent) -> (r: Report)
    ensures
        r@ == tier_aware_view(opt_text(default_tier), opt_text(tier), *a),
{
    let s = cat3("Within-", a.family.as_str(), " only (cross-vendor disabled in v3)");
    Report::new().line(
        cat2(
            "  default tier policy: ",
            match default_tier {
                Some(t) => t,
                None => "med",
            },
        ),
    ).line(
        cat2(
            "  --tier (current): ",
            match tier {
                Some(t) => t,
                None => "(unset)",
            },
        ),
    ).note(Severity::Good, s.as_str())
}

} // verus!
