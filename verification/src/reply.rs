//! What is printed for the daemon's answer to a command.

use vstd::prelude::*;
use crate::client::{is_success, tell_status, with_status};
use crate::command::{Command, DiscoverAction, ProjectAction, TaskAction};
use crate::json::{array, array_view, views, Json, JsonView};
use crate::output::{format_named, output_fmt, printed};
use crate::text::{
    before, cat2, cat5, dec, decimal, lex_irreflexive, lex_lt, lex_total, lex_transitive,
};

verus! {

/// How a command ends.
pub enum End {
    Done,
    /// With this exit code.
    Exit(i32),
    /// With this error.
    Fail(String),
}

/// What an end is.
pub enum EndView {
    Done,
    Exit(int),
    Fail(Seq<char>),
}

impl View for End {
    type V = EndView;

    open spec fn view(&self) -> EndView {
        match self {
            End::Done => EndView::Done,
            End::Exit(c) => EndView::Exit(*c as int),
            End::Fail(m) => EndView::Fail(m@),
        }
    }
}

/// What is printed, and how the command ends.
pub struct Outcome {
    pub stdout: String,
    pub stderr: String,
    pub end: End,
}

/// What an outcome is.
#[verifier::ext_equal]
pub struct OutcomeView {
    pub stdout: Seq<char>,
    pub stderr: Seq<char>,
    pub end: EndView,
}

impl View for Outcome {
    type V = OutcomeView;

    open spec fn view(&self) -> OutcomeView {
        OutcomeView { stdout: self.stdout@, stderr: self.stderr@, end: self.end@ }
    }
}

/// The identifiers of the first `n` items, one in a line.
pub open spec fn item_ids(a: Seq<JsonView>, n: nat) -> Seq<char>
    decreases n,
{
    if n == 0 {
        Seq::empty()
    } else {
        let before = item_ids(a, (n - 1) as nat);
        match a[n - 1].str_at("id"@) {
            Some(id) => before + id + "\n"@,
            None => before,
        }
    }
}

/// The identifier of a value, or those of the items of a list.
pub open spec fn ids(j: JsonView) -> Seq<char> {
    match j.str_at("id"@) {
        Some(id) => id + "\n"@,
        None => match j {
            JsonView::Array(a) => item_ids(a, a.len()),
            _ => Seq::empty(),
        },
    }
}

fn ids_text(val: &Json) -> (r: String)
    ensures
        r@ == ids(val@),
{
    if let Some(id) = val.str_at("id") {
        return cat2(id, "\n");
    }
    let mut out = String::new();
    if let Json::Array(arr) = val {
        proof {
            array_view(*arr);
        }
        let mut i: usize = 0;
        while i < arr.len()
            invariant
                i <= arr@.len(),
                out@ == item_ids(views(arr@), i as nat),
            decreases arr@.len() - i,
        {
            assert(views(arr@)[i as int] == arr@[i as int]@);
            if let Some(id) = arr[i].str_at("id") {
                out.append(id);
                out.append("\n");
            }
            i = i + 1;
        }
    }
    out
}

/// What is printed for a value: in quiet mode identifiers only, else the value
/// in the asked form. A form that there is not ends the program with code 2.
pub open spec fn shown(j: JsonView, quiet: bool, format: Seq<char>) -> OutcomeView {
    if quiet {
        OutcomeView { stdout: ids(j), stderr: Seq::empty(), end: EndView::Done }
    } else {
        match format_named(format) {
            Some(f) => OutcomeView {
                stdout: printed(j, f),
                stderr: Seq::empty(),
                end: EndView::Done,
            },
            None => OutcomeView {
                stdout: Seq::empty(),
                stderr: "ERROR: unknown --format '"@ + format
                    + "'. Choose: json | table | yaml"@ + "\n"@,
                end: EndView::Exit(2),
            },
        }
    }
}

/// What is printed for a value.
pub fn show(val: &Json, quiet: bool, format: &str) -> (r: Outcome)
    ensures
        r@ == shown(val@, quiet, format@),
{
    if quiet {
        return Outcome { stdout: ids_text(val), stderr: String::new(), end: End::Done };
    }
    match output_fmt(val, format) {
        Ok(s) => Outcome { stdout: s, stderr: String::new(), end: End::Done },
        Err(m) => Outcome {
            stdout: String::new(),
            stderr: cat2(m.as_str(), "\n"),
            end: End::Exit(2),
        },
    }
}

/// When a decision was made.
pub open spec fn created_at(j: JsonView) -> Seq<char> {
    j.str_or("created_at"@, Seq::empty())
}

/// The items with one more, behind all that are not older.
pub open spec fn placed(s: Seq<JsonView>, x: JsonView) -> Seq<JsonView>
    decreases s.len(),
{
    if s.len() > 0 && lex_lt(created_at(s.last()), created_at(x)) {
        placed(s.drop_last(), x).push(s.last())
    } else {
        s.push(x)
    }
}

/// The items from the newest to the oldest; those of one time stay in their
/// order.
pub open spec fn newest_first(a: Seq<JsonView>) -> Seq<JsonView>
    decreases a.len(),
{
    if a.len() == 0 {
        Seq::empty()
    } else {
        placed(newest_first(a.drop_last()), a.last())
    }
}

/// No item stands behind an older one.
pub open spec fn is_newest_first(a: Seq<JsonView>) -> bool {
    forall|i: int, j: int|
        0 <= i < j < a.len() ==> !lex_lt(created_at(#[trigger] a[i]), created_at(#[trigger] a[j]))
}

proof fn placed_members(s: Seq<JsonView>, x: JsonView)
    ensures
        placed(s, x).len() == s.len() + 1,
        forall|i: int|
            0 <= i < placed(s, x).len() ==> #[trigger] placed(s, x)[i] == x || s.contains(
                placed(s, x)[i],
            ),
    decreases s.len(),
{
    if s.len() > 0 && lex_lt(created_at(s.last()), created_at(x)) {
        placed_members(s.drop_last(), x);
        let inner = placed(s.drop_last(), x);
        assert forall|i: int| 0 <= i < placed(s, x).len() implies #[trigger] placed(s, x)[i] == x
            || s.contains(placed(s, x)[i]) by {
            if i < inner.len() {
                assert(placed(s, x)[i] == inner[i]);
                if inner[i] != x {
                    let k = choose|k: int|
                        0 <= k < s.drop_last().len() && s.drop_last()[k] == inner[i];
                    assert(s[k] == inner[i]);
                }
            } else {
                assert(s[s.len() - 1] == placed(s, x)[i]);
            }
        }
    } else {
        assert forall|i: int| 0 <= i < placed(s, x).len() implies #[trigger] placed(s, x)[i] == x
            || s.contains(placed(s, x)[i]) by {
            if i < s.len() {
                assert(s[i] == placed(s, x)[i]);
            }
        }
    }
}

proof fn not_older_transitive(a: Seq<char>, b: Seq<char>, c: Seq<char>)
    requires
        !lex_lt(a, b),
        !lex_lt(b, c),
    ensures
        !lex_lt(a, c),
{
    if lex_lt(a, c) {
        lex_total(a, b);
        lex_total(b, c);
        if a == b || b == c {
        } else {
            lex_transitive(b, a, c);
        }
    }
}

proof fn placed_keeps_order(s: Seq<JsonView>, x: JsonView)
    requires
        is_newest_first(s),
    ensures
        is_newest_first(placed(s, x)),
    decreases s.len(),
{
    let p = placed(s, x);
    if s.len() > 0 && lex_lt(created_at(s.last()), created_at(x)) {
        let front = s.drop_last();
        assert(is_newest_first(front)) by {
            assert forall|i: int, j: int| 0 <= i < j < front.len() implies !lex_lt(
                created_at(#[trigger] front[i]),
                created_at(#[trigger] front[j]),
            ) by {
                assert(front[i] == s[i]);
                assert(front[j] == s[j]);
            }
        }
        placed_keeps_order(front, x);
        placed_members(front, x);
        let inner = placed(front, x);
        let last = s.last();
        assert(!lex_lt(created_at(x), created_at(last))) by {
            if lex_lt(created_at(x), created_at(last)) {
                lex_transitive(created_at(x), created_at(last), created_at(x));
                lex_irreflexive(created_at(x));
            }
        }
        assert forall|i: int, j: int| 0 <= i < j < p.len() implies !lex_lt(
            created_at(#[trigger] p[i]),
            created_at(#[trigger] p[j]),
        ) by {
            assert(p[i] == inner[i]);
            if j < inner.len() {
                assert(p[j] == inner[j]);
            } else if inner[i] != x {
                let k = choose|k: int| 0 <= k < front.len() && front[k] == inner[i];
                assert(s[k] == inner[i]);
                assert(s[s.len() - 1] == last);
            }
        }
    } else {
        assert forall|i: int, j: int| 0 <= i < j < p.len() implies !lex_lt(
            created_at(#[trigger] p[i]),
            created_at(#[trigger] p[j]),
        ) by {
            assert(p[i] == s[i]);
            if j < s.len() {
                assert(p[j] == s[j]);
            } else {
                assert(p[j] == x);
                assert(s[s.len() - 1] == s.last());
                if i < s.len() - 1 {
                    not_older_transitive(
                        created_at(s[i]),
                        created_at(s.last()),
                        created_at(x),
                    );
                }
            }
        }
    }
}

/// After sorting no item stands behind an older one.
pub proof fn sorting_orders(a: Seq<JsonView>)
    ensures
        is_newest_first(newest_first(a)),
    decreases a.len(),
{
    if a.len() > 0 {
        sorting_orders(a.drop_last());
        placed_keeps_order(newest_first(a.drop_last()), a.last());
    }
}

/// The items of one time.
pub open spec fn of_time(a: Seq<JsonView>, t: Seq<char>) -> Seq<JsonView> {
    a.filter(|j: JsonView| created_at(j) == t)
}

proof fn placed_of_time(s: Seq<JsonView>, x: JsonView, t: Seq<char>)
    ensures
        of_time(placed(s, x), t) == of_time(s.push(x), t),
    decreases s.len(),
{
    let p = |j: JsonView| created_at(j) == t;
    if s.len() > 0 && lex_lt(created_at(s.last()), created_at(x)) {
        let front = s.drop_last();
        let last = s.last();
        placed_of_time(front, x, t);
        lex_irreflexive(created_at(x));
        front.lemma_filter_push(x, p);
        s.lemma_filter_push(x, p);
        front.lemma_filter_push(last, p);
        assert(front.push(last) =~= s);
        placed(front, x).lemma_filter_push(last, p);
        assert(placed(front, x).filter(p) == front.push(x).filter(p));
        if p(x) {
            assert(!p(last));
        }
    }
}

/// Sorting keeps, for each time, exactly the items of that time, in their
/// order: nothing is lost, added or swapped among equals.
pub proof fn sorting_is_stable(a: Seq<JsonView>, t: Seq<char>)
    ensures
        of_time(newest_first(a), t) == of_time(a, t),
    decreases a.len(),
{
    if a.len() > 0 {
        let p = |j: JsonView| created_at(j) == t;
        let front = a.drop_last();
        sorting_is_stable(front, t);
        placed_of_time(newest_first(front), a.last(), t);
        newest_first(front).lemma_filter_push(a.last(), p);
        front.lemma_filter_push(a.last(), p);
        assert(front.push(a.last()) =~= a);
    } else {
        assert(newest_first(a) =~= a);
    }
}

/// The first of them.
pub open spec fn at_most(a: Seq<JsonView>, limit: int) -> Seq<JsonView> {
    if a.len() <= limit {
        a
    } else {
        a.take(limit)
    }
}

/// The newest decisions of an answer, at most `limit` of them.
pub open spec fn recent(j: JsonView, limit: int) -> Seq<JsonView> {
    match j {
        JsonView::Array(a) => at_most(newest_first(a), limit),
        _ => Seq::empty(),
    }
}

fn place(out: &mut Vec<Json>, x: Json)
    ensures
        views(final(out)@) == placed(views(old(out)@), x@),
{
    let key = x.str_or("created_at", "");
    proof {
        reveal_strlit("");
        assert(""@ =~= Seq::empty());
    }
    let ghost all = views(out@);
    let mut i: usize = out.len();
    assert(all.take(i as int) =~= all);
    assert(all.skip(i as int) =~= Seq::empty());
    assert(placed(all, x@) =~= placed(all.take(i as int), x@) + all.skip(i as int));
    while i > 0 && before(out[i - 1].str_or("created_at", ""), key)
        invariant
            i <= out@.len(),
            all == views(out@),
            ""@ == Seq::<char>::empty(),
            key@ == created_at(x@),
            placed(all, x@) == placed(all.take(i as int), x@) + all.skip(i as int),
        decreases i,
    {
        proof {
            let front = all.take(i as int);
            assert(front.last() == all[i - 1]);
            assert(front.drop_last() =~= all.take(i - 1));
            assert(placed(front.drop_last(), x@).push(front.last()) + all.skip(i as int)
                =~= placed(all.take(i - 1), x@) + all.skip(i - 1));
        }
        i = i - 1;
    }
    proof {
        let front = all.take(i as int);
        if i > 0 {
            assert(front.last() == all[i - 1]);
        }
        assert(placed(front, x@) == front.push(x@));
    }
    let ghost xv = x@;
    out.insert(i, x);
    assert(views(out@) =~= all.take(i as int).push(xv) + all.skip(i as int));
}

/// The newest decisions of an answer, at most `limit` of them.
pub fn recent_decisions(val: &Json, limit: u32) -> (r: Vec<Json>)
    ensures
        views(r@) == recent(val@, limit as int),
{
    let mut out: Vec<Json> = Vec::new();
    assert(views(out@) =~= Seq::empty());
    if let Some(arr) = val.as_array() {
        let ghost all = views(arr@);
        let mut i: usize = 0;
        assert(all.take(0) =~= Seq::empty());
        while i < arr.len()
            invariant
                i <= arr@.len(),
                all == views(arr@),
                views(out@) == newest_first(all.take(i as int)),
            decreases arr@.len() - i,
        {
            proof {
                assert(all.take(i + 1).drop_last() =~= all.take(i as int));
                assert(all.take(i + 1).last() == arr@[i as int]@);
            }
            place(&mut out, arr[i].copy());
            i = i + 1;
        }
        assert(all.take(i as int) =~= all);
        let ghost sorted = views(out@);
        assert(sorted.len() == out@.len());
        if out.len() as u64 > limit as u64 {
            out.truncate(limit as usize);
            assert(views(out@) =~= sorted.take(limit as int));
        }
    }
    out
}

/// What is done with the answer to a command.
pub enum Show {
    /// It is printed.
    Value,
    /// It is printed in a form of its own.
    InFormat(String),
    /// It is printed, and a drift warning for the task follows.
    TaskWithDrift(String),
    /// Its `cwds` are printed.
    Cwds,
    /// It is printed; `null` stands for a project that there is not.
    Resolved,
    /// Its newest decisions are printed.
    Recent(u32),
    /// It is printed; the program exits with 1 unless its `valid` is true.
    Valid,
    /// It is printed; the program exits with 1 unless its `converged` is true.
    Converged,
    /// It is printed; in quiet mode only its `batch_id`.
    BatchId,
    /// Its `context` is printed, after a warning about too many active plans.
    Dashboard,
    /// It is a stream of events, each printed in this form as it comes.
    Stream(String),
}

/// What is done with the answer to a command.
pub open spec fn shows(c: Command, s: Show) -> bool {
    match c {
        Command::Dashboard { .. } => s is Dashboard,
        Command::Project { action: ProjectAction::Resolve { .. } } => s is Resolved,
        Command::Project { action: ProjectAction::CwdList { .. } } => s is Cwds,
        Command::Task { action: TaskAction::View { id } } => s matches Show::TaskWithDrift(t)
            && t@ == id@,
        Command::Task { action: TaskAction::Ancestors { format, .. } } => s matches Show::InFormat(
            f,
        ) && f@ == format@,
        Command::Task {
            action: TaskAction::Descendants { format, .. },
        } => s matches Show::InFormat(f) && f@ == format@,
        Command::Watch { format, .. } => s matches Show::Stream(f) && f@ == format@,
        Command::GetRecentDecisions { limit, .. } => s == Show::Recent(limit),
        Command::DiscoverLoop { action: DiscoverAction::VerifyTsv { .. } } => s is Valid,
        Command::DiscoverLoop { action: DiscoverAction::Converged { .. } } => s is Converged,
        Command::DiscoverLoop { action: DiscoverAction::BatchId } => s is BatchId,
        _ => s is Value,
    }
}

/// What is done with the answer to a command.
pub fn show_for(c: &Command) -> (r: Show)
    ensures
        shows(*c, r),
{
    match c {
        Command::Dashboard { .. } => Show::Dashboard,
        Command::Project { action } => match action {
            ProjectAction::Resolve { .. } => Show::Resolved,
            ProjectAction::CwdList { .. } => Show::Cwds,
            _ => Show::Value,
        },
        Command::Task { action } => match action {
            TaskAction::View { id } => Show::TaskWithDrift(id.clone()),
            TaskAction::Ancestors { format, .. } => Show::InFormat(format.clone()),
            TaskAction::Descendants { format, .. } => Show::InFormat(format.clone()),
            _ => Show::Value,
        },
        Command::Watch { format, .. } => Show::Stream(format.clone()),
        Command::GetRecentDecisions { limit, .. } => Show::Recent(*limit),
        Command::DiscoverLoop { action } => match action {
            DiscoverAction::VerifyTsv { .. } => Show::Valid,
            DiscoverAction::Converged { .. } => Show::Converged,
            DiscoverAction::BatchId => Show::BatchId,
            _ => Show::Value,
        },
        _ => Show::Value,
    }
}

/// The text in upper case.
pub uninterp spec fn uppercase(s: Seq<char>) -> Seq<char>;

/// Calls `str::to_uppercase`. What is claimed of it: the same text gives the
/// same upper-case text.
#[verifier::external_body]
fn upper(s: &str) -> (r: String)
    ensures
        r@ == uppercase(s@),
{
    s.to_uppercase()
}

/// The warning line about active plans, its level in upper case.
pub open spec fn plan_warning(level: Seq<char>, count: int) -> Seq<char> {
    "[clawket dashboard] "@ + level + " active plan count="@ + dec(count as nat)
        + " (>1) — PDD recommends ≤ 1 (≤ 2 in transition).\n"@
}

/// The warning line about active plans, its level in upper case.
pub fn plan_warning_line(level: &str, count: u64) -> (r: String)
    ensures
        r@ == plan_warning(level@, count as int),
{
    let n = decimal(count);
    cat5(
        "[clawket dashboard] ",
        level,
        " active plan count=",
        n.as_str(),
        " (>1) — PDD recommends ≤ 1 (≤ 2 in transition).\n",
    )
}

/// What is printed for the dashboard.
pub open spec fn dashboard(j: JsonView) -> OutcomeView {
    OutcomeView {
        stdout: j.str_or("context"@, Seq::empty()),
        stderr: match j.get("active_plan_warning"@) {
            Some(w) => plan_warning(
                uppercase(w.str_or("level"@, "warn"@)),
                match w.u64_at("active_plan_count"@) {
                    Some(n) => n,
                    None => 0,
                },
            ),
            None => Seq::empty(),
        },
        end: EndView::Done,
    }
}

fn show_dashboard(val: &Json) -> (r: Outcome)
    ensures
        r@ == dashboard(val@),
{
    let stderr = match val.get("active_plan_warning") {
        Some(w) => {
            let count: u64 = match w.u64_at("active_plan_count") {
                Some(n) => n,
                None => 0,
            };
            let level = upper(w.str_or("level", "warn"));
            plan_warning_line(level.as_str(), count)
        },
        None => String::new(),
    };
    let stdout = match val.str_at("context") {
        Some(s) => s.to_owned(),
        None => String::new(),
    };
    Outcome { stdout, stderr, end: End::Done }
}

/// What is printed where the program exits with 1 unless `member` is true.
pub open spec fn gated(
    j: JsonView,
    member: Seq<char>,
    quiet: bool,
    format: Seq<char>,
) -> OutcomeView {
    let plain = shown(j, quiet, format);
    if plain.end is Done && j.bool_at(member) != Some(true) {
        OutcomeView { end: EndView::Exit(1), ..plain }
    } else {
        plain
    }
}

fn show_gated(val: &Json, member: &str, quiet: bool, format: &str) -> (r: Outcome)
    ensures
        r@ == gated(val@, member@, quiet, format@),
{
    let plain = show(val, quiet, format);
    let held = match val.bool_at(member) {
        Some(b) => b,
        None => false,
    };
    match plain.end {
        End::Done => if held {
            Outcome { stdout: plain.stdout, stderr: plain.stderr, end: End::Done }
        } else {
            Outcome { stdout: plain.stdout, stderr: plain.stderr, end: End::Exit(1) }
        },
        end => Outcome { stdout: plain.stdout, stderr: plain.stderr, end },
    }
}

/// What is printed for the project of a directory: `null` for none, and an
/// error for any other failure.
pub open spec fn resolved(status: u16, j: JsonView, quiet: bool, format: Seq<char>) -> OutcomeView {
    if status == 404 {
        OutcomeView { stdout: "null\n"@, stderr: Seq::empty(), end: EndView::Done }
    } else if !is_success(status) {
        OutcomeView {
            stdout: Seq::empty(),
            stderr: Seq::empty(),
            end: EndView::Fail(
                with_status(status, j.str_or("error"@, "project resolve failed"@)),
            ),
        }
    } else {
        shown(j, quiet, format)
    }
}

/// What is printed for the project of a directory.
pub fn show_resolved(status: u16, val: &Json, quiet: bool, format: &str) -> (r: Outcome)
    ensures
        r@ == resolved(status, val@, quiet, format@),
{
    if status == 404 {
        return Outcome { stdout: "null\n".to_owned(), stderr: String::new(), end: End::Done };
    }
    if !(200 <= status && status < 300) {
        let msg = val.str_or("error", "project resolve failed");
        return Outcome {
            stdout: String::new(),
            stderr: String::new(),
            end: End::Fail(tell_status(status, msg)),
        };
    }
    show(val, quiet, format)
}

/// What is printed for an answer that came with success.
pub open spec fn reply(s: Show, j: JsonView, quiet: bool, format: Seq<char>) -> OutcomeView {
    match s {
        Show::Value => shown(j, quiet, format),
        Show::Stream(_) => shown(j, quiet, format),
        Show::TaskWithDrift(_) => shown(j, quiet, format),
        Show::Resolved => shown(j, quiet, format),
        Show::InFormat(f) => shown(j, false, f@),
        Show::Cwds => shown(
            match j.get("cwds"@) {
                Some(v) => v,
                None => JsonView::Array(Seq::empty()),
            },
            quiet,
            format,
        ),
        Show::Recent(limit) => shown(JsonView::Array(recent(j, limit as int)), quiet, format),
        Show::Valid => gated(j, "valid"@, quiet, format),
        Show::Converged => gated(j, "converged"@, quiet, format),
        Show::BatchId => if quiet {
            OutcomeView {
                stdout: match j.str_at("batch_id"@) {
                    Some(b) => b + "\n"@,
                    None => Seq::empty(),
                },
                stderr: Seq::empty(),
                end: EndView::Done,
            }
        } else {
            shown(j, quiet, format)
        },
        Show::Dashboard => dashboard(j),
    }
}

/// What is printed for an answer that came with success.
pub fn reply_to(s: &Show, val: &Json, quiet: bool, format: &str) -> (r: Outcome)
    ensures
        r@ == reply(*s, val@, quiet, format@),
{
    match s {
        Show::Value => show(val, quiet, format),
        Show::Stream(_) => show(val, quiet, format),
        Show::TaskWithDrift(_) => show(val, quiet, format),
        Show::Resolved => show(val, quiet, format),
        Show::InFormat(f) => show(val, false, f.as_str()),
        Show::Cwds => match val.get("cwds") {
            Some(v) => show(v, quiet, format),
            None => {
                let none: Vec<Json> = Vec::new();
                assert(views(none@) =~= Seq::empty());
                show(&array(none), quiet, format)
            },
        },
        Show::Recent(limit) => show(&array(recent_decisions(val, *limit)), quiet, format),
        Show::Valid => show_gated(val, "valid", quiet, format),
        Show::Converged => show_gated(val, "converged", quiet, format),
        Show::BatchId => if quiet {
            let stdout = match val.str_at("batch_id") {
                Some(b) => cat2(b, "\n"),
                None => String::new(),
            };
            Outcome { stdout, stderr: String::new(), end: End::Done }
        } else {
            show(val, quiet, format)
        },
        Show::Dashboard => show_dashboard(val),
    }
}

} // verus!
