//! The decisions behind the health report.

use vstd::prelude::*;
use crate::text::texts;

verus! {

/// How grave a finding is.
#[derive(Clone, Copy, Debug, PartialEq, Eq, Structural)]
pub enum Severity {
    Good,
    Info,
    Warn,
    Error,
}

impl Severity {
    /// The mark that stands before a finding.
    pub open spec fn mark(self) -> Seq<char> {
        match self {
            Severity::Good => "[OK]"@,
            Severity::Info => "[INFO]"@,
            Severity::Warn => "[WARN]"@,
            Severity::Error => "[ERROR]"@,
        }
    }

    /// The mark that stands before a finding.
    pub fn tag(self) -> (r: &'static str)
        ensures
            r@ == self.mark(),
    {
        match self {
            Severity::Good => "[OK]",
            Severity::Info => "[INFO]",
            Severity::Warn => "[WARN]",
            Severity::Error => "[ERROR]",
        }
    }

    /// How grave the finding is, as a number that grows with the gravity.
    pub open spec fn rank(self) -> int {
        match self {
            Severity::Good => 0,
            Severity::Info => 1,
            Severity::Warn => 2,
            Severity::Error => 3,
        }
    }
}

/// Whether everyone may write, in a place that is not shared on purpose: the
/// write bit of the others is set and the sticky bit is not.
pub fn is_world_writable(mode: u32) -> (r: bool)
    ensures
        r <==> (mode / 2) % 2 == 1 && (mode / 512) % 2 == 0,
{
    assert((mode & 0x002u32 != 0) <==> (mode / 2) % 2 == 1) by (bit_vector);
    assert((mode & 0x200u32 != 0) <==> (mode / 512) % 2 == 1) by (bit_vector);
    let world_write = mode & 0x002u32 != 0;
    let sticky = mode & 0x200u32 != 0;
    world_write && !sticky
}

/// The texts, up to the `n`-th, for which the answer is yes.
pub open spec fn kept_upto(candidates: Seq<Seq<char>>, answers: Seq<bool>, n: nat) -> Seq<Seq<char>>
    decreases n,
{
    if n == 0 {
        Seq::empty()
    } else if answers[n - 1] {
        kept_upto(candidates, answers, (n - 1) as nat).push(candidates[n - 1])
    } else {
        kept_upto(candidates, answers, (n - 1) as nat)
    }
}

/// Whether these are answers that the function can give on the candidates.
pub open spec fn answered<F: Fn(&String) -> bool>(
    exists_fn: F,
    candidates: Seq<String>,
    answers: Seq<bool>,
) -> bool {
    &&& answers.len() == candidates.len()
    &&& forall|i: int|
        0 <= i < candidates.len() ==> call_ensures(
            exists_fn,
            (&#[trigger] candidates[i],),
            answers[i],
        )
}

proof fn kept_ignores_the_rest(
    candidates: Seq<Seq<char>>,
    answers: Seq<bool>,
    others: Seq<bool>,
    n: nat,
)
    requires
        n <= answers.len(),
        n <= others.len(),
        forall|i: int| 0 <= i < n ==> answers[i] == others[i],
    ensures
        kept_upto(candidates, answers, n) == kept_upto(candidates, others, n),
    decreases n,
{
    if n > 0 {
        kept_ignores_the_rest(candidates, answers, others, (n - 1) as nat);
    }
}

/// The candidates that exist, in their order.
pub fn legacy_remnants_present<F: Fn(&String) -> bool>(
    candidates: &[String],
    exists_fn: F,
) -> (r: Vec<String>)
    requires
        forall|i: int|
            0 <= i < candidates@.len() ==> call_requires(
                exists_fn,
                (&#[trigger] candidates@[i],),
            ),
    ensures
        exists|answers: Seq<bool>| #[trigger]
            answered(exists_fn, candidates@, answers) && texts(r@) == kept_upto(
                texts(candidates@),
                answers,
                candidates@.len(),
            ),
{
    let mut r: Vec<String> = Vec::new();
    let ghost mut answers: Seq<bool> = Seq::empty();
    let mut i: usize = 0;
    assert(texts(r@) =~= Seq::<Seq<char>>::empty());
    while i < candidates.len()
        invariant
            0 <= i <= candidates@.len(),
            forall|j: int|
                0 <= j < candidates@.len() ==> call_requires(
                    exists_fn,
                    (&#[trigger] candidates@[j],),
                ),
            answers.len() == i,
            forall|j: int|
                0 <= j < i ==> call_ensures(
                    exists_fn,
                    (&#[trigger] candidates@[j],),
                    answers[j],
                ),
            texts(r@) == kept_upto(texts(candidates@), answers, i as nat),
        decreases candidates@.len() - i,
    {
        let there = exists_fn(&candidates[i]);
        let ghost before = answers;
        proof {
            answers = answers.push(there);
            kept_ignores_the_rest(texts(candidates@), before, answers, i as nat);
        }
        if there {
            let c = candidates[i].as_str().to_owned();
            proof {
                crate::text::texts_push(r@, c);
            }
            r.push(c);
        }
        i = i + 1;
    }
    assert(answered(exists_fn, candidates@, answers));
    r
}

/// What is kept from one health report to the next.
#[derive(Debug, Clone, Copy, PartialEq, Eq)]
pub struct DoctorSnapshot {
    pub task_count: u64,
    pub db_mtime_secs: Option<u64>,
}

/// How grave a change of the number of tasks is: a loss of more than half of
/// them is suspect, and without an earlier number there is nothing to say.
pub open spec fn task_count_severity(prev: Option<u64>, current: u64) -> Severity {
    match prev {
        None => Severity::Info,
        Some(p) => if current * 2 < p {
            Severity::Warn
        } else {
            Severity::Good
        },
    }
}

/// How grave a change of the number of tasks is.
pub fn classify_task_count_change(prev: Option<u64>, current: u64) -> (r: Severity)
    ensures
        r == task_count_severity(prev, current),
{
    match prev {
        None => Severity::Info,
        Some(p) => if (current as u128) * 2 < p as u128 {
            Severity::Warn
        } else {
            Severity::Good
        },
    }
}

/// How grave the use of a budget is: from 80 percent on it is a warning, from
/// 95 percent on an error. Without a budget there is nothing to compare with.
pub open spec fn budget_severity(used_bytes: int, max_bytes: int) -> Severity {
    if max_bytes <= 0 {
        Severity::Info
    } else if 100 * used_bytes >= 95 * max_bytes {
        Severity::Error
    } else if 100 * used_bytes >= 80 * max_bytes {
        Severity::Warn
    } else {
        Severity::Good
    }
}

/// How grave the use of a budget is.
pub fn classify_activity_log_budget(used_bytes: i64, max_bytes: i64) -> (r: Severity)
    ensures
        r == budget_severity(used_bytes as int, max_bytes as int),
{
    let used: i128 = used_bytes as i128;
    let max: i128 = max_bytes as i128;
    if max <= 0 {
        Severity::Info
    } else if 100 * used >= 95 * max {
        Severity::Error
    } else if 100 * used >= 80 * max {
        Severity::Warn
    } else {
        Severity::Good
    }
}

/// Using more of a budget is never less grave.
pub proof fn budget_use_is_monotone(used: int, more: int, max: int)
    requires
        used <= more,
    ensures
        budget_severity(used, max).rank() <= budget_severity(more, max).rank(),
{
}

/// Losing more tasks is never less grave.
pub proof fn task_loss_is_monotone(prev: Option<u64>, fewer: u64, current: u64)
    requires
        fewer <= current,
    ensures
        task_count_severity(prev, current).rank() <= task_count_severity(prev, fewer).rank(),
{
}

/// A point in time: seconds since the start of 1970, and nanoseconds.
#[derive(Clone, Copy, Debug, PartialEq, Eq)]
pub struct Timestamp {
    pub secs: i64,
    pub nanos: u32,
}

impl Timestamp {
    /// The nanoseconds are a part of a second.
    pub open spec fn wf(self) -> bool {
        self.nanos < 1_000_000_000
    }

    /// The nanoseconds since the start of 1970.
    pub open spec fn total(self) -> int {
        self.secs * 1_000_000_000 + self.nanos
    }
}

/// How noteworthy the age of the database is: one that was written within the
/// last day, with no backup beside it, is new or was made anew.
pub open spec fn freshness_severity(
    db_mtime: Option<Timestamp>,
    now: Timestamp,
    has_backup: bool,
) -> Severity {
    match db_mtime {
        None => Severity::Good,
        Some(m) => {
            let age = now.total() - m.total();
            if age < 0 || age > 24 * 60 * 60 * 1_000_000_000 || has_backup {
                Severity::Good
            } else {
                Severity::Info
            }
        },
    }
}

/// How noteworthy the age of the database is.
pub fn classify_db_freshness(
    db_mtime: Option<Timestamp>,
    now: Timestamp,
    has_backup: bool,
) -> (r: Severity)
    requires
        now.wf(),
        db_mtime matches Some(m) ==> m.wf(),
    ensures
        r == freshness_severity(db_mtime, now, has_backup),
{
    match db_mtime {
        None => Severity::Good,
        Some(m) => {
            let then_total: i128 = (m.secs as i128) * 1_000_000_000 + m.nanos as i128;
            let now_total: i128 = (now.secs as i128) * 1_000_000_000 + now.nanos as i128;
            let age: i128 = now_total - then_total;
            if age < 0 || age > 24 * 60 * 60 * 1_000_000_000 || has_backup {
                Severity::Good
            } else {
                Severity::Info
            }
        },
    }
}

} // verus!
