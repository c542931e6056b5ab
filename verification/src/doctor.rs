//! The health report.

use vstd::prelude::*;
use crate::doctor::project_enabled::{enabled_line, format_project_enabled};
use crate::doctor_checks::Severity;
use crate::doctor_report::{blank, Report, ReportView};
use crate::json::{views, Json, JsonView};
use crate::request::{get, getting, Request};
use crate::scan::{contains, occurs_in};
use crate::text::{cat2, cat3, chars_of, dec, decimal, same, text_between, texts};

pub mod project_enabled;

verus! {

/// The kinds of things that are counted.
pub const ENTITIES: [&'static str; 6] = [
    "projects",
    "plans",
    "units",
    "cycles",
    "tasks",
    "knowledge",
];

/// The question for the things of one kind.
pub fn entity_request(i: usize) -> (r: Request)
    requires
        i < 6,
    ensures
        r@ == getting("/"@ + ENTITIES[i as int]@),
{
    let name: &'static str = ENTITIES[i];
    get(cat2("/", name))
}

/// Whether one of the first `n` questions was not answered.
pub open spec fn unanswered(replies: Seq<Option<Json>>, n: nat) -> bool {
    exists|i: int| 0 <= i < n && (#[trigger] replies[i]) is None
}

/// What is said of the first `n` kinds.
pub open spec fn entities_upto(r: ReportView, replies: Seq<Option<Json>>, n: nat) -> ReportView
    decreases n,
{
    if n == 0 {
        r
    } else {
        let so_far = entities_upto(r, replies, (n - 1) as nat);
        let name = ENTITIES[n - 1]@;
        if unanswered(replies, (n - 1) as nat) {
            so_far.line("  "@ + name + ": (skipped — daemon unavailable)"@)
        } else {
            match replies[n - 1] {
                None => so_far.note(
                    Severity::Info,
                    name + ": daemon unavailable — entity counts skipped"@,
                ),
                Some(j) => match j@ {
                    JsonView::Array(items) => so_far.show(
                        Severity::Good,
                        name + ": "@ + dec(items.len()),
                    ),
                    _ => so_far.note(Severity::Warn, name + ": unexpected response shape"@),
                },
            }
        }
    }
}

/// What is said of the database. Its size, in mebibytes, comes as a text.
pub open spec fn database_view(
    path: Seq<char>,
    there: bool,
    mib: Seq<char>,
    replies: Seq<Option<Json>>,
) -> ReportView {
    if there {
        entities_upto(
            blank().note(Severity::Good, "sqlite: "@ + path + " ("@ + mib + " MiB)"@),
            replies,
            6,
        )
    } else {
        blank().note(
            Severity::Info,
            "sqlite: "@ + path + " (missing — daemon not yet started?)"@,
        )
    }
}

/// What is said of the database. After a question that is not answered no
/// other is asked.
pub fn database(path: &str, there: bool, mib: &str, replies: &Vec<Option<Json>>) -> (r: Report)
    requires
        replies@.len() == 6,
    ensures
        r@ == database_view(path@, there, mib@, replies@),
{
    if !there {
        let s = cat3("sqlite: ", path, " (missing — daemon not yet started?)");
        return Report::new().note(Severity::Info, s.as_str());
    }
    let s = crate::text::cat5("sqlite: ", path, " (", mib, " MiB)");
    let mut r = Report::new().note(Severity::Good, s.as_str());
    let ghost start = r@;
    let mut down = false;
    let mut i: usize = 0;
    while i < 6
        invariant
            i <= 6,
            replies@.len() == 6,
            down == unanswered(replies@, i as nat),
            r@ == entities_upto(start, replies@, i as nat),
        decreases 6 - i,
    {
        let name: &'static str = ENTITIES[i];
        if down {
            r = r.line(cat3("  ", name, ": (skipped — daemon unavailable)"));
            proof {
                let k = choose|k: int| 0 <= k < i && (#[trigger] replies@[k]) is None;
                assert(replies@[k] is None && 0 <= k < i + 1);
            }
        } else {
            match &replies[i] {
                None => {
                    let t = cat2(name, ": daemon unavailable — entity counts skipped");
                    r = r.note(Severity::Info, t.as_str());
                    down = true;
                    assert(replies@[i as int] is None);
                },
                Some(j) => match j.as_array() {
                    Some(items) => {
                        let d = decimal(items.len() as u64);
                        let t = cat3(name, ": ", d.as_str());
                        r = r.show(Severity::Good, t.as_str());
                    },
                    None => {
                        let t = cat2(name, ": unexpected response shape");
                        r = r.note(Severity::Warn, t.as_str());
                    },
                },
            }
        }
        i = i + 1;
    }
    r
}

/// The question for the newest entries of the audit log.
pub fn audit_request() -> (r: Request)
    ensures
        r@ == getting("/audit?limit=20"@),
{
    get("/audit?limit=20".to_owned())
}

/// Whether an entry does not follow the one that is older: both say which it
/// follows, and which it is, and the two differ.
pub open spec fn breaks(newer: JsonView, older: JsonView) -> bool {
    match (newer.str_at("prev_hash"@), older.str_at("id"@)) {
        (Some(p), Some(id)) => p != id,
        _ => false,
    }
}

/// The first entry, from the `i`-th on, that does not follow the one behind
/// it.
pub open spec fn first_break(entries: Seq<JsonView>, i: int) -> Option<int>
    decreases entries.len() - i,
{
    if i < 0 || i + 1 >= entries.len() {
        None
    } else if breaks(entries[i], entries[i + 1]) {
        Some(i)
    } else {
        first_break(entries, i + 1)
    }
}

/// The chain is whole if and only if no entry breaks it.
pub proof fn chain_is_whole(entries: Seq<JsonView>, i: int)
    requires
        i >= 0,
    ensures
        first_break(entries, i) is None <==> forall|k: int|
            i <= k && k + 1 < entries.len() ==> !#[trigger] breaks(entries[k], entries[k + 1]),
        first_break(entries, i) matches Some(k) ==> i <= k < entries.len() - 1 && breaks(
            entries[k],
            entries[k + 1],
        ),
    decreases entries.len() - i,
{
    if i + 1 < entries.len() && !breaks(entries[i], entries[i + 1]) {
        chain_is_whole(entries, i + 1);
    }
}

/// What is said of the entries of the audit log, from the newest to the
/// oldest.
pub open spec fn audit_known(entries: Seq<JsonView>) -> ReportView {
    let r = blank().show(
        Severity::Good,
        "audit_log: recent "@ + dec(entries.len()) + " entries fetched"@,
    );
    let told = if entries.len() == 0 {
        r.line("  audit_log is empty (fresh install or after rotation)"@)
    } else {
        match entries[0].str_at("at"@) {
            Some(at) => r.line("  last entry at: "@ + at),
            None => r,
        }
    };
    if entries.len() < 2 {
        told.note(Severity::Info, "chain integrity: not enough entries to verify"@)
    } else {
        match first_break(entries, 0) {
            None => told.note(
                Severity::Good,
                "chain integrity: OK over recent "@ + dec(entries.len()) + " entries"@,
            ),
            Some(i) => told.note(
                Severity::Error,
                "chain integrity: BROKEN at entry "@ + entries[i].str_or("id"@, "(unknown)"@),
            ),
        }
    }
}

/// What is said of the audit log.
pub open spec fn audit_view(reply: Result<Json, String>) -> ReportView {
    match reply {
        Ok(j) => match j@ {
            JsonView::Array(entries) => audit_known(entries),
            _ => blank().note(
                Severity::Warn,
                "daemon returned unexpected shape for /audit"@,
            ),
        },
        Err(e) => blank().note(
            Severity::Info,
            "daemon unavailable — audit_log check skipped ("@ + e@ + ")"@,
        ),
    }
}

fn find_break(entries: &Vec<Json>) -> (r: Option<usize>)
    ensures
        match first_break(views(entries@), 0) {
            Some(i) => r is Some && r->0 == i && i < entries@.len(),
            None => r is None,
        },
{
    let ghost all = views(entries@);
    let mut i: usize = 0;
    while i < entries.len() && i + 1 < entries.len()
        invariant
            i <= entries@.len(),
            all == views(entries@),
            first_break(all, 0) == first_break(all, i as int),
        decreases entries@.len() - i,
    {
        assert(all[i as int] == entries@[i as int]@);
        assert(all[i + 1] == entries@[i + 1]@);
        if let Some(p) = entries[i].str_at("prev_hash") {
            if let Some(id) = entries[i + 1].str_at("id") {
                if !same(p, id) {
                    return Some(i);
                }
            }
        }
        i = i + 1;
    }
    None
}

/// What is said of the audit log.
pub fn audit_log(reply: &Result<Json, String>) -> (r: Report)
    ensures
        r@ == audit_view(*reply),
{
    let j = match reply {
        Ok(j) => j,
        Err(e) => {
            let s = cat3("daemon unavailable — audit_log check skipped (", e.as_str(), ")");
            return Report::new().note(Severity::Info, s.as_str());
        },
    };
    let entries = match j.as_array() {
        Some(a) => a,
        None => {
            return Report::new().note(
                Severity::Warn,
                "daemon returned unexpected shape for /audit",
            );
        },
    };
    let d = decimal(entries.len() as u64);
    let s = cat3("audit_log: recent ", d.as_str(), " entries fetched");
    let r = Report::new().show(Severity::Good, s.as_str());
    let told = if entries.len() == 0 {
        r.say("  audit_log is empty (fresh install or after rotation)")
    } else {
        assert(views(entries@)[0] == entries@[0]@);
        match entries[0].str_at("at") {
            Some(at) => r.line(cat2("  last entry at: ", at)),
            None => r,
        }
    };
    if entries.len() < 2 {
        return told.note(Severity::Info, "chain integrity: not enough entries to verify");
    }
    match find_break(entries) {
        None => {
            let t = cat3("chain integrity: OK over recent ", d.as_str(), " entries");
            told.note(Severity::Good, t.as_str())
        },
        Some(i) => {
            assert(views(entries@)[i as int] == entries@[i as int]@);
            let t = cat2(
                "chain integrity: BROKEN at entry ",
                entries[i].str_or("id", "(unknown)"),
            );
            told.note(Severity::Error, t.as_str())
        },
    }
}

/// The text without the slashes at its end.
pub open spec fn without_end_slashes(s: Seq<char>) -> Seq<char>
    decreases s.len(),
{
    if s.len() > 0 && s.last() == '/' {
        without_end_slashes(s.drop_last())
    } else {
        s
    }
}

/// The text without the slashes at its start.
pub open spec fn without_start_slashes(s: Seq<char>) -> Seq<char>
    decreases s.len(),
{
    if s.len() > 0 && s[0] == '/' {
        without_start_slashes(s.skip(1))
    } else {
        s
    }
}

/// The question for the project of a directory.
pub fn by_cwd_request(cwd: &str) -> (r: Request)
    ensures
        r@ == getting(
            "/projects/by-cwd/"@ + without_start_slashes(without_end_slashes(cwd@)),
        ),
{
    let v = chars_of(cwd);
    let mut to: usize = v.len();
    assert(v@.take(v@.len() as int) =~= v@);
    while to > 0 && v[to - 1] == '/'
        invariant
            to <= v@.len(),
            without_end_slashes(v@) == without_end_slashes(v@.take(to as int)),
        decreases to,
    {
        assert(v@.take(to as int).drop_last() =~= v@.take(to - 1));
        to = to - 1;
    }
    let ghost kept = v@.take(to as int);
    assert(without_end_slashes(v@) == kept);
    let mut from: usize = 0;
    assert(kept.skip(0) =~= kept);
    while from < to && v[from] == '/'
        invariant
            from <= to <= v@.len(),
            kept == v@.take(to as int),
            without_start_slashes(kept) == without_start_slashes(kept.skip(from as int)),
        decreases to - from,
    {
        assert(kept.skip(from as int).skip(1) =~= kept.skip(from + 1));
        from = from + 1;
    }
    let segment = text_between(&v, from, to);
    assert(segment@ =~= kept.skip(from as int));
    get(cat2("/projects/by-cwd/", segment.as_str()))
}

/// Whether an error says that there is no such thing.
pub open spec fn says_missing(message: Seq<char>) -> bool {
    occurs_in(message, "404"@) || occurs_in(message, "not_found"@) || occurs_in(
        message,
        "not found"@,
    )
}

/// The first `n` hints, one to a line.
pub open spec fn hints_upto(r: ReportView, hints: Seq<Seq<char>>, n: nat) -> ReportView
    decreases n,
{
    if n == 0 {
        r
    } else {
        hints_upto(r, hints, (n - 1) as nat).line("       "@ + hints[n - 1])
    }
}

/// What is said of the project of the current directory, which may not be
/// known; `reply` is what the daemon says of the project.
pub open spec fn project_view(cwd: Result<String, String>, reply: Result<Json, String>) -> ReportView {
    match cwd {
        Err(e) => blank().note(
            Severity::Info,
            "현재 cwd 조회 실패 ("@ + e@ + ") — project enable 상태 검사 생략"@,
        ),
        Ok(dir) => if reply is Err && !says_missing(reply->Err_0@) {
            blank().note(
                Severity::Info,
                "데몬 비가용 — project enable 상태 검사 생략 ("@ + reply->Err_0@ + ")"@,
            )
        } else {
            let line = enabled_line(
                match reply {
                    Ok(j) => Some(j@),
                    Err(_) => None,
                },
                dir@,
            );
            hints_upto(blank().line("  "@ + line.head), line.hints, line.hints.len()).count(
                line.severity,
            )
        },
    }
}

/// What is said of the project of the current directory.
pub fn project_state(cwd: &Result<String, String>, reply: &Result<Json, String>) -> (r: Report)
    ensures
        r@ == project_view(*cwd, *reply),
{
    let dir = match cwd {
        Ok(d) => d,
        Err(e) => {
            let s = cat3(
                "현재 cwd 조회 실패 (",
                e.as_str(),
                ") — project enable 상태 검사 생략",
            );
            return Report::new().note(Severity::Info, s.as_str());
        },
    };
    let payload = match reply {
        Ok(j) => Some(j),
        Err(e) => {
            let m = e.as_str();
            if !(contains(m, "404") || contains(m, "not_found") || contains(m, "not found")) {
                let s = cat3("데몬 비가용 — project enable 상태 검사 생략 (", m, ")");
                return Report::new().note(Severity::Info, s.as_str());
            }
            None
        },
    };
    let line = format_project_enabled(payload, dir.as_str());
    let mut r = Report::new().line(cat2("  ", line.head.as_str()));
    let ghost start = r@;
    let ghost hints = texts(line.hints@);
    let mut i: usize = 0;
    while i < line.hints.len()
        invariant
            i <= line.hints@.len(),
            hints == texts(line.hints@),
            r@ == hints_upto(start, hints, i as nat),
        decreases line.hints@.len() - i,
    {
        assert(hints[i as int] == line.hints@[i as int]@);
        r = r.line(cat2("       ", line.hints[i].as_str()));
        i = i + 1;
    }
    r.count(line.severity)
}

} // verus!
