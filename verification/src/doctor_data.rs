//! The parts of the health report on the data.

use vstd::prelude::*;
use crate::agent::Agent;
use crate::doctor_checks::{
    budget_severity, classify_activity_log_budget, classify_db_freshness,
    classify_task_count_change, freshness_severity, is_world_writable, task_count_severity,
    DoctorSnapshot, Severity, Timestamp,
};
use crate::doctor_report::{blank, Report, ReportView};
use crate::json::{Json, JsonView};
use crate::paths::{is_in_plugin_dir, join_path, joined_path, path_overlaps_plugin_dir};
use crate::request::{get, getting, Request};
use crate::scan::{before_suffix, contains, ends_with, occurs_in};
use crate::text::{cat2, cat3, cat4, cat5, dec, dec_int, decimal, decimal_int, texts};

verus! {

/// Whether everyone may write to a directory, or why that cannot be said.
/// `mode` is the mode of the file, or why it cannot be read.
pub fn world_writable_check(there: bool, mode: Result<u32, String>) -> (r: Result<bool, String>)
    ensures
        !there ==> r is Err && r->Err_0@ == "dir missing"@,
        there && mode is Err ==> r is Err && r->Err_0@ == mode->Err_0@,
        there && mode is Ok ==> r is Ok && (r->Ok_0 <==> (mode->Ok_0 / 2) % 2 == 1 && (mode->Ok_0
            / 512) % 2 == 0),
{
    if !there {
        return Err("dir missing".to_owned());
    }
    match mode {
        Ok(m) => {
            assert(((m & 0xfffu32) / 2) % 2 == (m / 2) % 2) by (bit_vector);
            assert(((m & 0xfffu32) / 512) % 2 == (m / 512) % 2) by (bit_vector);
            Ok(is_world_writable(m & 0xfffu32))
        },
        Err(e) => Err(e),
    }
}

/// The places where earlier versions left their data.
pub open spec fn remnant_places(home: Option<Seq<char>>, macos: bool) -> Seq<Seq<char>> {
    match home {
        Some(h) => seq![
            joined_path(h, ".local/share/db.sqlite"@),
            joined_path(h, ".local/share/lattice"@),
        ] + if macos {
            seq![
                joined_path(h, "Library/Application Support/clawket"@),
                joined_path(h, "Library/Application Support/lattice"@),
            ]
        } else {
            Seq::empty()
        },
        None => Seq::empty(),
    }
}

/// The places where earlier versions left their data.
pub fn legacy_remnant_candidates(home: Option<&str>, macos: bool) -> (r: Vec<String>)
    ensures
        texts(r@) == remnant_places(crate::json::opt_text(home), macos),
{
    let mut out: Vec<String> = Vec::new();
    if let Some(h) = home {
        out.push(join_path(h, ".local/share/db.sqlite"));
        out.push(join_path(h, ".local/share/lattice"));
        if macos {
            out.push(join_path(h, "Library/Application Support/clawket"));
            out.push(join_path(h, "Library/Application Support/lattice"));
        }
    }
    assert(texts(out@) =~= remnant_places(crate::json::opt_text(home), macos));
    out
}

/// Whether a file name is that of a backup.
pub open spec fn is_backup_name(name: Seq<char>) -> bool {
    ||| before_suffix(name, ".bak"@) is Some
    ||| before_suffix(name, ".backup"@) is Some
    ||| occurs_in(name, ".sqlite."@)
}

/// Whether one of the names is that of a backup.
pub fn nearby_backup_present(names: &Vec<String>) -> (r: bool)
    ensures
        r <==> exists|i: int| 0 <= i < names@.len() && is_backup_name(#[trigger] names@[i]@),
{
    let mut i: usize = 0;
    while i < names.len()
        invariant
            i <= names@.len(),
            forall|k: int| 0 <= k < i ==> !is_backup_name(#[trigger] names@[k]@),
        decreases names@.len() - i,
    {
        let s = names[i].as_str();
        if ends_with(s, ".bak") || ends_with(s, ".backup") || contains(s, ".sqlite.") {
            assert(is_backup_name(names@[i as int]@));
            return true;
        }
        i = i + 1;
    }
    false
}

/// When the database was written, in seconds since the start of 1970.
pub fn db_mtime_secs(mtime: Option<Timestamp>) -> (r: Option<u64>)
    ensures
        r is Some <==> mtime is Some && mtime->0.secs >= 0,
        r matches Some(s) ==> s == mtime->0.secs,
{
    match mtime {
        Some(t) => if t.secs >= 0 {
            Some(t.secs as u64)
        } else {
            None
        },
        None => None,
    }
}

/// What is to be kept for the next report: nothing where the number of tasks
/// is not known.
pub fn next_snapshot(count_now: Option<u64>, mtime: Option<Timestamp>) -> (r: Option<DoctorSnapshot>)
    ensures
        r is Some <==> count_now is Some,
        r matches Some(s) ==> s.task_count == count_now->0 && (s.db_mtime_secs is Some <==> mtime
            is Some && mtime->0.secs >= 0) && (s.db_mtime_secs matches Some(t) ==> t
            == mtime->0.secs),
{
    match count_now {
        Some(n) => Some(DoctorSnapshot { task_count: n, db_mtime_secs: db_mtime_secs(mtime) }),
        None => None,
    }
}

/// What is found of the dangers to the data.
pub struct DataLossFacts {
    pub writable: Result<bool, String>,
    pub remnants: Vec<String>,
    pub prev_count: Option<u64>,
    pub db_mtime: Option<Timestamp>,
    pub now: Timestamp,
    pub has_backup: bool,
}

impl DataLossFacts {
    /// The points in time are such.
    pub open spec fn wf(self) -> bool {
        self.now.wf() && (self.db_mtime matches Some(m) ==> m.wf())
    }
}

/// On data in the plugin directory.
pub open spec fn overlap_view(r: ReportView, data_dir: Seq<char>, a: Agent) -> ReportView {
    if is_in_plugin_dir(data_dir, a) {
        r.note(
            Severity::Error,
            "#1 plugin overlap: data dir is under "@ + a.dot("/plugins/"@)
                + " — 데이터 손실 임박"@,
        ).line(
            "       조치: CLAWKET_DATA_DIR/XDG_DATA_HOME 를 plugin 디렉토리 외부로 이동"@,
        )
    } else {
        r.note(Severity::Good, "#1 plugin overlap: data dir 가 plugin 트리 외부에 있음"@)
    }
}

fn overlap(r: Report, data_dir: &str, a: &Agent) -> (out: Report)
    ensures
        out@ == overlap_view(r@, data_dir@, *a),
{
    if path_overlaps_plugin_dir(data_dir, a) {
        let dir = a.hidden("/plugins/");
        let s = cat3(
            "#1 plugin overlap: data dir is under ",
            dir.as_str(),
            " — 데이터 손실 임박",
        );
        r.note(Severity::Error, s.as_str()).say("       조치: CLAWKET_DATA_DIR/XDG_DATA_HOME 를 plugin 디렉토리 외부로 이동")
    } else {
        r.note(Severity::Good, "#1 plugin overlap: data dir 가 plugin 트리 외부에 있음")
    }
}

/// On data that everyone may write to.
pub open spec fn permissions_view(
    r: ReportView,
    data_dir: Seq<char>,
    writable: Result<bool, String>,
) -> ReportView {
    match writable {
        Ok(true) => r.note(
            Severity::Warn,
            "#2 permissions: data dir 가 world-writable — 다른 사용자가 SQLite 변조 가능"@,
        ).line(
            "       조치: chmod 700 "@ + data_dir + " (sticky bit 가 없는 0o7XX 권한)"@,
        ),
        Ok(false) => r.note(Severity::Good, "#2 permissions: data dir 권한 OK"@),
        Err(e) => r.note(Severity::Info, "#2 permissions: 검사 불가 ("@ + e@ + ")"@),
    }
}

fn permissions(r: Report, data_dir: &str, writable: &Result<bool, String>) -> (out: Report)
    ensures
        out@ == permissions_view(r@, data_dir@, *writable),
{
    match writable {
        Ok(w) => if *w {
            r.note(
                Severity::Warn,
                "#2 permissions: data dir 가 world-writable — 다른 사용자가 SQLite 변조 가능",
            ).line(
                cat3("       조치: chmod 700 ", data_dir, " (sticky bit 가 없는 0o7XX 권한)"),
            )
        } else {
            r.note(Severity::Good, "#2 permissions: data dir 권한 OK")
        },
        Err(e) => {
            let s = cat3("#2 permissions: 검사 불가 (", e.as_str(), ")");
            r.note(Severity::Info, s.as_str())
        },
    }
}

/// The first `n` items, one to a line.
pub open spec fn listed_upto(r: ReportView, items: Seq<Seq<char>>, n: nat) -> ReportView
    decreases n,
{
    if n == 0 {
        r
    } else {
        listed_upto(r, items, (n - 1) as nat).line("       - "@ + items[n - 1])
    }
}

/// The items, one to a line.
pub fn list(r: Report, items: &Vec<String>) -> (out: Report)
    ensures
        out@ == listed_upto(r@, texts(items@), items@.len()),
{
    let ghost start = r@;
    let mut out = r;
    let mut i: usize = 0;
    while i < items.len()
        invariant
            i <= items@.len(),
            out@ == listed_upto(start, texts(items@), i as nat),
        decreases items@.len() - i,
    {
        out = out.line(cat2("       - ", items[i].as_str()));
        i = i + 1;
    }
    out
}

/// On data that earlier versions left.
pub open spec fn remnants_view(r: ReportView, remnants: Seq<Seq<char>>) -> ReportView {
    if remnants.len() == 0 {
        r.note(Severity::Good, "#3 legacy remnants: v10 이전 경로 잔재 없음"@)
    } else {
        listed_upto(
            r.show(
                Severity::Warn,
                "#3 legacy remnants: "@ + dec(remnants.len()) + " 경로 잔재 발견"@,
            ),
            remnants,
            remnants.len(),
        ).line(
            "       조치: 데이터를 더 이상 쓰지 않는다면 위 경로를 사용자가 직접 삭제. Clawket 은 자동 마이그레이션을 지원하지 않음."@,
        ).count(Severity::Warn)
    }
}

fn remnants_part(r: Report, remnants: &Vec<String>) -> (out: Report)
    ensures
        out@ == remnants_view(r@, texts(remnants@)),
{
    if remnants.len() == 0 {
        r.note(Severity::Good, "#3 legacy remnants: v10 이전 경로 잔재 없음")
    } else {
        let n = decimal(remnants.len() as u64);
        let s = cat3("#3 legacy remnants: ", n.as_str(), " 경로 잔재 발견");
        list(r.show(Severity::Warn, s.as_str()), remnants).say(
            "       조치: 데이터를 더 이상 쓰지 않는다면 위 경로를 사용자가 직접 삭제. Clawket 은 자동 마이그레이션을 지원하지 않음.",
        ).count(Severity::Warn)
    }
}

/// The number of tasks that was kept, or zero.
pub open spec fn kept_count(prev: Option<u64>) -> nat {
    match prev {
        Some(p) => p as nat,
        None => 0,
    }
}

/// On the number of tasks.
pub open spec fn count_view(r: ReportView, prev: Option<u64>, now: Option<u64>) -> ReportView {
    match now {
        Some(n) => match task_count_severity(prev, n) {
            Severity::Warn => r.note(
                Severity::Warn,
                "#4 task count: 이전 "@ + dec(kept_count(prev)) + " → 현재 "@ + dec(n as nat)
                    + " (50% 미만, 데이터 손실 의심)"@,
            ).line(
                "       조치: clawket task list 로 작업 수 확인, 누락된 항목이 의도된 cancel 인지 검증"@,
            ),
            Severity::Info => r.note(
                Severity::Info,
                "#4 task count: 첫 실행 — 스냅샷 기록 (현재 "@ + dec(n as nat) + " 작업)"@,
            ),
            _ => r.note(
                Severity::Good,
                "#4 task count: 이전 "@ + dec(kept_count(prev)) + " → 현재 "@ + dec(n as nat)
                    + " (정상 변동 범위)"@,
            ),
        },
        None => r.note(
            Severity::Info,
            "#4 task count: 데몬 비가용 — 이번 실행에서는 비교 생략"@,
        ),
    }
}

fn task_counts(r: Report, prev: Option<u64>, now: Option<u64>) -> (out: Report)
    ensures
        out@ == count_view(r@, prev, now),
{
    match now {
        Some(n) => {
            let d = decimal(n);
            let p = decimal(
                match prev {
                    Some(p) => p,
                    None => 0,
                },
            );
            match classify_task_count_change(prev, n) {
                Severity::Warn => {
                    let s = cat5(
                        "#4 task count: 이전 ",
                        p.as_str(),
                        " → 현재 ",
                        d.as_str(),
                        " (50% 미만, 데이터 손실 의심)",
                    );
                    r.note(Severity::Warn, s.as_str()).say(
                        "       조치: clawket task list 로 작업 수 확인, 누락된 항목이 의도된 cancel 인지 검증",
                    )
                },
                Severity::Info => {
                    let s = cat3(
                        "#4 task count: 첫 실행 — 스냅샷 기록 (현재 ",
                        d.as_str(),
                        " 작업)",
                    );
                    r.note(Severity::Info, s.as_str())
                },
                _ => {
                    let s = cat5(
                        "#4 task count: 이전 ",
                        p.as_str(),
                        " → 현재 ",
                        d.as_str(),
                        " (정상 변동 범위)",
                    );
                    r.note(Severity::Good, s.as_str())
                },
            }
        },
        None => r.note(
            Severity::Info,
            "#4 task count: 데몬 비가용 — 이번 실행에서는 비교 생략",
        ),
    }
}

/// On the age of the database.
pub open spec fn freshness_view(
    r: ReportView,
    mtime: Option<Timestamp>,
    now: Timestamp,
    backup: bool,
) -> ReportView {
    if mtime is None {
        r.note(
            Severity::Info,
            "#5 db freshness: db.sqlite 미존재 — 데몬 미기동 또는 미설치"@,
        )
    } else if freshness_severity(mtime, now, backup) == Severity::Info {
        r.note(
            Severity::Info,
            "#5 db freshness: db.sqlite 가 24h 이내 신규 + 백업 없음 — 첫 설치 또는 재생성 직후"@,
        ).line(
            "       조치: 첫 설치 직후라면 정상. 의도치 않은 재생성이라면 즉시 작업 중단 후 검사."@,
        )
    } else if backup {
        r.note(Severity::Good, "#5 db freshness: db.sqlite OK (백업 존재)"@)
    } else {
        r.note(Severity::Good, "#5 db freshness: db.sqlite OK (24h 이상 경과)"@)
    }
}

fn freshness(r: Report, mtime: Option<Timestamp>, now: Timestamp, backup: bool) -> (out: Report)
    requires
        now.wf(),
        mtime matches Some(m) ==> m.wf(),
    ensures
        out@ == freshness_view(r@, mtime, now, backup),
{
    if mtime.is_none() {
        return r.note(
            Severity::Info,
            "#5 db freshness: db.sqlite 미존재 — 데몬 미기동 또는 미설치",
        );
    }
    if classify_db_freshness(mtime, now, backup) == Severity::Info {
        r.note(
            Severity::Info,
            "#5 db freshness: db.sqlite 가 24h 이내 신규 + 백업 없음 — 첫 설치 또는 재생성 직후",
        ).say(
            "       조치: 첫 설치 직후라면 정상. 의도치 않은 재생성이라면 즉시 작업 중단 후 검사.",
        )
    } else if backup {
        r.note(Severity::Good, "#5 db freshness: db.sqlite OK (백업 존재)")
    } else {
        r.note(Severity::Good, "#5 db freshness: db.sqlite OK (24h 이상 경과)")
    }
}

/// What is said of the dangers to the data.
pub open spec fn data_loss_view(
    f: DataLossFacts,
    data_dir: Seq<char>,
    count_now: Option<u64>,
    a: Agent,
) -> ReportView {
    let r1 = overlap_view(blank(), data_dir, a);
    let r2 = permissions_view(r1, data_dir, f.writable);
    let r3 = remnants_view(r2, texts(f.remnants@));
    let r4 = count_view(r3, f.prev_count, count_now);
    freshness_view(r4, f.db_mtime, f.now, f.has_backup)
}

/// What is said of the dangers to the data.
pub fn data_loss_diagnostics(
    f: &DataLossFacts,
    data_dir: &str,
    count_now: Option<u64>,
    a: &Agent,
) -> (r: Report)
    requires
        f.wf(),
    ensures
        r@ == data_loss_view(*f, data_dir@, count_now, *a),
{
    let r1 = overlap(Report::new(), data_dir, a);
    let r2 = permissions(r1, data_dir, &f.writable);
    let r3 = remnants_part(r2, &f.remnants);
    let r4 = task_counts(r3, f.prev_count, count_now);
    freshness(r4, f.db_mtime, f.now, f.has_backup)
}

/// Every one of the five dangers is counted, once.
pub proof fn each_danger_is_counted_once(
    f: DataLossFacts,
    data_dir: Seq<char>,
    count_now: Option<u64>,
    a: Agent,
)
    ensures
        data_loss_view(f, data_dir, count_now, a).tally.len() == 5,
{
    let r2 = permissions_view(overlap_view(blank(), data_dir, a), data_dir, f.writable);
    let shown = r2.show(
        Severity::Warn,
        "#3 legacy remnants: "@ + dec(f.remnants@.len()) + " 경로 잔재 발견"@,
    );
    listing_counts_nothing(shown, texts(f.remnants@), f.remnants@.len());
}

proof fn listing_counts_nothing(r: ReportView, items: Seq<Seq<char>>, n: nat)
    ensures
        listed_upto(r, items, n).tally == r.tally,
    decreases n,
{
    if n > 0 {
        listing_counts_nothing(r, items, (n - 1) as nat);
    }
}

/// The question for the size of the activity log.
pub fn activity_request() -> (r: Request)
    ensures
        r@ == getting("/activity/stats"@),
{
    get("/activity/stats".to_owned())
}

/// An integer member, or zero.
pub open spec fn int_or_zero(j: JsonView, key: Seq<char>) -> int {
    match j.i64_at(key) {
        Some(n) => n,
        None => 0,
    }
}

/// An integer member, or zero.
pub fn i64_or_zero(j: &Json, key: &str) -> (r: i64)
    ensures
        r == int_or_zero(j@, key@),
{
    match j.i64_at(key) {
        Some(n) => n,
        None => 0,
    }
}

/// What is said of the activity log, where its numbers are known. The size in
/// mebibytes and the share of the budget come as texts.
pub open spec fn activity_known(stats: JsonView, mib: Seq<char>, percent: Seq<char>) -> ReportView {
    let sev = budget_severity(int_or_zero(stats, "used_bytes"@), int_or_zero(stats, "max_bytes"@));
    let r = blank().show(
        sev,
        "사이즈 = "@ + mib + " MiB / "@ + dec_int(int_or_zero(stats, "max_mb"@)) + " MB ("@
            + percent + "%, hot "@ + dec_int(int_or_zero(stats, "hot_days"@)) + "d / total "@
            + dec_int(int_or_zero(stats, "total_days"@)) + "d)"@,
    ).line(
        "       hot_rows="@ + dec_int(int_or_zero(stats, "hot_rows"@)) + " archive_batches="@
            + dec_int(int_or_zero(stats, "archive_batches"@)),
    );
    (match sev {
        Severity::Warn => r.line(
            "       조치: CLAWKET_ACTIVITY_LOG_TOTAL_DAYS 를 줄이거나 CLAWKET_ACTIVITY_LOG_MAX_MB 를 늘려 보유 기간을 조절"@,
        ),
        Severity::Error => r.line(
            "       조치: 95% 초과 — 다음 rollup 부터 cold cutoff 가 적극 축소되어 history 가 좁아짐. 즉시 CLAWKET_ACTIVITY_LOG_MAX_MB 상향 검토."@,
        ),
        _ => r,
    }).count(sev)
}

/// What is said of the activity log.
pub open spec fn activity_view(
    stats: Result<Json, String>,
    mib: Seq<char>,
    percent: Seq<char>,
) -> ReportView {
    match stats {
        Ok(s) => activity_known(s@, mib, percent),
        Err(e) => blank().note(
            Severity::Info,
            "데몬 비가용 — activity_log 사이즈 검사 생략 ("@ + e@ + ")"@,
        ),
    }
}

/// What is said of the activity log.
pub fn activity_log_budget(stats: &Result<Json, String>, mib: &str, percent: &str) -> (r: Report)
    ensures
        r@ == activity_view(*stats, mib@, percent@),
{
    let s = match stats {
        Ok(s) => s,
        Err(e) => {
            let t = cat3(
                "데몬 비가용 — activity_log 사이즈 검사 생략 (",
                e.as_str(),
                ")",
            );
            return Report::new().note(Severity::Info, t.as_str());
        },
    };
    let sev = classify_activity_log_budget(
        i64_or_zero(s, "used_bytes"),
        i64_or_zero(s, "max_bytes"),
    );
    let max_mb = decimal_int(i64_or_zero(s, "max_mb"));
    let hot = decimal_int(i64_or_zero(s, "hot_days"));
    let total = decimal_int(i64_or_zero(s, "total_days"));
    let start = cat5("사이즈 = ", mib, " MiB / ", max_mb.as_str(), " MB (");
    let middle = cat5(start.as_str(), percent, "%, hot ", hot.as_str(), "d / total ");
    let line = cat3(middle.as_str(), total.as_str(), "d)");
    let rows = decimal_int(i64_or_zero(s, "hot_rows"));
    let batches = decimal_int(i64_or_zero(s, "archive_batches"));
    let r = Report::new().show(sev, line.as_str()).line(
        cat4("       hot_rows=", rows.as_str(), " archive_batches=", batches.as_str()),
    );
    let told = match sev {
        Severity::Warn => r.say(
            "       조치: CLAWKET_ACTIVITY_LOG_TOTAL_DAYS 를 줄이거나 CLAWKET_ACTIVITY_LOG_MAX_MB 를 늘려 보유 기간을 조절",
        ),
        Severity::Error => r.say(
            "       조치: 95% 초과 — 다음 rollup 부터 cold cutoff 가 적극 축소되어 history 가 좁아짐. 즉시 CLAWKET_ACTIVITY_LOG_MAX_MB 상향 검토.",
        ),
        _ => r,
    };
    told.count(sev)
}

} // verus!
