//! The warning about files that changed since a task was planned.

use vstd::prelude::*;
use crate::json::{Json, JsonView};
use crate::request::{get, getting, Request};
use crate::scan::opt_string;
use crate::text::{cat2, cat3, cat5, dec, decimal, first_chars, head, same};

verus! {

/// How many of the changed files are in scope: those listed, or where no list
/// is given all that changed.
pub open spec fn files_in_scope(j: JsonView) -> int {
    match j.array_at("changed_files_in_scope"@) {
        Some(a) => a.len() as int,
        None => match j.u64_at("total_changed"@) {
            Some(n) => n,
            None => 0,
        },
    }
}

/// How many files changed.
pub open spec fn files_changed(j: JsonView) -> int {
    match j.u64_at("total_changed"@) {
        Some(n) => n,
        None => files_in_scope(j),
    }
}

/// A commit in short form.
pub open spec fn short_sha(j: JsonView, key: Seq<char>) -> Seq<char> {
    first_chars(j.str_or(key, "?"@), 7)
}

/// The line for a minor drift, without color.
pub open spec fn minor_line(j: JsonView) -> Seq<char> {
    "[drift:minor] "@ + dec(files_in_scope(j) as nat) + " of "@ + dec(files_changed(j) as nat)
        + " changed files in scope (planned "@ + short_sha(j, "planned_sha"@) + " → current "@
        + short_sha(j, "current_sha"@) + ")"@
}

/// The lines for a major drift, without the sign and the color around them.
pub open spec fn major_lines(j: JsonView, color: bool) -> Seq<char> {
    (if color {
        "\x1b[1m"@
    } else {
        ""@
    }) + "drift: MAJOR"@ + (if color {
        "\x1b[0m"@
    } else {
        ""@
    }) + "  "@ + dec(files_in_scope(j) as nat) + " files in scope changed (out of "@ + dec(
        files_changed(j) as nat,
    ) + ")\n  planned_sha: "@ + short_sha(j, "planned_sha"@) + " → current: "@ + short_sha(
        j,
        "current_sha"@,
    )
        + "\n  hint: `clawket task envelope <id> set --field planned_sha=$(git rev-parse HEAD)` to re-anchor"@
}

/// The warning for a drift report: none without drift, one gray line for a
/// minor drift, a yellow banner with a hint for a major one, and for any other
/// level its name.
pub open spec fn drift_banner(j: JsonView, color: bool) -> Option<Seq<char>> {
    let level = j.str_or("drift_level"@, "none"@);
    if level == "none"@ {
        None
    } else if level == "minor"@ {
        Some(
            if color {
                "\x1b[90m"@ + minor_line(j) + "\x1b[0m"@
            } else {
                minor_line(j)
            },
        )
    } else if level == "major"@ {
        Some(
            if color {
                "\x1b[33m⚠ "@ + major_lines(j, color) + "\x1b[0m"@
            } else {
                "⚠ "@ + major_lines(j, color)
            },
        )
    } else {
        Some(
            "[drift:"@ + level + "] "@ + dec(files_in_scope(j) as nat) + " files in scope"@,
        )
    }
}

/// The warning for a drift report, with or without color.
pub fn format(drift: &Json, color: bool) -> (r: Option<String>)
    ensures
        opt_string(r) == drift_banner(drift@, color),
{
    let level = drift.str_or("drift_level", "none");
    if same(level, "none") {
        return None;
    }
    let reported = drift.u64_at("total_changed");
    let in_scope: u64 = match drift.array_at("changed_files_in_scope") {
        Some(a) => a.len() as u64,
        None => match reported {
            Some(n) => n,
            None => 0,
        },
    };
    let changed: u64 = match reported {
        Some(n) => n,
        None => in_scope,
    };
    let count = decimal(in_scope);
    let total = decimal(changed);
    let planned = head(drift.str_or("planned_sha", "?"), 7);
    let current = head(drift.str_or("current_sha", "?"), 7);
    if same(level, "minor") {
        let mut body = cat5(
            "[drift:minor] ",
            count.as_str(),
            " of ",
            total.as_str(),
            " changed files in scope (planned ",
        );
        body.append(planned.as_str());
        body.append(" → current ");
        body.append(current.as_str());
        body.append(")");
        return Some(
            if color {
                cat3("\x1b[90m", body.as_str(), "\x1b[0m")
            } else {
                body
            },
        );
    }
    if same(level, "major") {
        let mut body = if color {
            cat3("\x1b[1m", "drift: MAJOR", "\x1b[0m")
        } else {
            cat3("", "drift: MAJOR", "")
        };
        body.append("  ");
        body.append(count.as_str());
        body.append(" files in scope changed (out of ");
        body.append(total.as_str());
        body.append(")\n  planned_sha: ");
        body.append(planned.as_str());
        body.append(" → current: ");
        body.append(current.as_str());
        body.append(
            "\n  hint: `clawket task envelope <id> set --field planned_sha=$(git rev-parse HEAD)` to re-anchor",
        );
        return Some(
            if color {
                cat3("\x1b[33m⚠ ", body.as_str(), "\x1b[0m")
            } else {
                cat2("⚠ ", body.as_str())
            },
        );
    }
    Some(cat5("[drift:", level, "] ", count.as_str(), " files in scope"))
}

/// What asks how far a task has drifted.
pub fn drift_request(task_id: &str) -> (r: Request)
    ensures
        r@ == getting("/tasks/"@ + task_id@ + "/drift"@),
{
    get(cat3("/tasks/", task_id, "/drift"))
}

} // verus!
