//! The part of the health report on the project of the current directory.

use vstd::prelude::*;
use crate::doctor_checks::Severity;
use crate::doctor_plugin::opt_json;
use crate::json::{Json, JsonView};
use crate::text::{cat3, cat5, texts};

verus! {

/// What is said of the project.
pub struct EnabledLine {
    pub severity: Severity,
    /// The line, with its mark.
    pub head: String,
    /// What else is said.
    pub hints: Vec<String>,
}

/// What is said of the project.
#[verifier::ext_equal]
pub struct EnabledLineView {
    pub severity: Severity,
    pub head: Seq<char>,
    pub hints: Seq<Seq<char>>,
}

impl View for EnabledLine {
    type V = EnabledLineView;

    open spec fn view(&self) -> EnabledLineView {
        EnabledLineView {
            severity: self.severity,
            head: self.head@,
            hints: texts(self.hints@),
        }
    }
}

/// Whether a project is enabled: it is, unless it says zero or no.
pub open spec fn is_enabled(project: JsonView) -> bool {
    match project.get("enabled"@) {
        None => true,
        Some(v) => match v.as_i64() {
            Some(n) => n != 0,
            None => v.as_bool() != Some(false),
        },
    }
}

/// What is said of the project, which is missing where none has the directory.
pub open spec fn enabled_line(payload: Option<JsonView>, cwd: Seq<char>) -> EnabledLineView {
    match payload {
        None => EnabledLineView {
            severity: Severity::Info,
            head: "[INFO] cwd `"@ + cwd
                + "` 가 어떤 project 에도 등록되어 있지 않음"@,
            hints: seq![
                "`clawket project register --cwd .` 로 등록하면 hook enforcement 가 활성화됨"@,
            ],
        },
        Some(p) => {
            let id = p.str_or("id"@, "(unknown)"@);
            let name = p.str_or("name"@, "(unknown)"@);
            if is_enabled(p) {
                EnabledLineView {
                    severity: Severity::Good,
                    head: "[OK] project "@ + id + " ("@ + name
                        + ") — enabled, hook enforcement 활성"@,
                    hints: Seq::empty(),
                }
            } else {
                EnabledLineView {
                    severity: Severity::Warn,
                    head: "[WARN] project "@ + id + " ("@ + name
                        + ") — disabled, hook enforcement 비활성"@,
                    hints: seq![
                        "재활성: `clawket project enable "@ + id
                            + "` (의도적으로 disable 한 상태라면 무시)"@,
                        "disable 상태에서는 PreToolUse 훅이 mutating 작업을 차단하지 않음"@,
                    ],
                }
            }
        },
    }
}

/// What is said of the project, which is missing where none has the directory.
pub fn format_project_enabled(payload: Option<&Json>, cwd: &str) -> (r: EnabledLine)
    ensures
        r@ == enabled_line(opt_json(payload), cwd@),
{
    let mut hints: Vec<String> = Vec::new();
    let project = match payload {
        Some(p) => p,
        None => {
            hints.push(
                "`clawket project register --cwd .` 로 등록하면 hook enforcement 가 활성화됨".to_owned(),
            );
            let r = EnabledLine {
                severity: Severity::Info,
                head: cat3(
                    "[INFO] cwd `",
                    cwd,
                    "` 가 어떤 project 에도 등록되어 있지 않음",
                ),
                hints,
            };
            assert(r@ =~= enabled_line(opt_json(payload), cwd@));
            return r;
        },
    };
    let enabled = match project.get("enabled") {
        None => true,
        Some(v) => match v.as_i64() {
            Some(n) => n != 0,
            None => match v.as_bool() {
                Some(b) => b,
                None => true,
            },
        },
    };
    let id = project.str_or("id", "(unknown)");
    let name = project.str_or("name", "(unknown)");
    let r = if enabled {
        EnabledLine {
            severity: Severity::Good,
            head: cat5(
                "[OK] project ",
                id,
                " (",
                name,
                ") — enabled, hook enforcement 활성",
            ),
            hints,
        }
    } else {
        hints.push(
            cat3(
                "재활성: `clawket project enable ",
                id,
                "` (의도적으로 disable 한 상태라면 무시)",
            ),
        );
        hints.push(
            "disable 상태에서는 PreToolUse 훅이 mutating 작업을 차단하지 않음".to_owned(),
        );
        EnabledLine {
            severity: Severity::Warn,
            head: cat5(
                "[WARN] project ",
                id,
                " (",
                name,
                ") — disabled, hook enforcement 비활성",
            ),
            hints,
        }
    };
    assert(r@ =~= enabled_line(opt_json(payload), cwd@));
    r
}

/// The line starts with the mark of its gravity.
pub proof fn line_bears_its_mark(payload: Option<JsonView>, cwd: Seq<char>)
    ensures
        enabled_line(payload, cwd).severity.mark().is_prefix_of(enabled_line(payload, cwd).head),
{
    let line = enabled_line(payload, cwd);
    reveal_strlit("[INFO]");
    reveal_strlit("[OK]");
    reveal_strlit("[WARN]");
    reveal_strlit("[INFO] cwd `");
    reveal_strlit("[OK] project ");
    reveal_strlit("[WARN] project ");
    assert(line.head.take(line.severity.mark().len() as int) =~= line.severity.mark());
}

} // verus!
