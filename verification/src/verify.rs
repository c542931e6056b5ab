//! The course of `verify`: a project is made and deleted again.

use vstd::prelude::*;
use crate::json::{empty_object, object, text, Json, JsonView};
use crate::request::{delete, deleting, get, getting, post, posting, Request, RequestView};
use crate::text::{cat2, cat3, cat4, dec, decimal};

verus! {

/// What is done, in words.
pub const STEPS: [&'static str; 4] = [
    "1. CLI version self-check (`clawket --version`)",
    "2. Daemon health probe (HTTP GET /health via Unix socket)",
    "3. Create throwaway project (POST /projects)",
    "4. Cleanup: delete throwaway project (DELETE /projects/:id, cascades plans/tasks)",
];

/// What is said without doing anything.
pub open spec fn dry_run_text() -> Seq<char> {
    "Clawket verify\n==============\n\nMode: DRY RUN (no daemon contact, no writes)\n\nWould run:\n"@
        + "  "@ + STEPS[0]@ + "\n"@ + "  "@ + STEPS[1]@ + "\n"@ + "  "@ + STEPS[2]@ + "\n"@ + "  "@
        + STEPS[3]@ + "\n"@ + "\nOK (dry-run)\n"@
}

/// What is said without doing anything.
pub fn dry_run() -> (r: String)
    ensures
        r@ == dry_run_text(),
{
    let mut out =
        "Clawket verify\n==============\n\nMode: DRY RUN (no daemon contact, no writes)\n\nWould run:\n".to_owned();
    out.append("  ");
    out.append(STEPS[0]);
    out.append("\n");
    out.append("  ");
    out.append(STEPS[1]);
    out.append("\n");
    out.append("  ");
    out.append(STEPS[2]);
    out.append("\n");
    out.append("  ");
    out.append(STEPS[3]);
    out.append("\n");
    out.append("\nOK (dry-run)\n");
    out
}

/// What is said before the daemon is asked.
pub open spec fn live_run_text(version: Seq<char>) -> Seq<char> {
    "Clawket verify\n==============\n\nMode: LIVE (will create and delete a throwaway project)\n\n[1/4] CLI version: "@
        + version + "\n"@
}

/// What is said before the daemon is asked.
pub fn live_run(version: &str) -> (r: String)
    ensures
        r@ == live_run_text(version@),
{
    cat3(
        "Clawket verify\n==============\n\nMode: LIVE (will create and delete a throwaway project)\n\n[1/4] CLI version: ",
        version,
        "\n",
    )
}

/// The name of the throwaway project.
pub fn throwaway_name(millis: u64) -> (r: String)
    ensures
        r@ == "clawket-verify-"@ + dec(millis as nat),
{
    let n = decimal(millis);
    cat2("clawket-verify-", n.as_str())
}

/// How far the check is: the request that is answered next.
pub enum VerifyStage {
    Health,
    Create,
    Delete { id: String },
    Finished,
}

/// What is asked at a stage. The project has a name that was not used before.
pub open spec fn verify_asks(s: VerifyStage, name: Seq<char>, cwd: Seq<char>) -> Option<
    RequestView,
> {
    match s {
        VerifyStage::Health => Some(getting("/health"@)),
        VerifyStage::Create => Some(
            posting(
                "/projects"@,
                empty_object().with("name"@, JsonView::Text(name)).with(
                    "cwd"@,
                    JsonView::Text(cwd),
                ),
            ),
        ),
        VerifyStage::Delete { id } => Some(deleting("/projects/"@ + id@)),
        VerifyStage::Finished => None,
    }
}

/// What is asked at a stage; nothing at the end.
pub fn verify_request(s: &VerifyStage, name: &str, cwd: &str) -> (r: Option<Request>)
    ensures
        match r {
            Some(q) => verify_asks(*s, name@, cwd@) == Some(q@),
            None => verify_asks(*s, name@, cwd@) is None,
        },
{
    match s {
        VerifyStage::Health => Some(get("/health".to_owned())),
        VerifyStage::Create => Some(
            post(
                "/projects".to_owned(),
                object().with("name", text(name)).with("cwd", text(cwd)),
            ),
        ),
        VerifyStage::Delete { id } => Some(delete(cat2("/projects/", id.as_str()))),
        VerifyStage::Finished => None,
    }
}

/// What follows an answer.
pub enum VerifyStep {
    Next { stage: VerifyStage, said: String },
    Fail(String),
}

/// What follows an answer at a stage: the next stage and what is said, or the
/// error. `Ok` carries the body, `Err` the message of a request that failed.
pub open spec fn verify_follows(
    s: VerifyStage,
    reply: Result<JsonView, Seq<char>>,
    step: VerifyStep,
) -> bool {
    match s {
        VerifyStage::Health => match reply {
            Ok(val) => step matches VerifyStep::Next { stage, said } && stage is Create && said@
                == "[2/4] Daemon /health: "@ + val.str_or("status"@, "unknown"@) + "\n"@,
            Err(e) => step matches VerifyStep::Fail(m) && m@
                == "daemon /health probe failed — start it with `clawket daemon start`: "@ + e,
        },
        VerifyStage::Create => match reply {
            Ok(val) => match val.str_at("id"@) {
                Some(p) => step matches VerifyStep::Next { stage, said } && (stage matches
                    VerifyStage::Delete { id } && id@ == p) && said@ == "[3/4] Created project: "@
                    + p + "\n"@,
                None => step matches VerifyStep::Fail(m) && m@
                    == "daemon returned project without id"@,
            },
            Err(e) => step matches VerifyStep::Fail(m) && m@
                == "failed to create throwaway project: "@ + e,
        },
        VerifyStage::Delete { id } => match reply {
            Ok(_) => step matches VerifyStep::Next { stage, said } && stage is Finished && said@
                == "[4/4] Deleted project: "@ + id@ + "\n\nOK\n"@,
            Err(e) => step matches VerifyStep::Fail(m) && m@ == "cleanup failed (project "@ + id@
                + " left behind): "@ + e,
        },
        VerifyStage::Finished => step matches VerifyStep::Next { stage, said } && stage is Finished
            && said@.len() == 0,
    }
}

/// What an answer or its failure is.
pub open spec fn reply_view(r: Result<&Json, &str>) -> Result<JsonView, Seq<char>> {
    match r {
        Ok(j) => Ok(j@),
        Err(e) => Err(e@),
    }
}

/// What follows an answer at a stage.
pub fn verify_step(s: &VerifyStage, reply: Result<&Json, &str>) -> (r: VerifyStep)
    ensures
        verify_follows(*s, reply_view(reply), r),
{
    match s {
        VerifyStage::Health => match reply {
            Ok(val) => VerifyStep::Next {
                stage: VerifyStage::Create,
                said: cat3("[2/4] Daemon /health: ", val.str_or("status", "unknown"), "\n"),
            },
            Err(e) => VerifyStep::Fail(
                cat2("daemon /health probe failed — start it with `clawket daemon start`: ", e),
            ),
        },
        VerifyStage::Create => match reply {
            Ok(val) => match val.str_at("id") {
                Some(p) => VerifyStep::Next {
                    stage: VerifyStage::Delete { id: p.to_owned() },
                    said: cat3("[3/4] Created project: ", p, "\n"),
                },
                None => VerifyStep::Fail("daemon returned project without id".to_owned()),
            },
            Err(e) => VerifyStep::Fail(cat2("failed to create throwaway project: ", e)),
        },
        VerifyStage::Delete { id } => match reply {
            Ok(_) => VerifyStep::Next {
                stage: VerifyStage::Finished,
                said: cat3("[4/4] Deleted project: ", id.as_str(), "\n\nOK\n"),
            },
            Err(e) => VerifyStep::Fail(
                cat4("cleanup failed (project ", id.as_str(), " left behind): ", e),
            ),
        },
        VerifyStage::Finished => VerifyStep::Next {
            stage: VerifyStage::Finished,
            said: String::new(),
        },
    }
}

/// What was made is deleted: a project that the daemon made is the one that
/// the next request deletes.
pub proof fn made_project_is_deleted(
    val: JsonView,
    step: VerifyStep,
    name: Seq<char>,
    cwd: Seq<char>,
)
    requires
        val.str_at("id"@) is Some,
        verify_follows(VerifyStage::Create, Ok(val), step),
    ensures
        step is Next,
        verify_asks(step->stage, name, cwd) == Some(
            deleting("/projects/"@ + val.str_at("id"@)->0),
        ),
{
}

} // verus!
