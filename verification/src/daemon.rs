//! Starting, stopping and finding the daemon: the decisions, without the
//! processes.

use vstd::prelude::*;
use crate::json::opt_text;
use crate::scan::{
    lines, lines_of, number_of, opt_string, parse_number, trim, trimmed, words, words_of,
};
use crate::text::{cat2, cat3, cat4, cat5, dec, decimal, texts, texts_push};

verus! {

/// What to do with the daemon.
#[derive(Clone, Copy, Debug, PartialEq, Eq, Structural)]
pub enum DaemonAction {
    Start,
    Stop,
    Status,
    Restart,
    /// Shows the last lines of the log.
    Log { lines: u32, follow: bool },
}

/// One thing to do with the daemon.
#[derive(Clone, Copy, Debug, PartialEq, Eq, Structural)]
pub enum DaemonStep {
    Start,
    Stop,
    Status,
    Log { lines: u32, follow: bool },
}

/// What an action consists of; a failure ends it.
pub open spec fn daemon_steps(action: DaemonAction) -> Seq<DaemonStep> {
    match action {
        DaemonAction::Start => seq![DaemonStep::Start],
        DaemonAction::Stop => seq![DaemonStep::Stop],
        DaemonAction::Status => seq![DaemonStep::Status],
        DaemonAction::Restart => seq![DaemonStep::Stop, DaemonStep::Start],
        DaemonAction::Log { lines, follow } => seq![DaemonStep::Log { lines, follow }],
    }
}

/// What an action consists of.
pub fn steps_of(action: DaemonAction) -> (r: Vec<DaemonStep>)
    ensures
        r@ == daemon_steps(action),
{
    let mut out: Vec<DaemonStep> = Vec::new();
    match action {
        DaemonAction::Start => {
            out.push(DaemonStep::Start);
        },
        DaemonAction::Stop => {
            out.push(DaemonStep::Stop);
        },
        DaemonAction::Status => {
            out.push(DaemonStep::Status);
        },
        DaemonAction::Restart => {
            out.push(DaemonStep::Stop);
            out.push(DaemonStep::Start);
        },
        DaemonAction::Log { lines, follow } => {
            out.push(DaemonStep::Log { lines, follow });
        },
    }
    assert(out@ =~= daemon_steps(action));
    out
}

/// How the daemon is run: its program and the arguments in front.
pub open spec fn daemon_command(set: Option<Seq<char>>, found: Option<Seq<char>>) -> (
    Seq<char>,
    Seq<Seq<char>>,
) {
    if set is Some && words_of(set->0).len() > 0 {
        (words_of(set->0)[0], words_of(set->0).skip(1))
    } else {
        match found {
            Some(p) => (p, Seq::empty()),
            None => ("clawketd"@, Seq::empty()),
        }
    }
}

/// How the daemon is run: by the command that is set, else by the program that
/// was found, else by its name.
pub fn clawketd_cmd(set: Option<&str>, found: Option<&str>) -> (r: (String, Vec<String>))
    ensures
        (r.0@, texts(r.1@)) == daemon_command(opt_text(set), opt_text(found)),
{
    let mut rest: Vec<String> = Vec::new();
    assert(texts(rest@) =~= Seq::empty());
    if let Some(s) = set {
        let parts = words(s);
        let ghost all = words_of(s@);
        assert(all.len() == parts@.len());
        if parts.len() > 0 {
            let mut i: usize = 1;
            assert(all.subrange(1, 1) =~= Seq::empty());
            while i < parts.len()
                invariant
                    1 <= i <= parts@.len(),
                    all == texts(parts@),
                    texts(rest@) == all.subrange(1, i as int),
                decreases parts@.len() - i,
            {
                let item = parts[i].clone();
                proof {
                    texts_push(rest@, item);
                    assert(all.subrange(1, i + 1) =~= all.subrange(1, i as int).push(
                        all[i as int],
                    ));
                }
                rest.push(item);
                i = i + 1;
            }
            assert(all.subrange(1, all.len() as int) =~= all.skip(1));
            let program = parts[0].clone();
            assert(program@ == all[0]);
            return (program, rest);
        }
    }
    match found {
        Some(p) => (p.to_owned(), rest),
        None => ("clawketd".to_owned(), rest),
    }
}

/// The process number in the pid file, where it holds one.
pub fn parse_pid(content: &str) -> (r: Option<u32>)
    ensures
        match r {
            Some(n) => number_of(trimmed(content@), u32::MAX as nat) == Some(n as nat),
            None => number_of(trimmed(content@), u32::MAX as nat) is None,
        },
{
    let t = trim(content);
    match parse_number(t.as_str(), u32::MAX as u64) {
        Some(n) => Some(n as u32),
        None => None,
    }
}

/// What is said where the daemon runs already.
pub fn already_running_message(pid: u32) -> (r: String)
    ensures
        r@ == "clawketd: already running (pid="@ + dec(pid as nat) + ")"@,
{
    let n = decimal(pid as u64);
    cat3("clawketd: already running (pid=", n.as_str(), ")")
}

/// What is said of a daemon that was started: that it runs, where it was seen
/// alive; that it is starting, where the time was over; nothing yet otherwise.
pub open spec fn start_message(
    alive: Option<u32>,
    timed_out: bool,
    child: u32,
    log: Option<Seq<char>>,
) -> Option<Seq<char>> {
    match alive {
        Some(pid) => Some(
            match log {
                Some(p) => "clawketd: started (pid="@ + dec(pid as nat) + ", log="@ + p + ")"@,
                None => "clawketd: started (pid="@ + dec(pid as nat) + ")"@,
            },
        ),
        None => if timed_out {
            Some(
                "clawketd: starting (spawned pid="@ + dec(child as nat) + ")"@ + (match log {
                    Some(p) => " (tail log: "@ + p + ")"@,
                    None => Seq::empty(),
                }),
            )
        } else {
            None
        },
    }
}

/// One look at a daemon that was started. `alive` is the process of the pid
/// file, where it lives. Without a message the wait goes on.
pub fn start_poll(alive: Option<u32>, timed_out: bool, child: u32, log: Option<&str>) -> (r: Option<
    String,
>)
    ensures
        opt_string(r) == start_message(alive, timed_out, child, opt_text(log)),
{
    match alive {
        Some(pid) => {
            let n = decimal(pid as u64);
            Some(
                match log {
                    Some(p) => cat5("clawketd: started (pid=", n.as_str(), ", log=", p, ")"),
                    None => cat3("clawketd: started (pid=", n.as_str(), ")"),
                },
            )
        },
        None => if timed_out {
            let n = decimal(child as u64);
            let hint = match log {
                Some(p) => cat3(" (tail log: ", p, ")"),
                None => String::new(),
            };
            Some(cat4("clawketd: starting (spawned pid=", n.as_str(), ")", hint.as_str()))
        } else {
            None
        },
    }
}

/// What is said where the daemon was started without a log.
pub fn detached_message(pid: u32) -> (r: String)
    ensures
        r@ == "clawketd: starting (spawned pid="@ + dec(pid as nat) + ", log=/dev/null)"@,
{
    let n = decimal(pid as u64);
    cat3("clawketd: starting (spawned pid=", n.as_str(), ", log=/dev/null)")
}

/// What follows when the daemon was asked to stop.
pub enum StopStep {
    /// It stopped, or there is nothing to stop.
    Done,
    /// It is gone; its files are left.
    CleanUp,
    /// It did not stop: this is said, and the process is killed.
    Kill { pid: u32, notice: String },
}

/// What follows when the daemon was asked to stop. `pid` is that of the pid
/// file; `running` says whether it lives.
pub fn after_stop(stopped: bool, pid: Option<u32>, running: bool) -> (r: StopStep)
    ensures
        match pid {
            Some(p) => if stopped {
                r is Done
            } else if running {
                r matches StopStep::Kill { pid: q, notice } && q == p && notice@
                    == "clawketd: graceful SIGTERM timed out; escalating to SIGKILL on pid "@ + dec(
                    p as nat,
                )
            } else {
                r is CleanUp
            },
            None => r is Done,
        },
{
    if stopped {
        return StopStep::Done;
    }
    match pid {
        None => StopStep::Done,
        Some(p) => if running {
            let n = decimal(p as u64);
            StopStep::Kill {
                pid: p,
                notice: cat2(
                    "clawketd: graceful SIGTERM timed out; escalating to SIGKILL on pid ",
                    n.as_str(),
                ),
            }
        } else {
            StopStep::CleanUp
        },
    }
}

/// What follows when the process was killed: its files are cleaned up and
/// this is said, or, where it still lives, the command fails.
pub fn after_kill(pid: u32, alive: bool) -> (r: Result<String, String>)
    ensures
        alive ==> r is Err && r->Err_0@ == "clawketd pid "@ + dec(pid as nat)
            + " still alive after SIGKILL"@,
        !alive ==> r is Ok && r->Ok_0@ == "clawketd: pid "@ + dec(pid as nat) + " force-killed"@,
{
    let n = decimal(pid as u64);
    if alive {
        Err(cat3("clawketd pid ", n.as_str(), " still alive after SIGKILL"))
    } else {
        Ok(cat3("clawketd: pid ", n.as_str(), " force-killed"))
    }
}

/// The last `n` lines of a log.
pub open spec fn last_of(ls: Seq<Seq<char>>, n: int) -> Seq<Seq<char>> {
    if ls.len() <= n {
        ls
    } else {
        ls.skip(ls.len() - n)
    }
}

/// The last `n` lines of a log.
pub fn last_lines(content: &str, n: u32) -> (r: Vec<String>)
    ensures
        texts(r@) == last_of(lines_of(content@), n as int),
{
    let all = lines(content);
    let ghost seen = texts(all@);
    assert(seen.len() == all@.len());
    let start: usize = if all.len() as u64 <= n as u64 {
        0
    } else {
        all.len() - n as usize
    };
    let mut out: Vec<String> = Vec::new();
    let mut i: usize = start;
    assert(texts(out@) =~= seen.subrange(start as int, start as int));
    while i < all.len()
        invariant
            start <= i <= all@.len(),
            seen == texts(all@),
            texts(out@) == seen.subrange(start as int, i as int),
        decreases all@.len() - i,
    {
        let item = all[i].clone();
        proof {
            texts_push(out@, item);
            assert(seen.subrange(start as int, i + 1) =~= seen.subrange(
                start as int,
                i as int,
            ).push(seen[i as int]));
        }
        out.push(item);
        i = i + 1;
    }
    assert(seen.subrange(start as int, seen.len() as int) =~= last_of(seen, n as int));
    out
}

/// How far the automatic start of the daemon is.
#[derive(Clone, Copy, Debug, PartialEq, Eq, Structural)]
pub enum Autostart {
    /// Is it there already?
    FirstLook,
    /// Is its process there, and the socket not yet?
    PidLook,
    /// Nobody else may start it now.
    Locking,
    /// Has another process started it meanwhile?
    SecondLook,
    /// It is started.
    Spawning,
    /// It was started by this process (`own`), or by another one.
    Waiting { own: bool },
    Finished,
}

/// What is to be done next.
#[derive(Clone, Copy, Debug, PartialEq, Eq, Structural)]
pub enum AutostartAction {
    /// Try to connect to the socket.
    Probe,
    /// See whether the process on record runs.
    CheckPid,
    /// Take the lock, without waiting for it.
    Lock,
    /// Start the daemon.
    Spawn,
    /// Wait a moment, then try to connect again.
    PauseAndProbe,
    Nothing,
}

/// What came of it.
#[derive(Clone, Copy, Debug, PartialEq, Eq, Structural)]
pub enum AutostartEvent {
    /// The socket answers.
    Reachable,
    /// It does not, and there is time left.
    Unreachable,
    /// It does not, and the time is over.
    TimedOut,
    /// The process on record runs.
    PidAlive,
    /// It does not, or none is on record.
    PidGone,
    /// This process has the lock, or there can be none.
    LockHeld,
    /// Another process has it.
    LockBusy,
    /// The lock file cannot be opened.
    LockMissing,
    /// The daemon was started.
    Spawned,
    /// It could not be started.
    SpawnFailed,
}

/// What is to be done at a stage.
pub open spec fn autostart_action(s: Autostart) -> AutostartAction {
    match s {
        Autostart::FirstLook => AutostartAction::Probe,
        Autostart::PidLook => AutostartAction::CheckPid,
        Autostart::Locking => AutostartAction::Lock,
        Autostart::SecondLook => AutostartAction::Probe,
        Autostart::Spawning => AutostartAction::Spawn,
        Autostart::Waiting { .. } => AutostartAction::PauseAndProbe,
        Autostart::Finished => AutostartAction::Nothing,
    }
}

/// The stage that follows.
pub open spec fn autostart_next(s: Autostart, e: AutostartEvent) -> Autostart {
    match s {
        Autostart::FirstLook => match e {
            AutostartEvent::Reachable => Autostart::Finished,
            _ => Autostart::PidLook,
        },
        Autostart::PidLook => match e {
            AutostartEvent::PidAlive => Autostart::Waiting { own: false },
            _ => Autostart::Locking,
        },
        Autostart::Locking => match e {
            AutostartEvent::LockBusy => Autostart::Waiting { own: false },
            AutostartEvent::LockMissing => Autostart::Spawning,
            _ => Autostart::SecondLook,
        },
        Autostart::SecondLook => match e {
            AutostartEvent::Reachable => Autostart::Finished,
            _ => Autostart::Spawning,
        },
        Autostart::Spawning => match e {
            AutostartEvent::Spawned => Autostart::Waiting { own: true },
            _ => Autostart::Finished,
        },
        Autostart::Waiting { own } => match e {
            AutostartEvent::Reachable => Autostart::Finished,
            AutostartEvent::TimedOut => Autostart::Finished,
            _ => Autostart::Waiting { own },
        },
        Autostart::Finished => Autostart::Finished,
    }
}

/// What is to be done at a stage.
pub fn action_at(s: Autostart) -> (r: AutostartAction)
    ensures
        r == autostart_action(s),
{
    match s {
        Autostart::FirstLook => AutostartAction::Probe,
        Autostart::PidLook => AutostartAction::CheckPid,
        Autostart::Locking => AutostartAction::Lock,
        Autostart::SecondLook => AutostartAction::Probe,
        Autostart::Spawning => AutostartAction::Spawn,
        Autostart::Waiting { .. } => AutostartAction::PauseAndProbe,
        Autostart::Finished => AutostartAction::Nothing,
    }
}

/// The stage that follows when something came of the action.
pub fn next_stage(s: Autostart, e: AutostartEvent) -> (r: Autostart)
    ensures
        r == autostart_next(s, e),
{
    match s {
        Autostart::FirstLook => match e {
            AutostartEvent::Reachable => Autostart::Finished,
            _ => Autostart::PidLook,
        },
        Autostart::PidLook => match e {
            AutostartEvent::PidAlive => Autostart::Waiting { own: false },
            _ => Autostart::Locking,
        },
        Autostart::Locking => match e {
            AutostartEvent::LockBusy => Autostart::Waiting { own: false },
            AutostartEvent::LockMissing => Autostart::Spawning,
            _ => Autostart::SecondLook,
        },
        Autostart::SecondLook => match e {
            AutostartEvent::Reachable => Autostart::Finished,
            _ => Autostart::Spawning,
        },
        Autostart::Spawning => match e {
            AutostartEvent::Spawned => Autostart::Waiting { own: true },
            _ => Autostart::Finished,
        },
        Autostart::Waiting { own } => match e {
            AutostartEvent::Reachable => Autostart::Finished,
            AutostartEvent::TimedOut => Autostart::Finished,
            _ => Autostart::Waiting { own },
        },
        Autostart::Finished => Autostart::Finished,
    }
}

/// What the program is about to do, as far as the daemon matters to it.
#[derive(Clone, Copy, PartialEq, Eq, Structural)]
pub enum Work {
    /// It manages the daemon itself.
    Daemon,
    /// It reports on the daemon as it is.
    Doctor,
    Completions,
    Verify { dry_run: bool },
    Other,
}

/// The daemon is looked for before the work, and started where it is missing:
/// not where the work does without it, nor where it is reached by a URL.
pub fn wants_daemon(work: Work, url_is_set: bool) -> (r: bool)
    ensures
        r == (!url_is_set && (work == Work::Other || work == (Work::Verify { dry_run: false }))),
{
    match work {
        Work::Daemon => false,
        Work::Doctor => false,
        Work::Completions => false,
        Work::Verify { dry_run } => !dry_run && !url_is_set,
        Work::Other => !url_is_set,
    }
}

/// The daemon may be started automatically: not where the switch against it
/// is set to anything but the empty text.
pub fn autostart_allowed(no_autospawn: Option<&str>) -> (r: bool)
    ensures
        r == !(no_autospawn is Some && no_autospawn->0@.len() > 0),
{
    match no_autospawn {
        Some(s) => s.is_empty(),
        None => true,
    }
}

/// The warning where the socket does not answer in time.
pub open spec fn timeout_text(own: bool) -> Seq<char> {
    "clawket: warning: "@ + (if own {
        "auto-starting daemon"@
    } else {
        "waiting for daemon (another spawn in progress)"@
    }) + ": socket not reachable after 8s.\nRun `clawket daemon status` to diagnose."@
}

/// The warning where the time is over and the socket does not answer; the
/// run goes on without the daemon.
pub fn autostart_warning(s: Autostart, e: AutostartEvent) -> (r: Option<String>)
    ensures
        opt_string(r) == match s {
            Autostart::Waiting { own } => if e == AutostartEvent::TimedOut {
                Some(timeout_text(own))
            } else {
                None
            },
            _ => None,
        },
{
    match s {
        Autostart::Waiting { own } => match e {
            AutostartEvent::TimedOut => Some(
                cat3(
                    "clawket: warning: ",
                    if own {
                        "auto-starting daemon"
                    } else {
                        "waiting for daemon (another spawn in progress)"
                    },
                    ": socket not reachable after 8s.\nRun `clawket daemon status` to diagnose.",
                ),
            ),
            _ => None,
        },
        _ => None,
    }
}

/// A history of an automatic start: the stages, from the first on, and what
/// came of each.
pub open spec fn is_run(stages: Seq<Autostart>, events: Seq<AutostartEvent>) -> bool {
    &&& stages.len() == events.len() + 1
    &&& stages[0] == Autostart::FirstLook
    &&& forall|i: int|
        0 <= i < events.len() ==> #[trigger] stages[i + 1] == autostart_next(stages[i], events[i])
}

/// How far a stage is on the way.
spec fn rank(s: Autostart) -> int {
    match s {
        Autostart::FirstLook => 0,
        Autostart::PidLook => 1,
        Autostart::Locking => 2,
        Autostart::SecondLook => 3,
        Autostart::Spawning => 4,
        Autostart::Waiting { .. } => 5,
        Autostart::Finished => 6,
    }
}

proof fn ranks_grow(stages: Seq<Autostart>, events: Seq<AutostartEvent>, i: int, j: int)
    requires
        is_run(stages, events),
        0 <= i <= j < stages.len(),
    ensures
        rank(stages[i]) <= rank(stages[j]),
        stages[i] == Autostart::Spawning && i < j ==> rank(stages[j]) > 4,
    decreases j - i,
{
    if i < j {
        ranks_grow(stages, events, i, j - 1);
        assert(stages[(j - 1) + 1] == autostart_next(stages[j - 1], events[j - 1]));
    }
}

/// The daemon is started at most once in an automatic start.
pub proof fn autostart_spawns_once(
    stages: Seq<Autostart>,
    events: Seq<AutostartEvent>,
    i: int,
    j: int,
)
    requires
        is_run(stages, events),
        0 <= i < j < stages.len(),
    ensures
        !(autostart_action(stages[i]) == AutostartAction::Spawn && autostart_action(stages[j])
            == AutostartAction::Spawn),
{
    ranks_grow(stages, events, i, j);
}

/// A daemon whose socket answered at the first or the second look is not
/// started, nor is one whose process runs, nor one that another process is
/// starting: what follows is only waited for.
pub proof fn autostart_spares_a_running_daemon(s: Autostart, e: AutostartEvent)
    ensures
        e == AutostartEvent::Reachable && (s == Autostart::FirstLook || s
            == Autostart::SecondLook) ==> autostart_next(s, e) == Autostart::Finished,
        e == AutostartEvent::PidAlive && s == Autostart::PidLook ==> autostart_next(s, e)
            == (Autostart::Waiting { own: false }),
        e == AutostartEvent::LockBusy && s == Autostart::Locking ==> autostart_next(s, e)
            == (Autostart::Waiting { own: false }),
        autostart_next(Autostart::Finished, e) == Autostart::Finished,
        forall|own: bool|
            autostart_action(#[trigger] autostart_next(Autostart::Waiting { own }, e))
                != AutostartAction::Spawn,
{
}

} // verus!
