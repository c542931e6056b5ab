//! The exit codes of the program.

use vstd::prelude::*;
use crate::scan::{contains, occurs_at, occurs_in};
use crate::text::{chars_of, same, text_between};

verus! {

/// How a run that failed ends. The code 1 is left to bad command lines, and
/// 70 to internal errors.
#[derive(Clone, Copy, Debug, PartialEq, Eq, Structural)]
pub enum ExitCode {
    /// A well-formed command with input that makes no sense.
    Input,
    /// The daemon rejected the request.
    Policy,
    /// The daemon cannot be reached, or answered with a status from 500 on that
    /// was not expected.
    Daemon,
}

impl ExitCode {
    /// The number of the code.
    pub open spec fn number(self) -> int {
        match self {
            ExitCode::Input => 2,
            ExitCode::Policy => 3,
            ExitCode::Daemon => 4,
        }
    }

    /// The number of the code.
    pub fn code(self) -> (r: i32)
        ensures
            r == self.number(),
    {
        match self {
            ExitCode::Input => 2,
            ExitCode::Policy => 3,
            ExitCode::Daemon => 4,
        }
    }
}

/// A decimal digit.
pub open spec fn is_digit(c: char) -> bool {
    '0' <= c <= '9'
}

/// At `i` the message names an HTTP status from 500 to 599.
pub open spec fn names_server_error(msg: Seq<char>, i: int) -> bool {
    &&& occurs_at(msg, "HTTP 5"@, i)
    &&& i + 8 <= msg.len()
    &&& is_digit(msg[i + 6])
    &&& is_digit(msg[i + 7])
}

/// The message reports an HTTP status from 500 to 599.
pub open spec fn reports_server_error(msg: Seq<char>) -> bool {
    exists|i: int| #[trigger] names_server_error(msg, i)
}

fn server_error(msg: &str) -> (r: bool)
    ensures
        r == reports_server_error(msg@),
{
    let v = chars_of(msg);
    proof {
        reveal_strlit("HTTP 5");
    }
    let mut i: usize = 0;
    while i < v.len() && v.len() - i >= 8
        invariant
            v@ == msg@,
            "HTTP 5"@.len() == 6,
            i <= v@.len(),
            forall|j: int| 0 <= j < i ==> !#[trigger] names_server_error(msg@, j),
        decreases v@.len() - i,
    {
        let head = text_between(&v, i, i + 6);
        if same(head.as_str(), "HTTP 5") && '0' <= v[i + 6] && v[i + 6] <= '9' && '0'
            <= v[i + 7] && v[i + 7] <= '9' {
            assert(names_server_error(msg@, i as int));
            return true;
        }
        i = i + 1;
    }
    assert forall|j: int| !#[trigger] names_server_error(msg@, j) by {
        if 0 <= j < i {
        }
    }
    false
}

/// The message speaks of a daemon that cannot be reached or that failed.
pub open spec fn is_daemon_message(msg: Seq<char>) -> bool {
    occurs_in(msg, "No such file or directory"@) || occurs_in(msg, "Connection refused"@)
        || occurs_in(msg, "failed to connect"@) || occurs_in(msg, "daemon"@) || occurs_in(
        msg,
        "socket"@,
    ) || reports_server_error(msg)
}

/// The message speaks of a request that the daemon rejected.
pub open spec fn is_policy_message(msg: Seq<char>) -> bool {
    occurs_in(msg, "409"@) || occurs_in(msg, "Conflict"@) || occurs_in(msg, "403"@) || occurs_in(
        msg,
        "Forbidden"@,
    ) || occurs_in(msg, "already"@) || occurs_in(msg, "lease"@) || occurs_in(
        msg,
        "drift is `major`"@,
    )
}

/// How a run that failed with the message ends.
pub open spec fn classified(msg: Seq<char>) -> ExitCode {
    if is_daemon_message(msg) {
        ExitCode::Daemon
    } else if is_policy_message(msg) {
        ExitCode::Policy
    } else {
        ExitCode::Input
    }
}

/// How a run that failed with the message ends: trouble with the daemon itself
/// goes before a rejection by it, and that before bad input.
pub fn exit_from_error(msg: &str) -> (r: ExitCode)
    ensures
        r == classified(msg@),
{
    if contains(msg, "No such file or directory") || contains(msg, "Connection refused")
        || contains(msg, "failed to connect") || contains(msg, "daemon") || contains(
        msg,
        "socket",
    ) || server_error(msg) {
        return ExitCode::Daemon;
    }
    if contains(msg, "409") || contains(msg, "Conflict") || contains(msg, "403") || contains(
        msg,
        "Forbidden",
    ) || contains(msg, "already") || contains(msg, "lease") || contains(
        msg,
        "drift is `major`",
    ) {
        return ExitCode::Policy;
    }
    ExitCode::Input
}

/// Different failures end with different numbers.
pub proof fn exit_codes_differ(a: ExitCode, b: ExitCode)
    ensures
        a.number() == b.number() ==> a == b,
{
}

} // verus!
