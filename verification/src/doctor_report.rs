//! The health report: its lines, and the findings that they tell of.

use vstd::prelude::*;
use crate::doctor_checks::Severity;
use crate::text::{cat3, cat4, texts, texts_push};

verus! {

/// The lines of a report, and how grave its findings are.
pub struct Report {
    pub lines: Vec<String>,
    pub tally: Vec<Severity>,
}

/// What a report is.
#[verifier::ext_equal]
pub struct ReportView {
    pub lines: Seq<Seq<char>>,
    pub tally: Seq<Severity>,
}

impl View for Report {
    type V = ReportView;

    open spec fn view(&self) -> ReportView {
        ReportView { lines: texts(self.lines@), tally: self.tally@ }
    }
}

/// A report with nothing in it.
pub open spec fn blank() -> ReportView {
    ReportView { lines: Seq::empty(), tally: Seq::empty() }
}

/// A line that starts with the mark of a finding.
pub open spec fn marked(sev: Severity, s: Seq<char>) -> Seq<char> {
    "  "@ + sev.mark() + " "@ + s
}

impl ReportView {
    /// One more line.
    pub open spec fn line(self, s: Seq<char>) -> ReportView {
        ReportView { lines: self.lines.push(s), tally: self.tally }
    }

    /// One more finding that is counted.
    pub open spec fn count(self, sev: Severity) -> ReportView {
        ReportView { lines: self.lines, tally: self.tally.push(sev) }
    }

    /// A line that starts with a mark.
    pub open spec fn show(self, sev: Severity, s: Seq<char>) -> ReportView {
        self.line(marked(sev, s))
    }

    /// A line that starts with a mark, and is counted.
    pub open spec fn note(self, sev: Severity, s: Seq<char>) -> ReportView {
        self.show(sev, s).count(sev)
    }

    /// A part with its title, and an empty line behind it.
    pub open spec fn section(self, title: Seq<char>, body: ReportView) -> ReportView {
        ReportView {
            lines: (self.lines.push("["@ + title + "]"@) + body.lines).push(""@),
            tally: self.tally + body.tally,
        }
    }

    /// The lines, and behind them those of the other report.
    pub open spec fn append(self, other: ReportView) -> ReportView {
        ReportView { lines: self.lines + other.lines, tally: self.tally + other.tally }
    }
}

/// How often a gravity occurs among the first `n` findings.
pub open spec fn times_upto(tally: Seq<Severity>, sev: Severity, n: nat) -> nat
    decreases n,
{
    if n == 0 {
        0
    } else {
        times_upto(tally, sev, (n - 1) as nat) + if tally[n - 1] == sev {
            1nat
        } else {
            0nat
        }
    }
}

/// How often a gravity occurs among the findings.
pub open spec fn times(tally: Seq<Severity>, sev: Severity) -> nat {
    times_upto(tally, sev, tally.len())
}

proof fn times_bounds(tally: Seq<Severity>, sev: Severity, n: nat)
    requires
        n <= tally.len(),
    ensures
        times_upto(tally, sev, n) <= n,
        times_upto(tally, sev, n) > 0 <==> exists|i: int| 0 <= i < n && tally[i] == sev,
    decreases n,
{
    if n > 0 {
        times_bounds(tally, sev, (n - 1) as nat);
        if times_upto(tally, sev, (n - 1) as nat) > 0 {
            let i = choose|i: int| 0 <= i < n - 1 && tally[i] == sev;
            assert(0 <= i < n && tally[i] == sev);
        }
        if tally[n - 1] == sev {
            assert(0 <= n - 1 < n && tally[n - 1] == sev);
        }
    }
}

/// A gravity is counted if and only if a finding has it.
pub proof fn counted_iff_found(tally: Seq<Severity>, sev: Severity)
    ensures
        times(tally, sev) <= tally.len(),
        times(tally, sev) > 0 <==> tally.contains(sev),
{
    times_bounds(tally, sev, tally.len());
    if times(tally, sev) > 0 {
        let i = choose|i: int| 0 <= i < tally.len() && tally[i] == sev;
        assert(tally[i] == sev);
    }
}

/// Every finding is counted under exactly one gravity.
pub proof fn every_finding_is_counted_once(tally: Seq<Severity>)
    ensures
        times(tally, Severity::Good) + times(tally, Severity::Info) + times(tally, Severity::Warn)
            + times(tally, Severity::Error) == tally.len(),
{
    partition_upto(tally, tally.len());
}

proof fn partition_upto(tally: Seq<Severity>, n: nat)
    ensures
        times_upto(tally, Severity::Good, n) + times_upto(tally, Severity::Info, n) + times_upto(
            tally,
            Severity::Warn,
            n,
        ) + times_upto(tally, Severity::Error, n) == n,
    decreases n,
{
    if n > 0 {
        partition_upto(tally, (n - 1) as nat);
    }
}

/// How often a gravity occurs among the findings.
pub fn count_of(tally: &Vec<Severity>, sev: Severity) -> (r: usize)
    ensures
        r == times(tally@, sev),
{
    let mut n: usize = 0;
    let mut i: usize = 0;
    while i < tally.len()
        invariant
            i <= tally@.len(),
            n == times_upto(tally@, sev, i as nat),
            n <= i,
        decreases tally@.len() - i,
    {
        if tally[i] == sev {
            n = n + 1;
        }
        i = i + 1;
    }
    n
}

impl Report {
    /// A report with nothing in it.
    pub fn new() -> (r: Report)
        ensures
            r@ == blank(),
    {
        let r = Report { lines: Vec::new(), tally: Vec::new() };
        assert(r@ =~= blank());
        r
    }

    /// One more line.
    pub fn line(self, s: String) -> (r: Report)
        ensures
            r@ == self@.line(s@),
    {
        let mut r = self;
        proof {
            texts_push(r.lines@, s);
        }
        r.lines.push(s);
        r
    }

    /// One more line.
    pub fn say(self, s: &str) -> (r: Report)
        ensures
            r@ == self@.line(s@),
    {
        self.line(s.to_owned())
    }

    /// One more finding that is counted.
    pub fn count(self, sev: Severity) -> (r: Report)
        ensures
            r@ == self@.count(sev),
    {
        let mut r = self;
        r.tally.push(sev);
        r
    }

    /// A line that starts with a mark.
    pub fn show(self, sev: Severity, s: &str) -> (r: Report)
        ensures
            r@ == self@.show(sev, s@),
    {
        self.line(cat4("  ", sev.tag(), " ", s))
    }

    /// A line that starts with a mark, and is counted.
    pub fn note(self, sev: Severity, s: &str) -> (r: Report)
        ensures
            r@ == self@.note(sev, s@),
    {
        self.show(sev, s).count(sev)
    }

    /// The lines, and behind them those of the other report.
    pub fn append(self, other: Report) -> (r: Report)
        ensures
            r@ == self@.append(other@),
    {
        let mut r = self;
        let ghost before = r@;
        let mut rest = other;
        r.lines.append(&mut rest.lines);
        r.tally.append(&mut rest.tally);
        assert(r@ =~= before.append(other@));
        r
    }

    /// A part with its title, and an empty line behind it.
    pub fn section(self, title: &str, body: Report) -> (r: Report)
        ensures
            r@ == self@.section(title@, body@),
    {
        let ghost before = self@;
        let r = self.line(cat3("[", title, "]")).append(body).say("");
        assert(r@ =~= before.section(title@, body@));
        r
    }
}

} // verus!
