//! Which suggestions are taken over, and which tasks are split at all.

use vstd::prelude::*;
use crate::decompose::violation;
use crate::json::{object, text, views, Json, JsonView};
use crate::scan::{number_of, parse_number, split, split_on, trim, trimmed};
use crate::text::{cat3, cat5, chars_of, dec, decimal, same, texts};

verus! {

/// The value of `--accept`.
#[derive(Debug, PartialEq, Eq)]
pub enum Accept {
    All,
    /// Positions, counted from 1.
    Indices(Vec<usize>),
}

/// Why a value of `--accept` is refused.
#[derive(Debug, PartialEq, Eq)]
pub enum AcceptError {
    Empty,
    /// The part that is no number.
    NotANumber(String),
    /// Positions are counted from 1.
    Zero,
    /// The value, which holds nothing but separators.
    NoIndices(String),
}

/// What a refusal of `--accept` is.
pub enum AcceptErrorView {
    Empty,
    NotANumber(Seq<char>),
    Zero,
    NoIndices(Seq<char>),
}

impl View for AcceptError {
    type V = AcceptErrorView;

    open spec fn view(&self) -> AcceptErrorView {
        match self {
            AcceptError::Empty => AcceptErrorView::Empty,
            AcceptError::NotANumber(p) => AcceptErrorView::NotANumber(p@),
            AcceptError::Zero => AcceptErrorView::Zero,
            AcceptError::NoIndices(raw) => AcceptErrorView::NoIndices(raw@),
        }
    }
}

/// What a value of `--accept` is.
pub enum AcceptView {
    All,
    Indices(Seq<usize>),
}

impl View for Accept {
    type V = AcceptView;

    open spec fn view(&self) -> AcceptView {
        match self {
            Accept::All => AcceptView::All,
            Accept::Indices(v) => AcceptView::Indices(v@),
        }
    }
}

impl AcceptErrorView {
    pub open spec fn message(self) -> Seq<char> {
        match self {
            AcceptErrorView::Empty => "--accept value is empty"@,
            AcceptErrorView::NotANumber(p) =>
                "--accept expects ALL or comma-separated 1-based integers, got `"@ + p + "`"@,
            AcceptErrorView::Zero => "--accept indices are 1-based; got 0"@,
            AcceptErrorView::NoIndices(raw) => "--accept produced no indices from `"@ + raw + "`"@,
        }
    }
}

impl AcceptError {
    /// What is said about the refusal.
    pub fn message(&self) -> (r: String)
        ensures
            r@ == self@.message(),
    {
        match self {
            AcceptError::Empty => "--accept value is empty".to_owned(),
            AcceptError::NotANumber(p) => cat3(
                "--accept expects ALL or comma-separated 1-based integers, got `",
                p.as_str(),
                "`",
            ),
            AcceptError::Zero => "--accept indices are 1-based; got 0".to_owned(),
            AcceptError::NoIndices(raw) => cat3(
                "--accept produced no indices from `",
                raw.as_str(),
                "`",
            ),
        }
    }
}

/// The word `all`, in any mix of upper and lower case.
pub open spec fn is_all(s: Seq<char>) -> bool {
    s.len() == 3 && (s[0] == 'a' || s[0] == 'A') && (s[1] == 'l' || s[1] == 'L') && (s[2] == 'l'
        || s[2] == 'L')
}

/// The positions among the first `n` parts; blank parts are passed over, and
/// the first part that is no position is the error.
pub open spec fn indices_of(parts: Seq<Seq<char>>, n: nat) -> Result<Seq<usize>, AcceptErrorView>
    decreases n,
{
    if n == 0 {
        Ok(Seq::empty())
    } else {
        match indices_of(parts, (n - 1) as nat) {
            Err(e) => Err(e),
            Ok(before) => {
                let p = trimmed(parts[n - 1]);
                if p.len() == 0 {
                    Ok(before)
                } else {
                    match number_of(p, usize::MAX as nat) {
                        None => Err(AcceptErrorView::NotANumber(p)),
                        Some(k) => if k == 0 {
                            Err(AcceptErrorView::Zero)
                        } else {
                            Ok(before.push(k as usize))
                        },
                    }
                }
            },
        }
    }
}

/// What a value of `--accept` asks for: everything, or the positions of a
/// list with commas.
pub open spec fn accepted(raw: Seq<char>) -> Result<AcceptView, AcceptErrorView> {
    let t = trimmed(raw);
    if t.len() == 0 {
        Err(AcceptErrorView::Empty)
    } else if is_all(t) {
        Ok(AcceptView::All)
    } else {
        let parts = split_on(t, ',');
        match indices_of(parts, parts.len()) {
            Err(e) => Err(e),
            Ok(v) => if v.len() == 0 {
                Err(AcceptErrorView::NoIndices(raw))
            } else {
                Ok(AcceptView::Indices(v))
            },
        }
    }
}

/// What a parse result is.
pub open spec fn accept_result(r: Result<Accept, AcceptError>) -> Result<
    AcceptView,
    AcceptErrorView,
> {
    match r {
        Ok(a) => Ok(a@),
        Err(e) => Err(e@),
    }
}

proof fn errors_stay(parts: Seq<Seq<char>>, n: nat, m: nat)
    requires
        n <= m,
        indices_of(parts, n) is Err,
    ensures
        indices_of(parts, m) == indices_of(parts, n),
    decreases m,
{
    if n < m {
        errors_stay(parts, n, (m - 1) as nat);
    }
}

/// What a value of `--accept` asks for.
pub fn parse_accept(raw: &str) -> (r: Result<Accept, AcceptError>)
    ensures
        accept_result(r) == accepted(raw@),
{
    let t = trim(raw);
    if t.as_str().is_empty() {
        return Err(AcceptError::Empty);
    }
    let v = chars_of(t.as_str());
    if v.len() == 3 && (v[0] == 'a' || v[0] == 'A') && (v[1] == 'l' || v[1] == 'L') && (v[2] == 'l'
        || v[2] == 'L') {
        return Ok(Accept::All);
    }
    let parts = split(t.as_str(), ',');
    let ghost all = texts(parts@);
    let mut out: Vec<usize> = Vec::new();
    let mut i: usize = 0;
    while i < parts.len()
        invariant
            i <= parts@.len(),
            all == texts(parts@),
            all == split_on(trimmed(raw@), ','),
            trimmed(raw@).len() > 0,
            !is_all(trimmed(raw@)),
            indices_of(all, i as nat) == Ok::<Seq<usize>, AcceptErrorView>(out@),
        decreases parts@.len() - i,
    {
        let p = trim(parts[i].as_str());
        if !p.as_str().is_empty() {
            match parse_number(p.as_str(), usize::MAX as u64) {
                None => {
                    proof {
                        errors_stay(all, (i + 1) as nat, all.len());
                    }
                    return Err(AcceptError::NotANumber(p));
                },
                Some(k) => {
                    if k == 0 {
                        proof {
                            errors_stay(all, (i + 1) as nat, all.len());
                        }
                        return Err(AcceptError::Zero);
                    }
                    out.push(k as usize);
                },
            }
        }
        i = i + 1;
    }
    assert(all.len() == parts@.len());
    if out.len() == 0 {
        return Err(AcceptError::NoIndices(raw.to_owned()));
    }
    Ok(Accept::Indices(out))
}

proof fn indices_from_one(parts: Seq<Seq<char>>, n: nat)
    ensures
        indices_of(parts, n) is Ok ==> forall|i: int|
            0 <= i < indices_of(parts, n)->Ok_0.len() ==> #[trigger] indices_of(
                parts,
                n,
            )->Ok_0[i] >= 1,
    decreases n,
{
    if n > 0 {
        indices_from_one(parts, (n - 1) as nat);
    }
}

/// A list of positions that is not refused is not empty, and holds positions
/// from 1 up.
pub proof fn accepted_positions_count_from_one(raw: Seq<char>)
    ensures
        accepted(raw) matches Ok(AcceptView::Indices(v)) ==> v.len() > 0 && forall|i: int|
            0 <= i < v.len() ==> #[trigger] v[i] >= 1,
{
    let parts = split_on(trimmed(raw), ',');
    indices_from_one(parts, parts.len());
}

/// Of the first `n` suggestions those whose position is listed.
pub open spec fn chosen_upto(s: Seq<JsonView>, positions: Seq<usize>, n: nat) -> Seq<JsonView>
    decreases n,
{
    if n == 0 {
        Seq::empty()
    } else if positions.contains(n as usize) {
        chosen_upto(s, positions, (n - 1) as nat).push(s[n - 1])
    } else {
        chosen_upto(s, positions, (n - 1) as nat)
    }
}

/// The suggestions that are taken over, in their order. Positions beyond the
/// last suggestion choose nothing.
pub open spec fn chosen(s: Seq<JsonView>, accept: AcceptView) -> Seq<JsonView> {
    match accept {
        AcceptView::All => s,
        AcceptView::Indices(v) => chosen_upto(s, v, s.len()),
    }
}

fn lists(v: &Vec<usize>, k: usize) -> (r: bool)
    ensures
        r == v@.contains(k),
{
    let mut i: usize = 0;
    while i < v.len()
        invariant
            i <= v@.len(),
            forall|j: int| 0 <= j < i ==> v@[j] != k,
        decreases v@.len() - i,
    {
        if v[i] == k {
            return true;
        }
        i = i + 1;
    }
    false
}

/// The suggestions that are taken over.
pub fn apply_accept(suggestions: Vec<Json>, accept: &Accept) -> (r: Vec<Json>)
    ensures
        views(r@) == chosen(views(suggestions@), accept@),
{
    match accept {
        Accept::All => suggestions,
        Accept::Indices(idxs) => {
            let ghost all = views(suggestions@);
            let mut out: Vec<Json> = Vec::new();
            let mut i: usize = 0;
            assert(views(out@) =~= Seq::empty());
            while i < suggestions.len()
                invariant
                    i <= suggestions@.len(),
                    all == views(suggestions@),
                    views(out@) == chosen_upto(all, idxs@, i as nat),
                decreases suggestions@.len() - i,
            {
                if lists(idxs, i + 1) {
                    let item = suggestions[i].copy();
                    let ghost before = out@;
                    out.push(item);
                    assert(views(out@) =~= views(before).push(all[i as int]));
                }
                i = i + 1;
            }
            out
        },
    }
}

proof fn chosen_member(s: Seq<JsonView>, positions: Seq<usize>, n: nat, k: int)
    requires
        n <= s.len() <= usize::MAX,
        0 <= k < chosen_upto(s, positions, n).len(),
    ensures
        exists|i: int|
            0 <= i < n && #[trigger] s[i] == chosen_upto(s, positions, n)[k] && positions.contains(
                (i + 1) as usize,
            ),
    decreases n,
{
    if positions.contains(n as usize) && k == chosen_upto(s, positions, n).len() - 1 {
        assert(s[n - 1] == chosen_upto(s, positions, n)[k]);
    } else {
        chosen_member(s, positions, (n - 1) as nat, k);
        let before = chosen_upto(s, positions, (n - 1) as nat);
        let i = choose|i: int|
            0 <= i < n - 1 && #[trigger] s[i] == before[k] && positions.contains((i + 1) as usize);
        assert(s[i] == chosen_upto(s, positions, n)[k]);
    }
}

proof fn chosen_len(s: Seq<JsonView>, positions: Seq<usize>, n: nat)
    ensures
        chosen_upto(s, positions, n).len() <= n,
    decreases n,
{
    if n > 0 {
        chosen_len(s, positions, (n - 1) as nat);
    }
}

/// Of the first `n` positions those beyond the last of `len` suggestions.
pub open spec fn dropped_upto(positions: Seq<usize>, len: int, n: nat) -> Seq<usize>
    decreases n,
{
    if n == 0 {
        Seq::empty()
    } else if positions[n - 1] > len {
        dropped_upto(positions, len, (n - 1) as nat).push(positions[n - 1])
    } else {
        dropped_upto(positions, len, (n - 1) as nat)
    }
}

/// The positions that choose nothing: those beyond the last of `len`
/// suggestions, as they are listed.
pub open spec fn dropped(accept: AcceptView, len: int) -> Seq<usize> {
    match accept {
        AcceptView::All => Seq::empty(),
        AcceptView::Indices(v) => dropped_upto(v, len, v.len()),
    }
}

/// The positions that choose nothing.
pub fn dropped_positions(accept: &Accept, len: usize) -> (r: Vec<usize>)
    ensures
        r@ == dropped(accept@, len as int),
{
    let mut out: Vec<usize> = Vec::new();
    if let Accept::Indices(v) = accept {
        let mut i: usize = 0;
        while i < v.len()
            invariant
                i <= v@.len(),
                out@ == dropped_upto(v@, len as int, i as nat),
            decreases v@.len() - i,
        {
            if v[i] > len {
                out.push(v[i]);
            }
            i = i + 1;
        }
    }
    out
}

proof fn dropped_holds(positions: Seq<usize>, len: int, n: nat, k: int)
    requires
        0 <= k < n <= positions.len(),
        positions[k] > len,
    ensures
        dropped_upto(positions, len, n).contains(positions[k]),
    decreases n,
{
    let now = dropped_upto(positions, len, n);
    let before = dropped_upto(positions, len, (n - 1) as nat);
    if k == n - 1 {
        assert(now[now.len() - 1] == positions[k]);
    } else {
        dropped_holds(positions, len, (n - 1) as nat, k);
        let i = choose|i: int| 0 <= i < before.len() && before[i] == positions[k];
        assert(now[i] == positions[k]);
    }
}

proof fn chosen_holds(s: Seq<JsonView>, positions: Seq<usize>, n: nat, k: int)
    requires
        0 < k <= n <= s.len() <= usize::MAX,
        positions.contains(k as usize),
    ensures
        chosen_upto(s, positions, n).contains(s[k - 1]),
    decreases n,
{
    let now = chosen_upto(s, positions, n);
    let before = chosen_upto(s, positions, (n - 1) as nat);
    if k == n {
        assert(now[now.len() - 1] == s[k - 1]);
    } else {
        chosen_holds(s, positions, (n - 1) as nat, k);
        let i = choose|i: int| 0 <= i < before.len() && before[i] == s[k - 1];
        assert(now[i] == s[k - 1]);
    }
}

/// No listed position is lost: it takes its suggestion, or is told as one that
/// chose nothing.
pub proof fn positions_are_taken_or_told(s: Seq<JsonView>, positions: Seq<usize>, k: int)
    requires
        s.len() <= usize::MAX,
        0 <= k < positions.len(),
        positions[k] >= 1,
    ensures
        positions[k] <= s.len() ==> chosen(s, AcceptView::Indices(positions)).contains(
            s[positions[k] - 1],
        ),
        positions[k] > s.len() ==> dropped(
            AcceptView::Indices(positions),
            s.len() as int,
        ).contains(positions[k]),
{
    if positions[k] <= s.len() {
        chosen_holds(s, positions, s.len(), positions[k] as int);
    } else {
        dropped_holds(positions, s.len() as int, positions.len(), k);
    }
}

/// A suggestion whose position is listed.
pub open spec fn is_listed(s: Seq<JsonView>, positions: Seq<usize>, x: JsonView) -> bool {
    exists|i: int| 0 <= i < s.len() && #[trigger] s[i] == x && positions.contains((i + 1) as usize)
}

/// `ALL` takes every suggestion; a list takes no suggestion whose position it
/// does not hold, and never more than there are.
pub proof fn choosing_takes_only_what_is_listed(s: Seq<JsonView>, accept: AcceptView)
    requires
        s.len() <= usize::MAX,
    ensures
        accept is All ==> chosen(s, accept) == s,
        chosen(s, accept).len() <= s.len(),
        accept is Indices ==> forall|k: int|
            0 <= k < chosen(s, accept).len() ==> is_listed(
                s,
                accept->Indices_0,
                #[trigger] chosen(s, accept)[k],
            ),
{
    if accept is Indices {
        let v = accept->Indices_0;
        chosen_len(s, v, s.len());
        assert forall|k: int| 0 <= k < chosen(s, accept).len() implies is_listed(
            s,
            v,
            #[trigger] chosen(s, accept)[k],
        ) by {
            chosen_member(s, v, s.len(), k);
        }
    }
}

/// Whether a task is split at all.
#[derive(Debug, PartialEq, Eq)]
pub enum AtomicGate {
    Allow,
    Refuse { size_hint: String, suggestion: String },
}

/// A task of this size is done in one session.
pub open spec fn is_atomic(hint: Seq<char>) -> bool {
    hint == "tiny"@ || hint == "small"@
}

/// What a task that is not split is answered.
pub open spec fn atomic_advice() -> Seq<char> {
    "Already atomic — process in a single session. To override, raise atomic_size_hint via plan re-import."@
}

/// Refuses to split a task that its size hint calls atomic.
pub fn check_atomic_size_hint(hint: &str) -> (r: AtomicGate)
    ensures
        match r {
            AtomicGate::Allow => !is_atomic(hint@),
            AtomicGate::Refuse { size_hint, suggestion } => is_atomic(hint@) && size_hint@ == hint@
                && suggestion@ == atomic_advice(),
        },
{
    if same(hint, "tiny") || same(hint, "small") {
        AtomicGate::Refuse {
            size_hint: hint.to_owned(),
            suggestion:
                "Already atomic — process in a single session. To override, raise atomic_size_hint via plan re-import.".to_owned(),
        }
    } else {
        AtomicGate::Allow
    }
}

/// How many sub-tasks a task of this size gets at most; no bound for other
/// sizes.
pub open spec fn size_cap(hint: Seq<char>) -> Option<u64> {
    if hint == "medium"@ {
        Some(3u64)
    } else if hint == "large"@ {
        Some(5u64)
    } else {
        None
    }
}

/// How many sub-tasks a task of this size gets at most.
pub fn size_max_subtasks(hint: &str) -> (r: Option<u64>)
    ensures
        r == size_cap(hint@),
{
    if same(hint, "medium") {
        Some(3)
    } else if same(hint, "large") {
        Some(5)
    } else {
        None
    }
}

/// How many of `n` suggestions the size leaves.
pub open spec fn within_size(hint: Seq<char>, n: int) -> int {
    match size_cap(hint) {
        Some(cap) => if n > cap {
            cap as int
        } else {
            n
        },
        None => n,
    }
}

/// The violation where the size leaves fewer than `n` suggestions.
pub open spec fn size_violation(hint: Seq<char>, n: int) -> Option<JsonView> {
    match size_cap(hint) {
        Some(cap) => if n > cap {
            Some(
                violation(
                    "atomic_size_hint"@,
                    "warning"@,
                    "atomic_size_hint=\""@ + hint + "\" caps suggestions at "@ + dec(cap as nat)
                        + "; truncated "@ + dec(n as nat) + " → "@ + dec(cap as nat)
                        + ". Re-author the plan if more children are needed."@,
                ),
            )
        } else {
            None
        },
        None => None,
    }
}

/// What an optional value is.
pub open spec fn opt_json(o: Option<Json>) -> Option<JsonView> {
    match o {
        Some(j) => Some(j@),
        None => None,
    }
}

/// Drops the suggestions beyond the bound of the size, and says so where it
/// dropped any.
pub fn apply_size_cap(suggestions: &mut Vec<Json>, hint: &str) -> (r: Option<Json>)
    ensures
        opt_json(r) == size_violation(hint@, old(suggestions)@.len() as int),
        final(suggestions)@ == old(suggestions)@.take(
            within_size(hint@, old(suggestions)@.len() as int),
        ),
{
    let ghost given = suggestions@;
    assert(given.take(given.len() as int) =~= given);
    let cap: u64 = match size_max_subtasks(hint) {
        Some(c) => c,
        None => {
            return None;
        },
    };
    let original: u64 = suggestions.len() as u64;
    if original <= cap {
        return None;
    }
    suggestions.truncate(cap as usize);
    assert(suggestions@ =~= given.take(cap as int));
    let c = decimal(cap);
    let n = decimal(original);
    let mut msg = cat5(
        "atomic_size_hint=\"",
        hint,
        "\" caps suggestions at ",
        c.as_str(),
        "; truncated ",
    );
    msg.append(n.as_str());
    msg.append(" → ");
    msg.append(c.as_str());
    msg.append(". Re-author the plan if more children are needed.");
    Some(
        object().with("field", text("atomic_size_hint")).with("severity", text("warning")).with(
            "message",
            text(msg.as_str()),
        ),
    )
}

/// A task that is refused has no bound on its sub-tasks, and one with a bound
/// is not refused: each size is handled in one place only.
pub proof fn sizes_are_handled_once(hint: Seq<char>)
    ensures
        !(is_atomic(hint) && size_cap(hint) is Some),
{
    reveal_strlit("tiny");
    reveal_strlit("small");
    reveal_strlit("medium");
    reveal_strlit("large");
    assert("tiny"@.len() == 4 && "small"@.len() == 5 && "medium"@.len() == 6 && "large"@.len()
        == 5);
    assert("small"@[0] == 's' && "large"@[0] == 'l');
}

/// The policy under which sub-tasks are written by hand.
pub fn is_manual_policy(policy: &str) -> (r: bool)
    ensures
        r == (policy@ == "manual"@),
{
    same(policy, "manual")
}

} // verus!
