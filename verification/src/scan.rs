//! Trimming, searching and splitting texts.

use vstd::prelude::*;
use crate::text::{chars_of, is_white, text_between, texts, texts_push, white};

verus! {

/// The text without the white space in front.
pub open spec fn trim_start(s: Seq<char>) -> Seq<char>
    decreases s.len(),
{
    if s.len() > 0 && is_white(s[0]) {
        trim_start(s.skip(1))
    } else {
        s
    }
}

/// The text without the white space at its end.
pub open spec fn trim_end(s: Seq<char>) -> Seq<char>
    decreases s.len(),
{
    if s.len() > 0 && is_white(s.last()) {
        trim_end(s.drop_last())
    } else {
        s
    }
}

/// The text without the white space at either end.
pub open spec fn trimmed(s: Seq<char>) -> Seq<char> {
    trim_end(trim_start(s))
}

/// How many characters in front of `s` satisfy `p`.
pub open spec fn run_length(s: Seq<char>, p: spec_fn(char) -> bool) -> int
    decreases s.len(),
{
    if s.len() > 0 && p(s[0]) {
        1 + run_length(s.skip(1), p)
    } else {
        0
    }
}

/// A run ends inside the text or at its end.
pub proof fn run_bounds(s: Seq<char>, p: spec_fn(char) -> bool)
    ensures
        0 <= run_length(s, p) <= s.len(),
    decreases s.len(),
{
    if s.len() > 0 && p(s[0]) {
        run_bounds(s.skip(1), p);
    }
}

/// Where the white space in front of position `from` on ends.
fn skip_white(v: &Vec<char>, from: usize) -> (r: usize)
    requires
        from <= v@.len(),
    ensures
        from <= r <= v@.len(),
        trim_start(v@.skip(from as int)) == v@.skip(r as int),
        r == v@.len() || !is_white(v@[r as int]),
        r > from ==> is_white(v@[from as int]),
{
    let mut i: usize = from;
    while i < v.len() && white(v[i])
        invariant
            from <= i <= v@.len(),
            trim_start(v@.skip(from as int)) == trim_start(v@.skip(i as int)),
            i > from ==> is_white(v@[from as int]),
        decreases v@.len() - i,
    {
        assert(v@.skip(i as int).skip(1) =~= v@.skip(i + 1));
        i = i + 1;
    }
    i
}

/// Where the white space that ends the part up to `to` begins.
fn unskip_white(v: &Vec<char>, from: usize, to: usize) -> (r: usize)
    requires
        from <= to <= v@.len(),
    ensures
        from <= r <= to,
        trim_end(v@.subrange(from as int, to as int)) == v@.subrange(from as int, r as int),
{
    let mut i: usize = to;
    while i > from && white(v[i - 1])
        invariant
            from <= i <= to <= v@.len(),
            trim_end(v@.subrange(from as int, to as int)) == trim_end(
                v@.subrange(from as int, i as int),
            ),
        decreases i,
    {
        assert(v@.subrange(from as int, i as int).drop_last() =~= v@.subrange(
            from as int,
            i - 1,
        ));
        i = i - 1;
    }
    i
}

/// The text without the white space in front.
pub fn without_lead(s: &str) -> (r: String)
    ensures
        r@ == trim_start(s@),
{
    let v = chars_of(s);
    let i = skip_white(&v, 0);
    assert(v@.skip(0) =~= v@);
    assert(v@.skip(i as int) =~= v@.subrange(i as int, v@.len() as int));
    text_between(&v, i, v.len())
}

/// The text without the white space at its end.
pub fn without_tail(s: &str) -> (r: String)
    ensures
        r@ == trim_end(s@),
{
    let v = chars_of(s);
    let j = unskip_white(&v, 0, v.len());
    assert(v@.subrange(0, v@.len() as int) =~= v@);
    text_between(&v, 0, j)
}

/// The text without the white space at either end.
pub fn trim(s: &str) -> (r: String)
    ensures
        r@ == trimmed(s@),
{
    let v = chars_of(s);
    let i = skip_white(&v, 0);
    assert(v@.skip(0) =~= v@);
    assert(v@.skip(i as int) =~= v@.subrange(i as int, v@.len() as int));
    let j = unskip_white(&v, i, v.len());
    text_between(&v, i, j)
}

/// `p` stands in `s` from position `i` on.
pub open spec fn occurs_at(s: Seq<char>, p: Seq<char>, i: int) -> bool {
    0 <= i && i + p.len() <= s.len() && s.subrange(i, i + p.len()) == p
}

/// `p` stands somewhere in `s`.
pub open spec fn occurs_in(s: Seq<char>, p: Seq<char>) -> bool {
    exists|i: int| occurs_at(s, p, i)
}

fn stands_at(v: &Vec<char>, p: &Vec<char>, i: usize) -> (r: bool)
    requires
        i <= v@.len(),
    ensures
        r == occurs_at(v@, p@, i as int),
{
    if p.len() > v.len() - i {
        return false;
    }
    let mut k: usize = 0;
    while k < p.len()
        invariant
            i + p@.len() <= v@.len() <= usize::MAX,
            k <= p@.len(),
            forall|j: int| 0 <= j < k ==> v@[i + j] == p@[j],
        decreases p@.len() - k,
    {
        if v[i + k] != p[k] {
            assert(v@.subrange(i as int, i + p@.len())[k as int] == v@[i + k]);
            return false;
        }
        k = k + 1;
    }
    assert(v@.subrange(i as int, i + p@.len()) =~= p@);
    true
}

/// The first position at which `p` stands in `s`, in characters.
pub fn find(s: &str, p: &str) -> (r: Option<usize>)
    ensures
        match r {
            Some(i) => occurs_at(s@, p@, i as int) && forall|j: int|
                0 <= j < i ==> !occurs_at(s@, p@, j),
            None => !occurs_in(s@, p@),
        },
{
    let v = chars_of(s);
    let q = chars_of(p);
    let mut i: usize = 0;
    loop
        invariant
            v@ == s@,
            q@ == p@,
            i <= v@.len(),
            forall|j: int| 0 <= j < i ==> !occurs_at(s@, p@, j),
        decreases v@.len() - i,
    {
        if stands_at(&v, &q, i) {
            return Some(i);
        }
        if i == v.len() {
            return None;
        }
        i = i + 1;
    }
}

/// Whether `p` stands somewhere in `s`.
pub fn contains(s: &str, p: &str) -> (r: bool)
    ensures
        r == occurs_in(s@, p@),
{
    match find(s, p) {
        Some(_) => true,
        None => false,
    }
}

/// Whether the character `c` stands somewhere in `s`.
pub fn has_char(s: &str, c: char) -> (r: bool)
    ensures
        r == s@.contains(c),
{
    let v = chars_of(s);
    let mut i: usize = 0;
    while i < v.len()
        invariant
            v@ == s@,
            i <= v@.len(),
            forall|j: int| 0 <= j < i ==> v@[j] != c,
        decreases v@.len() - i,
    {
        if v[i] == c {
            return true;
        }
        i = i + 1;
    }
    false
}

/// What follows the prefix `p`, where `s` begins with it.
pub open spec fn after_prefix(s: Seq<char>, p: Seq<char>) -> Option<Seq<char>> {
    if p.is_prefix_of(s) {
        Some(s.skip(p.len() as int))
    } else {
        None
    }
}

/// What precedes the suffix `p`, where `s` ends with it.
pub open spec fn before_suffix(s: Seq<char>, p: Seq<char>) -> Option<Seq<char>> {
    if p.is_suffix_of(s) {
        Some(s.take(s.len() - p.len()))
    } else {
        None
    }
}

/// An optional text.
pub open spec fn opt_string(o: Option<String>) -> Option<Seq<char>> {
    match o {
        Some(s) => Some(s@),
        None => None,
    }
}

/// What follows the prefix `p`, where `s` begins with it.
pub fn strip_prefix(s: &str, p: &str) -> (r: Option<String>)
    ensures
        opt_string(r) == after_prefix(s@, p@),
{
    let v = chars_of(s);
    let q = chars_of(p);
    if stands_at(&v, &q, 0) {
        let r = text_between(&v, q.len(), v.len());
        assert(r@ =~= s@.skip(p@.len() as int));
        Some(r)
    } else {
        None
    }
}

/// What precedes the suffix `p`, where `s` ends with it.
pub fn strip_suffix(s: &str, p: &str) -> (r: Option<String>)
    ensures
        opt_string(r) == before_suffix(s@, p@),
{
    let v = chars_of(s);
    let q = chars_of(p);
    if q.len() <= v.len() && stands_at(&v, &q, v.len() - q.len()) {
        let r = text_between(&v, 0, v.len() - q.len());
        assert(r@ =~= s@.take(s@.len() - p@.len()));
        Some(r)
    } else {
        None
    }
}

/// Whether `s` begins with `p`.
pub fn starts_with(s: &str, p: &str) -> (r: bool)
    ensures
        r == p@.is_prefix_of(s@),
{
    match strip_prefix(s, p) {
        Some(_) => true,
        None => false,
    }
}

/// Whether `s` ends with `p`.
pub fn ends_with(s: &str, p: &str) -> (r: bool)
    ensures
        r == p@.is_suffix_of(s@),
{
    match strip_suffix(s, p) {
        Some(_) => true,
        None => false,
    }
}

/// The position of the first `c`, or the length where there is none.
pub open spec fn first_index(s: Seq<char>, c: char) -> int
    decreases s.len(),
{
    if s.len() == 0 || s[0] == c {
        0
    } else {
        1 + first_index(s.skip(1), c)
    }
}

/// The position lies in the text or at its end.
pub proof fn first_index_bounds(s: Seq<char>, c: char)
    ensures
        0 <= first_index(s, c) <= s.len(),
    decreases s.len(),
{
    if s.len() > 0 && s[0] != c {
        first_index_bounds(s.skip(1), c);
    }
}

/// The parts of the text between the characters `c`: one more than there
/// are such characters.
pub open spec fn split_on(s: Seq<char>, c: char) -> Seq<Seq<char>>
    decreases s.len(),
{
    let i = first_index(s, c);
    if 0 <= i < s.len() {
        seq![s.take(i)] + split_on(s.skip(i + 1), c)
    } else {
        seq![s]
    }
}

/// The text without one carriage return at its end.
pub open spec fn without_return(s: Seq<char>) -> Seq<char> {
    if s.len() > 0 && s.last() == '\r' {
        s.drop_last()
    } else {
        s
    }
}

/// The lines of a text. A line ends with a line feed, or with a carriage
/// return and a line feed; the last line need not end so.
pub open spec fn lines_of(s: Seq<char>) -> Seq<Seq<char>>
    decreases s.len(),
{
    let i = first_index(s, '\n');
    if s.len() == 0 {
        Seq::empty()
    } else if 0 <= i < s.len() {
        seq![without_return(s.take(i))] + lines_of(s.skip(i + 1))
    } else {
        seq![s]
    }
}

fn index_from(v: &Vec<char>, from: usize, c: char) -> (r: usize)
    requires
        from <= v@.len(),
    ensures
        r == from + first_index(v@.skip(from as int), c),
        from <= r <= v@.len(),
{
    let mut i: usize = from;
    while i < v.len() && v[i] != c
        invariant
            from <= i <= v@.len(),
            from + first_index(v@.skip(from as int), c) == i + first_index(v@.skip(i as int), c),
        decreases v@.len() - i,
    {
        assert(v@.skip(i as int).skip(1) =~= v@.skip(i + 1));
        i = i + 1;
    }
    i
}

/// The parts of the text between the characters `c`.
pub fn split(s: &str, c: char) -> (r: Vec<String>)
    ensures
        texts(r@) == split_on(s@, c),
{
    let v = chars_of(s);
    let mut out: Vec<String> = Vec::new();
    let mut start: usize = 0;
    assert(v@.skip(0) =~= v@);
    assert(texts(out@) + split_on(v@, c) =~= split_on(v@, c));
    loop
        invariant
            v@ == s@,
            start <= v@.len(),
            texts(out@) + split_on(v@.skip(start as int), c) == split_on(s@, c),
        decreases v@.len() - start,
    {
        let i = index_from(&v, start, c);
        let part = text_between(&v, start, i);
        let ghost rest = v@.skip(start as int);
        let ghost before = out@;
        assert(part@ =~= rest.take(i - start));
        out.push(part);
        proof {
            texts_push(before, part);
        }
        if i == v.len() {
            assert(rest.take(i - start) =~= rest);
            assert(texts(out@) =~= texts(before) + seq![rest]);
            return out;
        }
        assert(rest.skip(i - start + 1) =~= v@.skip(i + 1));
        assert(texts(out@) + split_on(v@.skip(i + 1), c) =~= texts(before) + (seq![part@]
            + split_on(v@.skip(i + 1), c)));
        start = i + 1;
    }
}

/// The lines of a text.
pub fn lines(s: &str) -> (r: Vec<String>)
    ensures
        texts(r@) == lines_of(s@),
{
    let v = chars_of(s);
    let mut out: Vec<String> = Vec::new();
    let mut start: usize = 0;
    assert(v@.skip(0) =~= v@);
    assert(texts(out@) + lines_of(v@) =~= lines_of(v@));
    while start < v.len()
        invariant
            v@ == s@,
            start <= v@.len(),
            texts(out@) + lines_of(v@.skip(start as int)) == lines_of(s@),
        decreases v@.len() - start,
    {
        let i = index_from(&v, start, '\n');
        let ghost rest = v@.skip(start as int);
        let ghost before = out@;
        let end = if i < v.len() && i > start && v[i - 1] == '\r' {
            i - 1
        } else {
            i
        };
        let part = text_between(&v, start, end);
        out.push(part);
        proof {
            texts_push(before, part);
        }
        if i == v.len() {
            assert(part@ =~= rest);
            assert(texts(out@) =~= texts(before) + seq![rest]);
            return out;
        }
        proof {
            let line = rest.take(i - start);
            if line.len() > 0 {
                assert(line.last() == v@[i - 1]);
            }
            assert(part@ =~= without_return(line));
            assert(rest.skip(i - start + 1) =~= v@.skip(i + 1));
            assert(texts(out@) + lines_of(v@.skip(i + 1)) =~= texts(before) + (seq![part@]
                + lines_of(v@.skip(i + 1))));
        }
        start = i + 1;
    }
    proof {
        assert(v@.skip(start as int).len() == 0);
        assert(texts(out@) + Seq::<Seq<char>>::empty() =~= texts(out@));
    }
    out
}

/// The words of a text: its longest parts without white space.
pub open spec fn words_of(s: Seq<char>) -> Seq<Seq<char>>
    decreases s.len(),
    via words_decrease
{
    let t = trim_start(s);
    if t.len() == 0 {
        Seq::empty()
    } else {
        let n = run_length(t, |c: char| !is_white(c));
        seq![t.take(n)] + words_of(t.skip(n))
    }
}

proof fn trim_start_facts(s: Seq<char>)
    ensures
        trim_start(s).len() <= s.len(),
        trim_start(s).len() > 0 ==> !is_white(trim_start(s)[0]),
    decreases s.len(),
{
    if s.len() > 0 && is_white(s[0]) {
        trim_start_facts(s.skip(1));
    }
}

#[via_fn]
proof fn words_decrease(s: Seq<char>) {
    trim_start_facts(s);
    let t = trim_start(s);
    if t.len() > 0 {
        let p = |c: char| !is_white(c);
        run_bounds(t.skip(1), p);
        run_bounds(t, p);
    }
}

/// One step in taking a text apart into words.
pub proof fn word_step(s: Seq<char>)
    ensures
        trim_start(s).len() == 0 ==> words_of(s).len() == 0,
        trim_start(s).len() > 0 ==> ({
            let t = trim_start(s);
            let n = run_length(t, |c: char| !is_white(c));
            &&& 0 < n <= t.len() <= s.len()
            &&& words_of(s) == seq![t.take(n)] + words_of(t.skip(n))
        }),
{
    trim_start_facts(s);
    let t = trim_start(s);
    if t.len() > 0 {
        let p = |c: char| !is_white(c);
        run_bounds(t.skip(1), p);
        run_bounds(t, p);
    }
}

fn word_end(v: &Vec<char>, from: usize) -> (r: usize)
    requires
        from <= v@.len(),
    ensures
        r == from + run_length(v@.skip(from as int), |c: char| !is_white(c)),
        from <= r <= v@.len(),
        from < v@.len() && !is_white(v@[from as int]) ==> r > from,
{
    let mut i: usize = from;
    let ghost p = |c: char| !is_white(c);
    while i < v.len() && !white(v[i])
        invariant
            p == (|c: char| !is_white(c)),
            from <= i <= v@.len(),
            from + run_length(v@.skip(from as int), p) == i + run_length(v@.skip(i as int), p),
            from < v@.len() && !is_white(v@[from as int]) ==> i > from || i == from,
        decreases v@.len() - i,
    {
        assert(v@.skip(i as int).skip(1) =~= v@.skip(i + 1));
        i = i + 1;
    }
    i
}

/// The words of a text.
pub fn words(s: &str) -> (r: Vec<String>)
    ensures
        texts(r@) == words_of(s@),
{
    let v = chars_of(s);
    let mut out: Vec<String> = Vec::new();
    let mut start: usize = 0;
    assert(v@.skip(0) =~= v@);
    assert(texts(out@) + words_of(v@) =~= words_of(v@));
    loop
        invariant
            v@ == s@,
            start <= v@.len(),
            texts(out@) + words_of(v@.skip(start as int)) == words_of(s@),
        decreases v@.len() - start,
    {
        let i = skip_white(&v, start);
        let ghost before = out@;
        if i == v.len() {
            assert(v@.skip(i as int).len() == 0);
            assert(texts(out@) + Seq::<Seq<char>>::empty() =~= texts(out@));
            return out;
        }
        let j = word_end(&v, i);
        let word = text_between(&v, i, j);
        out.push(word);
        proof {
            texts_push(before, word);
            let t = v@.skip(i as int);
            assert(word@ =~= t.take(j - i));
            assert(t.skip(j - i) =~= v@.skip(j as int));
            assert(texts(out@) + words_of(v@.skip(j as int)) =~= texts(before) + (seq![word@]
                + words_of(v@.skip(j as int))));
        }
        start = j;
    }
}

/// The number that a decimal digit stands for.
pub open spec fn digit_value(c: char) -> nat {
    if '0' <= c <= '9' {
        (c as int - '0' as int) as nat
    } else {
        0
    }
}

/// The number that decimal digits stand for.
pub open spec fn digits_value(s: Seq<char>) -> nat
    decreases s.len(),
{
    if s.len() == 0 {
        0
    } else {
        digits_value(s.drop_last()) * 10 + digit_value(s.last())
    }
}

/// One digit or more, and nothing else.
pub open spec fn all_digits(s: Seq<char>) -> bool {
    s.len() > 0 && forall|i: int| 0 <= i < s.len() ==> '0' <= #[trigger] s[i] <= '9'
}

/// The text without a plus sign in front.
pub open spec fn without_plus(s: Seq<char>) -> Seq<char> {
    if s.len() > 0 && s[0] == '+' {
        s.skip(1)
    } else {
        s
    }
}

/// The number that a text stands for: digits, with or without a plus sign in
/// front, that do not exceed `max`.
pub open spec fn number_of(s: Seq<char>, max: nat) -> Option<nat> {
    let digits = without_plus(s);
    if all_digits(digits) && digits_value(digits) <= max {
        Some(digits_value(digits))
    } else {
        None
    }
}

proof fn digits_grow(s: Seq<char>, n: int)
    requires
        0 <= n <= s.len(),
    ensures
        digits_value(s.take(n)) <= digits_value(s),
    decreases s.len() - n,
{
    if n == s.len() {
        assert(s.take(n) =~= s);
    } else {
        digits_grow(s, n + 1);
        assert(s.take(n + 1).drop_last() =~= s.take(n));
    }
}

/// The number that a text stands for, where it stands for one up to `max`.
pub fn parse_number(s: &str, max: u64) -> (r: Option<u64>)
    ensures
        match r {
            Some(n) => number_of(s@, max as nat) == Some(n as nat),
            None => number_of(s@, max as nat) is None,
        },
{
    let v = chars_of(s);
    let start: usize = if v.len() > 0 && v[0] == '+' {
        1
    } else {
        0
    };
    let ghost digits = without_plus(s@);
    assert(digits =~= v@.skip(start as int));
    if start >= v.len() {
        return None;
    }
    let mut n: u64 = 0;
    let mut i: usize = start;
    assert(digits.take(0) =~= Seq::empty());
    while i < v.len()
        invariant
            v@ == s@,
            start <= i <= v@.len(),
            start < v@.len(),
            digits == without_plus(s@),
            digits == v@.skip(start as int),
            forall|k: int| 0 <= k < i - start ==> '0' <= #[trigger] digits[k] <= '9',
            n == digits_value(digits.take(i - start)),
            n <= max,
        decreases v@.len() - i,
    {
        let c = v[i];
        assert(digits[i - start] == c);
        if c < '0' || c > '9' {
            return None;
        }
        let d: u64 = (c as u32 - '0' as u32) as u64;
        proof {
            assert(digits.take(i - start + 1).drop_last() =~= digits.take(i - start));
            assert(digits.take(i - start + 1).last() == c);
            digits_grow(digits, i - start + 1);
        }
        if n > max / 10 || d > max - n * 10 {
            assert(n * 10 + d > max) by (nonlinear_arith)
                requires
                    n > max / 10 || d > max - n * 10,
                    d <= 9,
            {
            }
            return None;
        }
        n = n * 10 + d;
        i = i + 1;
    }
    assert(digits.take(i - start) =~= digits);
    Some(n)
}

} // verus!
