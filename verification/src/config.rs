//! Sections of a settings file, edited line by line.

use vstd::prelude::*;
use crate::scan::{
    ends_with, first_index, split, split_on, starts_with, trim, trim_end, trim_start, trimmed,
};
use crate::text::{cat2, is_white, same, texts, texts_push};

verus! {

/// A line that begins a section.
pub open spec fn is_header(line: Seq<char>) -> bool {
    let t = trimmed(line);
    "["@.is_prefix_of(t) && "]"@.is_suffix_of(t)
}

/// A line with nothing on it.
pub open spec fn is_blank(line: Seq<char>) -> bool {
    trimmed(line).len() == 0
}

/// The first line from `i` on that is the header.
pub open spec fn header_from(lines: Seq<Seq<char>>, header: Seq<char>, i: int) -> Option<int>
    decreases lines.len() - i,
{
    if i >= lines.len() {
        None
    } else if trimmed(lines[i]) == header {
        Some(i)
    } else {
        header_from(lines, header, i + 1)
    }
}

/// Where the section that holds the lines before `i` ends: at the next
/// header, else at the end.
pub open spec fn section_end(lines: Seq<Seq<char>>, i: int) -> int
    decreases lines.len() - i,
{
    if i >= lines.len() {
        lines.len() as int
    } else if is_header(lines[i]) {
        i
    } else {
        section_end(lines, i + 1)
    }
}

/// The lines of a section: from its header up to the next header or the end.
pub open spec fn section(lines: Seq<Seq<char>>, header: Seq<char>) -> Option<(int, int)> {
    match header_from(lines, header, 0) {
        Some(start) => Some((start, section_end(lines, start + 1))),
        None => None,
    }
}

proof fn header_bounds(lines: Seq<Seq<char>>, header: Seq<char>, i: int)
    requires
        0 <= i,
    ensures
        header_from(lines, header, i) matches Some(k) ==> i <= k < lines.len() && trimmed(lines[k])
            == header && forall|j: int| i <= j < k ==> trimmed(#[trigger] lines[j]) != header,
        header_from(lines, header, i) is None ==> forall|j: int|
            i <= j < lines.len() ==> trimmed(#[trigger] lines[j]) != header,
    decreases lines.len() - i,
{
    if i < lines.len() && trimmed(lines[i]) != header {
        header_bounds(lines, header, i + 1);
    }
}

proof fn end_bounds(lines: Seq<Seq<char>>, i: int)
    requires
        0 <= i <= lines.len(),
    ensures
        i <= section_end(lines, i) <= lines.len(),
        forall|j: int| i <= j < section_end(lines, i) ==> !is_header(#[trigger] lines[j]),
        section_end(lines, i) < lines.len() ==> is_header(lines[section_end(lines, i)]),
    decreases lines.len() - i,
{
    if i < lines.len() && !is_header(lines[i]) {
        end_bounds(lines, i + 1);
    }
}

/// A section lies in the file: it begins with the first line that is its
/// header, and no other section begins in it.
pub proof fn section_bounds(lines: Seq<Seq<char>>, header: Seq<char>)
    ensures
        section(lines, header) matches Some((start, end)) ==> {
            &&& 0 <= start < end <= lines.len()
            &&& trimmed(lines[start]) == header
            &&& forall|j: int| 0 <= j < start ==> trimmed(#[trigger] lines[j]) != header
            &&& forall|j: int| start < j < end ==> !is_header(#[trigger] lines[j])
            &&& end < lines.len() ==> is_header(lines[end])
        },
        section(lines, header) is None <==> forall|j: int|
            0 <= j < lines.len() ==> trimmed(#[trigger] lines[j]) != header,
{
    header_bounds(lines, header, 0);
    if let Some(start) = header_from(lines, header, 0) {
        end_bounds(lines, start + 1);
    }
}

fn begins_section(line: &str) -> (r: bool)
    ensures
        r == is_header(line@),
{
    let t = trim(line);
    starts_with(t.as_str(), "[") && ends_with(t.as_str(), "]")
}

fn blank(line: &str) -> (r: bool)
    ensures
        r == is_blank(line@),
{
    let t = trim(line);
    t.as_str().is_empty()
}

/// Where a section lies, where it is there.
pub fn section_range(lines: &Vec<String>, header: &str) -> (r: Option<(usize, usize)>)
    ensures
        match r {
            Some((start, end)) => section(texts(lines@), header@) == Some(
                (start as int, end as int),
            ),
            None => section(texts(lines@), header@) is None,
        },
{
    let ghost all = texts(lines@);
    let mut start: usize = 0;
    while start < lines.len()
        invariant
            start <= lines@.len(),
            all == texts(lines@),
            header_from(all, header@, 0) == header_from(all, header@, start as int),
        decreases lines@.len() - start,
    {
        let t = trim(lines[start].as_str());
        assert(all[start as int] == lines@[start as int]@);
        if same(t.as_str(), header) {
            let mut end: usize = start + 1;
            while end < lines.len() && !begins_section(lines[end].as_str())
                invariant
                    start < end <= lines@.len(),
                    all == texts(lines@),
                    section_end(all, start + 1) == section_end(all, end as int),
                decreases lines@.len() - end,
            {
                assert(all[end as int] == lines@[end as int]@);
                end = end + 1;
            }
            assert(end < lines@.len() ==> all[end as int] == lines@[end as int]@);
            return Some((start, end));
        }
        start = start + 1;
    }
    None
}

/// The key of a line `key = value`.
pub open spec fn key_of(kv: Seq<char>) -> Seq<char> {
    trimmed(split_on(kv, '=')[0])
}

/// A line that sets a key, or names it alone.
pub open spec fn sets_key(line: Seq<char>, key: Seq<char>) -> bool {
    (key + " ="@).is_prefix_of(trimmed(line)) || trimmed(line) == key
}

/// The first line from `i` up to `end` that sets the key, else `end`.
pub open spec fn setting_from(lines: Seq<Seq<char>>, key: Seq<char>, i: int, end: int) -> int
    decreases end - i,
{
    if i >= end {
        end
    } else if sets_key(lines[i], key) {
        i
    } else {
        setting_from(lines, key, i + 1, end)
    }
}

/// The lines with a setting more in the section from `start` to `end`: in
/// place of the first line that sets its key, else at the section's end.
pub open spec fn set_line(lines: Seq<Seq<char>>, start: int, end: int, kv: Seq<char>) -> Seq<
    Seq<char>,
> {
    let pos = setting_from(lines, key_of(kv), start + 1, end);
    if pos < end {
        lines.update(pos, kv)
    } else {
        lines.insert(end, kv)
    }
}

/// Where the section ends after the setting.
pub open spec fn end_after(lines: Seq<Seq<char>>, start: int, end: int, kv: Seq<char>) -> int {
    if setting_from(lines, key_of(kv), start + 1, end) < end {
        end
    } else {
        end + 1
    }
}

/// The lines after the first `n` settings, and where the section then ends.
pub open spec fn set_lines(
    lines: Seq<Seq<char>>,
    start: int,
    end: int,
    kvs: Seq<Seq<char>>,
    n: nat,
) -> (Seq<Seq<char>>, int)
    decreases n,
{
    if n == 0 {
        (lines, end)
    } else {
        let (before, e) = set_lines(lines, start, end, kvs, (n - 1) as nat);
        (set_line(before, start, e, kvs[n - 1]), end_after(before, start, e, kvs[n - 1]))
    }
}

/// The lines with a new section at the end, an empty line in front of it.
pub open spec fn with_new_section(
    lines: Seq<Seq<char>>,
    header: Seq<char>,
    kvs: Seq<Seq<char>>,
) -> Seq<Seq<char>> {
    let spaced = if lines.len() > 0 && !is_blank(lines.last()) {
        lines.push(Seq::empty())
    } else {
        lines
    };
    spaced.push(header) + kvs
}

/// The lines with the settings in the section, which is added where it is
/// missing.
pub open spec fn upserted(
    lines: Seq<Seq<char>>,
    header: Seq<char>,
    kvs: Seq<Seq<char>>,
) -> Seq<Seq<char>> {
    match section(lines, header) {
        Some((start, end)) => set_lines(lines, start, end, kvs, kvs.len()).0,
        None => with_new_section(lines, header, kvs),
    }
}

proof fn setting_bounds(lines: Seq<Seq<char>>, key: Seq<char>, i: int, end: int)
    requires
        0 <= i <= end <= lines.len(),
    ensures
        i <= setting_from(lines, key, i, end) <= end,
        forall|j: int|
            i <= j < setting_from(lines, key, i, end) ==> !sets_key(#[trigger] lines[j], key),
        setting_from(lines, key, i, end) < end ==> sets_key(
            lines[setting_from(lines, key, i, end)],
            key,
        ),
    decreases end - i,
{
    if i < end && !sets_key(lines[i], key) {
        setting_bounds(lines, key, i + 1, end);
    }
}

fn is_setting(line: &str, key: &str) -> (r: bool)
    ensures
        r == sets_key(line@, key@),
{
    let t = trim(line);
    let assigned = cat2(key, " =");
    starts_with(t.as_str(), assigned.as_str()) || same(t.as_str(), key)
}

fn key_text(kv: &str) -> (r: String)
    ensures
        r@ == key_of(kv@),
{
    let parts = split(kv, '=');
    proof {
        assert(texts(parts@).len() == parts@.len());
        assert(split_on(kv@, '=').len() > 0);
        assert(texts(parts@)[0] == parts@[0]@);
    }
    trim(parts[0].as_str())
}

/// Puts the settings into a section, which is added where it is missing.
pub fn upsert_section(lines: &mut Vec<String>, header: &str, kv_lines: &Vec<String>)
    ensures
        texts(final(lines)@) == upserted(texts(old(lines)@), header@, texts(kv_lines@)),
{
    let ghost given = texts(lines@);
    let ghost kvs = texts(kv_lines@);
    proof {
        section_bounds(given, header@);
    }
    if let Some((start, end0)) = section_range(lines, header) {
        let mut end = end0;
        let mut i: usize = 0;
        while i < kv_lines.len()
            invariant
                i <= kv_lines@.len(),
                kvs == texts(kv_lines@),
                start < end <= lines@.len(),
                (texts(lines@), end as int) == set_lines(
                    given,
                    start as int,
                    end0 as int,
                    kvs,
                    i as nat,
                ),
            decreases kv_lines@.len() - i,
        {
            let ghost before = texts(lines@);
            let key = key_text(kv_lines[i].as_str());
            assert(kvs[i as int] == kv_lines@[i as int]@);
            let mut pos: usize = start + 1;
            while pos < end && !is_setting(lines[pos].as_str(), key.as_str())
                invariant
                    start < pos <= end <= lines@.len(),
                    before == texts(lines@),
                    setting_from(before, key@, start + 1, end as int) == setting_from(
                        before,
                        key@,
                        pos as int,
                        end as int,
                    ),
                decreases end - pos,
            {
                assert(before[pos as int] == lines@[pos as int]@);
                pos = pos + 1;
            }
            assert(pos < end ==> before[pos as int] == lines@[pos as int]@);
            let item = kv_lines[i].clone();
            if pos < end {
                lines.set(pos, item);
                assert(texts(lines@) =~= before.update(pos as int, kvs[i as int]));
            } else {
                lines.insert(end, item);
                assert(texts(lines@) =~= before.insert(end as int, kvs[i as int]));
                let total = lines.len();
                assert(end < total);
                end = end + 1;
            }
            i = i + 1;
        }
        assert(kvs.len() == kv_lines@.len());
        return;
    }
    assert(given.len() == lines@.len());
    if lines.len() > 0 && !blank(lines[lines.len() - 1].as_str()) {
        let empty = String::new();
        proof {
            texts_push(lines@, empty);
        }
        lines.push(empty);
    }
    let own = header.to_owned();
    proof {
        texts_push(lines@, own);
    }
    lines.push(own);
    let ghost front = texts(lines@);
    let mut i: usize = 0;
    assert(kvs.take(0) =~= Seq::empty());
    assert(front + Seq::<Seq<char>>::empty() =~= front);
    while i < kv_lines.len()
        invariant
            i <= kv_lines@.len(),
            kvs == texts(kv_lines@),
            texts(lines@) == front + kvs.take(i as int),
        decreases kv_lines@.len() - i,
    {
        let item = kv_lines[i].clone();
        proof {
            texts_push(lines@, item);
            assert(kvs.take(i + 1) =~= kvs.take(i as int).push(kvs[i as int]));
            assert((front + kvs.take(i as int)).push(kvs[i as int]) =~= front + kvs.take(
                i as int,
            ).push(kvs[i as int]));
        }
        lines.push(item);
        i = i + 1;
    }
    assert(kvs.take(i as int) =~= kvs);
}

/// The first line from `i` on that is not blank, else the end.
pub open spec fn after_blanks(lines: Seq<Seq<char>>, i: int) -> int
    decreases lines.len() - i,
{
    if i >= lines.len() {
        lines.len() as int
    } else if is_blank(lines[i]) {
        after_blanks(lines, i + 1)
    } else {
        i
    }
}

/// The lines without the section, the blank lines behind it, and blank lines
/// at the top.
pub open spec fn without_section(lines: Seq<Seq<char>>, header: Seq<char>) -> Seq<Seq<char>> {
    match section(lines, header) {
        Some((start, end)) => {
            let rest = lines.take(start) + lines.skip(after_blanks(lines, end));
            rest.skip(after_blanks(rest, 0))
        },
        None => lines,
    }
}

proof fn blanks_bounds(lines: Seq<Seq<char>>, i: int)
    requires
        0 <= i <= lines.len(),
    ensures
        i <= after_blanks(lines, i) <= lines.len(),
        forall|j: int| i <= j < after_blanks(lines, i) ==> is_blank(#[trigger] lines[j]),
        after_blanks(lines, i) < lines.len() ==> !is_blank(lines[after_blanks(lines, i)]),
    decreases lines.len() - i,
{
    if i < lines.len() && is_blank(lines[i]) {
        blanks_bounds(lines, i + 1);
    }
}

fn skip_blanks(lines: &Vec<String>, from: usize) -> (r: usize)
    requires
        from <= lines@.len(),
    ensures
        r == after_blanks(texts(lines@), from as int),
        from <= r <= lines@.len(),
{
    let ghost all = texts(lines@);
    let mut i: usize = from;
    while i < lines.len() && blank(lines[i].as_str())
        invariant
            from <= i <= lines@.len(),
            all == texts(lines@),
            after_blanks(all, from as int) == after_blanks(all, i as int),
        decreases lines@.len() - i,
    {
        assert(all[i as int] == lines@[i as int]@);
        i = i + 1;
    }
    assert(i < lines@.len() ==> all[i as int] == lines@[i as int]@);
    i
}

/// Takes a section out, with the blank lines behind it and at the top.
pub fn remove_section(lines: &mut Vec<String>, header: &str)
    ensures
        texts(final(lines)@) == without_section(texts(old(lines)@), header@),
{
    let ghost given = texts(lines@);
    proof {
        section_bounds(given, header@);
    }
    if let Some((start, end)) = section_range(lines, header) {
        let stop = skip_blanks(lines, end);
        let mut kept: Vec<String> = Vec::new();
        let mut i: usize = 0;
        while i < lines.len()
            invariant
                i <= lines@.len(),
                given == texts(lines@),
                start <= stop <= lines@.len(),
                texts(kept@) == given.take(
                    if i < start {
                        i as int
                    } else {
                        start as int
                    },
                ) + given.subrange(
                    stop as int,
                    if i < stop {
                        stop as int
                    } else {
                        i as int
                    },
                ),
            decreases lines@.len() - i,
        {
            if i < start || i >= stop {
                let item = lines[i].clone();
                proof {
                    texts_push(kept@, item);
                    assert(given[i as int] == item@);
                }
                let ghost before = texts(kept@);
                kept.push(item);
                proof {
                    if i < start {
                        assert(texts(kept@) =~= given.take(i + 1) + given.subrange(
                            stop as int,
                            stop as int,
                        ));
                    } else {
                        assert(texts(kept@) =~= given.take(start as int) + given.subrange(
                            stop as int,
                            i + 1,
                        ));
                    }
                }
            }
            i = i + 1;
        }
        let ghost rest = given.take(start as int) + given.skip(stop as int);
        assert(texts(kept@) =~= rest);
        let top = skip_blanks(&kept, 0);
        let mut out: Vec<String> = Vec::new();
        let mut k: usize = top;
        assert(texts(out@) =~= rest.subrange(top as int, top as int));
        while k < kept.len()
            invariant
                top <= k <= kept@.len(),
                rest == texts(kept@),
                texts(out@) == rest.subrange(top as int, k as int),
            decreases kept@.len() - k,
        {
            let item = kept[k].clone();
            proof {
                texts_push(out@, item);
                assert(rest.subrange(top as int, k + 1) =~= rest.subrange(
                    top as int,
                    k as int,
                ).push(rest[k as int]));
            }
            out.push(item);
            k = k + 1;
        }
        assert(rest.subrange(top as int, rest.len() as int) =~= rest.skip(top as int));
        assert(rest.len() == kept@.len());
        *lines = out;
    }
}

/// Settings that can stand together in a section: each line sets its own key
/// and no other's, and none begins a section.
pub open spec fn compatible(kvs: Seq<Seq<char>>) -> bool {
    &&& forall|i: int| 0 <= i < kvs.len() ==> !is_header(#[trigger] kvs[i])
    &&& forall|i: int, j: int|
        0 <= i < kvs.len() && 0 <= j < kvs.len() ==> (sets_key(
            #[trigger] kvs[i],
            key_of(#[trigger] kvs[j]),
        ) <==> i == j)
}

/// A name that a setting can have.
pub open spec fn is_key(key: Seq<char>) -> bool {
    &&& key.len() > 0
    &&& trimmed(key) == key
    &&& key[0] != '['
    &&& !key.contains('=')
}

/// The line that sets a key.
pub open spec fn setting(key: Seq<char>, value: Seq<char>) -> Seq<char> {
    key + " = "@ + value
}

/// The lines that set the keys.
pub open spec fn settings(keys: Seq<Seq<char>>, values: Seq<Seq<char>>) -> Seq<Seq<char>> {
    Seq::new(keys.len(), |i: int| setting(keys[i], values[i]))
}

proof fn trim_end_keeps(s: Seq<char>, n: int)
    requires
        0 < n <= s.len(),
        !is_white(s[n - 1]),
    ensures
        n <= trim_end(s).len() <= s.len(),
        trim_end(s) == s.take(trim_end(s).len() as int),
    decreases s.len(),
{
    if is_white(s.last()) {
        trim_end_keeps(s.drop_last(), n);
        assert(s.drop_last().take(trim_end(s).len() as int) =~= s.take(trim_end(s).len() as int));
    } else {
        assert(s.take(s.len() as int) =~= s);
    }
}

proof fn trims_shorten(s: Seq<char>)
    ensures
        trim_start(s).len() <= s.len(),
        trim_end(s).len() <= s.len(),
    decreases s.len(),
{
    if s.len() > 0 {
        trims_shorten(s.skip(1));
        trims_shorten(s.drop_last());
    }
}

proof fn key_ends(key: Seq<char>)
    requires
        is_key(key),
    ensures
        !is_white(key[0]),
        !is_white(key.last()),
{
    trims_shorten(key);
    trims_shorten(trim_start(key));
    if is_white(key[0]) {
        trims_shorten(key.skip(1));
    }
    if is_white(key.last()) {
        trims_shorten(key.drop_last());
    }
}

proof fn first_index_is(s: Seq<char>, c: char, i: int)
    requires
        0 <= i < s.len(),
        s[i] == c,
        forall|j: int| 0 <= j < i ==> s[j] != c,
    ensures
        first_index(s, c) == i,
    decreases i,
{
    if i > 0 {
        assert(s[0] != c);
        assert forall|j: int| 0 <= j < i - 1 implies s.skip(1)[j] != c by {
            assert(s.skip(1)[j] == s[j + 1]);
        }
        first_index_is(s.skip(1), c, i - 1);
    }
}

/// A line that sets a key is one of that key alone, and begins no section.
proof fn setting_sets_its_key(key: Seq<char>, value: Seq<char>, other: Seq<char>)
    requires
        is_key(key),
        is_key(other),
    ensures
        key_of(setting(key, value)) == key,
        !is_header(setting(key, value)),
        sets_key(setting(key, value), other) <==> key == other,
{
    reveal_strlit(" =");
    reveal_strlit(" = ");
    reveal_strlit("[");
    key_ends(key);
    let line = setting(key, value);
    let n = key.len() as int;
    assert(line[n] == ' ' && line[n + 1] == '=');
    assert forall|j: int| 0 <= j < n + 1 implies line[j] != '=' by {
        if j < n {
            assert(line[j] == key[j]);
        }
    }
    first_index_is(line, '=', n + 1);
    let part = split_on(line, '=')[0];
    assert(part == line.take(n + 1));
    assert(part[0] == key[0]);
    assert(trim_start(part) == part);
    assert(part.last() == ' ');
    assert(part.drop_last() =~= key);
    assert(trim_end(part) == trim_end(key));
    assert(trim_end(key) == key);
    assert(line[0] == key[0]);
    assert(trim_start(line) == line);
    trim_end_keeps(line, n + 2);
    let whole = trimmed(line);
    assert forall|j: int| 0 <= j < whole.len() implies whole[j] == line[j] by {}
    if "["@.is_prefix_of(whole) {
        assert(whole[0] == "["@[0]);
    }
    let start = other + " ="@;
    let m = other.len() as int;
    assert(start[m] == ' ' && start[m + 1] == '=');
    if key == other {
        assert(whole.take(start.len() as int) =~= start);
        assert(start.is_prefix_of(whole));
    } else {
        if start.is_prefix_of(whole) {
            assert forall|j: int| 0 <= j < m + 2 implies start[j] == line[j] by {
                assert(start[j] == whole[j]);
            }
            if m > n {
                let at = n + 1;
                assert(start[at] == line[at]);
                if at < m {
                    assert(other[at] == start[at]);
                    assert(other.contains('='));
                }
            } else if m < n {
                assert(line[m + 1] == start[m + 1]);
            } else {
                assert forall|j: int| 0 <= j < n implies key[j] == other[j] by {
                    assert(start[j] == line[j]);
                }
                assert(key =~= other);
            }
        }
        if whole == other {
            assert(other[n + 1] == '=');
            assert(other.contains('='));
        }
    }
}

/// Lines that set different keys can stand together in a section.
pub proof fn settings_are_compatible(keys: Seq<Seq<char>>, values: Seq<Seq<char>>)
    requires
        forall|i: int| 0 <= i < keys.len() ==> is_key(#[trigger] keys[i]),
        forall|i: int, j: int| 0 <= i < j < keys.len() ==> #[trigger] keys[i] != #[trigger] keys[j],
    ensures
        compatible(settings(keys, values)),
{
    let kvs = settings(keys, values);
    assert forall|i: int| 0 <= i < kvs.len() implies !is_header(#[trigger] kvs[i]) by {
        setting_sets_its_key(keys[i], values[i], keys[i]);
    }
    assert forall|i: int, j: int| 0 <= i < kvs.len() && 0 <= j < kvs.len() implies (sets_key(
        #[trigger] kvs[i],
        key_of(#[trigger] kvs[j]),
    ) <==> i == j) by {
        setting_sets_its_key(keys[j], values[j], keys[j]);
        setting_sets_its_key(keys[i], values[i], keys[j]);
        if i < j {
            assert(keys[i] != keys[j]);
        } else if j < i {
            assert(keys[j] != keys[i]);
        }
    }
}

/// A line that sets none of the keys that the settings set.
pub open spec fn is_foreign(line: Seq<char>, kvs: Seq<Seq<char>>) -> bool {
    forall|j: int| 0 <= j < kvs.len() ==> !sets_key(line, key_of(#[trigger] kvs[j]))
}

/// The lines from `start` up to `end` that set none of the keys, in order.
pub open spec fn others(
    lines: Seq<Seq<char>>,
    start: int,
    end: int,
    kvs: Seq<Seq<char>>,
) -> Seq<Seq<char>> {
    lines.subrange(start, end).filter(|l: Seq<char>| is_foreign(l, kvs))
}

proof fn others_without(
    lines: Seq<Seq<char>>,
    start: int,
    at: int,
    end: int,
    kvs: Seq<Seq<char>>,
)
    requires
        0 <= start <= at < end <= lines.len(),
        !is_foreign(lines[at], kvs),
    ensures
        others(lines, start, end, kvs) == others(lines, start, at, kvs) + others(
            lines,
            at + 1,
            end,
            kvs,
        ),
{
    let p = |l: Seq<char>| is_foreign(l, kvs);
    let a = lines.subrange(start, at);
    let b = lines.subrange(at, at + 1);
    let c = lines.subrange(at + 1, end);
    assert(lines.subrange(start, end) =~= a + b + c);
    Seq::filter_distributes_over_add(a + b, c, p);
    Seq::filter_distributes_over_add(a, b, p);
    reveal(Seq::filter);
    assert(b.drop_last() =~= Seq::empty());
    assert(b.last() == lines[at]);
    assert(b.drop_last().filter(p) =~= Seq::empty());
    assert(!p(b.last()));
    assert(b.filter(p) =~= Seq::empty());
    assert(a.filter(p) + b.filter(p) =~= a.filter(p));
}

proof fn set_line_keeps_others(
    lines: Seq<Seq<char>>,
    start: int,
    end: int,
    kvs: Seq<Seq<char>>,
    n: int,
)
    requires
        0 <= start < end <= lines.len(),
        0 <= n < kvs.len(),
        compatible(kvs),
    ensures
        others(
            set_line(lines, start, end, kvs[n]),
            start + 1,
            end_after(lines, start, end, kvs[n]),
            kvs,
        ) == others(lines, start + 1, end, kvs),
{
    let key = key_of(kvs[n]);
    let pos = setting_from(lines, key, start + 1, end);
    let after = set_line(lines, start, end, kvs[n]);
    setting_bounds(lines, key, start + 1, end);
    assert(sets_key(kvs[n], key_of(kvs[n])));
    if pos < end {
        assert(after[pos] == kvs[n]);
        others_without(lines, start + 1, pos, end, kvs);
        others_without(after, start + 1, pos, end, kvs);
        assert(after.subrange(start + 1, pos) =~= lines.subrange(start + 1, pos));
        assert(after.subrange(pos + 1, end) =~= lines.subrange(pos + 1, end));
    } else {
        assert(after[end] == kvs[n]);
        others_without(after, start + 1, end, end + 1, kvs);
        assert(after.subrange(start + 1, end) =~= lines.subrange(start + 1, end));
        reveal(Seq::filter);
        assert(after.subrange(end + 1, end + 1).len() == 0);
        assert(others(after, end + 1, end + 1, kvs) =~= Seq::empty());
        assert(others(lines, start + 1, end, kvs) + Seq::empty() =~= others(
            lines,
            start + 1,
            end,
            kvs,
        ));
    }
}

proof fn set_lines_keep_others(
    lines: Seq<Seq<char>>,
    start: int,
    end: int,
    kvs: Seq<Seq<char>>,
    n: nat,
)
    requires
        0 <= start < end <= lines.len(),
        n <= kvs.len(),
        compatible(kvs),
    ensures
        ({
            let (after, e) = set_lines(lines, start, end, kvs, n);
            others(after, start + 1, e, kvs) == others(lines, start + 1, end, kvs)
        }),
    decreases n,
{
    if n > 0 {
        set_lines_keep_others(lines, start, end, kvs, (n - 1) as nat);
        set_lines_settles(lines, start, end, kvs, (n - 1) as nat);
        let (before, e) = set_lines(lines, start, end, kvs, (n - 1) as nat);
        set_line_keeps_others(before, start, e, kvs, n - 1);
    }
}

/// The first `n` settings hold in the section from `start` to `end`: the first
/// line that sets the key is the setting.
spec fn settled(
    lines: Seq<Seq<char>>,
    start: int,
    end: int,
    kvs: Seq<Seq<char>>,
    n: int,
) -> bool {
    forall|i: int|
        0 <= i < n ==> {
            let pos = setting_from(lines, key_of(#[trigger] kvs[i]), start + 1, end);
            pos < end && lines[pos] == kvs[i]
        }
}

proof fn setting_is(lines: Seq<Seq<char>>, key: Seq<char>, i: int, end: int, pos: int)
    requires
        0 <= i <= pos < end <= lines.len(),
        sets_key(lines[pos], key),
        forall|j: int| i <= j < pos ==> !sets_key(#[trigger] lines[j], key),
    ensures
        setting_from(lines, key, i, end) == pos,
{
    setting_bounds(lines, key, i, end);
    let p = setting_from(lines, key, i, end);
    if p < pos {
        assert(sets_key(lines[p], key));
    } else if p > pos {
        assert(!sets_key(lines[pos], key));
    }
}

proof fn set_line_settles(
    lines: Seq<Seq<char>>,
    start: int,
    end: int,
    kvs: Seq<Seq<char>>,
    n: int,
)
    requires
        0 <= start < end <= lines.len(),
        0 <= n < kvs.len(),
        compatible(kvs),
        settled(lines, start, end, kvs, n),
    ensures
        settled(
            set_line(lines, start, end, kvs[n]),
            start,
            end_after(lines, start, end, kvs[n]),
            kvs,
            n + 1,
        ),
        end_after(lines, start, end, kvs[n]) <= set_line(lines, start, end, kvs[n]).len(),
        end <= end_after(lines, start, end, kvs[n]),
        set_line(lines, start, end, kvs[n]).take(start + 1) == lines.take(start + 1),
        set_line(lines, start, end, kvs[n]).skip(end_after(lines, start, end, kvs[n]))
            == lines.skip(end),
{
    let kv = kvs[n];
    let key = key_of(kv);
    let pos = setting_from(lines, key, start + 1, end);
    let after = set_line(lines, start, end, kv);
    let e = end_after(lines, start, end, kv);
    setting_bounds(lines, key, start + 1, end);
    let place = if pos < end {
        pos
    } else {
        end
    };
    assert(after[place] == kv);
    assert forall|j: int| start + 1 <= j < place implies after[j] == lines[j] by {}
    assert forall|i: int| 0 <= i < n + 1 implies ({
        let p = setting_from(after, key_of(#[trigger] kvs[i]), start + 1, e);
        p < e && after[p] == kvs[i]
    }) by {
        let k = key_of(kvs[i]);
        if i == n {
            assert(sets_key(kvs[n], key_of(kvs[n])));
            setting_is(after, k, start + 1, e, place);
        } else {
            let q = setting_from(lines, k, start + 1, end);
            setting_bounds(lines, k, start + 1, end);
            assert(q < end && lines[q] == kvs[i]);
            assert(!sets_key(kvs[i], key_of(kvs[n])));
            assert(!sets_key(kvs[n], key_of(kvs[i])));
            assert(q != place);
            assert(after[q] == lines[q]);
            assert forall|j: int| start + 1 <= j < q implies !sets_key(#[trigger] after[j], k) by {
                if j == place {
                    assert(after[j] == kvs[n]);
                } else {
                    assert(after[j] == lines[j]);
                }
            }
            setting_is(after, k, start + 1, e, q);
        }
    }
    assert(after.take(start + 1) =~= lines.take(start + 1));
    assert(after.skip(e) =~= lines.skip(end));
}

proof fn set_lines_settles(
    lines: Seq<Seq<char>>,
    start: int,
    end: int,
    kvs: Seq<Seq<char>>,
    n: nat,
)
    requires
        0 <= start < end <= lines.len(),
        n <= kvs.len(),
        compatible(kvs),
    ensures
        ({
            let (after, e) = set_lines(lines, start, end, kvs, n);
            &&& settled(after, start, e, kvs, n as int)
            &&& end <= e <= after.len()
            &&& after.take(start + 1) == lines.take(start + 1)
            &&& after.skip(e) == lines.skip(end)
        }),
    decreases n,
{
    if n > 0 {
        set_lines_settles(lines, start, end, kvs, (n - 1) as nat);
        let (before, e) = set_lines(lines, start, end, kvs, (n - 1) as nat);
        set_line_settles(before, start, e, kvs, n - 1);
    }
}

proof fn set_lines_again(
    lines: Seq<Seq<char>>,
    start: int,
    end: int,
    kvs: Seq<Seq<char>>,
    n: nat,
)
    requires
        0 <= start < end <= lines.len(),
        n <= kvs.len(),
        settled(lines, start, end, kvs, kvs.len() as int),
    ensures
        set_lines(lines, start, end, kvs, n) == (lines, end),
    decreases n,
{
    if n > 0 {
        set_lines_again(lines, start, end, kvs, (n - 1) as nat);
        let pos = setting_from(lines, key_of(kvs[n - 1]), start + 1, end);
        assert(pos < end && lines[pos] == kvs[n - 1]);
        setting_bounds(lines, key_of(kvs[n - 1]), start + 1, end);
        assert(lines.update(pos, kvs[n - 1]) =~= lines);
    }
}

/// No line of the section after the header begins a section.
spec fn headless(lines: Seq<Seq<char>>, start: int, end: int) -> bool {
    forall|j: int| start < j < end ==> !is_header(#[trigger] lines[j])
}

proof fn set_lines_headless(
    lines: Seq<Seq<char>>,
    start: int,
    end: int,
    kvs: Seq<Seq<char>>,
    n: nat,
)
    requires
        0 <= start < end <= lines.len(),
        n <= kvs.len(),
        compatible(kvs),
        headless(lines, start, end),
    ensures
        headless(
            set_lines(lines, start, end, kvs, n).0,
            start,
            set_lines(lines, start, end, kvs, n).1,
        ),
    decreases n,
{
    if n > 0 {
        set_lines_headless(lines, start, end, kvs, (n - 1) as nat);
        set_lines_settles(lines, start, end, kvs, (n - 1) as nat);
        let (before, e) = set_lines(lines, start, end, kvs, (n - 1) as nat);
        let kv = kvs[n - 1];
        setting_bounds(before, key_of(kv), start + 1, e);
        let pos = setting_from(before, key_of(kv), start + 1, e);
        let after = set_line(before, start, e, kv);
        let f = end_after(before, start, e, kv);
        assert forall|j: int| start < j < f implies !is_header(#[trigger] after[j]) by {
            if pos < e {
                if j != pos {
                    assert(after[j] == before[j]);
                }
            } else if j < e {
                assert(after[j] == before[j]);
            }
        }
    }
}

proof fn section_is(lines: Seq<Seq<char>>, header: Seq<char>, start: int, end: int)
    requires
        0 <= start < end <= lines.len(),
        trimmed(lines[start]) == header,
        forall|j: int| 0 <= j < start ==> trimmed(#[trigger] lines[j]) != header,
        headless(lines, start, end),
        end < lines.len() ==> is_header(lines[end]),
    ensures
        section(lines, header) == Some((start, end)),
{
    header_bounds(lines, header, 0);
    let k = header_from(lines, header, 0);
    assert(k is Some) by {
        if k is None {
            assert(trimmed(lines[start]) != header);
        }
    }
    if k->0 < start {
        assert(trimmed(lines[k->0]) != header);
    } else if k->0 > start {
        assert(trimmed(lines[start]) != header);
    }
    end_bounds(lines, start + 1);
    let e = section_end(lines, start + 1);
    if e < end {
        assert(is_header(lines[e]));
    } else if e > end {
        assert(!is_header(lines[end]));
    }
}

/// Editing a section leaves everything in front of it and behind it as it
/// was, keeps its header and its lines with other keys, in their order, and
/// afterwards the section holds the settings.
pub proof fn upsert_edits_only_the_section(
    lines: Seq<Seq<char>>,
    header: Seq<char>,
    kvs: Seq<Seq<char>>,
)
    requires
        compatible(kvs),
        section(lines, header) is Some,
    ensures
        ({
            let (start, end) = section(lines, header)->0;
            let after = upserted(lines, header, kvs);
            &&& section(after, header) matches Some((s, e)) && s == start && after.take(s + 1)
                == lines.take(start + 1) && after.skip(e) == lines.skip(end) && others(
                after,
                s + 1,
                e,
                kvs,
            ) == others(lines, start + 1, end, kvs)
            &&& forall|i: int|
                0 <= i < kvs.len() ==> exists|p: int|
                    start < p < (section(after, header)->0).1 && #[trigger] after[p]
                        == #[trigger] kvs[i]
        }),
{
    section_bounds(lines, header);
    let (start, end) = section(lines, header)->0;
    set_lines_settles(lines, start, end, kvs, kvs.len());
    set_lines_headless(lines, start, end, kvs, kvs.len());
    set_lines_keep_others(lines, start, end, kvs, kvs.len());
    let (after, e) = set_lines(lines, start, end, kvs, kvs.len());
    assert forall|j: int| 0 <= j <= start implies after[j] == lines[j] by {
        assert(after.take(start + 1)[j] == after[j]);
        assert(lines.take(start + 1)[j] == lines[j]);
    }
    assert forall|j: int| 0 <= j < start implies trimmed(#[trigger] after[j]) != header by {
        assert(after[j] == lines[j]);
    }
    if e < after.len() {
        assert(after.skip(e).len() == lines.skip(end).len());
        assert(after.skip(e)[0] == after[e]);
        assert(lines.skip(end)[0] == lines[end]);
    }
    section_is(after, header, start, e);
    assert forall|i: int| 0 <= i < kvs.len() implies exists|p: int|
        start < p < e && #[trigger] after[p] == #[trigger] kvs[i] by {
        let p = setting_from(after, key_of(kvs[i]), start + 1, e);
        setting_bounds(after, key_of(kvs[i]), start + 1, e);
        assert(p < e && after[p] == kvs[i]);
    }
}

/// A section that is missing is added at the end, after at most one empty line
/// more: everything in front of it is as it was, and it holds the settings, in
/// their order, and nothing else.
pub proof fn upsert_appends_a_missing_section(
    lines: Seq<Seq<char>>,
    header: Seq<char>,
    kvs: Seq<Seq<char>>,
)
    requires
        compatible(kvs),
        trimmed(header) == header,
        header.len() > 0,
        section(lines, header) is None,
    ensures
        ({
            let after = upserted(lines, header, kvs);
            let start = after.len() - kvs.len() - 1;
            &&& section(after, header) == Some((start, after.len() as int))
            &&& after[start] == header
            &&& after.skip(start + 1) == kvs
            &&& after.take(start) == if lines.len() > 0 && !is_blank(lines.last()) {
                lines.push(Seq::empty())
            } else {
                lines
            }
        }),
{
    section_bounds(lines, header);
    let after = with_new_section(lines, header, kvs);
    let spaced = if lines.len() > 0 && !is_blank(lines.last()) {
        lines.push(Seq::empty())
    } else {
        lines
    };
    let start = spaced.len() as int;
    assert(after[start] == header);
    assert(after.take(start) =~= spaced);
    assert(after.skip(start + 1) =~= kvs);
    assert(trimmed(Seq::<char>::empty()).len() == 0) by {
        let none = Seq::<char>::empty();
        assert(trim_start(none) == none);
    }
    assert forall|j: int| 0 <= j < start implies trimmed(#[trigger] after[j]) != header by {
        if j < lines.len() {
            assert(after[j] == lines[j]);
        } else {
            assert(after[j] =~= Seq::<char>::empty());
        }
    }
    assert forall|j: int| start < j < after.len() implies !is_header(#[trigger] after[j]) by {
        assert(after[j] == kvs[j - start - 1]);
    }
    section_is(after, header, start, after.len() as int);
}

/// Putting the same settings in twice is putting them in once.
pub proof fn upsert_is_idempotent(
    lines: Seq<Seq<char>>,
    header: Seq<char>,
    kvs: Seq<Seq<char>>,
)
    requires
        compatible(kvs),
        trimmed(header) == header,
        header.len() > 0,
    ensures
        upserted(upserted(lines, header, kvs), header, kvs) == upserted(lines, header, kvs),
{
    let after = upserted(lines, header, kvs);
    section_bounds(lines, header);
    if let Some((start, end)) = section(lines, header) {
        upsert_edits_only_the_section(lines, header, kvs);
        set_lines_settles(lines, start, end, kvs, kvs.len());
        set_lines_headless(lines, start, end, kvs, kvs.len());
        let (a, e) = set_lines(lines, start, end, kvs, kvs.len());
        assert forall|j: int| 0 <= j <= start implies a[j] == lines[j] by {
            assert(a.take(start + 1)[j] == a[j]);
            assert(lines.take(start + 1)[j] == lines[j]);
        }
        assert forall|j: int| 0 <= j < start implies trimmed(#[trigger] a[j]) != header by {
            assert(a[j] == lines[j]);
        }
        if e < a.len() {
            assert(a.skip(e).len() == lines.skip(end).len());
            assert(a.skip(e)[0] == a[e]);
            assert(lines.skip(end)[0] == lines[end]);
        }
        section_is(a, header, start, e);
        set_lines_again(a, start, e, kvs, kvs.len());
    } else {
        upsert_appends_a_missing_section(lines, header, kvs);
        let start = after.len() - kvs.len() - 1;
        let end = after.len() as int;
        assert forall|i: int| 0 <= i < kvs.len() implies ({
            let p = setting_from(after, key_of(#[trigger] kvs[i]), start + 1, end);
            p < end && after[p] == kvs[i]
        }) by {
            let k = key_of(kvs[i]);
            assert forall|j: int| 0 <= j < kvs.len() implies after[start + 1 + j] == kvs[j] by {
                assert(after.skip(start + 1)[j] == after[start + 1 + j]);
            }
            assert(sets_key(kvs[i], key_of(kvs[i])));
            assert forall|j: int| start + 1 <= j < start + 1 + i implies !sets_key(
                #[trigger] after[j],
                k,
            ) by {
                let other = j - start - 1;
                assert(after[start + 1 + other] == kvs[other]);
                assert(!sets_key(kvs[other], key_of(kvs[i])));
            }
            setting_is(after, k, start + 1, end, start + 1 + i);
        }
        set_lines_again(after, start, end, kvs, kvs.len());
    }
}

/// Settings `key = value` of different keys go into the section of their
/// header and nowhere else: afterwards each stands in that section; the lines
/// outside it, and its lines with other keys, keep their text and order; where
/// it was missing it comes last, after at most one empty line more; and putting
/// them in again changes nothing.
pub proof fn upsert_puts_settings_in_their_section(
    lines: Seq<Seq<char>>,
    header: Seq<char>,
    keys: Seq<Seq<char>>,
    values: Seq<Seq<char>>,
)
    requires
        "["@.is_prefix_of(header),
        "]"@.is_suffix_of(header),
        trimmed(header) == header,
        forall|i: int| 0 <= i < keys.len() ==> is_key(#[trigger] keys[i]),
        forall|i: int, j: int| 0 <= i < j < keys.len() ==> #[trigger] keys[i] != #[trigger] keys[j],
    ensures
        ({
            let kvs = settings(keys, values);
            let after = upserted(lines, header, kvs);
            &&& section(after, header) matches Some((s, e)) && {
                &&& forall|i: int|
                    0 <= i < kvs.len() ==> after.subrange(s + 1, e).contains(#[trigger] kvs[i])
                &&& section(lines, header) matches Some((start, end)) ==> {
                    &&& after.take(s + 1) == lines.take(start + 1)
                    &&& after.skip(e) == lines.skip(end)
                    &&& others(after, s + 1, e, kvs) == others(lines, start + 1, end, kvs)
                }
                &&& section(lines, header) is None ==> {
                    &&& after.take(s) == lines || after.take(s) == lines.push(Seq::empty())
                    &&& after.skip(s) == seq![header] + kvs
                }
            }
            &&& upserted(after, header, kvs) == after
        }),
{
    reveal_strlit("[");
    let kvs = settings(keys, values);
    let after = upserted(lines, header, kvs);
    settings_are_compatible(keys, values);
    upsert_is_idempotent(lines, header, kvs);
    if section(lines, header) is Some {
        upsert_edits_only_the_section(lines, header, kvs);
        section_bounds(lines, header);
        section_bounds(after, header);
        let (s, e) = section(after, header)->0;
        assert forall|i: int| 0 <= i < kvs.len() implies after.subrange(s + 1, e).contains(
            #[trigger] kvs[i],
        ) by {
            let p = choose|p: int| s < p < e && #[trigger] after[p] == kvs[i];
            assert(after.subrange(s + 1, e)[p - s - 1] == kvs[i]);
        }
    } else {
        upsert_appends_a_missing_section(lines, header, kvs);
        let (s, e) = section(after, header)->0;
        assert(after.skip(s) =~= seq![header] + after.skip(s + 1));
        assert forall|i: int| 0 <= i < kvs.len() implies after.subrange(s + 1, e).contains(
            #[trigger] kvs[i],
        ) by {
            assert(after.skip(s + 1)[i] == kvs[i]);
            assert(after.subrange(s + 1, e)[i] == kvs[i]);
        }
    }
}

/// Taking out a section that was added leaves the lines that were there, but
/// for blank lines at the top and for the empty line in front of the section.
pub proof fn removal_undoes_addition(
    lines: Seq<Seq<char>>,
    header: Seq<char>,
    kvs: Seq<Seq<char>>,
)
    requires
        compatible(kvs),
        trimmed(header) == header,
        header.len() > 0,
        section(lines, header) is None,
    ensures
        ({
            let spaced = if lines.len() > 0 && !is_blank(lines.last()) {
                lines.push(Seq::empty())
            } else {
                lines
            };
            without_section(upserted(lines, header, kvs), header) == spaced.skip(
                after_blanks(spaced, 0),
            )
        }),
{
    upsert_appends_a_missing_section(lines, header, kvs);
    let after = upserted(lines, header, kvs);
    let start = after.len() - kvs.len() - 1;
    assert(after.take(start) + after.skip(after.len() as int) =~= after.take(start));
}

/// Taking out the only section of a name leaves none of that name.
pub proof fn removal_removes(lines: Seq<Seq<char>>, header: Seq<char>)
    requires
        header.len() > 0,
        forall|i: int, j: int|
            0 <= i < j < lines.len() && trimmed(#[trigger] lines[i]) == header ==> trimmed(
                #[trigger] lines[j],
            ) != header,
    ensures
        section(without_section(lines, header), header) is None,
{
    section_bounds(lines, header);
    if let Some((start, end)) = section(lines, header) {
        blanks_bounds(lines, end);
        let stop = after_blanks(lines, end);
        let rest = lines.take(start) + lines.skip(stop);
        blanks_bounds(rest, 0);
        let top = after_blanks(rest, 0);
        let out = rest.skip(top);
        assert forall|j: int| 0 <= j < out.len() implies trimmed(#[trigger] out[j]) != header by {
            let k = top + j;
            assert(out[j] == rest[k]);
            if k < start {
                assert(rest[k] == lines[k]);
            } else {
                assert(rest[k] == lines[stop + (k - start)]);
                assert(trimmed(lines[start]) == header);
            }
        }
        section_bounds(out, header);
    }
}

} // verus!
