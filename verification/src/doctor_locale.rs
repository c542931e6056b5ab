//! The parts of the health report on the languages and the skills.

use vstd::prelude::*;
use crate::agent::Agent;
use crate::doctor_checks::Severity;
use crate::doctor_local::{variable, variable_line};
use crate::doctor_plugin::opt_json;
use crate::doctor_report::{blank, Report, ReportView};
use crate::json::{Json, JsonView};
use crate::paths::{join_path, joined_path};
use crate::scan::{
    after_prefix, before_suffix, lines, lines_of, opt_string, strip_prefix, strip_suffix, trim,
    trim_start, trimmed, without_lead,
};
use crate::text::{
    before, cat2, cat3, cat4, cat5, dec, decimal, lex_irreflexive, lex_lt, lex_transitive, same,
    texts,
};

verus! {

/// The language that is used: the first of the three that is set.
pub open spec fn locale_of(
    own: Option<Seq<char>>,
    all: Option<Seq<char>>,
    lang: Option<Seq<char>>,
) -> Option<Seq<char>> {
    if own is Some {
        own
    } else if all is Some {
        all
    } else {
        lang
    }
}

/// What is said of the language that is used.
pub open spec fn locale_view(
    own: Option<Seq<char>>,
    all: Option<Seq<char>>,
    lang: Option<Seq<char>>,
) -> ReportView {
    let r = blank().line(variable_line("CLAWKET_LOCALE"@, own)).line(
        variable_line("LC_ALL"@, all),
    ).line(variable_line("LANG"@, lang));
    match locale_of(own, all, lang) {
        Some(l) => r.note(Severity::Good, "resolved locale: "@ + l),
        None => r.note(
            Severity::Info,
            "no locale set — daemon will use system default (en). Set CLAWKET_LOCALE for explicit control."@,
        ),
    }
}

fn locale(own: &Option<String>, all: &Option<String>, lang: &Option<String>) -> (r: Report)
    ensures
        r@ == locale_view(opt_string(*own), opt_string(*all), opt_string(*lang)),
{
    let r = Report::new().line(variable("CLAWKET_LOCALE", own)).line(
        variable("LC_ALL", all),
    ).line(variable("LANG", lang));
    let used = if own.is_some() {
        own
    } else if all.is_some() {
        all
    } else {
        lang
    };
    match used {
        Some(l) => {
            let s = cat2("resolved locale: ", l.as_str());
            r.note(Severity::Good, s.as_str())
        },
        None => r.note(
            Severity::Info,
            "no locale set — daemon will use system default (en). Set CLAWKET_LOCALE for explicit control.",
        ),
    }
}

/// The text put in front of the first that is larger.
pub open spec fn insorted(v: Seq<Seq<char>>, s: Seq<char>) -> Seq<Seq<char>>
    decreases v.len(),
{
    if v.len() == 0 {
        seq![s]
    } else if lex_lt(s, v[0]) {
        seq![s] + v
    } else {
        seq![v[0]] + insorted(v.skip(1), s)
    }
}

/// The languages that the first `n` file names tell, in order.
pub open spec fn langs_upto(names: Seq<Seq<char>>, n: nat) -> Seq<Seq<char>>
    decreases n,
{
    if n == 0 {
        Seq::empty()
    } else {
        match before_suffix(names[n - 1], ".json"@) {
            Some(stem) => insorted(langs_upto(names, (n - 1) as nat), stem),
            None => langs_upto(names, (n - 1) as nat),
        }
    }
}

/// The position of the first `s`, or -1.
pub open spec fn position(v: Seq<Seq<char>>, s: Seq<char>, i: int) -> int
    decreases v.len() - i,
{
    if i < 0 || i >= v.len() {
        -1
    } else if v[i] == s {
        i
    } else {
        position(v, s, i + 1)
    }
}

/// The list with its first text and the text `s` exchanged, where that is in
/// the list.
pub open spec fn led_by(v: Seq<Seq<char>>, s: Seq<char>) -> Seq<Seq<char>> {
    let p = position(v, s, 0);
    if p < 0 {
        v
    } else {
        v.update(0, v[p]).update(p, v[0])
    }
}

/// The languages that the file names tell: in order, but English first.
pub open spec fn langs_of(names: Seq<Seq<char>>) -> Seq<Seq<char>> {
    led_by(langs_upto(names, names.len()), "en"@)
}

/// Sorted texts.
pub open spec fn in_order(v: Seq<Seq<char>>) -> bool {
    forall|i: int, j: int| 0 <= i < j < v.len() ==> !lex_lt(#[trigger] v[j], #[trigger] v[i])
}

/// The position before which a text goes.
spec fn slot(v: Seq<Seq<char>>, s: Seq<char>, i: int) -> bool {
    &&& 0 <= i <= v.len()
    &&& forall|k: int| 0 <= k < i ==> !lex_lt(s, #[trigger] v[k])
    &&& i < v.len() ==> lex_lt(s, v[i])
}

proof fn insorted_at(v: Seq<Seq<char>>, s: Seq<char>, i: int)
    requires
        slot(v, s, i),
    ensures
        insorted(v, s) == v.insert(i, s),
    decreases v.len(),
{
    if v.len() == 0 {
        assert(v.insert(0, s) =~= seq![s]);
    } else if i == 0 {
        assert(v.insert(0, s) =~= seq![s] + v);
    } else {
        let rest = v.skip(1);
        assert(!lex_lt(s, v[0]));
        assert forall|k: int| 0 <= k < i - 1 implies !lex_lt(s, #[trigger] rest[k]) by {
            assert(rest[k] == v[k + 1]);
        }
        insorted_at(rest, s, i - 1);
        assert(seq![v[0]] + rest.insert(i - 1, s) =~= v.insert(i, s));
    }
}

proof fn slot_exists(v: Seq<Seq<char>>, s: Seq<char>, from: int) -> (i: int)
    requires
        0 <= from <= v.len(),
        forall|k: int| 0 <= k < from ==> !lex_lt(s, #[trigger] v[k]),
    ensures
        slot(v, s, i),
    decreases v.len() - from,
{
    if from == v.len() || lex_lt(s, v[from]) {
        from
    } else {
        slot_exists(v, s, from + 1)
    }
}

proof fn insorted_keeps_order(v: Seq<Seq<char>>, s: Seq<char>)
    requires
        in_order(v),
    ensures
        in_order(insorted(v, s)),
        insorted(v, s).to_multiset() == v.to_multiset().insert(s),
{
    broadcast use vstd::seq_lib::group_to_multiset_ensures;

    let i = slot_exists(v, s, 0);
    insorted_at(v, s, i);
    let w = v.insert(i, s);
    assert forall|a: int, b: int| 0 <= a < b < w.len() implies !lex_lt(
        #[trigger] w[b],
        #[trigger] w[a],
    ) by {
        let a1 = if a < i { a } else { a - 1 };
        let b1 = if b < i { b } else { b - 1 };
        if a == i {
            if lex_lt(v[b1], s) {
                if b1 > i {
                    assert(!lex_lt(v[b1], v[i]));
                    lex_transitive(v[b1], s, v[i]);
                } else {
                    lex_transitive(s, v[i], s);
                    lex_irreflexive(s);
                }
            }
        } else if b == i {
            assert(!lex_lt(s, v[a1]));
        } else {
            assert(!lex_lt(v[b1], v[a1]));
        }
    }
}

/// The languages before English is put first are those of the file names, in
/// order, none lost and none added.
pub proof fn langs_are_sorted(names: Seq<Seq<char>>, n: nat)
    requires
        n <= names.len(),
    ensures
        in_order(langs_upto(names, n)),
        langs_upto(names, n).to_multiset() == stems_upto(names, n).to_multiset(),
    decreases n,
{
    broadcast use vstd::seq_lib::group_to_multiset_ensures;

    if n > 0 {
        langs_are_sorted(names, (n - 1) as nat);
        if let Some(stem) = before_suffix(names[n - 1], ".json"@) {
            insorted_keeps_order(langs_upto(names, (n - 1) as nat), stem);
        }
    }
}

/// The languages that the first `n` file names tell, as they come.
pub open spec fn stems_upto(names: Seq<Seq<char>>, n: nat) -> Seq<Seq<char>>
    decreases n,
{
    if n == 0 {
        Seq::empty()
    } else {
        match before_suffix(names[n - 1], ".json"@) {
            Some(stem) => stems_upto(names, (n - 1) as nat).push(stem),
            None => stems_upto(names, (n - 1) as nat),
        }
    }
}

/// English stands first wherever it is there.
pub proof fn english_leads(names: Seq<Seq<char>>)
    ensures
        langs_upto(names, names.len()).contains("en"@) ==> langs_of(names)[0] == "en"@,
        langs_of(names).len() == langs_upto(names, names.len()).len(),
{
    let v = langs_upto(names, names.len());
    position_found(v, "en"@, 0);
    let p = position(v, "en"@, 0);
    if v.contains("en"@) {
        assert(v.update(0, v[p]).update(p, v[0])[0] == "en"@);
    }
}

proof fn position_found(v: Seq<Seq<char>>, s: Seq<char>, i: int)
    requires
        0 <= i <= v.len(),
    ensures
        -1 <= position(v, s, i) < v.len(),
        position(v, s, i) >= 0 ==> v[position(v, s, i)] == s,
        position(v, s, i) < 0 ==> forall|k: int| i <= k < v.len() ==> v[k] != s,
    decreases v.len() - i,
{
    if i < v.len() && v[i] != s {
        position_found(v, s, i + 1);
    }
}

/// The languages that the file names tell: in order, but English first.
pub fn locale_langs(names: &Vec<String>) -> (r: Vec<String>)
    ensures
        texts(r@) == langs_of(texts(names@)),
{
    let ghost all = texts(names@);
    let mut out: Vec<String> = Vec::new();
    assert(texts(out@) =~= Seq::empty());
    let mut i: usize = 0;
    while i < names.len()
        invariant
            i <= names@.len(),
            all == texts(names@),
            texts(out@) == langs_upto(all, i as nat),
        decreases names@.len() - i,
    {
        assert(all[i as int] == names@[i as int]@);
        if let Some(stem) = strip_suffix(names[i].as_str(), ".json") {
            let ghost v = texts(out@);
            let mut k: usize = 0;
            while k < out.len() && !before(stem.as_str(), out[k].as_str())
                invariant
                    k <= out@.len(),
                    v == texts(out@),
                    forall|m: int| 0 <= m < k ==> !lex_lt(stem@, #[trigger] v[m]),
                decreases out@.len() - k,
            {
                assert(v[k as int] == out@[k as int]@);
                k = k + 1;
            }
            proof {
                if k < out@.len() {
                    assert(v[k as int] == out@[k as int]@);
                }
                insorted_at(v, stem@, k as int);
            }
            let ghost word = stem@;
            out.insert(k, stem);
            assert(texts(out@) =~= v.insert(k as int, word));
        }
        i = i + 1;
    }
    let ghost sorted = texts(out@);
    let mut p: usize = 0;
    while p < out.len() && !same(out[p].as_str(), "en")
        invariant
            p <= out@.len(),
            sorted == texts(out@),
            position(sorted, "en"@, 0) == position(sorted, "en"@, p as int),
        decreases out@.len() - p,
    {
        assert(sorted[p as int] == out@[p as int]@);
        p = p + 1;
    }
    if p < out.len() {
        assert(sorted[p as int] == out@[p as int]@);
        let a = out[0].clone();
        let b = out[p].clone();
        out.set(0, b);
        out.set(p, a);
        assert(texts(out@) =~= led_by(sorted, "en"@));
    }
    out
}

/// How many members the value has, where it is an object.
pub fn key_count(value: Option<&Json>) -> (r: Option<usize>)
    ensures
        match opt_json(value) {
            Some(JsonView::Object(m)) => r is Some && r->0 == m.len(),
            _ => r is None,
        },
{
    match value {
        Some(v) => match v {
            Json::Object(m) => {
                proof {
                    crate::json::object_view(*m);
                }
                Some(m.len())
            },
            _ => None,
        },
        None => None,
    }
}

/// What is found of the language files.
pub struct LocaleFacts {
    pub own: Option<String>,
    pub all: Option<String>,
    pub lang: Option<String>,
    /// The directory with the files.
    pub root: Option<String>,
    /// The languages.
    pub langs: Vec<String>,
    /// How many texts each has, where its file can be read.
    pub counts: Vec<Option<usize>>,
    /// What share of the English texts each lacks, in percent.
    pub missing: Vec<String>,
}

/// How many texts the first `en` from the `i`-th language on has, where that
/// is known.
pub open spec fn baseline(langs: Seq<Seq<char>>, counts: Seq<Option<usize>>, i: int) -> Option<usize>
    decreases langs.len() - i,
{
    if i < 0 || i >= langs.len() {
        None
    } else if langs[i] == "en"@ && counts[i] is Some {
        counts[i]
    } else {
        baseline(langs, counts, i + 1)
    }
}

/// By how much a number differs.
pub open spec fn drift(n: int, base: int) -> Seq<char> {
    if n > base {
        "+"@ + dec((n - base) as nat)
    } else {
        "-"@ + dec((base - n) as nat)
    }
}

/// What is said of one language file.
pub open spec fn file_view(
    r: ReportView,
    lang: Seq<char>,
    count: Option<usize>,
    base: Option<usize>,
    missing: Seq<char>,
) -> ReportView {
    match (count, base) {
        (Some(n), Some(b)) => if n == b {
            r.show(
                Severity::Good,
                lang + ".json: "@ + dec(n as nat) + " keys (0% missing vs en="@ + dec(b as nat)
                    + ")"@,
            )
        } else {
            r.note(
                Severity::Warn,
                lang + ".json: "@ + dec(n as nat) + " keys ("@ + drift(n as int, b as int)
                    + " drift vs en="@ + dec(b as nat) + ", "@ + missing + "% missing)"@,
            )
        },
        (Some(n), None) => r.show(
            Severity::Good,
            lang + ".json: "@ + dec(n as nat) + " keys (no en baseline)"@,
        ),
        (None, _) => r.note(Severity::Warn, lang + ".json: missing or unreadable"@),
    }
}

/// What is said of the first `n` language files.
pub open spec fn files_view(r: ReportView, f: LocaleFacts, n: nat) -> ReportView
    decreases n,
{
    if n == 0 {
        r
    } else {
        file_view(
            files_view(r, f, (n - 1) as nat),
            f.langs@[n - 1]@,
            f.counts@[n - 1],
            baseline(texts(f.langs@), f.counts@, 0),
            f.missing@[n - 1]@,
        )
    }
}

/// What is said of the languages.
pub open spec fn i18n_view(f: LocaleFacts) -> ReportView {
    let r = locale_view(opt_string(f.own), opt_string(f.all), opt_string(f.lang));
    match f.root {
        None => r.note(
            Severity::Info,
            "locale files dir not found — coverage check skipped"@,
        ),
        Some(root) => files_view(r.line("  locale files: "@ + root@), f, f.langs@.len()),
    }
}

fn file_line(
    r: Report,
    lang: &str,
    count: Option<usize>,
    base: Option<usize>,
    missing: &str,
) -> (out: Report)
    ensures
        out@ == file_view(r@, lang@, count, base, missing@),
{
    match count {
        Some(n) => {
            let d = decimal(n as u64);
            match base {
                Some(b) => {
                    let e = decimal(b as u64);
                    if n == b {
                        let s = cat5(
                            lang,
                            ".json: ",
                            d.as_str(),
                            " keys (0% missing vs en=",
                            e.as_str(),
                        );
                        let t = cat2(s.as_str(), ")");
                        r.show(Severity::Good, t.as_str())
                    } else {
                        let by = if n > b {
                            let m = decimal((n - b) as u64);
                            cat2("+", m.as_str())
                        } else {
                            let m = decimal((b - n) as u64);
                            cat2("-", m.as_str())
                        };
                        let s = cat5(lang, ".json: ", d.as_str(), " keys (", by.as_str());
                        let t = cat5(s.as_str(), " drift vs en=", e.as_str(), ", ", missing);
                        let u = cat2(t.as_str(), "% missing)");
                        r.note(Severity::Warn, u.as_str())
                    }
                },
                None => {
                    let s = cat4(lang, ".json: ", d.as_str(), " keys (no en baseline)");
                    r.show(Severity::Good, s.as_str())
                },
            }
        },
        None => {
            let s = cat2(lang, ".json: missing or unreadable");
            r.note(Severity::Warn, s.as_str())
        },
    }
}

/// How many texts English has, where that is known.
pub fn english_count(langs: &Vec<String>, counts: &Vec<Option<usize>>) -> (r: Option<usize>)
    requires
        counts@.len() == langs@.len(),
    ensures
        r == baseline(texts(langs@), counts@, 0),
{
    let ghost all = texts(langs@);
    let mut i: usize = 0;
    while i < langs.len()
        invariant
            i <= langs@.len(),
            counts@.len() == langs@.len(),
            all == texts(langs@),
            baseline(all, counts@, 0) == baseline(all, counts@, i as int),
        decreases langs@.len() - i,
    {
        assert(all[i as int] == langs@[i as int]@);
        if same(langs[i].as_str(), "en") {
            if let Some(n) = counts[i] {
                return Some(n);
            }
        }
        i = i + 1;
    }
    None
}

/// What is said of the languages.
pub fn i18n(f: &LocaleFacts) -> (r: Report)
    requires
        f.counts@.len() == f.langs@.len(),
        f.missing@.len() == f.langs@.len(),
    ensures
        r@ == i18n_view(*f),
{
    let r0 = locale(&f.own, &f.all, &f.lang);
    let root = match &f.root {
        Some(p) => p,
        None => {
            return r0.note(
                Severity::Info,
                "locale files dir not found — coverage check skipped",
            );
        },
    };
    let mut r = r0.line(cat2("  locale files: ", root.as_str()));
    let base = english_count(&f.langs, &f.counts);
    let ghost start = r@;
    let mut i: usize = 0;
    while i < f.langs.len()
        invariant
            i <= f.langs@.len(),
            f.counts@.len() == f.langs@.len(),
            f.missing@.len() == f.langs@.len(),
            base == baseline(texts(f.langs@), f.counts@, 0),
            r@ == files_view(start, *f, i as nat),
        decreases f.langs@.len() - i,
    {
        r = file_line(r, f.langs[i].as_str(), f.counts[i], base, f.missing[i].as_str());
        i = i + 1;
    }
    r
}

/// Whether one of the first `n` lines sets the key to something.
pub open spec fn declares(all: Seq<Seq<char>>, key: Seq<char>, n: nat) -> bool {
    exists|i: int| 0 <= i < n && line_declares(#[trigger] all[i], key)
}

/// Whether the line sets the key to something.
pub open spec fn line_declares(line: Seq<char>, key: Seq<char>) -> bool {
    match after_prefix(trim_start(line), key) {
        Some(rest) => trimmed(rest).len() > 0,
        None => false,
    }
}

fn sets(line: &str, key: &str) -> (r: bool)
    ensures
        r == line_declares(line@, key@),
{
    let t = without_lead(line);
    match strip_prefix(t.as_str(), key) {
        Some(rest) => {
            let v = trim(rest.as_str());
            let none = same(v.as_str(), "");
            proof {
                reveal_strlit("");
                if v@.len() == 0 {
                    assert(v@ =~= ""@);
                }
            }
            !none
        },
        None => false,
    }
}

/// At most twenty.
pub open spec fn twenty_at_most(n: nat) -> nat {
    if n < 20 {
        n
    } else {
        20
    }
}

/// Whether the first twenty lines of a skill's text set the key.
pub open spec fn skill_declares(text: Option<Seq<char>>, key: Seq<char>) -> bool {
    match text {
        Some(s) => declares(lines_of(s), key, twenty_at_most(lines_of(s).len())),
        None => false,
    }
}

/// Whether a skill's text sets its name, and its description. `text` is
/// missing where it cannot be read.
pub fn read_skill_frontmatter(text: Option<&str>) -> (r: (bool, bool))
    ensures
        r.0 == skill_declares(crate::json::opt_text(text), "name:"@),
        r.1 == skill_declares(crate::json::opt_text(text), "description:"@),
{
    let s = match text {
        Some(s) => s,
        None => {
            return (false, false);
        },
    };
    let all = lines(s);
    let ghost views = lines_of(s@);
    let mut name = false;
    let mut description = false;
    let mut i: usize = 0;
    while i < 20 && i < all.len()
        invariant
            i <= 20,
            i <= all@.len(),
            texts(all@) == views,
            name == declares(views, "name:"@, i as nat),
            description == declares(views, "description:"@, i as nat),
        decreases all@.len() - i,
    {
        assert(views[i as int] == all@[i as int]@);
        let has_name = sets(all[i].as_str(), "name:");
        let has_description = sets(all[i].as_str(), "description:");
        proof {
            declares_step(views, "name:"@, i as nat);
            declares_step(views, "description:"@, i as nat);
        }
        if has_name {
            name = true;
        }
        if has_description {
            description = true;
        }
        i = i + 1;
    }
    assert(views.len() == all@.len());
    (name, description)
}

proof fn declares_step(all: Seq<Seq<char>>, key: Seq<char>, n: nat)
    ensures
        declares(all, key, n + 1) == (declares(all, key, n) || line_declares(all[n as int], key)),
{
    if declares(all, key, n) {
        let i = choose|i: int| 0 <= i < n && line_declares(#[trigger] all[i], key);
        assert(line_declares(all[i], key));
    }
    if line_declares(all[n as int], key) {
        assert(0 <= n < n + 1);
    }
}

/// A mark for yes or no.
pub open spec fn tick(b: bool) -> Seq<char> {
    if b {
        "✓"@
    } else {
        "✗"@
    }
}

/// What is said of one skill.
pub open spec fn skill_row(skill: Seq<char>, name_ok: bool, desc_ok: bool) -> Seq<char> {
    skill + ": name="@ + tick(name_ok) + " description="@ + tick(desc_ok)
}

/// What is said of one skill.
pub fn format_skill_frontmatter_row(skill: &str, name_ok: bool, desc_ok: bool) -> (r: String)
    ensures
        r@ == skill_row(skill@, name_ok, desc_ok),
{
    let n = if name_ok {
        "✓"
    } else {
        "✗"
    };
    let d = if desc_ok {
        "✓"
    } else {
        "✗"
    };
    cat5(skill, ": name=", n, " description=", d)
}

/// A skill, and its text where that can be read.
pub struct Skill {
    pub name: String,
    pub text: Option<String>,
}

/// What is found of the skills.
pub struct SkillsFacts {
    pub home: Option<String>,
    /// Whether the directory of the skills is there.
    pub root_there: bool,
    /// Whether the program's own skill has a directory.
    pub own_dir_there: bool,
    /// Whether the program's own skill has a text.
    pub own_there: bool,
    /// The text of the program's own skill, where it can be read.
    pub own_text: Option<String>,
    /// The skills that have a text.
    pub skills: Vec<Skill>,
}

/// The report, with a line on the text of a skill.
pub open spec fn with_skill(r: ReportView, skill: Seq<char>, text: Option<Seq<char>>) -> ReportView {
    let n = skill_declares(text, "name:"@);
    let d = skill_declares(text, "description:"@);
    r.note(
        if n && d {
            Severity::Good
        } else {
            Severity::Warn
        },
        skill_row(skill, n, d),
    )
}

fn add_skill(r: Report, skill: &str, text: &Option<String>) -> (out: Report)
    ensures
        out@ == with_skill(r@, skill@, opt_string(*text)),
{
    let t = crate::json::opt_ref(text);
    let found = read_skill_frontmatter(t);
    let row = format_skill_frontmatter_row(skill, found.0, found.1);
    let sev = if found.0 && found.1 {
        Severity::Good
    } else {
        Severity::Warn
    };
    r.note(sev, row.as_str())
}

/// What is said of the first `n` skills that are not the program's own.
pub open spec fn other_skills_upto(r: ReportView, skills: Seq<Skill>, n: nat) -> ReportView
    decreases n,
{
    if n == 0 {
        r
    } else if skills[n - 1].name@ == "clawket"@ {
        other_skills_upto(r, skills, (n - 1) as nat)
    } else {
        with_skill(
            other_skills_upto(r, skills, (n - 1) as nat),
            skills[n - 1].name@,
            opt_string(skills[n - 1].text),
        )
    }
}

/// What is said of the program's own skill.
pub open spec fn own_skill_view(f: SkillsFacts, root: Seq<char>, a: Agent) -> ReportView {
    let dir = joined_path(root, "clawket"@);
    if f.own_there {
        with_skill(
            blank().note(
                Severity::Good,
                "clawket skill: "@ + joined_path(dir, "SKILL.md"@),
            ),
            "clawket"@,
            opt_string(f.own_text),
        )
    } else if f.own_dir_there {
        blank().note(
            Severity::Warn,
            "clawket skills dir present but SKILL.md missing: "@ + dir,
        )
    } else if f.root_there {
        blank().note(
            Severity::Info,
            "clawket skill not installed under "@ + root + " — install via /plugin install"@,
        )
    } else {
        blank().note(
            Severity::Info,
            "~/"@ + a.dot("/skills/"@) + " not found — plugin skills feature not active"@,
        )
    }
}

/// What is said of the skills.
pub open spec fn skills_view(f: SkillsFacts, a: Agent) -> ReportView {
    match f.home {
        None => blank().note(Severity::Warn, "HOME not set — cannot locate skills dir"@),
        Some(h) => {
            let own = own_skill_view(f, joined_path(h@, a.dot("/skills"@)), a);
            if f.root_there {
                other_skills_upto(own, f.skills@, f.skills@.len())
            } else {
                own
            }
        },
    }
}

/// What is said of the skills.
pub fn skills(f: &SkillsFacts, a: &Agent) -> (r: Report)
    ensures
        r@ == skills_view(*f, *a),
{
    let home = match &f.home {
        Some(h) => h,
        None => {
            return Report::new().note(Severity::Warn, "HOME not set — cannot locate skills dir");
        },
    };
    let rel = a.hidden("/skills");
    let root = join_path(home.as_str(), rel.as_str());
    let dir = join_path(root.as_str(), "clawket");
    let mut r = if f.own_there {
        let file = join_path(dir.as_str(), "SKILL.md");
        let s = cat2("clawket skill: ", file.as_str());
        add_skill(Report::new().note(Severity::Good, s.as_str()), "clawket", &f.own_text)
    } else if f.own_dir_there {
        let s = cat2("clawket skills dir present but SKILL.md missing: ", dir.as_str());
        Report::new().note(Severity::Warn, s.as_str())
    } else if f.root_there {
        let s = cat3(
            "clawket skill not installed under ",
            root.as_str(),
            " — install via /plugin install",
        );
        Report::new().note(Severity::Info, s.as_str())
    } else {
        let place = a.hidden("/skills/");
        let s = cat3("~/", place.as_str(), " not found — plugin skills feature not active");
        Report::new().note(Severity::Info, s.as_str())
    };
    if !f.root_there {
        return r;
    }
    let ghost start = r@;
    let mut i: usize = 0;
    while i < f.skills.len()
        invariant
            i <= f.skills@.len(),
            r@ == other_skills_upto(start, f.skills@, i as nat),
        decreases f.skills@.len() - i,
    {
        if !same(f.skills[i].name.as_str(), "clawket") {
            r = add_skill(r, f.skills[i].name.as_str(), &f.skills[i].text);
        }
        i = i + 1;
    }
    r
}

} // verus!
