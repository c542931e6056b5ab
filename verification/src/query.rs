//! Query strings and percent-encoding.

use vstd::prelude::*;
use crate::scan::{after_prefix, first_index, opt_string, split_on};
use crate::text::{cat2, cat3, chars_of, join, joined, joined_upto, texts, texts_push};

verus! {

/// A character in a query: `%`, the space, `&`, `=` and `#` are replaced by
/// `%` and their hexadecimal code, all others stand for themselves.
pub open spec fn urlenc_char(c: char) -> Seq<char> {
    if c == '%' {
        "%25"@
    } else if c == ' ' {
        "%20"@
    } else if c == '&' {
        "%26"@
    } else if c == '=' {
        "%3D"@
    } else if c == '#' {
        "%23"@
    } else {
        seq![c]
    }
}

/// A text in a query, character by character.
pub open spec fn url_encoded(s: Seq<char>) -> Seq<char>
    decreases s.len(),
{
    if s.len() == 0 {
        Seq::empty()
    } else {
        urlenc_char(s[0]) + url_encoded(s.skip(1))
    }
}

/// A text in a query.
pub fn urlenc(s: &str) -> (r: String)
    ensures
        r@ == url_encoded(s@),
{
    let v = chars_of(s);
    let mut out = String::new();
    let mut i: usize = 0;
    assert(v@.skip(0) =~= v@);
    assert(out@ + url_encoded(v@) =~= url_encoded(v@));
    while i < v.len()
        invariant
            v@ == s@,
            i <= v@.len(),
            out@ + url_encoded(v@.skip(i as int)) == url_encoded(s@),
        decreases v@.len() - i,
    {
        let c = v[i];
        let ghost before = out@;
        if c == '%' {
            out.append("%25");
        } else if c == ' ' {
            out.append("%20");
        } else if c == '&' {
            out.append("%26");
        } else if c == '=' {
            out.append("%3D");
        } else if c == '#' {
            out.append("%23");
        } else {
            out.push(c);
        }
        proof {
            assert(out@ =~= before + urlenc_char(c));
            assert(v@.skip(i as int).skip(1) =~= v@.skip(i + 1));
            let rest = url_encoded(v@.skip(i + 1));
            assert(before + (urlenc_char(c) + rest) =~= (before + urlenc_char(c)) + rest);
        }
        i = i + 1;
    }
    proof {
        assert(v@.skip(i as int).len() == 0);
        assert(out@ + Seq::<char>::empty() =~= out@);
    }
    out
}

/// The character that two hexadecimal digits stand for in a query.
pub open spec fn unhex(a: char, b: char) -> char {
    if a == '2' && b == '5' {
        '%'
    } else if a == '2' && b == '0' {
        ' '
    } else if a == '2' && b == '6' {
        '&'
    } else if a == '3' && b == 'D' {
        '='
    } else {
        '#'
    }
}

/// The text that a query text stands for.
pub open spec fn url_decoded(t: Seq<char>) -> Seq<char>
    decreases t.len(),
{
    if t.len() == 0 {
        Seq::empty()
    } else if t[0] == '%' && t.len() >= 3 {
        seq![unhex(t[1], t[2])] + url_decoded(t.skip(3))
    } else {
        seq![t[0]] + url_decoded(t.skip(1))
    }
}

proof fn urlenc_literals()
    ensures
        "%25"@ == seq!['%', '2', '5'],
        "%20"@ == seq!['%', '2', '0'],
        "%26"@ == seq!['%', '2', '6'],
        "%3D"@ == seq!['%', '3', 'D'],
        "%23"@ == seq!['%', '2', '3'],
{
    reveal_strlit("%25");
    reveal_strlit("%20");
    reveal_strlit("%26");
    reveal_strlit("%3D");
    reveal_strlit("%23");
    assert("%25"@ =~= seq!['%', '2', '5']);
    assert("%20"@ =~= seq!['%', '2', '0']);
    assert("%26"@ =~= seq!['%', '2', '6']);
    assert("%3D"@ =~= seq!['%', '3', 'D']);
    assert("%23"@ =~= seq!['%', '2', '3']);
}

/// Encoding loses nothing: every text is read back from its encoded form.
pub proof fn urlenc_is_reversible(s: Seq<char>)
    ensures
        url_decoded(url_encoded(s)) == s,
    decreases s.len(),
{
    if s.len() == 0 {
        assert(url_encoded(s) =~= Seq::empty());
        assert(s =~= Seq::empty());
    } else {
        urlenc_literals();
        urlenc_is_reversible(s.skip(1));
        let e = url_encoded(s);
        let rest = url_encoded(s.skip(1));
        assert(e == urlenc_char(s[0]) + rest);
        if urlenc_char(s[0]).len() == 3 {
            assert(e[0] == '%' && e.len() >= 3);
            assert(e[1] == urlenc_char(s[0])[1]);
            assert(e[2] == urlenc_char(s[0])[2]);
            assert(e.skip(3) =~= rest);
        } else {
            assert(e[0] == s[0]);
            assert(e.skip(1) =~= rest);
        }
        assert(seq![s[0]] + s.skip(1) =~= s);
    }
}

/// An encoded text holds none of the characters that separate a query.
pub proof fn urlenc_has_no_separators(s: Seq<char>)
    ensures
        forall|i: int|
            0 <= i < url_encoded(s).len() ==> ({
                let c = #[trigger] url_encoded(s)[i];
                c != ' ' && c != '&' && c != '=' && c != '#'
            }),
    decreases s.len(),
{
    if s.len() > 0 {
        urlenc_literals();
        urlenc_has_no_separators(s.skip(1));
        let e = url_encoded(s);
        let first = urlenc_char(s[0]);
        let rest = url_encoded(s.skip(1));
        assert forall|i: int| 0 <= i < e.len() implies ({
            let c = #[trigger] e[i];
            c != ' ' && c != '&' && c != '=' && c != '#'
        }) by {
            if i < first.len() {
                assert(e[i] == first[i]);
            } else {
                assert(e[i] == rest[i - first.len()]);
            }
        }
    }
}

/// The parameters with a value among the first `n`, each as `key=value`.
pub open spec fn query_pairs(params: Seq<(Seq<char>, Option<Seq<char>>)>, n: nat) -> Seq<Seq<char>>
    decreases n,
{
    if n == 0 {
        Seq::empty()
    } else {
        let before = query_pairs(params, (n - 1) as nat);
        match params[n - 1].1 {
            Some(v) => before.push(params[n - 1].0 + "="@ + url_encoded(v)),
            None => before,
        }
    }
}

/// The query of the parameters that have a value; nothing where none has.
pub open spec fn query(params: Seq<(Seq<char>, Option<Seq<char>>)>) -> Seq<char> {
    let pairs = query_pairs(params, params.len());
    if pairs.len() == 0 {
        Seq::empty()
    } else {
        "?"@ + joined(pairs, "&"@)
    }
}

/// What a list of parameters holds.
pub open spec fn params_view(params: Seq<(&str, &Option<String>)>) -> Seq<
    (Seq<char>, Option<Seq<char>>),
> {
    Seq::new(params.len(), |i: int| (params[i].0@, opt_string(*params[i].1)))
}

/// The query of the parameters that have a value; nothing where none has.
pub fn query_string(params: &[(&str, &Option<String>)]) -> (r: String)
    ensures
        r@ == query(params_view(params@)),
{
    let mut pairs: Vec<String> = Vec::new();
    let mut i: usize = 0;
    assert(texts(pairs@) =~= Seq::empty());
    while i < params.len()
        invariant
            i <= params@.len(),
            texts(pairs@) == query_pairs(params_view(params@), i as nat),
        decreases params@.len() - i,
    {
        let (key, value) = params[i];
        match value {
            Some(v) => {
                let enc = urlenc(v.as_str());
                let pair = cat3(key, "=", enc.as_str());
                proof {
                    texts_push(pairs@, pair);
                }
                pairs.push(pair);
            },
            None => {},
        }
        i = i + 1;
    }
    if pairs.len() == 0 {
        assert(texts(pairs@).len() == 0);
        String::new()
    } else {
        assert(texts(pairs@).len() > 0);
        let all = join(&pairs, "&");
        cat2("?", all.as_str())
    }
}

/// The query with one more parameter, where that has a value.
pub open spec fn with_param(q: Seq<char>, key: Seq<char>, value: Option<Seq<char>>) -> Seq<char> {
    match value {
        Some(v) => if q.len() == 0 {
            "?"@ + key + "="@ + url_encoded(v)
        } else {
            q + "&"@ + key + "="@ + url_encoded(v)
        },
        None => q,
    }
}

/// The query with one more parameter, where that has a value.
pub fn add_param(q: String, key: &str, value: Option<&str>) -> (r: String)
    ensures
        r@ == with_param(q@, key@, crate::json::opt_text(value)),
{
    match value {
        Some(v) => {
            let enc = urlenc(v);
            let mut out = if q.as_str().is_empty() {
                "?".to_owned()
            } else {
                cat2(q.as_str(), "&")
            };
            out.append(key);
            out.append("=");
            out.append(enc.as_str());
            out
        },
        None => q,
    }
}

proof fn joined_prefix(a: Seq<Seq<char>>, b: Seq<Seq<char>>, sep: Seq<char>, n: nat)
    requires
        n <= a.len(),
        n <= b.len(),
        forall|i: int| 0 <= i < n ==> a[i] == b[i],
    ensures
        joined_upto(a, sep, n) == joined_upto(b, sep, n),
    decreases n,
{
    if n > 1 {
        joined_prefix(a, b, sep, (n - 1) as nat);
    }
}

proof fn pairs_prefix(
    a: Seq<(Seq<char>, Option<Seq<char>>)>,
    b: Seq<(Seq<char>, Option<Seq<char>>)>,
    n: nat,
)
    requires
        n <= a.len(),
        n <= b.len(),
        forall|i: int| 0 <= i < n ==> a[i] == b[i],
    ensures
        query_pairs(a, n) == query_pairs(b, n),
    decreases n,
{
    if n > 0 {
        pairs_prefix(a, b, (n - 1) as nat);
    }
}

proof fn one_pair(pairs: Seq<Seq<char>>, p: Seq<char>, sep: Seq<char>)
    ensures
        joined(pairs.push(p), sep) == if pairs.len() == 0 {
            p
        } else {
            joined(pairs, sep) + sep + p
        },
{
    if pairs.len() > 0 {
        joined_prefix(pairs.push(p), pairs, sep, pairs.len());
    }
}

/// A parameter more at the end of the list adds its pair to the query and
/// changes nothing in front of it.
pub proof fn query_grows(
    params: Seq<(Seq<char>, Option<Seq<char>>)>,
    key: Seq<char>,
    value: Option<Seq<char>>,
)
    ensures
        query(params.push((key, value))) == with_param(query(params), key, value),
{
    let more = params.push((key, value));
    pairs_prefix(more, params, params.len());
    let before = query_pairs(params, params.len());
    reveal_strlit("?");
    match value {
        Some(v) => {
            let p = key + "="@ + url_encoded(v);
            one_pair(before, p, "&"@);
            assert(more.last() == (key, value));
            assert(query_pairs(more, more.len()) == before.push(p));
            if before.len() == 0 {
                assert("?"@ + p =~= "?"@ + key + "="@ + url_encoded(v));
            } else {
                assert("?"@ + (joined(before, "&"@) + "&"@ + p) =~= ("?"@ + joined(before, "&"@))
                    + "&"@ + key + "="@ + url_encoded(v));
            }
        },
        None => {
            assert(query_pairs(more, more.len()) == before);
        },
    }
}

proof fn no_pairs(params: Seq<(Seq<char>, Option<Seq<char>>)>, n: nat)
    requires
        n <= params.len(),
    ensures
        query_pairs(params, n).len() == 0 <==> forall|i: int|
            0 <= i < n ==> (#[trigger] params[i]).1 is None,
    decreases n,
{
    if n > 0 {
        no_pairs(params, (n - 1) as nat);
    }
}

/// There is no query exactly where no parameter has a value.
pub proof fn query_empty_iff_no_value(params: Seq<(Seq<char>, Option<Seq<char>>)>)
    ensures
        query(params).len() == 0 <==> forall|i: int|
            0 <= i < params.len() ==> (#[trigger] params[i]).1 is None,
{
    no_pairs(params, params.len());
    reveal_strlit("?");
}

/// A byte that stands for itself in a URL component: letters, digits and
/// `-`, `_`, `.`, `~`.
pub open spec fn is_unreserved(b: u8) -> bool {
    65 <= b <= 90 || 97 <= b <= 122 || 48 <= b <= 57 || b == 45 || b == 95 || b == 46 || b == 126
}

/// The hexadecimal digit of `d`, in upper case.
pub open spec fn hex_upper(d: int) -> char {
    if d < 10 {
        crate::text::digit(d)
    } else if d == 10 {
        'A'
    } else if d == 11 {
        'B'
    } else if d == 12 {
        'C'
    } else if d == 13 {
        'D'
    } else if d == 14 {
        'E'
    } else {
        'F'
    }
}

/// A byte in a URL component.
pub open spec fn percent_byte(b: u8) -> Seq<char> {
    if is_unreserved(b) {
        seq![b as char]
    } else {
        seq!['%', hex_upper(b as int / 16), hex_upper(b as int % 16)]
    }
}

/// Bytes in a URL component.
pub open spec fn percent_bytes(bytes: Seq<u8>) -> Seq<char>
    decreases bytes.len(),
{
    if bytes.len() == 0 {
        Seq::empty()
    } else {
        percent_bytes(bytes.drop_last()) + percent_byte(bytes.last())
    }
}

/// A text in a URL component: its UTF-8 bytes, of which all but the
/// unreserved ones are written as `%` and two hexadecimal digits.
pub open spec fn percent_encoded(s: Seq<char>) -> Seq<char> {
    percent_bytes(vstd::utf8::encode_utf8(s))
}

fn hex_digit_upper(d: u8) -> (r: char)
    requires
        d < 16,
    ensures
        r == hex_upper(d as int),
{
    match d {
        10 => 'A',
        11 => 'B',
        12 => 'C',
        13 => 'D',
        14 => 'E',
        15 => 'F',
        _ => crate::text::digit_char(d as u64),
    }
}

/// A text in a URL component.
pub fn urlencoding(value: &str) -> (r: String)
    ensures
        r@ == percent_encoded(value@),
{
    let bytes = value.as_bytes();
    let mut out = String::new();
    let mut i: usize = 0;
    assert(bytes@.take(0) =~= Seq::empty());
    while i < bytes.len()
        invariant
            i <= bytes@.len(),
            out@ == percent_bytes(bytes@.take(i as int)),
        decreases bytes@.len() - i,
    {
        let b = bytes[i];
        let ghost before = out@;
        if (65 <= b && b <= 90) || (97 <= b && b <= 122) || (48 <= b && b <= 57) || b == 45 || b
            == 95 || b == 46 || b == 126 {
            out.push(b as char);
        } else {
            out.push('%');
            out.push(hex_digit_upper(b / 16));
            out.push(hex_digit_upper(b % 16));
        }
        proof {
            assert(out@ =~= before + percent_byte(b));
            assert(bytes@.take(i + 1).drop_last() =~= bytes@.take(i as int));
            assert(bytes@.take(i + 1).last() == b);
        }
        i = i + 1;
    }
    assert(bytes@.take(i as int) =~= bytes@);
    out
}

/// The number that a hexadecimal digit stands for.
pub open spec fn unhex_digit(c: char) -> int {
    if '0' <= c <= '9' {
        c as int - '0' as int
    } else {
        c as int - 'A' as int + 10
    }
}

/// The bytes that a URL component stands for.
pub open spec fn percent_decoded(t: Seq<char>) -> Seq<u8>
    decreases t.len(),
{
    if t.len() == 0 {
        Seq::empty()
    } else if t[0] == '%' && t.len() >= 3 {
        seq![(unhex_digit(t[1]) * 16 + unhex_digit(t[2])) as u8] + percent_decoded(t.skip(3))
    } else {
        seq![t[0] as u8] + percent_decoded(t.skip(1))
    }
}

proof fn percent_bytes_front(bytes: Seq<u8>)
    requires
        bytes.len() > 0,
    ensures
        percent_bytes(bytes) == percent_byte(bytes[0]) + percent_bytes(bytes.skip(1)),
    decreases bytes.len(),
{
    if bytes.len() == 1 {
        assert(bytes.drop_last() =~= Seq::empty());
        assert(bytes.skip(1) =~= Seq::empty());
        assert(percent_bytes(bytes.drop_last()) =~= Seq::empty());
        assert(percent_bytes(bytes.skip(1)) =~= Seq::empty());
        assert(percent_bytes(bytes) =~= percent_byte(bytes[0]) + percent_bytes(bytes.skip(1)));
    } else {
        let front = bytes.drop_last();
        percent_bytes_front(front);
        assert(front.skip(1) =~= bytes.skip(1).drop_last());
        assert(bytes.skip(1).last() == bytes.last());
        let a = percent_byte(bytes[0]);
        let b = percent_bytes(front.skip(1));
        let c = percent_byte(bytes.last());
        assert((a + b) + c =~= a + (b + c));
    }
}

proof fn percent_byte_is_reversible(b: u8)
    ensures
        is_unreserved(b) ==> percent_byte(b).len() == 1 && percent_byte(b)[0] != '%'
            && percent_byte(b)[0] as u8 == b,
        !is_unreserved(b) ==> percent_byte(b).len() == 3 && percent_byte(b)[0] == '%'
            && unhex_digit(percent_byte(b)[1]) * 16 + unhex_digit(percent_byte(b)[2]) == b,
{
}

proof fn percent_bytes_are_reversible(bytes: Seq<u8>)
    ensures
        percent_decoded(percent_bytes(bytes)) == bytes,
    decreases bytes.len(),
{
    if bytes.len() == 0 {
        assert(percent_bytes(bytes) =~= Seq::empty());
        assert(bytes =~= Seq::empty());
    } else {
        percent_bytes_front(bytes);
        percent_bytes_are_reversible(bytes.skip(1));
        percent_byte_is_reversible(bytes[0]);
        let e = percent_bytes(bytes);
        let first = percent_byte(bytes[0]);
        let rest = percent_bytes(bytes.skip(1));
        if is_unreserved(bytes[0]) {
            assert(e[0] == first[0]);
            assert(e.skip(1) =~= rest);
        } else {
            assert(e[0] == first[0] && e[1] == first[1] && e[2] == first[2]);
            assert(e.skip(3) =~= rest);
        }
        assert(seq![bytes[0]] + bytes.skip(1) =~= bytes);
    }
}

/// Encoding loses nothing: the text is read back from its encoded form.
pub proof fn urlencoding_is_reversible(s: Seq<char>)
    ensures
        vstd::utf8::decode_utf8(percent_decoded(percent_encoded(s))) == s,
{
    percent_bytes_are_reversible(vstd::utf8::encode_utf8(s));
    vstd::utf8::encode_utf8_decode_utf8(s);
}

/// A reserved character is escaped by the hexadecimal digits of its code.
pub proof fn escapes_are_codes(c: char)
    requires
        c == '%' || c == ' ' || c == '&' || c == '=' || c == '#',
    ensures
        urlenc_char(c).len() == 3,
        urlenc_char(c)[0] == '%',
        hex_value(urlenc_char(c)[1]) * 16 + hex_value(urlenc_char(c)[2]) == c as int,
{
    urlenc_literals();
}

/// What a hexadecimal digit counts for.
pub open spec fn hex_value(d: char) -> int {
    if '0' <= d <= '9' {
        d as int - '0' as int
    } else {
        d as int - 'A' as int + 10
    }
}

/// What is asked of: the path in front of the query.
pub open spec fn resource(path: Seq<char>) -> Seq<char> {
    path.take(first_index(path, '?'))
}

/// The value of a pair `name=value`, where it has that name.
pub open spec fn pair_value(pair: Seq<char>, name: Seq<char>) -> Option<Seq<char>> {
    match after_prefix(pair, name + "="@) {
        Some(v) => Some(url_decoded(v)),
        None => None,
    }
}

/// The value of the first of the pairs that has the name.
pub open spec fn value_among(pairs: Seq<Seq<char>>, name: Seq<char>) -> Option<Seq<char>>
    decreases pairs.len(),
{
    if pairs.len() == 0 {
        None
    } else {
        match value_among(pairs.drop_last(), name) {
            Some(v) => Some(v),
            None => pair_value(pairs.last(), name),
        }
    }
}

/// The value of a parameter in the query of a path, as a server reads it.
pub open spec fn asked_for(path: Seq<char>, name: Seq<char>) -> Option<Seq<char>> {
    let i = first_index(path, '?');
    if i < path.len() {
        value_among(split_on(path.skip(i + 1), '&'), name)
    } else {
        None
    }
}

/// A name that a parameter can have.
pub open spec fn is_name(name: Seq<char>) -> bool {
    !name.contains('=') && !name.contains('&') && !name.contains('?')
}

pub(crate) proof fn first_index_at(s: Seq<char>, c: char, i: int)
    requires
        0 <= i < s.len(),
        s[i] == c,
        forall|j: int| 0 <= j < i ==> s[j] != c,
    ensures
        first_index(s, c) == i,
    decreases i,
{
    if i > 0 {
        assert(s[0] != c);
        assert forall|j: int| 0 <= j < i - 1 implies s.skip(1)[j] != c by {
            assert(s.skip(1)[j] == s[j + 1]);
        }
        first_index_at(s.skip(1), c, i - 1);
    }
}

pub(crate) proof fn first_index_none(s: Seq<char>, c: char)
    requires
        !s.contains(c),
    ensures
        first_index(s, c) == s.len(),
    decreases s.len(),
{
    if s.len() > 0 {
        assert(s[0] != c);
        assert forall|j: int| 0 <= j < s.skip(1).len() implies s.skip(1)[j] != c by {
            assert(s.skip(1)[j] == s[j + 1]);
        }
        first_index_none(s.skip(1), c);
    }
}

pub(crate) proof fn first_index_facts(s: Seq<char>, c: char)
    ensures
        0 <= first_index(s, c) <= s.len(),
        forall|j: int| 0 <= j < first_index(s, c) ==> s[j] != c,
        first_index(s, c) < s.len() ==> s[first_index(s, c)] == c,
    decreases s.len(),
{
    if s.len() > 0 && s[0] != c {
        first_index_facts(s.skip(1), c);
        let k = first_index(s.skip(1), c);
        assert forall|j: int| 0 <= j < first_index(s, c) implies s[j] != c by {
            if j > 0 {
                assert(s.skip(1)[j - 1] == s[j]);
            }
        }
        if k < s.skip(1).len() {
            assert(s.skip(1)[k] == s[k + 1]);
        }
    }
}

proof fn split_on_grows(s: Seq<char>, c: char, t: Seq<char>)
    requires
        !t.contains(c),
    ensures
        split_on(s + seq![c] + t, c) == split_on(s, c).push(t),
        split_on(t, c) == seq![t],
    decreases s.len(),
{
    first_index_none(t, c);
    first_index_facts(s, c);
    let whole = s + seq![c] + t;
    let i = first_index(s, c);
    if i < s.len() {
        assert forall|j: int| 0 <= j < i implies whole[j] != c by {
            assert(whole[j] == s[j]);
        }
        first_index_at(whole, c, i);
        split_on_grows(s.skip(i + 1), c, t);
        assert(split_on(whole, c) == seq![whole.take(i)] + split_on(whole.skip(i + 1), c));
        assert(whole.take(i) =~= s.take(i));
        assert(whole.skip(i + 1) =~= s.skip(i + 1) + seq![c] + t);
        assert(seq![s.take(i)] + split_on(s.skip(i + 1), c).push(t) =~= (seq![s.take(i)] + split_on(
            s.skip(i + 1),
            c,
        )).push(t));
    } else {
        assert forall|j: int| 0 <= j < s.len() implies whole[j] != c by {
            assert(whole[j] == s[j]);
        }
        first_index_at(whole, c, s.len() as int);
        let n = s.len() as int;
        assert(split_on(whole, c) == seq![whole.take(n)] + split_on(whole.skip(n + 1), c));
        assert(whole.take(n) =~= s);
        assert(whole.skip(n + 1) =~= t);
        assert(split_on(t, c) == seq![t]);
        assert(seq![s] + seq![t] =~= seq![s].push(t));
    }
}

proof fn pair_reads(key: Seq<char>, v: Seq<char>, name: Seq<char>)
    requires
        is_name(key),
        is_name(name),
    ensures
        pair_value(key + "="@ + url_encoded(v), name) == if name == key {
            Some(v)
        } else {
            None
        },
        !(key + "="@ + url_encoded(v)).contains('&'),
{
    reveal_strlit("=");
    urlenc_is_reversible(v);
    urlenc_has_no_separators(v);
    let enc = url_encoded(v);
    let pair = key + "="@ + enc;
    let front = name + "="@;
    let k = key.len() as int;
    let n = name.len() as int;
    assert(pair[k] == '=');
    assert(front[n] == '=');
    if name == key {
        assert(pair.take(front.len() as int) =~= front);
        assert(front.is_prefix_of(pair));
        assert(pair.skip(front.len() as int) =~= enc);
    } else if front.is_prefix_of(pair) {
        assert forall|j: int| 0 <= j <= n implies front[j] == pair[j] by {}
        if n < k {
            assert(pair[n] == key[n]);
            assert(key.contains('='));
        } else if n > k {
            assert(front[k] == name[k]);
            assert(name.contains('='));
        } else {
            assert forall|j: int| 0 <= j < n implies name[j] == key[j] by {
                assert(front[j] == pair[j]);
            }
            assert(name =~= key);
        }
    }
    assert forall|j: int| 0 <= j < pair.len() implies pair[j] != '&' by {
        if j < k {
            assert(pair[j] == key[j]);
        } else if j > k {
            assert(pair[j] == enc[j - k - 1]);
        }
    }
}

/// A path of a resource with a query.
pub open spec fn is_query_of(base: Seq<char>, q: Seq<char>) -> bool {
    !base.contains('?') && (q.len() > 0 ==> q[0] == '?')
}

/// A path without a query asks for nothing, of the resource that it is.
pub proof fn no_query_asks_nothing(base: Seq<char>)
    requires
        !base.contains('?'),
    ensures
        resource(base) == base,
        forall|name: Seq<char>| #[trigger] asked_for(base, name) is None,
        resource(base + Seq::<char>::empty()) == base,
        forall|name: Seq<char>| #[trigger] asked_for(base + Seq::<char>::empty(), name) is None,
        is_query_of(base, Seq::empty()),
{
    first_index_none(base, '?');
    assert(base.take(base.len() as int) =~= base);
    assert(base + Seq::<char>::empty() =~= base);
}

/// A parameter more is read back under its own name, and changes nothing that
/// was asked for before; without a value nothing is asked for.
pub proof fn param_is_read_back(
    base: Seq<char>,
    q: Seq<char>,
    key: Seq<char>,
    value: Option<Seq<char>>,
)
    requires
        is_query_of(base, q),
        is_name(key),
    ensures
        is_query_of(base, with_param(q, key, value)),
        resource(base + with_param(q, key, value)) == base,
        forall|name: Seq<char>|
            is_name(name) ==> #[trigger] asked_for(base + with_param(q, key, value), name) == (if asked_for(
                base + q,
                name,
            ) is None && name == key {
                value
            } else {
                asked_for(base + q, name)
            }),
{
    let more = with_param(q, key, value);
    let path = base + more;
    reveal_strlit("?");
    reveal_strlit("&");
    if q.len() == 0 {
        no_query_asks_nothing(base);
        assert(base + q =~= base);
    }
    if more.len() > 0 {
        assert(more[0] == '?');
        assert(path[base.len() as int] == '?');
        assert forall|j: int| 0 <= j < base.len() implies path[j] != '?' by {
            assert(path[j] == base[j]);
        }
        first_index_at(path, '?', base.len() as int);
        assert(path.take(base.len() as int) =~= base);
        assert(path.skip(base.len() as int + 1) =~= more.skip(1));
    } else {
        no_query_asks_nothing(base);
        assert(path =~= base);
    }
    if let Some(v) = value {
        let pair = key + "="@ + url_encoded(v);
        pair_reads(key, v, key);
        if q.len() == 0 {
            assert(more.skip(1) =~= pair);
            split_on_grows(Seq::empty(), '&', pair);
            assert forall|name: Seq<char>| is_name(name) implies #[trigger] asked_for(path, name)
                == (if asked_for(base + q, name) is None && name == key {
                value
            } else {
                asked_for(base + q, name)
            }) by {
                pair_reads(key, v, name);
                let one = seq![pair];
                assert(one.drop_last() =~= Seq::empty());
                assert(value_among(one.drop_last(), name) is None);
            }
        } else {
            let old = base + q;
            assert(old[base.len() as int] == '?');
            assert forall|j: int| 0 <= j < base.len() implies old[j] != '?' by {
                assert(old[j] == base[j]);
            }
            first_index_at(old, '?', base.len() as int);
            assert(old.skip(base.len() as int + 1) =~= q.skip(1));
            assert(more.skip(1) =~= q.skip(1) + seq!['&'] + pair);
            split_on_grows(q.skip(1), '&', pair);
            let before = split_on(q.skip(1), '&');
            assert forall|name: Seq<char>| is_name(name) implies #[trigger] asked_for(path, name)
                == (if asked_for(base + q, name) is None && name == key {
                value
            } else {
                asked_for(base + q, name)
            }) by {
                pair_reads(key, v, name);
                assert(before.push(pair).drop_last() =~= before);
            }
        }
    }
}

} // verus!
