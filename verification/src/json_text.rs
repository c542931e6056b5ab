//! JSON values written as compact JSON text.

use vstd::prelude::*;
use crate::json::{array_view, object_view, pairs, views, Json, JsonView, Number, NumberView};
use crate::text::{cat3, dec, dec_int, decimal, decimal_int};

verus! {

/// The hexadecimal digit of `d`, in lower case.
pub open spec fn hex_lower(d: int) -> char {
    if d < 10 {
        crate::text::digit(d)
    } else if d == 10 {
        'a'
    } else if d == 11 {
        'b'
    } else if d == 12 {
        'c'
    } else if d == 13 {
        'd'
    } else if d == 14 {
        'e'
    } else {
        'f'
    }
}

/// One character inside a JSON string: quotes, backslashes and control
/// characters are escaped, all others stand for themselves.
pub open spec fn escaped_char(c: char) -> Seq<char> {
    if c == '"' {
        seq!['\\', '"']
    } else if c == '\\' {
        seq!['\\', '\\']
    } else if c == '\u{8}' {
        seq!['\\', 'b']
    } else if c == '\u{9}' {
        seq!['\\', 't']
    } else if c == '\u{a}' {
        seq!['\\', 'n']
    } else if c == '\u{c}' {
        seq!['\\', 'f']
    } else if c == '\u{d}' {
        seq!['\\', 'r']
    } else if 32 > c as int {
        seq!['\\', 'u', '0', '0', hex_lower(c as int / 16), hex_lower(c as int % 16)]
    } else {
        seq![c]
    }
}

/// The characters inside a JSON string.
pub open spec fn escaped(s: Seq<char>) -> Seq<char>
    decreases s.len(),
{
    if s.len() == 0 {
        Seq::empty()
    } else {
        escaped(s.drop_last()) + escaped_char(s.last())
    }
}

/// A text as a JSON string.
pub open spec fn quoted(s: Seq<char>) -> Seq<char> {
    seq!['"'] + escaped(s) + seq!['"']
}

/// Calls `serde_json::to_string` on the text. What is claimed of it: the
/// result is the text between double quotes, with `"`, `\` and the characters
/// below U+0020 escaped (`\b \t \n \f \r` by letter, the others as `\u00xx`)
/// and every other character as it is.
#[verifier::external_body]
pub(crate) fn quote(s: &str) -> (r: String)
    ensures
        r@ == quoted(s@),
{
    serde_json::to_string(s).unwrap_or_default()
}

/// A number, as it is written.
pub open spec fn number_text(n: NumberView) -> Seq<char> {
    match n {
        NumberView::Integer(i) => dec_int(i),
        NumberView::Decimal(t) => t,
    }
}

/// The value as JSON text without white space.
pub open spec fn compact(j: JsonView) -> Seq<char>
    decreases j, 0nat,
{
    match j {
        JsonView::Null => "null"@,
        JsonView::Bool(b) => if b {
            "true"@
        } else {
            "false"@
        },
        JsonView::Number(n) => number_text(n),
        JsonView::Text(s) => quoted(s),
        JsonView::Array(a) => "["@ + compact_items(a, a.len()) + "]"@,
        JsonView::Object(m) => "{"@ + compact_members(m, m.len()) + "}"@,
    }
}

/// The first `n` items, with commas between them.
pub open spec fn compact_items(a: Seq<JsonView>, n: nat) -> Seq<char>
    decreases a, n,
{
    if n == 0 || n > a.len() {
        Seq::empty()
    } else if n == 1 {
        compact(a[0])
    } else {
        compact_items(a, (n - 1) as nat) + ","@ + compact(a[n - 1])
    }
}

/// The first `n` members, with commas between them.
pub open spec fn compact_members(m: Seq<(Seq<char>, JsonView)>, n: nat) -> Seq<char>
    decreases m, n,
{
    if n == 0 || n > m.len() {
        Seq::empty()
    } else if n == 1 {
        quoted(m[0].0) + ":"@ + compact(m[0].1)
    } else {
        compact_members(m, (n - 1) as nat) + ","@ + (quoted(m[n - 1].0) + ":"@ + compact(
            m[n - 1].1,
        ))
    }
}

/// A number, as it is written.
pub fn number_to_text(n: &Number) -> (r: String)
    ensures
        r@ == number_text(n@),
{
    match n {
        Number::PosInt(k) => decimal(*k),
        Number::NegInt(k) => decimal_int(*k),
        Number::Decimal(t) => t.clone(),
    }
}

/// The value as JSON text without white space.
pub fn to_text(j: &Json) -> (r: String)
    ensures
        r@ == compact(j@),
    decreases j,
{
    match j {
        Json::Null => "null".to_owned(),
        Json::Bool(b) => if *b {
            "true".to_owned()
        } else {
            "false".to_owned()
        },
        Json::Number(n) => number_to_text(n),
        Json::Text(s) => quote(s.as_str()),
        Json::Array(v) => {
            let mut items = String::new();
            let mut i: usize = 0;
            while i < v.len()
                invariant
                    i <= v@.len(),
                    j == Json::Array(*v),
                    items@ == compact_items(views(v@), i as nat),
                decreases v@.len() - i,
            {
                assert(decreases_to!(j => j->Array_0@[i as int]));
                let item = to_text(&v[i]);
                if i > 0 {
                    items.append(",");
                }
                items.append(item.as_str());
                assert(views(v@)[i as int] == v@[i as int]@);
                assert(i == 0 ==> items@ =~= item@);
                i = i + 1;
            }
            proof {
                array_view(*v);
            }
            cat3("[", items.as_str(), "]")
        },
        Json::Object(m) => {
            let mut items = String::new();
            let mut i: usize = 0;
            while i < m.len()
                invariant
                    i <= m@.len(),
                    j == Json::Object(*m),
                    items@ == compact_members(pairs(m@), i as nat),
                decreases m@.len() - i,
            {
                assert(decreases_to!(j => j->Object_0@[i as int].value));
                let value = to_text(&m[i].value);
                let key = quote(m[i].key.as_str());
                let item = cat3(key.as_str(), ":", value.as_str());
                if i > 0 {
                    items.append(",");
                }
                items.append(item.as_str());
                assert(pairs(m@)[i as int] == (m@[i as int].key@, m@[i as int].value@));
                assert(i == 0 ==> items@ =~= item@);
                i = i + 1;
            }
            proof {
                object_view(*m);
            }
            cat3("{", items.as_str(), "}")
        },
    }
}

/// A text without control characters, and so on one line.
pub open spec fn is_plain(s: Seq<char>) -> bool {
    forall|i: int| 0 <= i < s.len() ==> 32 <= (#[trigger] s[i]) as int
}

/// The numbers in the value are written without control characters.
pub open spec fn plain_numbers(j: JsonView) -> bool
    decreases j,
{
    match j {
        JsonView::Number(NumberView::Decimal(t)) => is_plain(t),
        JsonView::Array(a) => forall|i: int|
            0 <= i < a.len() ==> plain_numbers(#[trigger] a[i]),
        JsonView::Object(m) => forall|i: int|
            0 <= i < m.len() ==> plain_numbers((#[trigger] m[i]).1),
        _ => true,
    }
}

proof fn plain_dec(n: nat)
    ensures
        is_plain(dec(n)),
    decreases n,
{
    if n >= 10 {
        plain_dec(n / 10);
    }
}

proof fn plain_quoted(s: Seq<char>)
    ensures
        is_plain(escaped(s)),
        is_plain(quoted(s)),
    decreases s.len(),
{
    if s.len() > 0 {
        plain_quoted(s.drop_last());
    }
}

proof fn plain_items(a: Seq<JsonView>, n: nat)
    requires
        forall|i: int| 0 <= i < a.len() ==> plain_numbers(#[trigger] a[i]),
    ensures
        is_plain(compact_items(a, n)),
    decreases a, n,
{
    reveal_strlit(",");
    if 0 < n <= a.len() {
        json_text_is_one_line(a[n - 1]);
        if n > 1 {
            plain_items(a, (n - 1) as nat);
        }
    }
}

proof fn plain_members(m: Seq<(Seq<char>, JsonView)>, n: nat)
    requires
        forall|i: int| 0 <= i < m.len() ==> plain_numbers((#[trigger] m[i]).1),
    ensures
        is_plain(compact_members(m, n)),
    decreases m, n,
{
    reveal_strlit(",");
    reveal_strlit(":");
    if 0 < n <= m.len() {
        plain_quoted(m[n - 1].0);
        json_text_is_one_line(m[n - 1].1);
        if n > 1 {
            plain_members(m, (n - 1) as nat);
        }
    }
}

/// JSON text without white space holds no control character, whatever the
/// texts in it hold: it stands on one line.
pub proof fn json_text_is_one_line(j: JsonView)
    requires
        plain_numbers(j),
    ensures
        is_plain(compact(j)),
    decreases j, 0nat,
{
    match j {
        JsonView::Null => {
            reveal_strlit("null");
        },
        JsonView::Bool(_) => {
            reveal_strlit("true");
            reveal_strlit("false");
        },
        JsonView::Number(NumberView::Integer(i)) => {
            reveal_strlit("-");
            if i >= 0 {
                plain_dec(i as nat);
            } else {
                plain_dec((-i) as nat);
            }
        },
        JsonView::Number(NumberView::Decimal(_)) => {},
        JsonView::Text(s) => {
            plain_quoted(s);
        },
        JsonView::Array(a) => {
            reveal_strlit("[");
            reveal_strlit("]");
            plain_items(a, a.len());
        },
        JsonView::Object(m) => {
            reveal_strlit("{");
            reveal_strlit("}");
            plain_members(m, m.len());
        },
    }
}

} // verus!
