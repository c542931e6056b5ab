//! Values printed for people: the table, the YAML and the JSON form.

use vstd::prelude::*;
use crate::json::{array_view, member, object_view, pairs, views, Json, JsonView, Member};
use crate::json_text::{compact, to_text};
use crate::text::{
    cat2, cat3, cat4, chars_of, join, joined, repeat, repeated, same, text_between, texts,
    texts_push,
};

verus! {

/// The value without the members that are null, at any depth. Nulls inside
/// lists stay.
pub open spec fn without_nulls(j: JsonView) -> JsonView
    decreases j, 0nat,
{
    match j {
        JsonView::Array(a) => JsonView::Array(
            Seq::new(
                a.len(),
                |i: int|
                    if 0 <= i < a.len() {
                        without_nulls(a[i])
                    } else {
                        JsonView::Null
                    },
            ),
        ),
        JsonView::Object(m) => JsonView::Object(kept_members(m, m.len())),
        other => other,
    }
}

/// Of the first `n` members those that are not null, each without nulls.
pub open spec fn kept_members(m: Seq<(Seq<char>, JsonView)>, n: nat) -> Seq<(Seq<char>, JsonView)>
    decreases m, n,
{
    if n == 0 || n > m.len() {
        Seq::empty()
    } else if m[n - 1].1 is Null {
        kept_members(m, (n - 1) as nat)
    } else {
        kept_members(m, (n - 1) as nat).push((m[n - 1].0, without_nulls(m[n - 1].1)))
    }
}

/// The value without the members that are null, at any depth.
pub fn strip_nulls(val: &Json) -> (r: Json)
    ensures
        r@ == without_nulls(val@),
    decreases val,
{
    match val {
        Json::Object(m) => {
            let mut out: Vec<Member> = Vec::new();
            let mut i: usize = 0;
            assert(pairs(out@) =~= Seq::empty());
            while i < m.len()
                invariant
                    i <= m@.len(),
                    val == Json::Object(*m),
                    pairs(out@) == kept_members(pairs(m@), i as nat),
                decreases m@.len() - i,
            {
                assert(decreases_to!(val => val->Object_0@[i as int].value));
                assert(pairs(m@)[i as int] == (m@[i as int].key@, m@[i as int].value@));
                if !m[i].value.is_null() {
                    let value = strip_nulls(&m[i].value);
                    let item = member(m[i].key.as_str(), value);
                    let ghost before = out@;
                    out.push(item);
                    assert(pairs(out@) =~= pairs(before).push((item.key@, item.value@)));
                }
                i = i + 1;
            }
            proof {
                object_view(*m);
                object_view(out);
            }
            Json::Object(out)
        },
        Json::Array(v) => {
            let mut out: Vec<Json> = Vec::new();
            let mut i: usize = 0;
            let ghost done = without_nulls(val@);
            proof {
                array_view(*v);
            }
            while i < v.len()
                invariant
                    i <= v@.len(),
                    val == Json::Array(*v),
                    out@.len() == i,
                    val@ == JsonView::Array(views(v@)),
                    done == without_nulls(val@),
                    forall|k: int| 0 <= k < i ==> (#[trigger] out@[k])@ == done->Array_0[k],
                decreases v@.len() - i,
            {
                assert(decreases_to!(val => val->Array_0@[i as int]));
                let item = strip_nulls(&v[i]);
                out.push(item);
                i = i + 1;
            }
            proof {
                array_view(out);
                assert(views(out@) =~= done->Array_0);
            }
            Json::Array(out)
        },
        other => other.copy(),
    }
}

/// No object in the value has a member that is null.
pub open spec fn null_free(j: JsonView) -> bool
    decreases j,
{
    match j {
        JsonView::Array(a) => forall|i: int| 0 <= i < a.len() ==> null_free(#[trigger] a[i]),
        JsonView::Object(m) => forall|i: int|
            0 <= i < m.len() ==> !((#[trigger] m[i]).1 is Null) && null_free(m[i].1),
        _ => true,
    }
}

proof fn kept_members_facts(m: Seq<(Seq<char>, JsonView)>, n: nat)
    requires
        n <= m.len(),
    ensures
        forall|i: int|
            0 <= i < kept_members(m, n).len() ==> !((#[trigger] kept_members(m, n)[i]).1 is Null)
                && null_free(kept_members(m, n)[i].1),
    decreases m, n,
{
    if n > 0 {
        kept_members_facts(m, (n - 1) as nat);
        stripped_is_null_free(m[n - 1].1);
    }
}

/// Nothing null is left as a member of an object.
pub proof fn stripped_is_null_free(j: JsonView)
    ensures
        null_free(without_nulls(j)),
    decreases j, 0nat,
{
    match j {
        JsonView::Array(a) => {
            assert forall|i: int| 0 <= i < a.len() implies null_free(without_nulls(a[i])) by {
                stripped_is_null_free(a[i]);
            }
        },
        JsonView::Object(m) => {
            kept_members_facts(m, m.len());
        },
        _ => {},
    }
}

proof fn kept_members_stay(m: Seq<(Seq<char>, JsonView)>, n: nat)
    requires
        n <= m.len(),
        forall|i: int| 0 <= i < n ==> !((#[trigger] m[i]).1 is Null) && null_free(m[i].1),
    ensures
        kept_members(m, n) == m.take(n as int),
    decreases m, n,
{
    if n > 0 {
        kept_members_stay(m, (n - 1) as nat);
        null_free_stays(m[n - 1].1);
        assert(m.take(n as int) =~= m.take(n - 1).push(m[n - 1]));
    } else {
        assert(m.take(0) =~= Seq::empty());
    }
}

/// A value without nulls to strip stays as it is.
pub proof fn null_free_stays(j: JsonView)
    requires
        null_free(j),
    ensures
        without_nulls(j) == j,
    decreases j, 0nat,
{
    match j {
        JsonView::Array(a) => {
            assert forall|i: int| 0 <= i < a.len() implies without_nulls(a[i]) == a[i] by {
                null_free_stays(a[i]);
            }
            assert(without_nulls(j)->Array_0 =~= a);
        },
        JsonView::Object(m) => {
            kept_members_stay(m, m.len());
            assert(m.take(m.len() as int) =~= m);
        },
        _ => {},
    }
}

/// Stripping twice is stripping once.
pub proof fn stripping_is_idempotent(j: JsonView)
    ensures
        without_nulls(without_nulls(j)) == without_nulls(j),
{
    stripped_is_null_free(j);
    null_free_stays(without_nulls(j));
}

/// A text cut to `max` characters: where it is longer, the last three of them
/// are dots.
pub open spec fn clipped(s: Seq<char>, max: int) -> Seq<char> {
    if s.len() > max {
        s.take(max - 3) + "..."@
    } else {
        s
    }
}

fn clip(s: &str, max: usize) -> (r: String)
    requires
        max >= 3,
    ensures
        r@ == clipped(s@, max as int),
{
    let v = chars_of(s);
    if v.len() > max {
        let cut = text_between(&v, 0, max - 3);
        cat2(cut.as_str(), "...")
    } else {
        s.to_owned()
    }
}

/// A value as plain text: nothing for null, a text as it is, anything else
/// as JSON.
pub open spec fn plain(j: JsonView) -> Seq<char> {
    match j {
        JsonView::Null => Seq::empty(),
        JsonView::Text(s) => s,
        other => compact(other),
    }
}

fn plain_text(j: &Json) -> (r: String)
    ensures
        r@ == plain(j@),
{
    match j {
        Json::Null => String::new(),
        Json::Text(s) => s.clone(),
        _ => to_text(j),
    }
}

/// The columns that a character takes: one in ASCII, else two.
pub open spec fn char_width(c: char) -> int {
    if 128 > c as u32 {
        1
    } else {
        2
    }
}

/// The columns that a text takes.
pub open spec fn display_width(s: Seq<char>) -> int
    decreases s.len(),
{
    if s.len() == 0 {
        0
    } else {
        char_width(s[0]) + display_width(s.skip(1))
    }
}

/// A text takes at most as many columns as its UTF-8 form has bytes.
proof fn width_within_bytes(s: Seq<char>)
    ensures
        0 <= display_width(s) <= vstd::utf8::encode_utf8(s).len(),
    decreases s.len(),
{
    if s.len() > 0 {
        width_within_bytes(s.skip(1));
        assert(s.skip(1) =~= s.drop_first());
        let first = vstd::utf8::encode_scalar(s[0] as u32);
        assert(vstd::utf8::encode_utf8(s) == first + vstd::utf8::encode_utf8(s.drop_first()));
        assert(first.len() >= char_width(s[0]));
    }
}

fn width_of(s: &str) -> (r: usize)
    ensures
        r == display_width(s@),
{
    let bytes = s.as_bytes();
    let limit: usize = bytes.len();
    let v = chars_of(s);
    let mut w: usize = 0;
    let mut i: usize = 0;
    proof {
        width_within_bytes(s@);
        assert(v@.skip(0) =~= s@);
    }
    while i < v.len()
        invariant
            i <= v@.len(),
            w + display_width(v@.skip(i as int)) == display_width(s@),
            display_width(s@) <= limit,
        decreases v@.len() - i,
    {
        assert(v@.skip(i as int).skip(1) =~= v@.skip(i + 1));
        proof {
            width_within_bytes(v@.skip(i + 1));
        }
        let c = v[i];
        assert(v@.skip(i as int)[0] == c);
        w = w + if 128 > c as u32 {
            1
        } else {
            2
        };
        i = i + 1;
    }
    w
}

/// The text, filled up with spaces to `width` columns.
pub open spec fn padded(s: Seq<char>, width: int) -> Seq<char> {
    if display_width(s) >= width {
        s
    } else {
        s + repeated(" "@, (width - display_width(s)) as nat)
    }
}

fn pad_to_width(s: &str, target: usize) -> (r: String)
    ensures
        r@ == padded(s@, target as int),
{
    let w = width_of(s);
    if w >= target {
        s.to_owned()
    } else {
        let fill = repeat(" ", target - w);
        cat2(s, fill.as_str())
    }
}

/// Members too long for a column.
pub open spec fn is_long_field(key: Seq<char>) -> bool {
    key == "body"@ || key == "content"@ || key == "depends_on"@
}

/// The columns of a table: the keys among the first `n` members, without the
/// long fields.
pub open spec fn columns_upto(m: Seq<(Seq<char>, JsonView)>, n: nat) -> Seq<Seq<char>>
    decreases n,
{
    if n == 0 {
        Seq::empty()
    } else if is_long_field(m[n - 1].0) {
        columns_upto(m, (n - 1) as nat)
    } else {
        columns_upto(m, (n - 1) as nat).push(m[n - 1].0)
    }
}

/// What stands in the row of `item` under `key`.
pub open spec fn cell(item: JsonView, key: Seq<char>) -> Seq<char> {
    match item.get(key) {
        Some(v) => clipped(plain(v), 50),
        None => Seq::empty(),
    }
}

/// The width of the column of `key`: that of the widest among its header and
/// its first `n` cells.
pub open spec fn column_width(items: Seq<JsonView>, key: Seq<char>, n: nat) -> int
    decreases n,
{
    if n == 0 {
        display_width(key)
    } else {
        let w = display_width(cell(items[n - 1], key));
        let before = column_width(items, key, (n - 1) as nat);
        if w > before {
            w
        } else {
            before
        }
    }
}

/// The rule above, below and under the header of a table.
pub open spec fn rule(items: Seq<JsonView>, keys: Seq<Seq<char>>) -> Seq<char> {
    "+"@ + joined(
        Seq::new(
            keys.len(),
            |c: int| repeated("-"@, column_width(items, keys[c], items.len()) as nat) + "--"@,
        ),
        "+"@,
    ) + "+"@
}

/// A row of a table, from its cells.
pub open spec fn row(items: Seq<JsonView>, keys: Seq<Seq<char>>, cells: Seq<Seq<char>>) -> Seq<
    char,
> {
    "| "@ + joined(
        Seq::new(
            keys.len(),
            |c: int| padded(cells[c], column_width(items, keys[c], items.len())),
        ),
        " | "@,
    ) + " |"@
}

/// The cells of an item.
pub open spec fn cells(item: JsonView, keys: Seq<Seq<char>>) -> Seq<Seq<char>> {
    Seq::new(keys.len(), |c: int| cell(item, keys[c]))
}

/// The table of a list of objects.
pub open spec fn table(items: Seq<JsonView>, keys: Seq<Seq<char>>) -> Seq<Seq<char>> {
    seq![rule(items, keys), row(items, keys, keys), rule(items, keys)] + Seq::new(
        items.len(),
        |r: int| row(items, keys, cells(items[r], keys)),
    ) + seq![rule(items, keys)]
}

/// The lines of a value in table form: a table for a list of objects, whose
/// first item gives the columns; one line for each member of an object;
/// nothing for a list that begins with something else; JSON for the rest.
pub open spec fn table_lines(j: JsonView) -> Seq<Seq<char>> {
    match j {
        JsonView::Array(a) => if a.len() == 0 {
            seq![compact(j)]
        } else {
            match a[0] {
                JsonView::Object(m) => table(a, columns_upto(m, m.len())),
                _ => Seq::empty(),
            }
        },
        JsonView::Object(m) => Seq::new(
            m.len(),
            |i: int| m[i].0 + ": "@ + clipped(plain(m[i].1), 80),
        ),
        _ => seq![compact(j)],
    }
}

fn columns(m: &Vec<Member>) -> (r: Vec<String>)
    ensures
        texts(r@) == columns_upto(pairs(m@), m@.len()),
{
    let mut out: Vec<String> = Vec::new();
    let mut i: usize = 0;
    assert(texts(out@) =~= Seq::empty());
    while i < m.len()
        invariant
            i <= m@.len(),
            texts(out@) == columns_upto(pairs(m@), i as nat),
        decreases m@.len() - i,
    {
        let key = m[i].key.as_str();
        assert(pairs(m@)[i as int].0 == key@);
        if !(same(key, "body") || same(key, "content") || same(key, "depends_on")) {
            let item = key.to_owned();
            proof {
                texts_push(out@, item);
            }
            out.push(item);
        }
        i = i + 1;
    }
    out
}

fn cell_text(item: &Json, key: &str) -> (r: String)
    ensures
        r@ == cell(item@, key@),
{
    match item.get(key) {
        Some(v) => {
            let s = plain_text(v);
            clip(s.as_str(), 50)
        },
        None => String::new(),
    }
}

fn width_of_column(items: &Vec<Json>, key: &str) -> (r: usize)
    ensures
        r == column_width(views(items@), key@, items@.len()),
{
    let mut w = width_of(key);
    let mut i: usize = 0;
    while i < items.len()
        invariant
            i <= items@.len(),
            w == column_width(views(items@), key@, i as nat),
        decreases items@.len() - i,
    {
        let c = cell_text(&items[i], key);
        assert(views(items@)[i as int] == items@[i as int]@);
        let cw = width_of(c.as_str());
        if cw > w {
            w = cw;
        }
        i = i + 1;
    }
    w
}

fn rule_line(items: &Vec<Json>, keys: &Vec<String>, widths: &Vec<usize>) -> (r: String)
    requires
        widths@.len() == keys@.len(),
        forall|c: int|
            0 <= c < keys@.len() ==> #[trigger] widths@[c] == column_width(
                views(items@),
                keys@[c]@,
                items@.len(),
            ),
    ensures
        r@ == rule(views(items@), texts(keys@)),
{
    let mut parts: Vec<String> = Vec::new();
    let mut c: usize = 0;
    while c < widths.len()
        invariant
            c <= widths@.len(),
            widths@.len() == keys@.len(),
            parts@.len() == c,
            forall|k: int|
                0 <= k < c ==> (#[trigger] parts@[k])@ == repeated("-"@, widths@[k] as nat)
                    + "--"@,
        decreases widths@.len() - c,
    {
        let dashes = repeat("-", widths[c]);
        parts.push(cat2(dashes.as_str(), "--"));
        c = c + 1;
    }
    let inner = join(&parts, "+");
    proof {
        let items = views(items@);
        let keys = texts(keys@);
        assert(texts(parts@) =~= Seq::new(
            keys.len(),
            |c: int| repeated("-"@, column_width(items, keys[c], items.len()) as nat) + "--"@,
        ));
    }
    cat3("+", inner.as_str(), "+")
}

fn row_line(items: &Vec<Json>, keys: &Vec<String>, widths: &Vec<usize>, cells: &Vec<String>) -> (r:
    String)
    requires
        widths@.len() == keys@.len(),
        cells@.len() == keys@.len(),
        forall|c: int|
            0 <= c < keys@.len() ==> #[trigger] widths@[c] == column_width(
                views(items@),
                keys@[c]@,
                items@.len(),
            ),
    ensures
        r@ == row(views(items@), texts(keys@), texts(cells@)),
{
    let mut parts: Vec<String> = Vec::new();
    let mut c: usize = 0;
    while c < widths.len()
        invariant
            c <= widths@.len(),
            widths@.len() == keys@.len(),
            cells@.len() == keys@.len(),
            parts@.len() == c,
            forall|k: int|
                0 <= k < c ==> (#[trigger] parts@[k])@ == padded(cells@[k]@, widths@[k] as int),
        decreases widths@.len() - c,
    {
        parts.push(pad_to_width(cells[c].as_str(), widths[c]));
        c = c + 1;
    }
    let inner = join(&parts, " | ");
    proof {
        let items = views(items@);
        let keys = texts(keys@);
        let cells = texts(cells@);
        assert(texts(parts@) =~= Seq::new(
            keys.len(),
            |c: int| padded(cells[c], column_width(items, keys[c], items.len())),
        ));
    }
    cat3("| ", inner.as_str(), " |")
}

fn cells_of(item: &Json, keys: &Vec<String>) -> (r: Vec<String>)
    ensures
        texts(r@) == cells(item@, texts(keys@)),
{
    let mut out: Vec<String> = Vec::new();
    let mut c: usize = 0;
    while c < keys.len()
        invariant
            c <= keys@.len(),
            out@.len() == c,
            forall|k: int| 0 <= k < c ==> (#[trigger] out@[k])@ == cell(item@, keys@[k]@),
        decreases keys@.len() - c,
    {
        out.push(cell_text(item, keys[c].as_str()));
        c = c + 1;
    }
    assert(texts(out@) =~= cells(item@, texts(keys@)));
    out
}

fn table_of(items: &Vec<Json>, keys: &Vec<String>) -> (r: Vec<String>)
    ensures
        texts(r@) == table(views(items@), texts(keys@)),
{
    let mut widths: Vec<usize> = Vec::new();
    let mut c: usize = 0;
    while c < keys.len()
        invariant
            c <= keys@.len(),
            widths@.len() == c,
            forall|k: int|
                0 <= k < c ==> #[trigger] widths@[k] == column_width(
                    views(items@),
                    keys@[k]@,
                    items@.len(),
                ),
        decreases keys@.len() - c,
    {
        widths.push(width_of_column(items, keys[c].as_str()));
        c = c + 1;
    }
    let mut out: Vec<String> = Vec::new();
    let sep = rule_line(items, keys, &widths);
    out.push(sep.clone());
    out.push(row_line(items, keys, &widths, keys));
    out.push(sep.clone());
    let mut r: usize = 0;
    let ghost vi = views(items@);
    let ghost tk = texts(keys@);
    while r < items.len()
        invariant
            r <= items@.len(),
            widths@.len() == keys@.len(),
            forall|k: int|
                0 <= k < keys@.len() ==> #[trigger] widths@[k] == column_width(
                    views(items@),
                    keys@[k]@,
                    items@.len(),
                ),
            vi == views(items@),
            tk == texts(keys@),
            out@.len() == r + 3,
            out@[0]@ == rule(vi, tk),
            out@[1]@ == row(vi, tk, tk),
            out@[2]@ == rule(vi, tk),
            forall|k: int|
                3 <= k < r + 3 ==> (#[trigger] out@[k])@ == row(vi, tk, cells(vi[k - 3], tk)),
        decreases items@.len() - r,
    {
        let row_cells = cells_of(&items[r], keys);
        assert(vi[r as int] == items@[r as int]@);
        assert(texts(row_cells@).len() == keys@.len());
        out.push(row_line(items, keys, &widths, &row_cells));
        r = r + 1;
    }
    out.push(sep);
    assert(texts(out@) =~= table(vi, tk));
    out
}

/// The lines of a value in table form.
pub fn print_table(val: &Json) -> (r: Vec<String>)
    ensures
        texts(r@) == table_lines(val@),
{
    let mut out: Vec<String> = Vec::new();
    match val {
        Json::Array(arr) => {
            proof {
                array_view(*arr);
            }
            if arr.len() > 0 {
                assert(views(arr@)[0] == arr@[0]@);
                if let Json::Object(first) = &arr[0] {
                    proof {
                        object_view(*first);
                    }
                    let keys = columns(first);
                    return table_of(arr, &keys);
                }
                assert(texts(out@) =~= Seq::empty());
                return out;
            }
        },
        Json::Object(obj) => {
            proof {
                object_view(*obj);
            }
            let mut i: usize = 0;
            while i < obj.len()
                invariant
                    i <= obj@.len(),
                    out@.len() == i,
                    forall|k: int|
                        0 <= k < i ==> (#[trigger] out@[k])@ == pairs(obj@)[k].0 + ": "@ + clipped(
                            plain(pairs(obj@)[k].1),
                            80,
                        ),
                decreases obj@.len() - i,
            {
                let s = plain_text(&obj[i].value);
                let cut = clip(s.as_str(), 80);
                out.push(cat3(obj[i].key.as_str(), ": ", cut.as_str()));
                i = i + 1;
            }
            assert(texts(out@) =~= table_lines(val@));
            return out;
        },
        _ => {},
    }
    out.push(to_text(val));
    assert(texts(out@) =~= seq![compact(val@)]);
    out
}

/// The value in YAML form, indented by `pad`.
pub open spec fn yaml(j: JsonView, pad: Seq<char>) -> Seq<char>
    decreases j, 0nat,
{
    match j {
        JsonView::Text(s) => pad + s + "\n"@,
        JsonView::Array(a) => yaml_items(a, pad, a.len()),
        JsonView::Object(m) => yaml_members(m, pad, m.len()),
        scalar => pad + compact(scalar) + "\n"@,
    }
}

/// The first `n` items of a list in YAML form. Objects are indented below
/// their dash, anything else stands behind it as JSON.
pub open spec fn yaml_items(a: Seq<JsonView>, pad: Seq<char>, n: nat) -> Seq<char>
    decreases a, n,
{
    if n == 0 || n > a.len() {
        Seq::empty()
    } else {
        let item = a[n - 1];
        yaml_items(a, pad, (n - 1) as nat) + (if item is Object {
            pad + "- \n"@ + yaml(item, pad + "  "@)
        } else {
            pad + "- "@ + compact(item) + "\n"@
        })
    }
}

/// A value that stands on the line of its key.
pub open spec fn yaml_scalar(j: JsonView) -> Seq<char> {
    match j {
        JsonView::Text(s) => s,
        other => compact(other),
    }
}

/// The first `n` members of an object in YAML form. Lists and objects are
/// indented below their key.
pub open spec fn yaml_members(m: Seq<(Seq<char>, JsonView)>, pad: Seq<char>, n: nat) -> Seq<char>
    decreases m, n,
{
    if n == 0 || n > m.len() {
        Seq::empty()
    } else {
        let key = m[n - 1].0;
        let value = m[n - 1].1;
        yaml_members(m, pad, (n - 1) as nat) + (if value is Object || value is Array {
            pad + key + ":\n"@ + yaml(value, pad + "  "@)
        } else {
            pad + key + ": "@ + yaml_scalar(value) + "\n"@
        })
    }
}

/// The value in YAML form, indented by `pad`.
pub fn print_yaml(val: &Json, pad: &str) -> (r: String)
    ensures
        r@ == yaml(val@, pad@),
    decreases val,
{
    match val {
        Json::Text(s) => cat3(pad, s.as_str(), "\n"),
        Json::Array(arr) => {
            let mut out = String::new();
            let deeper = cat2(pad, "  ");
            let mut i: usize = 0;
            while i < arr.len()
                invariant
                    i <= arr@.len(),
                    val == Json::Array(*arr),
                    deeper@ == pad@ + "  "@,
                    out@ == yaml_items(views(arr@), pad@, i as nat),
                decreases arr@.len() - i,
            {
                assert(decreases_to!(val => val->Array_0@[i as int]));
                assert(views(arr@)[i as int] == arr@[i as int]@);
                let is_object = match &arr[i] {
                    Json::Object(_) => true,
                    _ => false,
                };
                let part = if is_object {
                    let inner = print_yaml(&arr[i], deeper.as_str());
                    cat3(pad, "- \n", inner.as_str())
                } else {
                    let inner = to_text(&arr[i]);
                    cat4(pad, "- ", inner.as_str(), "\n")
                };
                out.append(part.as_str());
                i = i + 1;
            }
            proof {
                array_view(*arr);
            }
            out
        },
        Json::Object(obj) => {
            let mut out = String::new();
            let deeper = cat2(pad, "  ");
            let mut i: usize = 0;
            while i < obj.len()
                invariant
                    i <= obj@.len(),
                    val == Json::Object(*obj),
                    deeper@ == pad@ + "  "@,
                    out@ == yaml_members(pairs(obj@), pad@, i as nat),
                decreases obj@.len() - i,
            {
                assert(decreases_to!(val => val->Object_0@[i as int].value));
                assert(pairs(obj@)[i as int] == (obj@[i as int].key@, obj@[i as int].value@));
                let nested = match &obj[i].value {
                    Json::Object(_) => true,
                    Json::Array(_) => true,
                    _ => false,
                };
                let part = if nested {
                    let inner = print_yaml(&obj[i].value, deeper.as_str());
                    cat4(pad, obj[i].key.as_str(), ":\n", inner.as_str())
                } else {
                    let inner = match &obj[i].value {
                        Json::Text(s) => s.clone(),
                        other => to_text(other),
                    };
                    crate::text::cat5(pad, obj[i].key.as_str(), ": ", inner.as_str(), "\n")
                };
                out.append(part.as_str());
                i = i + 1;
            }
            proof {
                object_view(*obj);
            }
            out
        },
        scalar => {
            let s = to_text(scalar);
            cat3(pad, s.as_str(), "\n")
        },
    }
}

/// The form in which values are printed.
pub enum Format {
    Json,
    Table,
    Yaml,
}

/// The form that a `--format` value asks for; only `json`, `table` and `yaml`
/// name one.
pub open spec fn format_named(name: Seq<char>) -> Option<Format> {
    if name == "table"@ {
        Some(Format::Table)
    } else if name == "yaml"@ {
        Some(Format::Yaml)
    } else if name == "json"@ {
        Some(Format::Json)
    } else {
        None
    }
}

/// The text printed for a value in a form.
pub open spec fn printed(j: JsonView, format: Format) -> Seq<char> {
    match format {
        Format::Table => ended_lines(table_lines(j), table_lines(j).len()),
        Format::Yaml => yaml(j, Seq::empty()),
        Format::Json => compact(without_nulls(j)) + "\n"@,
    }
}

/// The first `n` lines, each with a line feed behind it.
pub open spec fn ended_lines(lines: Seq<Seq<char>>, n: nat) -> Seq<char>
    decreases n,
{
    if n == 0 {
        Seq::empty()
    } else {
        ended_lines(lines, (n - 1) as nat) + lines[n - 1] + "\n"@
    }
}

/// Each line with a line feed behind it.
pub fn end_lines(lines: &Vec<String>) -> (r: String)
    ensures
        r@ == ended_lines(texts(lines@), lines@.len()),
{
    let mut out = String::new();
    let mut i: usize = 0;
    while i < lines.len()
        invariant
            i <= lines@.len(),
            out@ == ended_lines(texts(lines@), i as nat),
        decreases lines@.len() - i,
    {
        out.append(lines[i].as_str());
        out.append("\n");
        i = i + 1;
    }
    out
}

/// The text printed for a value under `--format`, or the complaint about a
/// form that there is not.
pub fn output_fmt(val: &Json, format: &str) -> (r: Result<String, String>)
    ensures
        match format_named(format@) {
            Some(f) => r is Ok && r->Ok_0@ == printed(val@, f),
            None => r is Err && r->Err_0@ == "ERROR: unknown --format '"@ + format@
                + "'. Choose: json | table | yaml"@,
        },
{
    if same(format, "table") {
        let lines = print_table(val);
        Ok(end_lines(&lines))
    } else if same(format, "yaml") {
        let r = print_yaml(val, "");
        proof {
            reveal_strlit("");
            assert(""@ =~= Seq::empty());
        }
        Ok(r)
    } else if same(format, "json") {
        let kept = strip_nulls(val);
        let s = to_text(&kept);
        Ok(cat2(s.as_str(), "\n"))
    } else {
        Err(cat3("ERROR: unknown --format '", format, "'. Choose: json | table | yaml"))
    }
}

} // verus!
