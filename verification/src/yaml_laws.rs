//! What the YAML form of an export says, read line by line from its indents.

use vstd::prelude::*;
use crate::export::{export_items, export_members, export_yaml, needs_quotes, yaml_line};
use crate::json::{JsonView, NumberView};
use crate::json_text::{compact, json_text_is_one_line, plain_numbers};
use crate::output::{yaml, yaml_items, yaml_members, yaml_scalar};
use crate::query::{first_index_at, first_index_facts};
use crate::scan::{first_index, split_on};

verus! {

/// The lines of a text that ends with a line feed.
pub open spec fn text_lines(t: Seq<char>) -> Seq<Seq<char>> {
    split_on(t, '\n').drop_last()
}

/// A key that stands on one line, not indented by itself.
pub open spec fn is_line_key(key: Seq<char>) -> bool {
    !key.contains('\n') && (key.len() > 0 ==> key[0] != ' ')
}

/// A value whose keys and texts each stand on one line, the texts without
/// quotes.
pub open spec fn stands_on_lines(j: JsonView) -> bool
    decreases j,
{
    match j {
        JsonView::Text(s) => !needs_quotes(s),
        JsonView::Number(NumberView::Decimal(t)) => crate::json_text::is_plain(t),
        JsonView::Array(a) => forall|i: int|
            0 <= i < a.len() ==> stands_on_lines(#[trigger] a[i]),
        JsonView::Object(m) => forall|i: int|
            0 <= i < m.len() ==> is_line_key((#[trigger] m[i]).0) && stands_on_lines(m[i].1),
        _ => true,
    }
}

/// What is written of a value that is neither a list nor an object.
pub open spec fn scalar_text(j: JsonView) -> Seq<char> {
    match j {
        JsonView::Text(s) => s,
        other => compact(other),
    }
}

/// A line of the block itself: indented as the block is, and no further.
pub open spec fn is_own(line: Seq<char>, pad: Seq<char>) -> bool {
    pad.is_prefix_of(line) && line.len() > pad.len() && line[pad.len() as int] != ' '
}

/// The lines of a block, each with the lines that are indented below it.
pub open spec fn grouped(lines: Seq<Seq<char>>, pad: Seq<char>) -> Seq<
    (Seq<char>, Seq<Seq<char>>),
>
    decreases lines.len(),
{
    if lines.len() == 0 {
        Seq::empty()
    } else {
        let before = grouped(lines.drop_last(), pad);
        if is_own(lines.last(), pad) {
            before.push((lines.last(), Seq::empty()))
        } else if before.len() > 0 {
            before.drop_last().push((before.last().0, before.last().1.push(lines.last())))
        } else {
            before
        }
    }
}

proof fn split_is_not_empty(t: Seq<char>)
    ensures
        split_on(t, '\n').len() > 0,
{
}

proof fn lines_first(a: Seq<char>, b: Seq<char>)
    requires
        !a.contains('\n'),
    ensures
        text_lines(a + "\n"@ + b) == seq![a] + text_lines(b),
{
    reveal_strlit("\n");
    let t = a + "\n"@ + b;
    let n = a.len() as int;
    assert(t[n] == '\n');
    assert forall|j: int| 0 <= j < n implies t[j] != '\n' by {
        assert(t[j] == a[j]);
    }
    first_index_at(t, '\n', n);
    assert(split_on(t, '\n') == seq![t.take(n)] + split_on(t.skip(n + 1), '\n'));
    assert(t.take(n) =~= a);
    assert(t.skip(n + 1) =~= b);
    split_is_not_empty(b);
    assert((seq![a] + split_on(b, '\n')).drop_last() =~= seq![a] + split_on(b, '\n').drop_last());
}

proof fn no_lines()
    ensures
        text_lines(Seq::empty()) == Seq::<Seq<char>>::empty(),
{
    let none = Seq::<char>::empty();
    assert(split_on(none, '\n') =~= seq![none]);
    assert(text_lines(none) =~= Seq::empty());
}

/// Empty, or a text that ends with a line feed.
spec fn is_ended(t: Seq<char>) -> bool {
    t.len() > 0 ==> t.last() == '\n'
}

proof fn lines_append(a: Seq<char>, b: Seq<char>)
    requires
        is_ended(a),
    ensures
        text_lines(a + b) == text_lines(a) + text_lines(b),
    decreases a.len(),
{
    reveal_strlit("\n");
    if a.len() == 0 {
        no_lines();
        assert(a =~= Seq::empty());
        assert(a + b =~= b);
        assert(text_lines(a) + text_lines(b) =~= text_lines(b));
    } else {
        first_index_facts(a, '\n');
        let i = first_index(a, '\n');
        if i >= a.len() {
            assert(a[a.len() - 1] != '\n');
        }
        let head = a.take(i);
        let rest = a.skip(i + 1);
        assert forall|j: int| 0 <= j < head.len() implies head[j] != '\n' by {
            assert(head[j] == a[j]);
        }
        if rest.len() > 0 {
            assert(rest.last() == a.last());
        }
        lines_append(rest, b);
        assert(a =~= head + "\n"@ + rest);
        assert(a + b =~= head + "\n"@ + (rest + b));
        lines_first(head, rest);
        lines_first(head, rest + b);
        assert(seq![head] + (text_lines(rest) + text_lines(b)) =~= (seq![head] + text_lines(rest))
            + text_lines(b));
    }
}

proof fn scalar_line(j: JsonView)
    requires
        stands_on_lines(j),
        !(j is Object),
        !(j is Array),
    ensures
        yaml_line(j) == scalar_text(j) + "\n"@,
        !scalar_text(j).contains('\n'),
{
    if !(j is Text) {
        json_text_is_one_line(j);
        let t = compact(j);
        assert forall|i: int| 0 <= i < t.len() implies t[i] != '\n' by {}
    }
}

/// Every line is indented by the pad.
spec fn all_padded(lines: Seq<Seq<char>>, pad: Seq<char>) -> bool {
    forall|k: int| 0 <= k < lines.len() ==> pad.is_prefix_of(#[trigger] lines[k])
}

proof fn padded_deeper(lines: Seq<Seq<char>>, pad: Seq<char>)
    requires
        all_padded(lines, pad + "  "@),
    ensures
        all_padded(lines, pad),
        forall|k: int| 0 <= k < lines.len() ==> !is_own(#[trigger] lines[k], pad),
{
    reveal_strlit("  ");
    let deep = pad + "  "@;
    assert forall|k: int| 0 <= k < lines.len() implies pad.is_prefix_of(#[trigger] lines[k])
        && !is_own(lines[k], pad) by {
        let l = lines[k];
        assert(deep.is_prefix_of(l));
        assert(l.take(pad.len() as int) =~= pad) by {
            assert forall|j: int| 0 <= j < pad.len() implies l[j] == pad[j] by {
                assert(deep[j] == l[j]);
            }
        }
        assert(deep[pad.len() as int] == ' ');
        assert(l[pad.len() as int] == deep[pad.len() as int]);
    }
}

proof fn padded_line(pad: Seq<char>, rest: Seq<char>)
    ensures
        pad.is_prefix_of(pad + rest),
{
    assert((pad + rest).take(pad.len() as int) =~= pad);
}

/// The line that begins an entry, and the text below it.
spec fn entry_of(head: Seq<char>, value: JsonView, pad: Seq<char>) -> (Seq<char>, Seq<char>) {
    if value is Object || value is Array {
        (head, export_yaml(value, pad + "  "@))
    } else {
        (head + " "@ + scalar_text(value), Seq::empty())
    }
}

proof fn entry_lines(before: Seq<char>, piece: Seq<char>, head: Seq<char>, below: Seq<char>, pad: Seq<char>)
    requires
        is_ended(before),
        all_padded(text_lines(before), pad),
        piece == head + "\n"@ + below,
        !head.contains('\n'),
        pad.is_prefix_of(head),
        is_own(head, pad),
        is_ended(below),
        all_padded(text_lines(below), pad + "  "@),
    ensures
        is_ended(before + piece),
        (before + piece).len() > 0,
        text_lines(before + piece) == text_lines(before) + seq![head] + text_lines(below),
        all_padded(text_lines(before + piece), pad),
        grouped(text_lines(before + piece), pad) == grouped(text_lines(before), pad).push(
            (head, text_lines(below)),
        ),
{
    reveal_strlit("\n");
    lines_append(before, piece);
    lines_first(head, below);
    padded_deeper(text_lines(below), pad);
    let all = text_lines(before + piece);
    assert(all =~= text_lines(before) + seq![head] + text_lines(below));
    if below.len() > 0 {
        assert((before + piece).last() == below.last());
    } else {
        assert((before + piece).last() == '\n');
    }
    assert forall|k: int| 0 <= k < all.len() implies pad.is_prefix_of(#[trigger] all[k]) by {
        let n = text_lines(before).len() as int;
        if k < n {
            assert(all[k] == text_lines(before)[k]);
        } else if k == n {
            assert(all[k] == head);
        } else {
            assert(all[k] == text_lines(below)[k - n - 1]);
        }
    }
    grouped_entry(text_lines(before), head, text_lines(below), pad);
}

proof fn grouped_entry(
    lines: Seq<Seq<char>>,
    head: Seq<char>,
    below: Seq<Seq<char>>,
    pad: Seq<char>,
)
    requires
        is_own(head, pad),
        forall|k: int| 0 <= k < below.len() ==> !is_own(#[trigger] below[k], pad),
    ensures
        grouped(lines + seq![head] + below, pad) == grouped(lines, pad).push((head, below)),
    decreases below.len(),
{
    let all = lines + seq![head] + below;
    if below.len() == 0 {
        assert(all.drop_last() =~= lines);
        assert(all.last() == head);
        assert(below =~= Seq::empty());
    } else {
        let fewer = below.drop_last();
        assert forall|k: int| 0 <= k < fewer.len() implies !is_own(#[trigger] fewer[k], pad) by {
            assert(fewer[k] == below[k]);
        }
        grouped_entry(lines, head, fewer, pad);
        assert(all.drop_last() =~= lines + seq![head] + fewer);
        assert(all.last() == below[below.len() - 1]);
        let g = grouped(lines, pad).push((head, fewer));
        assert(g.drop_last() =~= grouped(lines, pad));
        assert(fewer.push(below.last()) =~= below);
    }
}

proof fn items_stand(a: Seq<JsonView>)
    requires
        stands_on_lines(JsonView::Array(a)),
    ensures
        forall|i: int| 0 <= i < a.len() ==> stands_on_lines(#[trigger] a[i]),
{
    let j = JsonView::Array(a);
    assert(j->Array_0 == a);
    assert forall|i: int| 0 <= i < a.len() implies stands_on_lines(#[trigger] a[i]) by {}
}

proof fn members_stand(m: Seq<(Seq<char>, JsonView)>)
    requires
        stands_on_lines(JsonView::Object(m)),
    ensures
        forall|i: int|
            0 <= i < m.len() ==> is_line_key((#[trigger] m[i]).0) && stands_on_lines(m[i].1),
{
    let j = JsonView::Object(m);
    assert(j->Object_0 == m);
    assert forall|i: int| 0 <= i < m.len() implies is_line_key((#[trigger] m[i]).0)
        && stands_on_lines(m[i].1) by {}
}

proof fn block_lines(j: JsonView, pad: Seq<char>)
    requires
        stands_on_lines(j),
        !pad.contains('\n'),
    ensures
        is_ended(export_yaml(j, pad)),
        all_padded(text_lines(export_yaml(j, pad)), pad),
    decreases j, 0nat,
{
    reveal_strlit("\n");
    match j {
        JsonView::Array(a) => {
            if a.len() == 0 {
                one_line(pad, "[]"@);
                reveal_strlit("[]");
                reveal_strlit("[]\n");
                assert(pad + "[]\n"@ =~= pad + "[]"@ + "\n"@);
            } else {
                items_stand(a);
                item_lines(a, pad, a.len());
            }
        },
        JsonView::Object(m) => {
            if m.len() == 0 {
                one_line(pad, "{}"@);
                reveal_strlit("{}");
                reveal_strlit("{}\n");
                assert(pad + "{}\n"@ =~= pad + "{}"@ + "\n"@);
            } else {
                members_stand(m);
                member_lines(m, pad, m.len());
            }
        },
        scalar => {
            scalar_line(scalar);
            one_line(pad, scalar_text(scalar));
            assert(pad + yaml_line(scalar) =~= pad + scalar_text(scalar) + "\n"@);
        },
    }
}

proof fn one_line(pad: Seq<char>, s: Seq<char>)
    requires
        !pad.contains('\n'),
    ensures
        !s.contains('\n') ==> is_ended(pad + s + "\n"@) && all_padded(
            text_lines(pad + s + "\n"@),
            pad,
        ),
{
    reveal_strlit("\n");
    if !s.contains('\n') {
        let l = pad + s;
        assert forall|i: int| 0 <= i < l.len() implies l[i] != '\n' by {
            if i < pad.len() {
                assert(l[i] == pad[i]);
            } else {
                assert(l[i] == s[i - pad.len()]);
            }
        }
        lines_first(l, Seq::empty());
        no_lines();
        assert(l + "\n"@ + Seq::<char>::empty() =~= l + "\n"@);
        padded_line(pad, s);
        assert(text_lines(l + "\n"@) =~= seq![l]);
    }
}

proof fn item_lines(a: Seq<JsonView>, pad: Seq<char>, n: nat)
    requires
        forall|i: int| 0 <= i < a.len() ==> stands_on_lines(#[trigger] a[i]),
        !pad.contains('\n'),
        n <= a.len(),
    ensures
        ({
            let t = export_items(a, pad, n);
            let g = grouped(text_lines(t), pad);
            &&& is_ended(t)
            &&& all_padded(text_lines(t), pad)
            &&& g.len() == n
            &&& forall|i: int|
                0 <= i < n ==> #[trigger] g[i] == (
                    entry_of(pad + "-"@, a[i], pad).0,
                    text_lines(entry_of(pad + "-"@, a[i], pad).1),
                )
        }),
    decreases a, n,
{
    no_lines();
    if n > 0 {
        let before = export_items(a, pad, (n - 1) as nat);
        item_lines(a, pad, (n - 1) as nat);
        let v = a[n - 1];
        assert(stands_on_lines(v));
        let piece = if v is Object || v is Array {
            pad + "-\n"@ + export_yaml(v, pad + "  "@)
        } else {
            pad + "- "@ + yaml_line(v)
        };
        reveal_strlit("-");
        reveal_strlit("-\n");
        reveal_strlit("- ");
        assert(!"-"@.contains('\n'));
        if v is Object || v is Array {
            deeper_pad(pad);
            block_lines(v, pad + "  "@);
            assert(piece =~= pad + "-"@ + "\n"@ + export_yaml(v, pad + "  "@)) by {
                reveal_strlit("\n");
            }
        } else {
            scalar_line(v);
            assert(piece =~= pad + "-"@ + " "@ + scalar_text(v) + "\n"@ + Seq::<char>::empty()) by {
                reveal_strlit(" ");
            }
        }
        whole_entry(before, piece, "-"@, v, pad);
        assert(export_items(a, pad, n) == before + piece);
    }
}

proof fn deeper_pad(pad: Seq<char>)
    requires
        !pad.contains('\n'),
    ensures
        !(pad + "  "@).contains('\n'),
{
    reveal_strlit("  ");
    let p = pad + "  "@;
    assert forall|i: int| 0 <= i < p.len() implies p[i] != '\n' by {
        if i < pad.len() {
            assert(p[i] == pad[i]);
        }
    }
}

proof fn whole_entry(
    before: Seq<char>,
    piece: Seq<char>,
    mark: Seq<char>,
    v: JsonView,
    pad: Seq<char>,
)
    requires
        !pad.contains('\n'),
        !mark.contains('\n'),
        mark.len() > 0,
        mark[0] != ' ',
        stands_on_lines(v),
        is_ended(before),
        all_padded(text_lines(before), pad),
        piece == entry_of(pad + mark, v, pad).0 + "\n"@ + entry_of(pad + mark, v, pad).1,
        v is Object || v is Array ==> is_ended(export_yaml(v, pad + "  "@)) && all_padded(
            text_lines(export_yaml(v, pad + "  "@)),
            pad + "  "@,
        ),
    ensures
        is_ended(before + piece),
        all_padded(text_lines(before + piece), pad),
        grouped(text_lines(before + piece), pad) == grouped(text_lines(before), pad).push(
            (
                entry_of(pad + mark, v, pad).0,
                text_lines(entry_of(pad + mark, v, pad).1),
            ),
        ),
{
    no_lines();
    let (head, below) = entry_of(pad + mark, v, pad);
    let rest = if v is Object || v is Array {
        mark
    } else {
        scalar_line(v);
        mark + " "@ + scalar_text(v)
    };
    reveal_strlit(" ");
    assert(head =~= pad + rest);
    assert forall|i: int| 0 <= i < head.len() implies head[i] != '\n' by {
        if i < pad.len() {
            assert(head[i] == pad[i]);
        } else if i < pad.len() + mark.len() {
            assert(head[i] == mark[i - pad.len()]);
        } else if i == pad.len() + mark.len() {
            assert(head[i] == ' ');
        } else {
            assert(head[i] == scalar_text(v)[i - pad.len() - mark.len() - 1]);
        }
    }
    padded_line(pad, rest);
    assert(head[pad.len() as int] == mark[0]);
    entry_lines(before, piece, head, below, pad);
}

proof fn member_lines(m: Seq<(Seq<char>, JsonView)>, pad: Seq<char>, n: nat)
    requires
        forall|i: int|
            0 <= i < m.len() ==> is_line_key((#[trigger] m[i]).0) && stands_on_lines(m[i].1),
        !pad.contains('\n'),
        n <= m.len(),
    ensures
        ({
            let t = export_members(m, pad, n);
            let g = grouped(text_lines(t), pad);
            &&& is_ended(t)
            &&& all_padded(text_lines(t), pad)
            &&& g.len() == n
            &&& forall|i: int|
                0 <= i < n ==> #[trigger] g[i] == (
                    entry_of(pad + (m[i].0 + ":"@), m[i].1, pad).0,
                    text_lines(entry_of(pad + (m[i].0 + ":"@), m[i].1, pad).1),
                )
        }),
    decreases m, n,
{
    no_lines();
    if n > 0 {
        let before = export_members(m, pad, (n - 1) as nat);
        member_lines(m, pad, (n - 1) as nat);
        let key = m[n - 1].0;
        let v = m[n - 1].1;
        assert(stands_on_lines(v));
        let mark = key + ":"@;
        let piece = if v is Object || v is Array {
            pad + key + ":\n"@ + export_yaml(v, pad + "  "@)
        } else {
            pad + key + ": "@ + yaml_line(v)
        };
        reveal_strlit(":");
        reveal_strlit(":\n");
        reveal_strlit(": ");
        assert forall|i: int| 0 <= i < mark.len() implies mark[i] != '\n' by {
            if i < key.len() {
                assert(mark[i] == key[i]);
            }
        }
        assert(mark[0] != ' ');
        if v is Object || v is Array {
            deeper_pad(pad);
            block_lines(v, pad + "  "@);
            assert(piece =~= pad + mark + "\n"@ + export_yaml(v, pad + "  "@)) by {
                reveal_strlit("\n");
            }
        } else {
            scalar_line(v);
            assert(piece =~= pad + mark + " "@ + scalar_text(v) + "\n"@ + Seq::<char>::empty()) by {
                reveal_strlit(" ");
            }
        }
        whole_entry(before, piece, mark, v, pad);
        assert(export_members(m, pad, n) == before + piece);
    }
}

/// Every line of a value is indented at least as the value is.
pub proof fn yaml_lines_are_indented(j: JsonView, pad: Seq<char>, k: int)
    requires
        stands_on_lines(j),
        !pad.contains('\n'),
        0 <= k < text_lines(export_yaml(j, pad)).len(),
    ensures
        pad.is_prefix_of(text_lines(export_yaml(j, pad))[k]),
{
    block_lines(j, pad);
}

/// An object is read back from its lines: those at its own indent are its keys,
/// in order and no others; a list or an object stands below its key, two
/// columns further in; any other value stands behind it.
pub proof fn yaml_objects_are_read_back(m: Seq<(Seq<char>, JsonView)>, pad: Seq<char>)
    requires
        stands_on_lines(JsonView::Object(m)),
        m.len() > 0,
        !pad.contains('\n'),
    ensures
        ({
            let g = grouped(text_lines(export_yaml(JsonView::Object(m), pad)), pad);
            &&& g.len() == m.len()
            &&& forall|i: int|
                0 <= i < m.len() ==> {
                    let (key, value) = m[i];
                    if value is Object || value is Array {
                        #[trigger] g[i] == (
                            pad + (key + ":"@),
                            text_lines(export_yaml(value, pad + "  "@)),
                        )
                    } else {
                        g[i] == (
                            pad + (key + ":"@) + " "@ + scalar_text(value),
                            Seq::<Seq<char>>::empty(),
                        )
                    }
                }
        }),
{
    no_lines();
    members_stand(m);
    member_lines(m, pad, m.len());
}

/// A list is read back from its lines: one dash at its own indent for each
/// item, in order; a list or an object stands below its dash, two columns
/// further in; any other value stands behind it.
pub proof fn yaml_lists_are_read_back(a: Seq<JsonView>, pad: Seq<char>)
    requires
        stands_on_lines(JsonView::Array(a)),
        a.len() > 0,
        !pad.contains('\n'),
    ensures
        ({
            let g = grouped(text_lines(export_yaml(JsonView::Array(a), pad)), pad);
            &&& g.len() == a.len()
            &&& forall|i: int|
                0 <= i < a.len() ==> {
                    if a[i] is Object || a[i] is Array {
                        #[trigger] g[i] == (
                            pad + "-"@,
                            text_lines(export_yaml(a[i], pad + "  "@)),
                        )
                    } else {
                        g[i] == (
                            pad + "-"@ + " "@ + scalar_text(a[i]),
                            Seq::<Seq<char>>::empty(),
                        )
                    }
                }
        }),
{
    no_lines();
    items_stand(a);
    item_lines(a, pad, a.len());
}

/// A value whose keys and texts each stand on one line when it is printed.
pub open spec fn prints_on_lines(j: JsonView) -> bool
    decreases j,
{
    match j {
        JsonView::Text(s) => !s.contains('\n'),
        JsonView::Array(a) => forall|i: int|
            0 <= i < a.len() ==> if (#[trigger] a[i]) is Object {
                prints_on_lines(a[i])
            } else {
                plain_numbers(a[i])
            },
        JsonView::Object(m) => forall|i: int|
            0 <= i < m.len() ==> is_line_key((#[trigger] m[i]).0) && prints_on_lines(m[i].1),
        other => plain_numbers(other),
    }
}

proof fn compact_line(j: JsonView)
    requires
        plain_numbers(j),
    ensures
        !compact(j).contains('\n'),
{
    json_text_is_one_line(j);
    let t = compact(j);
    assert forall|i: int| 0 <= i < t.len() implies t[i] != '\n' by {}
}

/// The line that begins a printed member, and the text below it.
spec fn member_entry(key: Seq<char>, value: JsonView, pad: Seq<char>) -> (Seq<char>, Seq<char>) {
    if value is Object || value is Array {
        (pad + (key + ":"@), yaml(value, pad + "  "@))
    } else {
        (pad + (key + ": "@ + yaml_scalar(value)), Seq::empty())
    }
}

/// The line that begins a printed item, and the text below it.
spec fn item_entry(value: JsonView, pad: Seq<char>) -> (Seq<char>, Seq<char>) {
    if value is Object {
        (pad + "- "@, yaml(value, pad + "  "@))
    } else {
        (pad + ("- "@ + compact(value)), Seq::empty())
    }
}

proof fn head_line(pad: Seq<char>, rest: Seq<char>)
    requires
        !pad.contains('\n'),
        !rest.contains('\n'),
        rest.len() > 0,
        rest[0] != ' ',
    ensures
        !(pad + rest).contains('\n'),
        pad.is_prefix_of(pad + rest),
        is_own(pad + rest, pad),
{
    let l = pad + rest;
    assert forall|i: int| 0 <= i < l.len() implies l[i] != '\n' by {
        if i < pad.len() {
            assert(l[i] == pad[i]);
        } else {
            assert(l[i] == rest[i - pad.len()]);
        }
    }
    padded_line(pad, rest);
    assert(l[pad.len() as int] == rest[0]);
}

proof fn joined_line(a: Seq<char>, b: Seq<char>)
    requires
        !a.contains('\n'),
        !b.contains('\n'),
    ensures
        !(a + b).contains('\n'),
{
    let l = a + b;
    assert forall|i: int| 0 <= i < l.len() implies l[i] != '\n' by {
        if i < a.len() {
            assert(l[i] == a[i]);
        } else {
            assert(l[i] == b[i - a.len()]);
        }
    }
}

proof fn printed_block(j: JsonView, pad: Seq<char>)
    requires
        prints_on_lines(j),
        !pad.contains('\n'),
    ensures
        is_ended(yaml(j, pad)),
        all_padded(text_lines(yaml(j, pad)), pad),
    decreases j, 0nat,
{
    reveal_strlit("\n");
    match j {
        JsonView::Text(s) => {
            one_line(pad, s);
        },
        JsonView::Array(a) => {
            printed_items_stand(a);
            printed_items(a, pad, a.len());
        },
        JsonView::Object(m) => {
            printed_members_stand(m);
            printed_members(m, pad, m.len());
        },
        other => {
            compact_line(other);
            one_line(pad, compact(other));
        },
    }
}

proof fn printed_items_stand(a: Seq<JsonView>)
    requires
        prints_on_lines(JsonView::Array(a)),
    ensures
        forall|i: int|
            0 <= i < a.len() ==> if (#[trigger] a[i]) is Object {
                prints_on_lines(a[i])
            } else {
                plain_numbers(a[i])
            },
{
    let j = JsonView::Array(a);
    assert(j->Array_0 == a);
}

proof fn printed_members_stand(m: Seq<(Seq<char>, JsonView)>)
    requires
        prints_on_lines(JsonView::Object(m)),
    ensures
        forall|i: int|
            0 <= i < m.len() ==> is_line_key((#[trigger] m[i]).0) && prints_on_lines(m[i].1),
{
    let j = JsonView::Object(m);
    assert(j->Object_0 == m);
}

proof fn printed_items(a: Seq<JsonView>, pad: Seq<char>, n: nat)
    requires
        forall|i: int|
            0 <= i < a.len() ==> if (#[trigger] a[i]) is Object {
                prints_on_lines(a[i])
            } else {
                plain_numbers(a[i])
            },
        !pad.contains('\n'),
        n <= a.len(),
    ensures
        ({
            let t = yaml_items(a, pad, n);
            let g = grouped(text_lines(t), pad);
            &&& is_ended(t)
            &&& all_padded(text_lines(t), pad)
            &&& g.len() == n
            &&& forall|i: int|
                0 <= i < n ==> #[trigger] g[i] == (
                    item_entry(a[i], pad).0,
                    text_lines(item_entry(a[i], pad).1),
                )
        }),
    decreases a, n,
{
    no_lines();
    if n > 0 {
        let before = yaml_items(a, pad, (n - 1) as nat);
        printed_items(a, pad, (n - 1) as nat);
        let v = a[n - 1];
        let (head, below) = item_entry(v, pad);
        reveal_strlit("- ");
        reveal_strlit("- \n");
        assert(!"- "@.contains('\n'));
        let piece = head + "\n"@ + below;
        if v is Object {
            deeper_pad(pad);
            printed_block(v, pad + "  "@);
            head_line(pad, "- "@);
            assert(pad + "- \n"@ + yaml(v, pad + "  "@) =~= piece) by {
                reveal_strlit("\n");
            }
        } else {
            compact_line(v);
            joined_line("- "@, compact(v));
            head_line(pad, "- "@ + compact(v));
            assert(pad + "- "@ + compact(v) + "\n"@ =~= piece);
        }
        entry_lines(before, piece, head, below, pad);
        assert(yaml_items(a, pad, n) == before + piece);
    }
}

proof fn printed_members(m: Seq<(Seq<char>, JsonView)>, pad: Seq<char>, n: nat)
    requires
        forall|i: int|
            0 <= i < m.len() ==> is_line_key((#[trigger] m[i]).0) && prints_on_lines(m[i].1),
        !pad.contains('\n'),
        n <= m.len(),
    ensures
        ({
            let t = yaml_members(m, pad, n);
            let g = grouped(text_lines(t), pad);
            &&& is_ended(t)
            &&& all_padded(text_lines(t), pad)
            &&& g.len() == n
            &&& forall|i: int|
                0 <= i < n ==> #[trigger] g[i] == (
                    member_entry(m[i].0, m[i].1, pad).0,
                    text_lines(member_entry(m[i].0, m[i].1, pad).1),
                )
        }),
    decreases m, n,
{
    no_lines();
    if n > 0 {
        let before = yaml_members(m, pad, (n - 1) as nat);
        printed_members(m, pad, (n - 1) as nat);
        let key = m[n - 1].0;
        let v = m[n - 1].1;
        let (head, below) = member_entry(key, v, pad);
        reveal_strlit(":");
        reveal_strlit(": ");
        reveal_strlit(":\n");
        assert(!":"@.contains('\n'));
        assert(!": "@.contains('\n'));
        let piece = head + "\n"@ + below;
        if v is Object || v is Array {
            deeper_pad(pad);
            printed_block(v, pad + "  "@);
            joined_line(key, ":"@);
            assert((key + ":"@)[0] != ' ');
            head_line(pad, key + ":"@);
            assert(pad + key + ":\n"@ + yaml(v, pad + "  "@) =~= piece) by {
                reveal_strlit("\n");
            }
        } else {
            let s = yaml_scalar(v);
            if !(v is Text) {
                compact_line(v);
            }
            joined_line(key, ": "@);
            joined_line(key + ": "@, s);
            assert((key + ": "@ + s)[0] != ' ');
            head_line(pad, key + ": "@ + s);
            assert(pad + key + ": "@ + s + "\n"@ =~= piece);
        }
        entry_lines(before, piece, head, below, pad);
        assert(yaml_members(m, pad, n) == before + piece);
    }
}

/// A printed object is read back from its lines: those at its own indent are its
/// keys, in order and no others; a list or an object stands below its key, two
/// columns further in; any other value stands behind it.
pub proof fn printed_objects_are_read_back(m: Seq<(Seq<char>, JsonView)>, pad: Seq<char>)
    requires
        prints_on_lines(JsonView::Object(m)),
        !pad.contains('\n'),
    ensures
        ({
            let g = grouped(text_lines(yaml(JsonView::Object(m), pad)), pad);
            &&& g.len() == m.len()
            &&& forall|i: int|
                0 <= i < m.len() ==> {
                    let (key, value) = m[i];
                    if value is Object || value is Array {
                        #[trigger] g[i] == (
                            pad + (key + ":"@),
                            text_lines(yaml(value, pad + "  "@)),
                        )
                    } else {
                        g[i] == (
                            pad + (key + ": "@ + scalar_text(value)),
                            Seq::<Seq<char>>::empty(),
                        )
                    }
                }
        }),
{
    no_lines();
    printed_members_stand(m);
    printed_members(m, pad, m.len());
}

/// A printed list is read back from its lines: one dash at its own indent for
/// each item, in order; an object stands below its dash, two columns further
/// in; any other value stands behind it as JSON.
pub proof fn printed_lists_are_read_back(a: Seq<JsonView>, pad: Seq<char>)
    requires
        prints_on_lines(JsonView::Array(a)),
        !pad.contains('\n'),
    ensures
        ({
            let g = grouped(text_lines(yaml(JsonView::Array(a), pad)), pad);
            &&& g.len() == a.len()
            &&& forall|i: int|
                0 <= i < a.len() ==> {
                    if a[i] is Object {
                        #[trigger] g[i] == (
                            pad + "- "@,
                            text_lines(yaml(a[i], pad + "  "@)),
                        )
                    } else {
                        g[i] == (pad + ("- "@ + compact(a[i])), Seq::<Seq<char>>::empty())
                    }
                }
        }),
{
    no_lines();
    printed_items_stand(a);
    printed_items(a, pad, a.len());
}

} // verus!
