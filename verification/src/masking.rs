//! What the daemon makes anew for each plan, and texts with it hidden.

use vstd::prelude::*;
use crate::error::is_digit;
use crate::json::{JsonView, NumberView};

verus! {

/// How something is written out: as it is, or with what the daemon makes anew
/// for each plan hidden.
pub enum Form {
    Plain,
    Masked,
}

/// A text that the daemon makes anew, such as an identifier or a ticket.
pub open spec fn made(form: Form, s: Seq<char>) -> Seq<char> {
    match form {
        Form::Plain => s,
        Form::Masked => "*"@,
    }
}

/// A text with a time in it.
pub open spec fn timed(form: Form, s: Seq<char>) -> Seq<char> {
    match form {
        Form::Plain => s,
        Form::Masked => untimed(s),
    }
}

/// The text with its digits hidden.
pub open spec fn untimed(s: Seq<char>) -> Seq<char> {
    Seq::new(
        s.len(),
        |i: int|
            if is_digit(s[i]) {
                '*'
            } else {
                s[i]
            },
    )
}

/// Members that the daemon makes anew: identifiers and lists of them, tickets,
/// and times.
pub open spec fn is_made(key: Seq<char>) -> bool {
    ||| key == "id"@
    ||| "_id"@.is_suffix_of(key)
    ||| "_at"@.is_suffix_of(key)
    ||| key == "ticket_number"@
    ||| key == "depends_on"@
    ||| key == "blocked_by"@
}

/// A text hidden; anything else as it is.
pub open spec fn hidden_item(v: JsonView) -> JsonView {
    match v {
        JsonView::Text(_) => JsonView::Text("*"@),
        _ => v,
    }
}

/// A value that the daemon makes anew, hidden: of a text, a number and the
/// texts of a list is left only that they are there.
pub open spec fn hidden(v: JsonView) -> JsonView {
    match v {
        JsonView::Number(_) => JsonView::Number(NumberView::Integer(0)),
        JsonView::Array(a) => JsonView::Array(Seq::new(a.len(), |i: int| hidden_item(a[i]))),
        _ => hidden_item(v),
    }
}

/// The value of a member, with what is made anew hidden. The source of a plan
/// holds the time of its import.
pub open spec fn seen(key: Seq<char>, v: JsonView) -> JsonView {
    if is_made(key) {
        hidden(v)
    } else if key == "source"@ {
        match v {
            JsonView::Text(s) => JsonView::Text(untimed(s)),
            _ => v,
        }
    } else {
        v
    }
}

/// The value of a member in a form.
pub open spec fn member(form: Form, key: Seq<char>, v: JsonView) -> JsonView {
    match form {
        Form::Plain => v,
        Form::Masked => seen(key, v),
    }
}

/// The member `key` with what is made anew hidden, where it is there.
pub open spec fn seen_at(v: JsonView, key: Seq<char>) -> Option<JsonView> {
    match v.get(key) {
        Some(m) => Some(seen(key, m)),
        None => None,
    }
}

/// Two values whose members differ in nothing but what the daemon makes anew.
pub open spec fn alike(x: JsonView, y: JsonView) -> bool {
    forall|key: Seq<char>| #[trigger] seen_at(x, key) == seen_at(y, key)
}

/// Two lists of such values.
pub open spec fn all_alike(x: Seq<JsonView>, y: Seq<JsonView>) -> bool {
    &&& x.len() == y.len()
    &&& forall|i: int| 0 <= i < x.len() ==> alike(#[trigger] x[i], y[i])
}

/// A member whose name does not end like the names of those that the daemon
/// makes anew is the same in both.
pub proof fn kept_member(x: JsonView, y: JsonView, key: Seq<char>)
    requires
        alike(x, y),
        !is_made(key),
        key != "source"@,
    ensures
        x.get(key) == y.get(key),
        x.str_at(key) == y.str_at(key),
        x.array_at(key) == y.array_at(key),
        x.i64_at(key) == y.i64_at(key),
{
    assert(seen_at(x, key) == seen_at(y, key));
}

/// A member that the daemon makes anew is a text in both or in neither, and a
/// list of as many texts and other things in both or in neither.
pub proof fn made_member(x: JsonView, y: JsonView, key: Seq<char>)
    requires
        alike(x, y),
        is_made(key),
    ensures
        x.str_at(key) is Some <==> y.str_at(key) is Some,
        x.array_at(key) is Some <==> y.array_at(key) is Some,
        x.array_at(key) matches Some(a) ==> {
            let b = y.array_at(key)->0;
            a.len() == b.len() && forall|i: int|
                0 <= i < a.len() ==> ((#[trigger] a[i]).as_str() is Some <==> b[i].as_str() is Some)
        },
{
    assert(seen_at(x, key) == seen_at(y, key));
    if let Some(a) = x.array_at(key) {
        let b = y.array_at(key)->0;
        let ha = Seq::new(a.len(), |i: int| hidden_item(a[i]));
        let hb = Seq::new(b.len(), |i: int| hidden_item(b[i]));
        assert(ha == hb);
        assert(ha.len() == a.len());
        assert(hb.len() == b.len());
        assert forall|i: int| 0 <= i < a.len() implies ((#[trigger] a[i]).as_str() is Some
            <==> b[i].as_str() is Some) by {
            assert(ha[i] == hidden_item(a[i]));
            assert(hb[i] == hidden_item(b[i]));
        }
    }
}

/// The source of a plan is there in both or in neither, and but for digits the
/// same.
pub proof fn source_member(x: JsonView, y: JsonView)
    requires
        alike(x, y),
    ensures
        x.str_at("source"@) is Some <==> y.str_at("source"@) is Some,
        x.str_at("source"@) matches Some(s) ==> untimed(s) == untimed(
            y.str_at("source"@)->0,
        ),
{
    reveal_strlit("source");
    ends("source"@, 'c', 'e');
    assert(seen_at(x, "source"@) == seen_at(y, "source"@));
}

/// A name that ends otherwise than those of what the daemon makes anew.
pub proof fn ends(key: Seq<char>, before: char, last: char)
    requires
        key.len() >= 2,
        key[key.len() - 2] == before,
        key[key.len() - 1] == last,
        !(before == 'i' && last == 'd'),
        !(before == 'a' && last == 't'),
        !(before == 'e' && last == 'r'),
        !(before == 'o' && last == 'n' && key.len() == 10),
        !(before == 'b' && last == 'y'),
    ensures
        !is_made(key),
{
    reveal_strlit("id");
    reveal_strlit("_id");
    reveal_strlit("_at");
    reveal_strlit("ticket_number");
    reveal_strlit("depends_on");
    reveal_strlit("blocked_by");
    let n = key.len();
    if "_id"@.is_suffix_of(key) {
        assert(key.subrange(n - 3, n as int)[2] == "_id"@[2]);
        assert(key.subrange(n - 3, n as int)[1] == "_id"@[1]);
    }
    if "_at"@.is_suffix_of(key) {
        assert(key.subrange(n - 3, n as int)[2] == "_at"@[2]);
        assert(key.subrange(n - 3, n as int)[1] == "_at"@[1]);
    }
}

} // verus!
