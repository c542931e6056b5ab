//! JSON values: what the daemon answers and what is sent to it.

use vstd::prelude::*;
use crate::text::{before, lex_irreflexive, lex_lt, lex_total, lex_transitive, same};

verus! {

/// A number of a JSON text.
#[derive(Debug, Clone, PartialEq, Eq)]
pub enum Number {
    /// An integer from zero up.
    PosInt(u64),
    /// An integer below zero.
    NegInt(i64),
    /// Any other number, as it is written.
    Decimal(String),
}

/// One member of an object.
#[derive(Debug, PartialEq, Eq)]
pub struct Member {
    pub key: String,
    pub value: Json,
}

/// A JSON value.
#[derive(Debug, PartialEq, Eq)]
pub enum Json {
    Null,
    Bool(bool),
    Number(Number),
    Text(String),
    Array(Vec<Json>),
    /// Members with distinct keys, in code-point order of the keys.
    Object(Vec<Member>),
}

/// What a number of a JSON text is.
pub enum NumberView {
    Integer(int),
    Decimal(Seq<char>),
}

/// What a JSON value is.
#[verifier::ext_equal]
pub enum JsonView {
    Null,
    Bool(bool),
    Number(NumberView),
    Text(Seq<char>),
    Array(Seq<JsonView>),
    Object(Seq<(Seq<char>, JsonView)>),
}

impl View for Number {
    type V = NumberView;

    open spec fn view(&self) -> NumberView {
        match self {
            Number::PosInt(n) => NumberView::Integer(*n as int),
            Number::NegInt(n) => NumberView::Integer(*n as int),
            Number::Decimal(t) => NumberView::Decimal(t@),
        }
    }
}

impl Json {
    /// The value as a mathematical tree.
    pub open spec fn tree(self) -> JsonView
        decreases self,
    {
        match self {
            Json::Null => JsonView::Null,
            Json::Bool(b) => JsonView::Bool(b),
            Json::Number(n) => JsonView::Number(n@),
            Json::Text(s) => JsonView::Text(s@),
            Json::Array(v) => JsonView::Array(
                Seq::new(
                    v@.len(),
                    |i: int|
                        if 0 <= i < v@.len() {
                            v@[i].tree()
                        } else {
                            JsonView::Null
                        },
                ),
            ),
            Json::Object(m) => JsonView::Object(
                Seq::new(
                    m@.len(),
                    |i: int|
                        if 0 <= i < m@.len() {
                            (m@[i].key@, m@[i].value.tree())
                        } else {
                            (Seq::empty(), JsonView::Null)
                        },
                ),
            ),
        }
    }
}

impl View for Json {
    type V = JsonView;

    open spec fn view(&self) -> JsonView {
        self.tree()
    }
}

/// The values of a list.
pub open spec fn views(v: Seq<Json>) -> Seq<JsonView> {
    Seq::new(v.len(), |i: int| v[i]@)
}

/// The members of an object.
pub open spec fn pairs(m: Seq<Member>) -> Seq<(Seq<char>, JsonView)> {
    Seq::new(m.len(), |i: int| (m[i].key@, m[i].value@))
}

/// A list is seen as the list of what its items are.
pub proof fn array_view(v: Vec<Json>)
    ensures
        Json::Array(v)@ == JsonView::Array(views(v@)),
{
    assert(Json::Array(v)@->Array_0 =~= views(v@));
}

/// An object is seen as the list of what its members are.
pub proof fn object_view(m: Vec<Member>)
    ensures
        Json::Object(m)@ == JsonView::Object(pairs(m@)),
{
    assert(Json::Object(m)@->Object_0 =~= pairs(m@));
}

/// The value of the first member with the key, if there is one.
pub open spec fn lookup(m: Seq<(Seq<char>, JsonView)>, key: Seq<char>) -> Option<JsonView>
    decreases m.len(),
{
    if m.len() == 0 {
        None
    } else if m[0].0 == key {
        Some(m[0].1)
    } else {
        lookup(m.skip(1), key)
    }
}

impl JsonView {
    /// The member of an object; no other value has members.
    pub open spec fn get(self, key: Seq<char>) -> Option<JsonView> {
        match self {
            JsonView::Object(m) => lookup(m, key),
            _ => None,
        }
    }

    pub open spec fn as_str(self) -> Option<Seq<char>> {
        match self {
            JsonView::Text(s) => Some(s),
            _ => None,
        }
    }

    pub open spec fn as_array(self) -> Option<Seq<JsonView>> {
        match self {
            JsonView::Array(a) => Some(a),
            _ => None,
        }
    }

    pub open spec fn as_bool(self) -> Option<bool> {
        match self {
            JsonView::Bool(b) => Some(b),
            _ => None,
        }
    }

    /// The number, where it is an integer that fits in 64 bits without sign.
    pub open spec fn as_u64(self) -> Option<int> {
        match self {
            JsonView::Number(NumberView::Integer(n)) => if 0 <= n <= u64::MAX {
                Some(n)
            } else {
                None
            },
            _ => None,
        }
    }

    /// The number, where it is an integer that fits in 64 bits with sign.
    pub open spec fn as_i64(self) -> Option<int> {
        match self {
            JsonView::Number(NumberView::Integer(n)) => if i64::MIN <= n <= i64::MAX {
                Some(n)
            } else {
                None
            },
            _ => None,
        }
    }

    /// The member `key`, or null.
    pub open spec fn member(self, key: Seq<char>) -> JsonView {
        match self.get(key) {
            Some(v) => v,
            None => JsonView::Null,
        }
    }

    /// The items of a list; none for any other value.
    pub open spec fn items(self) -> Seq<JsonView> {
        match self {
            JsonView::Array(a) => a,
            _ => Seq::empty(),
        }
    }

    /// The text of the member `key`, where it is a text.
    pub open spec fn str_at(self, key: Seq<char>) -> Option<Seq<char>> {
        match self.get(key) {
            Some(v) => v.as_str(),
            None => None,
        }
    }

    /// The text of the member `key`, or `default`.
    pub open spec fn str_or(self, key: Seq<char>, default: Seq<char>) -> Seq<char> {
        match self.str_at(key) {
            Some(s) => s,
            None => default,
        }
    }

    /// The list of the member `key`, where it is a list.
    pub open spec fn array_at(self, key: Seq<char>) -> Option<Seq<JsonView>> {
        match self.get(key) {
            Some(v) => v.as_array(),
            None => None,
        }
    }

    pub open spec fn u64_at(self, key: Seq<char>) -> Option<int> {
        match self.get(key) {
            Some(v) => v.as_u64(),
            None => None,
        }
    }

    pub open spec fn i64_at(self, key: Seq<char>) -> Option<int> {
        match self.get(key) {
            Some(v) => v.as_i64(),
            None => None,
        }
    }

    pub open spec fn bool_at(self, key: Seq<char>) -> Option<bool> {
        match self.get(key) {
            Some(v) => v.as_bool(),
            None => None,
        }
    }
}

/// An optional text, seen as an optional sequence of characters.
pub open spec fn opt_text(o: Option<&str>) -> Option<Seq<char>> {
    match o {
        Some(s) => Some(s@),
        None => None,
    }
}

impl Json {
    /// The member `key` of an object.
    pub fn get(&self, key: &str) -> (r: Option<&Json>)
        ensures
            match r {
                Some(v) => self@.get(key@) == Some(v@),
                None => self@.get(key@) is None,
            },
    {
        match self {
            Json::Object(m) => {
                proof {
                    object_view(*m);
                }
                let ghost all = pairs(m@);
                let mut i: usize = 0;
                assert(all.skip(0) =~= all);
                while i < m.len()
                    invariant
                        i <= m@.len(),
                        all == pairs(m@),
                        lookup(all, key@) == lookup(all.skip(i as int), key@),
                        self@ == JsonView::Object(all),
                    decreases m@.len() - i,
                {
                    assert(all.skip(i as int)[0] == all[i as int]);
                    if same(m[i].key.as_str(), key) {
                        return Some(&m[i].value);
                    }
                    assert(all.skip(i as int).skip(1) =~= all.skip(i + 1));
                    i = i + 1;
                }
                None
            },
            _ => None,
        }
    }

    pub fn as_str(&self) -> (r: Option<&str>)
        ensures
            opt_text(r) == self@.as_str(),
    {
        match self {
            Json::Text(s) => Some(s.as_str()),
            _ => None,
        }
    }

    pub fn as_array(&self) -> (r: Option<&Vec<Json>>)
        ensures
            match r {
                Some(v) => self@ == JsonView::Array(views(v@)),
                None => self@.as_array() is None,
            },
    {
        match self {
            Json::Array(v) => {
                proof {
                    array_view(*v);
                }
                Some(v)
            },
            _ => None,
        }
    }

    pub fn as_bool(&self) -> (r: Option<bool>)
        ensures
            r == self@.as_bool(),
    {
        match self {
            Json::Bool(b) => Some(*b),
            _ => None,
        }
    }

    pub fn is_null(&self) -> (r: bool)
        ensures
            r == (self@ is Null),
    {
        match self {
            Json::Null => true,
            _ => false,
        }
    }

    pub fn as_u64(&self) -> (r: Option<u64>)
        ensures
            match r {
                Some(n) => self@.as_u64() == Some(n as int),
                None => self@.as_u64() is None,
            },
    {
        match self {
            Json::Number(Number::PosInt(n)) => Some(*n),
            Json::Number(Number::NegInt(n)) => if *n >= 0 {
                Some(*n as u64)
            } else {
                None
            },
            _ => None,
        }
    }

    pub fn as_i64(&self) -> (r: Option<i64>)
        ensures
            match r {
                Some(n) => self@.as_i64() == Some(n as int),
                None => self@.as_i64() is None,
            },
    {
        match self {
            Json::Number(Number::PosInt(n)) => if *n <= 0x7fff_ffff_ffff_ffff {
                Some(*n as i64)
            } else {
                None
            },
            Json::Number(Number::NegInt(n)) => Some(*n),
            _ => None,
        }
    }

    /// The text of the member `key`, where it is a text.
    pub fn str_at(&self, key: &str) -> (r: Option<&str>)
        ensures
            opt_text(r) == self@.str_at(key@),
    {
        match self.get(key) {
            Some(v) => v.as_str(),
            None => None,
        }
    }

    /// The text of the member `key`, or `default`.
    pub fn str_or<'a>(&'a self, key: &str, default: &'a str) -> (r: &'a str)
        ensures
            r@ == self@.str_or(key@, default@),
    {
        match self.str_at(key) {
            Some(s) => s,
            None => default,
        }
    }

    /// The list of the member `key`, where it is a list.
    pub fn array_at(&self, key: &str) -> (r: Option<&Vec<Json>>)
        ensures
            match r {
                Some(v) => self@.array_at(key@) == Some(views(v@)),
                None => self@.array_at(key@) is None,
            },
    {
        match self.get(key) {
            Some(v) => v.as_array(),
            None => None,
        }
    }

    pub fn u64_at(&self, key: &str) -> (r: Option<u64>)
        ensures
            match r {
                Some(n) => self@.u64_at(key@) == Some(n as int),
                None => self@.u64_at(key@) is None,
            },
    {
        match self.get(key) {
            Some(v) => v.as_u64(),
            None => None,
        }
    }

    pub fn i64_at(&self, key: &str) -> (r: Option<i64>)
        ensures
            match r {
                Some(n) => self@.i64_at(key@) == Some(n as int),
                None => self@.i64_at(key@) is None,
            },
    {
        match self.get(key) {
            Some(v) => v.as_i64(),
            None => None,
        }
    }

    pub fn bool_at(&self, key: &str) -> (r: Option<bool>)
        ensures
            r == self@.bool_at(key@),
    {
        match self.get(key) {
            Some(v) => v.as_bool(),
            None => None,
        }
    }
}

/// The members with `key` set to `value`: in place where the key is there
/// already, else in front of the first larger key.
pub open spec fn put(m: Seq<(Seq<char>, JsonView)>, key: Seq<char>, value: JsonView) -> Seq<
    (Seq<char>, JsonView),
>
    decreases m.len(),
{
    if m.len() == 0 {
        seq![(key, value)]
    } else if m[0].0 == key {
        seq![(key, value)] + m.skip(1)
    } else if lex_lt(key, m[0].0) {
        seq![(key, value)] + m
    } else {
        seq![m[0]] + put(m.skip(1), key, value)
    }
}

/// Distinct keys in code-point order.
pub open spec fn keys_ordered(m: Seq<(Seq<char>, JsonView)>) -> bool {
    forall|i: int, j: int| 0 <= i < j < m.len() ==> lex_lt(#[trigger] m[i].0, #[trigger] m[j].0)
}

impl JsonView {
    /// The object with `key` set to `value`; a value of another kind as it is.
    pub open spec fn with(self, key: Seq<char>, value: JsonView) -> JsonView {
        match self {
            JsonView::Object(m) => JsonView::Object(put(m, key, value)),
            _ => self,
        }
    }

    /// The object with `key` set to the text, where there is one.
    pub open spec fn with_text(self, key: Seq<char>, value: Option<Seq<char>>) -> JsonView {
        match value {
            Some(s) => self.with(key, JsonView::Text(s)),
            None => self,
        }
    }

    /// In every object of the value the keys are distinct and in order.
    pub open spec fn well_formed(self) -> bool
        decreases self,
    {
        match self {
            JsonView::Array(a) => forall|i: int|
                0 <= i < a.len() ==> (#[trigger] a[i]).well_formed(),
            JsonView::Object(m) => keys_ordered(m) && (forall|i: int|
                0 <= i < m.len() ==> (#[trigger] m[i]).1.well_formed()),
            _ => true,
        }
    }
}

/// The object without members.
pub open spec fn empty_object() -> JsonView {
    JsonView::Object(Seq::empty())
}

/// An integer as a JSON number.
pub open spec fn json_int(n: int) -> JsonView {
    JsonView::Number(NumberView::Integer(n))
}

/// The position at which `put` acts, counted from `i` on.
proof fn put_skip(m: Seq<(Seq<char>, JsonView)>, i: int, key: Seq<char>, value: JsonView)
    requires
        0 <= i <= m.len(),
        forall|k: int| 0 <= k < i ==> (#[trigger] m[k]).0 != key && !lex_lt(key, m[k].0),
    ensures
        put(m, key, value) == m.take(i) + put(m.skip(i), key, value),
    decreases i,
{
    if i == 0 {
        assert(m.skip(0) =~= m);
        assert(m.take(0) + put(m, key, value) =~= put(m, key, value));
    } else {
        let rest = m.skip(1);
        assert forall|k: int| 0 <= k < i - 1 implies (#[trigger] rest[k]).0 != key && !lex_lt(
            key,
            rest[k].0,
        ) by {
            assert(rest[k] == m[k + 1]);
        }
        put_skip(rest, i - 1, key, value);
        assert(rest.skip(i - 1) =~= m.skip(i));
        assert(m[0].0 != key);
        assert(seq![m[0]] + (rest.take(i - 1) + put(m.skip(i), key, value)) =~= m.take(i) + put(
            m.skip(i),
            key,
            value,
        ));
    }
}

/// Reading a member gives back what was last set under its key, and setting
/// a member leaves every other member as it was.
pub broadcast proof fn get_after_with(
    j: JsonView,
    key: Seq<char>,
    value: JsonView,
    other: Seq<char>,
)
    requires
        j is Object,
    ensures
        #[trigger] j.with(key, value).get(other) == if other == key {
            Some(value)
        } else {
            j.get(other)
        },
{
    lookup_after_put(j->Object_0, key, value, other);
}

/// The empty object has no member.
pub broadcast proof fn empty_has_no_member(key: Seq<char>)
    ensures
        #[trigger] empty_object().get(key) is None,
{
}

/// Setting a member leaves an object an object.
pub broadcast proof fn with_stays_object(j: JsonView, key: Seq<char>, value: JsonView)
    ensures
        #[trigger] j.with(key, value) is Object == j is Object,
{
}

proof fn lookup_after_put(
    m: Seq<(Seq<char>, JsonView)>,
    key: Seq<char>,
    value: JsonView,
    other: Seq<char>,
)
    ensures
        lookup(put(m, key, value), other) == if other == key {
            Some(value)
        } else {
            lookup(m, other)
        },
    decreases m.len(),
{
    reveal_with_fuel(lookup, 2);
    let p = put(m, key, value);
    if m.len() == 0 {
        assert(p.skip(1) =~= Seq::empty());
    } else if m[0].0 == key {
        assert(p.skip(1) =~= m.skip(1));
    } else if lex_lt(key, m[0].0) {
        assert(p.skip(1) =~= m);
    } else {
        lookup_after_put(m.skip(1), key, value, other);
        assert(p.skip(1) =~= put(m.skip(1), key, value));
    }
}

proof fn put_members(m: Seq<(Seq<char>, JsonView)>, key: Seq<char>, value: JsonView)
    ensures
        forall|i: int|
            0 <= i < put(m, key, value).len() ==> #[trigger] put(m, key, value)[i] == (key, value)
                || m.contains(put(m, key, value)[i]),
    decreases m.len(),
{
    let p = put(m, key, value);
    if m.len() > 0 && m[0].0 != key && !lex_lt(key, m[0].0) {
        put_members(m.skip(1), key, value);
        let rest = m.skip(1);
        let q = put(rest, key, value);
        assert forall|i: int| 0 <= i < p.len() implies #[trigger] p[i] == (key, value)
            || m.contains(p[i]) by {
            if i > 0 {
                assert(p[i] == q[i - 1]);
                if rest.contains(q[i - 1]) {
                    let k = choose|k: int| 0 <= k < rest.len() && rest[k] == q[i - 1];
                    assert(m[k + 1] == p[i]);
                }
            } else {
                assert(p[0] == m[0]);
            }
        }
    } else if m.len() > 0 {
        assert forall|i: int| 0 <= i < p.len() implies #[trigger] p[i] == (key, value)
            || m.contains(p[i]) by {
            if i > 0 {
                if m[0].0 == key {
                    assert(p[i] == m[i]);
                } else {
                    assert(p[i] == m[i - 1]);
                }
            }
        }
    }
}

proof fn put_keeps_order(m: Seq<(Seq<char>, JsonView)>, key: Seq<char>, value: JsonView)
    requires
        keys_ordered(m),
    ensures
        keys_ordered(put(m, key, value)),
    decreases m.len(),
{
    let p = put(m, key, value);
    if m.len() == 0 {
    } else if m[0].0 == key {
        assert forall|i: int, j: int| 0 <= i < j < p.len() implies lex_lt(
            #[trigger] p[i].0,
            #[trigger] p[j].0,
        ) by {
            assert(p[j].0 == m[j].0);
            assert(p[i].0 == m[i].0);
        }
    } else if lex_lt(key, m[0].0) {
        assert forall|i: int, j: int| 0 <= i < j < p.len() implies lex_lt(
            #[trigger] p[i].0,
            #[trigger] p[j].0,
        ) by {
            assert(p[j] == m[j - 1]);
            if i > 0 {
                assert(p[i] == m[i - 1]);
            } else if j > 1 {
                lex_transitive(key, m[0].0, m[j - 1].0);
            }
        }
    } else {
        let rest = m.skip(1);
        assert(keys_ordered(rest)) by {
            assert forall|i: int, j: int| 0 <= i < j < rest.len() implies lex_lt(
                #[trigger] rest[i].0,
                #[trigger] rest[j].0,
            ) by {
                assert(rest[i] == m[i + 1]);
                assert(rest[j] == m[j + 1]);
            }
        }
        put_keeps_order(rest, key, value);
        put_members(rest, key, value);
        lex_total(key, m[0].0);
        let q = put(rest, key, value);
        assert forall|i: int, j: int| 0 <= i < j < p.len() implies lex_lt(
            #[trigger] p[i].0,
            #[trigger] p[j].0,
        ) by {
            assert(p[j] == q[j - 1]);
            if i > 0 {
                assert(p[i] == q[i - 1]);
            } else {
                assert(q[j - 1] == (key, value) || rest.contains(q[j - 1]));
                if q[j - 1] != (key, value) {
                    let k = choose|k: int| 0 <= k < rest.len() && rest[k] == q[j - 1];
                    assert(m[k + 1] == q[j - 1]);
                }
            }
        }
    }
}

/// Setting a member keeps every object's keys distinct and in order.
pub broadcast proof fn with_keeps_well_formed(j: JsonView, key: Seq<char>, value: JsonView)
    requires
        j.well_formed(),
        value.well_formed(),
    ensures
        #[trigger] j.with(key, value).well_formed(),
{
    match j {
        JsonView::Object(m) => {
            put_keeps_order(m, key, value);
            put_members(m, key, value);
            let p = put(m, key, value);
            assert forall|i: int| 0 <= i < p.len() implies (#[trigger] p[i]).1.well_formed() by {
                if p[i] != (key, value) {
                    assert(m.contains(p[i]));
                    let k = choose|k: int| 0 <= k < m.len() && m[k] == p[i];
                    assert(m[k].1.well_formed());
                }
            }
        },
        _ => {},
    }
}

/// A value without members has no keys out of order.
pub broadcast proof fn scalar_well_formed(j: JsonView)
    ensures
        !(j is Array) && !(j is Object) ==> #[trigger] j.well_formed(),
{
}

/// The object without members has no keys out of order.
pub broadcast proof fn empty_object_well_formed()
    ensures
        #[trigger] empty_object().well_formed(),
{
}

/// A list of texts has no keys out of order.
pub broadcast proof fn text_list_well_formed(t: Seq<Seq<char>>)
    ensures
        #[trigger] text_list(t).well_formed(),
{
    reveal_with_fuel(JsonView::well_formed, 2);
}

pub broadcast group group_well_formed {
    with_keeps_well_formed,
    scalar_well_formed,
    empty_object_well_formed,
    text_list_well_formed,
}

/// A member with the given key and value.
pub fn member(key: &str, value: Json) -> (r: Member)
    ensures
        r.key@ == key@,
        r.value == value,
{
    Member { key: key.to_owned(), value }
}

/// A text as a JSON value.
pub fn text(s: &str) -> (r: Json)
    ensures
        r@ == JsonView::Text(s@),
{
    Json::Text(s.to_owned())
}

/// A number as a JSON value.
pub fn number(n: u64) -> (r: Json)
    ensures
        r@ == json_int(n as int),
{
    Json::Number(Number::PosInt(n))
}

/// A signed number as a JSON value.
pub fn signed(n: i64) -> (r: Json)
    ensures
        r@ == json_int(n as int),
{
    if n >= 0 {
        Json::Number(Number::PosInt(n as u64))
    } else {
        Json::Number(Number::NegInt(n))
    }
}

/// A list as a JSON value.
pub fn array(v: Vec<Json>) -> (r: Json)
    ensures
        r@ == JsonView::Array(views(v@)),
{
    proof {
        array_view(v);
    }
    Json::Array(v)
}

/// The object without members.
pub fn object() -> (r: Json)
    ensures
        r@ == empty_object(),
{
    let m: Vec<Member> = Vec::new();
    proof {
        object_view(m);
        assert(pairs(m@) =~= Seq::empty());
    }
    Json::Object(m)
}

impl Json {
    /// The object with `key` set to `value`; a value of another kind as it is.
    pub fn with(self, key: &str, value: Json) -> (r: Json)
        ensures
            r@ == self@.with(key@, value@),
    {
        match self {
            Json::Object(m) => {
                proof {
                    object_view(m);
                }
                let ghost all = pairs(m@);
                let mut m = m;
                let mut i: usize = 0;
                while i < m.len() && before(m[i].key.as_str(), key)
                    invariant
                        i <= m@.len(),
                        all == pairs(m@),
                        forall|k: int|
                            0 <= k < i ==> (#[trigger] all[k]).0 != key@ && !lex_lt(key@, all[k].0),
                    decreases m@.len() - i,
                {
                    proof {
                        assert(all[i as int].0 == m@[i as int].key@);
                        lex_irreflexive(key@);
                        if lex_lt(key@, all[i as int].0) {
                            lex_transitive(key@, all[i as int].0, key@);
                        }
                    }
                    i = i + 1;
                }
                proof {
                    put_skip(all, i as int, key@, value@);
                }
                let ghost tail = all.skip(i as int);
                if i < m.len() && same(m[i].key.as_str(), key) {
                    assert(tail[0] == all[i as int]);
                    let item = member(key, value);
                    m.set(i, item);
                    proof {
                        assert(pairs(m@) =~= all.take(i as int) + (seq![(key@, value@)]
                            + tail.skip(1)));
                    }
                } else {
                    proof {
                        if i < m.len() {
                            assert(tail[0] == all[i as int]);
                            assert(all[i as int].0 == m@[i as int].key@);
                            lex_total(key@, all[i as int].0);
                        } else {
                            assert(tail =~= Seq::empty());
                        }
                    }
                    m.insert(i, member(key, value));
                    proof {
                        assert(pairs(m@) =~= all.take(i as int) + (seq![(key@, value@)] + tail));
                        assert(seq![(key@, value@)] + Seq::<(Seq<char>, JsonView)>::empty()
                            =~= seq![(key@, value@)]);
                    }
                }
                proof {
                    object_view(m);
                }
                Json::Object(m)
            },
            other => other,
        }
    }

    /// The object with `key` set to the text, where there is one.
    pub fn with_text(self, key: &str, value: Option<&str>) -> (r: Json)
        ensures
            r@ == self@.with_text(key@, opt_text(value)),
    {
        match value {
            Some(s) => self.with(key, text(s)),
            None => self,
        }
    }

    /// A copy of the member `key`, or null.
    pub fn member(&self, key: &str) -> (r: Json)
        ensures
            r@ == self@.member(key@),
    {
        match self.get(key) {
            Some(v) => v.copy(),
            None => Json::Null,
        }
    }

    /// Copies of the items of a list; none for any other value.
    pub fn items(&self) -> (r: Vec<Json>)
        ensures
            views(r@) == self@.items(),
    {
        let mut out: Vec<Json> = Vec::new();
        assert(views(out@) =~= Seq::empty());
        if let Some(v) = self.as_array() {
            let mut i: usize = 0;
            while i < v.len()
                invariant
                    i <= v@.len(),
                    out@.len() == i,
                    forall|k: int| 0 <= k < i ==> (#[trigger] out@[k])@ == v@[k]@,
                decreases v@.len() - i,
            {
                out.push(v[i].copy());
                i = i + 1;
            }
            assert(views(out@) =~= views(v@));
        }
        out
    }

    /// A copy of the value.
    pub fn copy(&self) -> (r: Json)
        ensures
            r@ == self@,
        decreases self,
    {
        match self {
            Json::Null => Json::Null,
            Json::Bool(b) => Json::Bool(*b),
            Json::Number(n) => Json::Number(
                match n {
                    Number::PosInt(k) => Number::PosInt(*k),
                    Number::NegInt(k) => Number::NegInt(*k),
                    Number::Decimal(t) => Number::Decimal(t.clone()),
                },
            ),
            Json::Text(s) => Json::Text(s.clone()),
            Json::Array(v) => {
                let mut out: Vec<Json> = Vec::new();
                let mut i: usize = 0;
                while i < v.len()
                    invariant
                        i <= v@.len(),
                        self == Json::Array(*v),
                        views(out@) == views(v@).take(i as int),
                    decreases v@.len() - i,
                {
                    assert(decreases_to!(self => self->Array_0@[i as int]));
                    let item = v[i].copy();
                    let ghost old_out = out@;
                    out.push(item);
                    i = i + 1;
                    assert(views(out@) =~= views(old_out).push(item@));
                    assert(views(out@) =~= views(v@).take(i as int));
                }
                proof {
                    array_view(out);
                    array_view(*v);
                    assert(views(v@).take(i as int) =~= views(v@));
                }
                Json::Array(out)
            },
            Json::Object(m) => {
                let mut out: Vec<Member> = Vec::new();
                let mut i: usize = 0;
                while i < m.len()
                    invariant
                        i <= m@.len(),
                        self == Json::Object(*m),
                        pairs(out@) == pairs(m@).take(i as int),
                    decreases m@.len() - i,
                {
                    assert(decreases_to!(self => self->Object_0@[i as int].value));
                    let value = m[i].value.copy();
                    let item = member(m[i].key.as_str(), value);
                    let ghost old_out = out@;
                    out.push(item);
                    i = i + 1;
                    assert(pairs(out@) =~= pairs(old_out).push((item.key@, item.value@)));
                    assert(pairs(out@) =~= pairs(m@).take(i as int));
                }
                proof {
                    object_view(out);
                    object_view(*m);
                    assert(pairs(m@).take(i as int) =~= pairs(m@));
                }
                Json::Object(out)
            },
        }
    }
}

/// An optional text as a JSON value: the text, or null.
pub open spec fn text_or_null(o: Option<Seq<char>>) -> JsonView {
    match o {
        Some(s) => JsonView::Text(s),
        None => JsonView::Null,
    }
}

/// A list of texts as a JSON value.
pub open spec fn text_list(t: Seq<Seq<char>>) -> JsonView {
    JsonView::Array(Seq::new(t.len(), |i: int| JsonView::Text(t[i])))
}

/// An optional text as a JSON value: the text, or null.
pub fn or_null(o: Option<&str>) -> (r: Json)
    ensures
        r@ == text_or_null(opt_text(o)),
{
    match o {
        Some(s) => text(s),
        None => Json::Null,
    }
}

/// A list of texts as a JSON value.
pub fn list_of_texts(v: &Vec<String>) -> (r: Json)
    ensures
        r@ == text_list(crate::text::texts(v@)),
{
    let mut out: Vec<Json> = Vec::new();
    let mut i: usize = 0;
    while i < v.len()
        invariant
            i <= v@.len(),
            out@.len() == i,
            forall|k: int| 0 <= k < i ==> (#[trigger] out@[k])@ == JsonView::Text(v@[k]@),
        decreases v@.len() - i,
    {
        out.push(text(v[i].as_str()));
        i = i + 1;
    }
    proof {
        array_view(out);
        assert(views(out@) =~= text_list(crate::text::texts(v@))->Array_0);
    }
    Json::Array(out)
}

/// An optional text, borrowed.
pub fn opt_ref(o: &Option<String>) -> (r: Option<&str>)
    ensures
        opt_text(r) == crate::scan::opt_string(*o),
{
    match o {
        Some(s) => Some(s.as_str()),
        None => None,
    }
}

} // verus!
