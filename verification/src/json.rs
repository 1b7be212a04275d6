//! JSON documents as the library reads and writes them.
//!
//! Bodies that a BMC sends are turned into `JsonValue` at the edge; the
//! library then reads them, and builds the bodies it sends, as `JsonValue`.

use vstd::prelude::*;

use crate::error::{is_invalid_key_type, is_missing_key, RedfishError};
use crate::text;

verus! {

broadcast use vstd::std_specs::vec::group_vec_axioms, vstd::seq::group_seq_axioms;

/// A JSON number: a non-negative integer, a negative integer, or a
/// floating point number kept as its IEEE bit pattern. JSON holds no NaN or
/// infinity; negative zero is the same number as zero (see `number_view`).
#[derive(Clone, Copy, Debug, PartialEq, Eq, Structural)]
pub enum JsonNumber {
    PosInt(u64),
    NegInt(i64),
    Float(u64),
}

/// A JSON document. An object keeps its members in order.
#[derive(Debug)]
pub enum JsonValue {
    Null,
    Bool(bool),
    Number(JsonNumber),
    String(String),
    Array(Vec<JsonValue>),
    Object(Vec<(String, JsonValue)>),
}

/// The mathematical model of a JSON document.
pub enum JsonView {
    Null,
    Bool(bool),
    Number(JsonNumber),
    String(Seq<char>),
    Array(Seq<JsonView>),
    Object(Seq<(Seq<char>, JsonView)>),
}

/// The bit pattern of the floating point negative zero.
pub const NEGATIVE_ZERO_BITS: u64 = 0x8000_0000_0000_0000u64;

/// The model of a number: negative zero is zero, since the two compare equal.
pub open spec fn number_view(n: JsonNumber) -> JsonNumber {
    match n {
        JsonNumber::Float(b) => if b == NEGATIVE_ZERO_BITS {
            JsonNumber::Float(0)
        } else {
            JsonNumber::Float(b)
        },
        _ => n,
    }
}

/// Whether two numbers are the same, as `serde_json`'s `Number` compares them:
/// integers by kind and value, floating point numbers as `f64` (negative zero
/// equal to zero).
pub fn same_number(x: JsonNumber, y: JsonNumber) -> (r: bool)
    ensures
        r == (number_view(x) == number_view(y)),
{
    match (x, y) {
        (JsonNumber::Float(a), JsonNumber::Float(b)) => {
            let a0 = if a == NEGATIVE_ZERO_BITS { 0 } else { a };
            let b0 = if b == NEGATIVE_ZERO_BITS { 0 } else { b };
            a0 == b0
        },
        _ => x == y,
    }
}

/// The model of a document.
pub open spec fn view_value(v: JsonValue) -> JsonView
    decreases v,
{
    match v {
        JsonValue::Null => JsonView::Null,
        JsonValue::Bool(b) => JsonView::Bool(b),
        JsonValue::Number(n) => JsonView::Number(number_view(n)),
        JsonValue::String(s) => JsonView::String(s@),
        JsonValue::Array(a) => JsonView::Array(view_values(a@)),
        JsonValue::Object(o) => JsonView::Object(view_entries(o@)),
    }
}

/// The models of a sequence of documents.
pub open spec fn view_values(s: Seq<JsonValue>) -> Seq<JsonView>
    decreases s,
{
    if s.len() == 0 {
        Seq::empty()
    } else {
        seq![view_value(s[0])] + view_values(s.drop_first())
    }
}

/// The models of the members of an object.
pub open spec fn view_entries(s: Seq<(String, JsonValue)>) -> Seq<(Seq<char>, JsonView)>
    decreases s,
{
    if s.len() == 0 {
        Seq::empty()
    } else {
        seq![(s[0].0@, view_value(s[0].1))] + view_entries(s.drop_first())
    }
}

impl View for JsonValue {
    type V = JsonView;

    open spec fn view(&self) -> JsonView {
        view_value(*self)
    }
}

/// The value of the first member named `key`.
pub open spec fn lookup(entries: Seq<(Seq<char>, JsonView)>, key: Seq<char>) -> Option<JsonView>
    decreases entries.len(),
{
    if entries.len() == 0 {
        None
    } else if entries[0].0 == key {
        Some(entries[0].1)
    } else {
        lookup(entries.drop_first(), key)
    }
}

impl JsonView {
    /// The member `key` of an object; nothing for any other document.
    pub open spec fn get(self, key: Seq<char>) -> Option<JsonView> {
        match self {
            JsonView::Object(e) => lookup(e, key),
            _ => None,
        }
    }

    pub open spec fn as_str(self) -> Option<Seq<char>> {
        match self {
            JsonView::String(s) => Some(s),
            _ => None,
        }
    }

    pub open spec fn as_bool(self) -> Option<bool> {
        match self {
            JsonView::Bool(b) => Some(b),
            _ => None,
        }
    }

    pub open spec fn as_object(self) -> Option<Seq<(Seq<char>, JsonView)>> {
        match self {
            JsonView::Object(e) => Some(e),
            _ => None,
        }
    }

    pub open spec fn as_array(self) -> Option<Seq<JsonView>> {
        match self {
            JsonView::Array(a) => Some(a),
            _ => None,
        }
    }
}

/// The model of a sequence has its length and holds the model of each element.
pub broadcast proof fn lemma_view_values(s: Seq<JsonValue>)
    ensures
        (#[trigger] view_values(s)).len() == s.len(),
        forall|i: int|
            #![trigger view_values(s)[i]]
            #![trigger s[i]]
            0 <= i < s.len() ==> view_values(s)[i] == view_value(s[i]),
    decreases s.len(),
{
    if s.len() > 0 {
        lemma_view_values(s.drop_first());
        assert forall|i: int| 0 <= i < s.len() implies #[trigger] view_values(s)[i] == view_value(
            s[i],
        ) by {
            if i > 0 {
                assert(s.drop_first()[i - 1] == s[i]);
            }
        }
    }
}

/// The model of a member list has its length and holds the model of each member.
pub broadcast proof fn lemma_view_entries(s: Seq<(String, JsonValue)>)
    ensures
        (#[trigger] view_entries(s)).len() == s.len(),
        forall|i: int|
            #![trigger view_entries(s)[i]]
            #![trigger s[i]]
            0 <= i < s.len() ==> view_entries(s)[i] == (s[i].0@, view_value(s[i].1)),
    decreases s.len(),
{
    if s.len() > 0 {
        lemma_view_entries(s.drop_first());
        assert forall|i: int| 0 <= i < s.len() implies #[trigger] view_entries(s)[i] == (
            s[i].0@,
            view_value(s[i].1),
        ) by {
            if i > 0 {
                assert(s.drop_first()[i - 1] == s[i]);
            }
        }
    }
}

pub broadcast group group_json_view {
    lemma_view_values,
    lemma_view_entries,
}

/// Appending a member appends its model.
pub proof fn lemma_view_entries_push(s: Seq<(String, JsonValue)>, e: (String, JsonValue))
    ensures
        view_entries(s.push(e)) == view_entries(s).push((e.0@, view_value(e.1))),
{
    lemma_view_entries(s);
    lemma_view_entries(s.push(e));
    assert(view_entries(s.push(e)) =~= view_entries(s).push((e.0@, view_value(e.1)))) by {
        assert forall|i: int| 0 <= i < s.len() + 1 implies #[trigger] view_entries(s.push(e))[i]
            == view_entries(s).push((e.0@, view_value(e.1)))[i] by {
            assert(s.push(e)[i] == if i < s.len() {
                s[i]
            } else {
                e
            });
        }
    }
}

/// Appending an element appends its model.
pub proof fn lemma_view_values_push(s: Seq<JsonValue>, e: JsonValue)
    ensures
        view_values(s.push(e)) == view_values(s).push(view_value(e)),
{
    lemma_view_values(s);
    lemma_view_values(s.push(e));
    assert(view_values(s.push(e)) =~= view_values(s).push(view_value(e))) by {
        assert forall|i: int| 0 <= i < s.len() + 1 implies #[trigger] view_values(s.push(e))[i]
            == view_values(s).push(view_value(e))[i] by {
            assert(s.push(e)[i] == if i < s.len() {
                s[i]
            } else {
                e
            });
        }
    }
}

/// `lookup` finds the first member with the key.
pub proof fn lemma_lookup_first(entries: Seq<(Seq<char>, JsonView)>, key: Seq<char>, i: int)
    requires
        0 <= i <= entries.len(),
        forall|j: int| 0 <= j < i ==> #[trigger] entries[j].0 != key,
    ensures
        i < entries.len() && entries[i].0 == key ==> lookup(entries, key) == Some(entries[i].1),
        i == entries.len() ==> lookup(entries, key) is None,
    decreases i,
{
    if i > 0 {
        assert(entries[0].0 != key);
        assert forall|j: int| 0 <= j < i - 1 implies #[trigger] entries.drop_first()[j].0 != key by {
            assert(entries.drop_first()[j] == entries[j + 1]);
        }
        lemma_lookup_first(entries.drop_first(), key, i - 1);
    }
}

impl JsonValue {
    /// A JSON string.
    pub fn string(s: &str) -> (r: JsonValue)
        ensures
            r@ == JsonView::String(s@),
    {
        JsonValue::String(s.to_string())
    }

    /// The member `key` of an object, as `serde_json::Value::get` finds it.
    pub fn get(&self, key: &str) -> (r: Option<&JsonValue>)
        ensures
            match r {
                Some(v) => self@.get(key@) == Some(v@),
                None => self@.get(key@) is None,
            },
    {
        broadcast use group_json_view;

        match self {
            JsonValue::Object(entries) => {
                let n = entries.len();
                let ghost ev = view_entries(entries@);
                proof {
                    lemma_view_entries(entries@);
                }
                assert(self@ == JsonView::Object(ev));
                for i in 0..n
                    invariant
                        n == entries@.len(),
                        ev == view_entries(entries@),
                        ev.len() == n,
                        self@ == JsonView::Object(ev),
                        forall|j: int| 0 <= j < n ==> ev[j] == (#[trigger] entries@[j].0@, view_value(entries@[j].1)),
                        forall|j: int| 0 <= j < i ==> #[trigger] ev[j].0 != key@,
                {
                    if text::str_eq(entries[i].0.as_str(), key) {
                        proof {
                            assert(ev[i as int].0 == key@);
                            assert(ev[i as int].1 == entries@[i as int].1@);
                            lemma_lookup_first(ev, key@, i as int);
                        }
                        return Some(&entries[i].1);
                    }
                }
                proof {
                    lemma_lookup_first(ev, key@, n as int);
                }
                None
            },
            _ => None,
        }
    }

    /// The text of a JSON string.
    pub fn as_str(&self) -> (r: Option<&String>)
        ensures
            match r {
                Some(s) => self@.as_str() == Some(s@),
                None => self@.as_str() is None,
            },
    {
        match self {
            JsonValue::String(s) => Some(s),
            _ => None,
        }
    }

    /// The value of a JSON boolean.
    pub fn as_bool(&self) -> (r: Option<bool>)
        ensures
            r == self@.as_bool(),
    {
        match self {
            JsonValue::Bool(b) => Some(*b),
            _ => None,
        }
    }

    /// The members of a JSON object.
    pub fn as_object(&self) -> (r: Option<&Vec<(String, JsonValue)>>)
        ensures
            match r {
                Some(o) => self@.as_object() == Some(view_entries(o@)),
                None => self@.as_object() is None,
            },
    {
        match self {
            JsonValue::Object(o) => Some(o),
            _ => None,
        }
    }

    /// The elements of a JSON array.
    pub fn as_array(&self) -> (r: Option<&Vec<JsonValue>>)
        ensures
            match r {
                Some(a) => self@.as_array() == Some(view_values(a@)),
                None => self@.as_array() is None,
            },
    {
        match self {
            JsonValue::Array(a) => Some(a),
            _ => None,
        }
    }
}

/// Whether two documents are the same, as `serde_json::Value`'s `==` compares them
/// (members compared in order).
pub fn json_eq(a: &JsonValue, b: &JsonValue) -> (r: bool)
    ensures
        r == (a@ == b@),
    decreases a,
{
    broadcast use group_json_view;

    match a {
        JsonValue::Null => match b {
            JsonValue::Null => true,
            _ => false,
        },
        JsonValue::Bool(x) => match b {
            JsonValue::Bool(y) => *x == *y,
            _ => false,
        },
        JsonValue::Number(x) => match b {
            JsonValue::Number(y) => same_number(*x, *y),
            _ => false,
        },
        JsonValue::String(x) => match b {
            JsonValue::String(y) => text::str_eq(x.as_str(), y.as_str()),
            _ => false,
        },
        JsonValue::Array(x) => match b {
            JsonValue::Array(y) => {
                let ghost xv = view_values(x@);
                let ghost yv = view_values(y@);
                assert(a@ == JsonView::Array(xv));
                assert(b@ == JsonView::Array(yv));
                if x.len() != y.len() {
                    assert(xv.len() != yv.len());
                    return false;
                }
                let n = x.len();
                proof {
                    lemma_view_values(x@);
                    lemma_view_values(y@);
                }
                for i in 0..n
                    invariant
                        n == x@.len(),
                        n == y@.len(),
                        xv == view_values(x@),
                        yv == view_values(y@),
                        *a == JsonValue::Array(*x),
                        a@ == JsonView::Array(xv),
                        b@ == JsonView::Array(yv),
                        xv.len() == n,
                        yv.len() == n,
                        forall|j: int| 0 <= j < n ==> #[trigger] xv[j] == view_value(x@[j]),
                        forall|j: int| 0 <= j < n ==> #[trigger] yv[j] == view_value(y@[j]),
                        forall|j: int| 0 <= j < i ==> xv[j] == yv[j],
                {
                    proof {
                        assert(decreases_to!(*a => *x));
                        assert(decreases_to!(*x => x@));
                        assert(decreases_to!(x@ => x@[i as int]));
                    }
                    if !json_eq(&x[i], &y[i]) {
                        assert(xv[i as int] != yv[i as int]);
                        return false;
                    }
                }
                assert(xv =~= yv);
                true
            },
            _ => false,
        },
        JsonValue::Object(x) => match b {
            JsonValue::Object(y) => {
                let ghost xv = view_entries(x@);
                let ghost yv = view_entries(y@);
                assert(a@ == JsonView::Object(xv));
                assert(b@ == JsonView::Object(yv));
                if x.len() != y.len() {
                    assert(xv.len() != yv.len());
                    return false;
                }
                let n = x.len();
                proof {
                    lemma_view_entries(x@);
                    lemma_view_entries(y@);
                }
                for i in 0..n
                    invariant
                        n == x@.len(),
                        n == y@.len(),
                        xv == view_entries(x@),
                        yv == view_entries(y@),
                        *a == JsonValue::Object(*x),
                        a@ == JsonView::Object(xv),
                        b@ == JsonView::Object(yv),
                        xv.len() == n,
                        yv.len() == n,
                        forall|j: int| 0 <= j < n ==> #[trigger] xv[j] == (x@[j].0@, view_value(x@[j].1)),
                        forall|j: int| 0 <= j < n ==> #[trigger] yv[j] == (y@[j].0@, view_value(y@[j].1)),
                        forall|j: int| 0 <= j < i ==> xv[j] == yv[j],
                {
                    proof {
                        assert(decreases_to!(*a => *x));
                        assert(decreases_to!(*x => x@));
                        assert(decreases_to!(x@ => x@[i as int]));
                        assert(decreases_to!(x@[i as int] => x@[i as int].1));
                    }
                    if !text::str_eq(x[i].0.as_str(), y[i].0.as_str()) {
                        assert(xv[i as int].0 != yv[i as int].0);
                        return false;
                    }
                    if !json_eq(&x[i].1, &y[i].1) {
                        assert(xv[i as int].1 != yv[i as int].1);
                        return false;
                    }
                }
                assert(xv =~= yv);
                true
            },
            _ => false,
        },
    }
}

/// An owned copy of a document.
pub fn deep_clone(val: &JsonValue) -> (r: JsonValue)
    ensures
        r@ == val@,
    decreases val,
{
    broadcast use group_json_view;

    match val {
        JsonValue::Null => JsonValue::Null,
        JsonValue::Bool(b) => JsonValue::Bool(*b),
        JsonValue::Number(n) => JsonValue::Number(*n),
        JsonValue::String(s) => JsonValue::String(s.clone()),
        JsonValue::Array(x) => {
            let n = x.len();
            let mut out: Vec<JsonValue> = Vec::new();
            let ghost xv = view_values(x@);
            proof {
                lemma_view_values(x@);
            }
            assert(val@ == JsonView::Array(xv));
            for i in 0..n
                invariant
                    n == x@.len(),
                    *val == JsonValue::Array(*x),
                    val@ == JsonView::Array(xv),
                    xv == view_values(x@),
                    xv.len() == n,
                    forall|j: int| 0 <= j < n ==> #[trigger] xv[j] == view_value(x@[j]),
                    view_values(out@) == xv.take(i as int),
            {
                proof {
                    assert(decreases_to!(*x => x@));
                    assert(decreases_to!(x@ => x@[i as int]));
                }
                let c = deep_clone(&x[i]);
                proof {
                    lemma_view_values_push(out@, c);
                }
                out.push(c);
                assert(xv.take(i + 1) =~= xv.take(i as int).push(xv[i as int]));
            }
            assert(xv.take(n as int) =~= xv);
            JsonValue::Array(out)
        },
        JsonValue::Object(x) => {
            let n = x.len();
            let mut out: Vec<(String, JsonValue)> = Vec::new();
            let ghost xv = view_entries(x@);
            proof {
                lemma_view_entries(x@);
            }
            assert(val@ == JsonView::Object(xv));
            for i in 0..n
                invariant
                    n == x@.len(),
                    *val == JsonValue::Object(*x),
                    val@ == JsonView::Object(xv),
                    xv == view_entries(x@),
                    xv.len() == n,
                    forall|j: int| 0 <= j < n ==> #[trigger] xv[j] == (x@[j].0@, view_value(x@[j].1)),
                    view_entries(out@) == xv.take(i as int),
            {
                proof {
                    assert(decreases_to!(*x => x@));
                    assert(decreases_to!(x@ => x@[i as int]));
                    assert(decreases_to!(x@[i as int] => x@[i as int].1));
                }
                let c = deep_clone(&x[i].1);
                let k = x[i].0.clone();
                proof {
                    lemma_view_entries_push(out@, (k, c));
                }
                out.push((k, c));
                assert(xv.take(i + 1) =~= xv.take(i as int).push(xv[i as int]));
            }
            assert(xv.take(n as int) =~= xv);
            JsonValue::Object(out)
        },
    }
}

/// The member list with the first member named `key` given the value
/// `value`, or with `key: value` appended when no member has that name.
pub open spec fn set_entry(
    entries: Seq<(Seq<char>, JsonView)>,
    key: Seq<char>,
    value: JsonView,
) -> Seq<(Seq<char>, JsonView)>
    decreases entries.len(),
{
    if entries.len() == 0 {
        seq![(key, value)]
    } else if entries[0].0 == key {
        seq![(key, value)] + entries.drop_first()
    } else {
        seq![entries[0]] + set_entry(entries.drop_first(), key, value)
    }
}

/// An object with its member `key` set to `value` (as inserting into a
/// `serde_json` map does); any other document unchanged.
pub open spec fn with_member(doc: JsonView, key: Seq<char>, value: JsonView) -> JsonView {
    match doc {
        JsonView::Object(e) => JsonView::Object(set_entry(e, key, value)),
        _ => doc,
    }
}

/// The member `key` of `doc`, or `null` when it has none.
pub open spec fn member_or_null(doc: JsonView, key: Seq<char>) -> JsonView {
    match doc.get(key) {
        Some(v) => v,
        None => JsonView::Null,
    }
}

/// `set_entry` at the first member with the key, or at the end.
proof fn lemma_set_entry_at(
    entries: Seq<(Seq<char>, JsonView)>,
    key: Seq<char>,
    value: JsonView,
    i: int,
)
    requires
        0 <= i <= entries.len(),
        forall|j: int| 0 <= j < i ==> #[trigger] entries[j].0 != key,
        i < entries.len() ==> entries[i].0 == key,
    ensures
        set_entry(entries, key, value) == if i < entries.len() {
            entries.update(i, (key, value))
        } else {
            entries.push((key, value))
        },
    decreases i,
{
    if i > 0 {
        let rest = entries.drop_first();
        assert(entries[0].0 != key);
        assert forall|j: int| 0 <= j < i - 1 implies #[trigger] rest[j].0 != key by {
            assert(rest[j] == entries[j + 1]);
        }
        if i < entries.len() {
            assert(rest[i - 1] == entries[i]);
        }
        lemma_set_entry_at(rest, key, value, i - 1);
        if i < entries.len() {
            assert(seq![entries[0]] + rest.update(i - 1, (key, value)) =~= entries.update(i, (key, value)));
        } else {
            assert(seq![entries[0]] + rest.push((key, value)) =~= entries.push((key, value)));
        }
    } else if entries.len() > 0 {
        assert(seq![(key, value)] + entries.drop_first() =~= entries.update(0, (key, value)));
    } else {
        assert(seq![(key, value)] =~= entries.push((key, value)));
    }
}

/// The document with its member `key` set to `value`, when it is an object.
pub fn with_member_set(doc: JsonValue, key: &str, value: JsonValue) -> (r: JsonValue)
    ensures
        r@ == with_member(doc@, key@, value@),
{
    broadcast use group_json_view;

    match doc {
        JsonValue::Object(entries) => {
            let mut entries = entries;
            let ghost ev = view_entries(entries@);
            let n = entries.len();
            let mut i: usize = 0;
            while i < n
                invariant
                    n == entries@.len(),
                    ev == view_entries(entries@),
                    ev.len() == n,
                    i <= n,
                    forall|j: int| 0 <= j < n ==> #[trigger] ev[j] == (entries@[j].0@, view_value(entries@[j].1)),
                    forall|j: int| 0 <= j < i ==> #[trigger] ev[j].0 != key@,
                ensures
                    i <= n,
                    i < n ==> ev[i as int].0 == key@,
                decreases n - i,
            {
                if text::str_eq(entries[i].0.as_str(), key) {
                    break;
                }
                i = i + 1;
            }
            proof {
                lemma_set_entry_at(ev, key@, value@, i as int);
            }
            let ghost vv = value@;
            if i < n {
                entries.set(i, (key.to_string(), value));
                assert(view_entries(entries@) =~= ev.update(i as int, (key@, vv)));
            } else {
                entries.push((key.to_string(), value));
                assert(view_entries(entries@) =~= ev.push((key@, vv)));
            }
            JsonValue::Object(entries)
        },
        other => other,
    }
}

/// A copy of the member `key` of `doc`, or `null` when it has none.
pub fn member_or_null_of(doc: &JsonValue, key: &str) -> (r: JsonValue)
    ensures
        r@ == member_or_null(doc@, key@),
{
    match doc.get(key) {
        Some(v) => deep_clone(v),
        None => JsonValue::Null,
    }
}

/// Appends the member `key: value` to an object's member list.
pub fn push_member(o: &mut Vec<(String, JsonValue)>, key: &str, value: JsonValue)
    ensures
        view_entries(final(o)@) == view_entries(old(o)@).push((key@, value@)),
{
    let k = key.to_string();
    proof {
        lemma_view_entries_push(o@, (k, value));
    }
    o.push((k, value));
}

/// Appends an element to an array's element list.
pub fn push_element(a: &mut Vec<JsonValue>, value: JsonValue)
    ensures
        view_values(final(a)@) == view_values(old(a)@).push(value@),
{
    proof {
        lemma_view_values_push(a@, value);
    }
    a.push(value);
}

/// An array of JSON strings.
pub fn string_array(items: &Vec<String>) -> (r: JsonValue)
    ensures
        r@ == JsonView::Array(Seq::new(items@.len(), |i: int| JsonView::String(items@[i]@))),
{
    let n = items.len();
    let mut out: Vec<JsonValue> = Vec::new();
    for i in 0..n
        invariant
            n == items@.len(),
            view_values(out@) == Seq::new(i as nat, |j: int| JsonView::String(items@[j]@)),
    {
        push_element(&mut out, JsonValue::string(items[i].as_str()));
        assert(view_values(out@) =~= Seq::new((i + 1) as nat, |j: int| JsonView::String(items@[j]@)));
    }
    JsonValue::Array(out)
}

/// The member `key` of `body`, or `MissingKey` when it has none.
pub fn require_key<'a>(body: &'a JsonValue, key: &str, url: &str) -> (r: Result<
    &'a JsonValue,
    RedfishError,
>)
    ensures
        match r {
            Ok(v) => body@.get(key@) == Some(v@),
            Err(e) => body@.get(key@) is None && is_missing_key(e, key@, url@),
        },
{
    match body.get(key) {
        Some(v) => Ok(v),
        None => Err(RedfishError::missing_key(key, url)),
    }
}

/// The text of `v`, the member `key` at `url`, or `InvalidKeyType` naming `&str`.
pub fn require_str<'a>(v: &'a JsonValue, key: &str, url: &str) -> (r: Result<
    &'a String,
    RedfishError,
>)
    ensures
        match r {
            Ok(s) => v@.as_str() == Some(s@),
            Err(e) => v@.as_str() is None && is_invalid_key_type(e, key@, "&str"@, url@),
        },
{
    match v.as_str() {
        Some(s) => Ok(s),
        None => Err(RedfishError::invalid_key_type(key, "&str", url)),
    }
}

/// The value of `v`, the member `key` at `url`, or `InvalidKeyType` naming `bool`.
pub fn require_bool(v: &JsonValue, key: &str, url: &str) -> (r: Result<bool, RedfishError>)
    ensures
        match r {
            Ok(b) => v@.as_bool() == Some(b),
            Err(e) => v@.as_bool() is None && is_invalid_key_type(e, key@, "bool"@, url@),
        },
{
    match v.as_bool() {
        Some(b) => Ok(b),
        None => Err(RedfishError::invalid_key_type(key, "bool", url)),
    }
}

/// The members of `v`, the member `key` at `url`, or `InvalidKeyType` naming `Object`.
pub fn require_object<'a>(v: &'a JsonValue, key: &str, url: &str) -> (r: Result<
    &'a Vec<(String, JsonValue)>,
    RedfishError,
>)
    ensures
        match r {
            Ok(o) => v@.as_object() == Some(view_entries(o@)),
            Err(e) => v@.as_object() is None && is_invalid_key_type(e, key@, "Object"@, url@),
        },
{
    match v.as_object() {
        Some(o) => Ok(o),
        None => Err(RedfishError::invalid_key_type(key, "Object", url)),
    }
}

/// `doc` has a member `key` that is a string.
pub open spec fn str_member_ok(doc: JsonView, key: Seq<char>) -> bool {
    doc.get(key) matches Some(v) && v.as_str() is Some
}

/// The string member `key` of `doc`.
pub open spec fn str_member(doc: JsonView, key: Seq<char>) -> Seq<char> {
    doc.get(key).unwrap().as_str().unwrap()
}

/// `e` is the error that reading the string member `key` of `doc` at `url`
/// fails with: `MissingKey` when there is no such member, `InvalidKeyType`
/// naming `&str` when it is not a string.
pub open spec fn str_member_error(doc: JsonView, key: Seq<char>, url: Seq<char>, e: RedfishError) -> bool {
    ||| doc.get(key) is None && is_missing_key(e, key, url)
    ||| doc.get(key) matches Some(v) && v.as_str() is None && is_invalid_key_type(e, key, "&str"@, url)
}

/// `doc` has a member `key` that is a boolean.
pub open spec fn bool_member_ok(doc: JsonView, key: Seq<char>) -> bool {
    doc.get(key) matches Some(v) && v.as_bool() is Some
}

/// The boolean member `key` of `doc`.
pub open spec fn bool_member(doc: JsonView, key: Seq<char>) -> bool {
    doc.get(key).unwrap().as_bool().unwrap()
}

/// `e` is the error that reading the boolean member `key` of `doc` at `url`
/// fails with.
pub open spec fn bool_member_error(doc: JsonView, key: Seq<char>, url: Seq<char>, e: RedfishError) -> bool {
    ||| doc.get(key) is None && is_missing_key(e, key, url)
    ||| doc.get(key) matches Some(v) && v.as_bool() is None && is_invalid_key_type(e, key, "bool"@, url)
}

/// `doc` has a member `key` that is an object.
pub open spec fn obj_member_ok(doc: JsonView, key: Seq<char>) -> bool {
    doc.get(key) matches Some(v) && v.as_object() is Some
}

/// `e` is the error that reading the object member `key` of `doc` at `url`
/// fails with.
pub open spec fn obj_member_error(doc: JsonView, key: Seq<char>, url: Seq<char>, e: RedfishError) -> bool {
    ||| doc.get(key) is None && is_missing_key(e, key, url)
    ||| doc.get(key) matches Some(v) && v.as_object() is None && is_invalid_key_type(e, key, "Object"@, url)
}

/// The string member `key` of `doc`; `url` names the document in the error.
pub fn str_member_of<'a>(doc: &'a JsonValue, key: &str, url: &str) -> (r: Result<&'a String, RedfishError>)
    ensures
        match r {
            Ok(s) => str_member_ok(doc@, key@) && s@ == str_member(doc@, key@),
            Err(e) => !str_member_ok(doc@, key@) && str_member_error(doc@, key@, url@, e),
        },
{
    let v = require_key(doc, key, url)?;
    require_str(v, key, url)
}

/// The boolean member `key` of `doc`; `url` names the document in the error.
pub fn bool_member_of(doc: &JsonValue, key: &str, url: &str) -> (r: Result<bool, RedfishError>)
    ensures
        match r {
            Ok(b) => bool_member_ok(doc@, key@) && b == bool_member(doc@, key@),
            Err(e) => !bool_member_ok(doc@, key@) && bool_member_error(doc@, key@, url@, e),
        },
{
    let v = require_key(doc, key, url)?;
    require_bool(v, key, url)
}

/// The object member `key` of `doc`; `url` names the document in the error.
pub fn obj_member_of<'a>(doc: &'a JsonValue, key: &str, url: &str) -> (r: Result<&'a JsonValue, RedfishError>)
    ensures
        match r {
            Ok(o) => obj_member_ok(doc@, key@) && doc@.get(key@) == Some(o@),
            Err(e) => !obj_member_ok(doc@, key@) && obj_member_error(doc@, key@, url@, e),
        },
{
    let v = require_key(doc, key, url)?;
    let _ = require_object(v, key, url)?;
    Ok(v)
}

/// `reported` holds every member of `written` with the written value.
pub open spec fn holds_all(
    reported: Seq<(Seq<char>, JsonView)>,
    written: Seq<(Seq<char>, JsonView)>,
) -> bool {
    forall|i: int| 0 <= i < written.len() ==> lookup(reported, #[trigger] written[i].0) == Some(
        written[i].1,
    )
}

} // verus!
