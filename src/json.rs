//! The JSON document model the binder reads, and its decoder from text.
use vstd::prelude::*;

verus! {

#[verifier::external_type_specification]
#[verifier::external_body]
pub struct ExValue(serde_json::Value);

#[verifier::external_type_specification]
#[verifier::external_body]
pub struct ExNumber(serde_json::Number);

#[verifier::external_type_specification]
#[verifier::external_body]
pub struct ExJsonError(serde_json::Error);

/// Relies on the derived `Clone` of `serde_json::Number`: the copy is equal.
pub assume_specification[ <serde_json::Number as Clone>::clone ](n: &serde_json::Number) -> (r:
    serde_json::Number)
    ensures
        r == *n,
;

/// A JSON value. Object members are held in the order of the document they
/// come from; a decoded document has them sorted by name, as `serde_json`'s
/// map keeps them.
#[derive(Debug)]
pub enum Json {
    Null,
    Bool(bool),
    Number(serde_json::Number),
    Str(String),
    Array(Vec<Json>),
    Object(Vec<(String, Json)>),
}

/// The value a `Json` stands for.
pub enum JsonView {
    Null,
    Bool(bool),
    Number(serde_json::Number),
    Str(Seq<char>),
    Array(Seq<JsonView>),
    Object(Seq<(Seq<char>, JsonView)>),
}

pub open spec fn view_of(j: Json) -> JsonView
    decreases j,
{
    match j {
        Json::Null => JsonView::Null,
        Json::Bool(b) => JsonView::Bool(b),
        Json::Number(n) => JsonView::Number(n),
        Json::Str(s) => JsonView::Str(s@),
        Json::Array(v) => JsonView::Array(
            Seq::new(
                v@.len(),
                |i: int|
                    if 0 <= i < v@.len() {
                        view_of(v@[i])
                    } else {
                        JsonView::Null
                    },
            ),
        ),
        Json::Object(es) => JsonView::Object(
            Seq::new(
                es@.len(),
                |i: int|
                    if 0 <= i < es@.len() {
                        (es@[i].0@, view_of(es@[i].1))
                    } else {
                        (Seq::empty(), JsonView::Null)
                    },
            ),
        ),
    }
}

impl View for Json {
    type V = JsonView;

    open spec fn view(&self) -> JsonView {
        view_of(*self)
    }
}

/// The value of the first member named `key`, if any.
pub open spec fn entry_of(entries: Seq<(Seq<char>, JsonView)>, key: Seq<char>) -> Option<JsonView>
    decreases entries.len(),
{
    if entries.len() == 0 {
        None
    } else if entries[0].0 == key {
        Some(entries[0].1)
    } else {
        entry_of(entries.drop_first(), key)
    }
}

/// The member `key` of `j`; `None` where `j` is no object or lacks the member.
pub open spec fn member(j: JsonView, key: Seq<char>) -> Option<JsonView> {
    match j {
        JsonView::Object(es) => entry_of(es, key),
        _ => None,
    }
}

/// Looks up the member `key` of `j`.
pub fn get_member<'a>(j: &'a Json, key: &str) -> (r: Option<&'a Json>)
    ensures
        match r {
            Some(v) => member(j@, key@) == Some(v@),
            None => member(j@, key@) is None,
        },
{
    match j {
        Json::Object(es) => {
            let k = key.to_owned();
            let ghost ev = j@->Object_0;
            let mut i: usize = 0;
            assert(ev.skip(0) =~= ev);
            while i < es.len()
                invariant
                    0 <= i <= es@.len(),
                    k@ == key@,
                    ev.len() == es@.len(),
                    forall|m: int| 0 <= m < ev.len() ==> #[trigger] ev[m] == (es@[m].0@, es@[m].1@),
                    member(j@, key@) == entry_of(ev, key@),
                    entry_of(ev, key@) == entry_of(ev.skip(i as int), key@),
                decreases es@.len() - i,
            {
                proof {
                    assert(ev.skip(i as int).drop_first() =~= ev.skip(i + 1));
                    assert(ev.skip(i as int)[0] == ev[i as int]);
                }
                if es[i].0 == k {
                    assert(entry_of(ev.skip(i as int), key@) == Some(es@[i as int].1@));
                    return Some(&es[i].1);
                }
                i = i + 1;
            }
            None
        },
        _ => None,
    }
}

/// One level of a `serde_json::Value`, its children by reference.
pub enum Node<'a> {
    Null,
    Bool(bool),
    Number(serde_json::Number),
    Str(String),
    Array(&'a Vec<serde_json::Value>),
    Object(Vec<(&'a String, &'a serde_json::Value)>),
}

/// The value a `serde_json::Value` holds.
pub uninterp spec fn value_doc(v: serde_json::Value) -> JsonView;

/// Relies on the variants of `serde_json::Value`: tells them apart and hands
/// out each one's contents; an object's members in the order its map holds them.
#[verifier::external_body]
fn node_of(v: &serde_json::Value) -> (r: Node<'_>)
    ensures
        match r {
            Node::Null => value_doc(*v) == JsonView::Null,
            Node::Bool(b) => value_doc(*v) == JsonView::Bool(b),
            Node::Number(n) => value_doc(*v) == JsonView::Number(n),
            Node::Str(s) => value_doc(*v) == JsonView::Str(s@),
            Node::Array(items) => value_doc(*v) == JsonView::Array(
                items@.map_values(|x: serde_json::Value| value_doc(x)),
            ),
            Node::Object(ms) => value_doc(*v) == JsonView::Object(
                ms@.map_values(|m: (&String, &serde_json::Value)| (m.0@, value_doc(*m.1))),
            ),
        },
{
    match v {
        serde_json::Value::Null => Node::Null,
        serde_json::Value::Bool(b) => Node::Bool(*b),
        serde_json::Value::Number(n) => Node::Number(n.clone()),
        serde_json::Value::String(s) => Node::Str(s.clone()),
        serde_json::Value::Array(a) => Node::Array(a),
        serde_json::Value::Object(m) => Node::Object(m.iter().collect()),
    }
}

/// Whether `b` is one UTF-8 encoded JSON text, as `serde_json` reads it.
pub uninterp spec fn is_json_text(b: Seq<u8>) -> bool;

/// The document a UTF-8 encoded JSON text holds, as `serde_json` reads it.
pub uninterp spec fn document_of(b: Seq<u8>) -> JsonView;

/// Relies on `serde_json::from_slice` into a `Value`: it succeeds exactly on
/// the inputs it accepts, and what it reads depends on the bytes alone.
#[verifier::external_body]
fn parse_value(b: &[u8]) -> (r: Result<serde_json::Value, serde_json::Error>)
    ensures
        r is Ok <==> is_json_text(b@),
        r matches Ok(v) ==> value_doc(v) == document_of(b@),
{
    serde_json::from_slice::<serde_json::Value>(b)
}

fn from_value(v: &serde_json::Value) -> (r: Json)
    ensures
        r@ == value_doc(*v),
    decreases value_doc(*v),
{
    match node_of(v) {
        Node::Null => Json::Null,
        Node::Bool(b) => Json::Bool(b),
        Node::Number(n) => Json::Number(n),
        Node::Str(s) => Json::Str(s),
        Node::Array(items) => {
            let ghost d = value_doc(*v);
            let mut out: Vec<Json> = Vec::new();
            for i in 0..items.len()
                invariant
                    d == value_doc(*v),
                    d == JsonView::Array(items@.map_values(|x: serde_json::Value| value_doc(x))),
                    out@.len() == i,
                    forall|k: int| 0 <= k < i ==> #[trigger] out@[k]@ == value_doc(items@[k]),
            {
                proof {
                    let s = d->Array_0;
                    assert(s[i as int] == value_doc(items@[i as int]));
                    assert(decreases_to!(s => s[i as int]));
                }
                let x = from_value(&items[i]);
                out.push(x);
            }
            let r = Json::Array(out);
            assert forall|k: int| 0 <= k < out@.len() implies r@->Array_0[k] == d->Array_0[k] by {
                assert(out@[k]@ == value_doc(items@[k]));
            }
            assert(r@->Array_0 =~= d->Array_0);
            r
        },
        Node::Object(members) => {
            let ghost d = value_doc(*v);
            let mut out: Vec<(String, Json)> = Vec::new();
            for i in 0..members.len()
                invariant
                    d == value_doc(*v),
                    d == JsonView::Object(
                        members@.map_values(
                            |m: (&String, &serde_json::Value)| (m.0@, value_doc(*m.1)),
                        ),
                    ),
                    out@.len() == i,
                    forall|k: int|
                        0 <= k < i ==> (#[trigger] out@[k]).0@ == members@[k].0@ && out@[k].1@
                            == value_doc(*members@[k].1),
            {
                let (k, x) = members[i];
                proof {
                    let s = d->Object_0;
                    assert(s[i as int] == (k@, value_doc(*x)));
                    assert(decreases_to!(s => s[i as int]));
                    assert(decreases_to!(s[i as int] => s[i as int].1));
                    assert(decreases_to!(d => value_doc(*x)));
                }
                let y = from_value(x);
                out.push((k.clone(), y));
            }
            let r = Json::Object(out);
            assert forall|k: int| 0 <= k < out@.len() implies r@->Object_0[k] == d->Object_0[k] by {
                assert(out@[k].0@ == members@[k].0@);
            }
            assert(r@->Object_0 =~= d->Object_0);
            r
        },
    }
}

impl Json {
    /// Decodes a UTF-8 encoded JSON text.
    pub fn parse(text: &[u8]) -> (r: Result<Json, serde_json::Error>)
        ensures
            r is Ok <==> is_json_text(text@),
            r matches Ok(j) ==> j@ == document_of(text@),
    {
        match parse_value(text) {
            Err(e) => Err(e),
            Ok(v) => Ok(from_value(&v)),
        }
    }
}

} // verus!
