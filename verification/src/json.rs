//! The JSON layer: a mathematical model of a JSON document (`JsonView`),
//! trusted declarations for the parser crate's value type and the handful of
//! accessor calls the decoder makes on it, and the spec-level helpers the
//! decoding contracts are written over.

use vstd::prelude::*;

verus! {

#[verifier::external_type_specification]
#[verifier::external_body]
pub struct ExJsonValue(serde_json::Value);

#[verifier::external_type_specification]
#[verifier::external_body]
pub struct ExJsonError(serde_json::Error);

/// The abstract shape of one JSON value: exactly one of the six JSON kinds.
/// Numbers are modelled by their decimal text, an object by the map from its
/// keys to its members, an array by the sequence of its elements.
#[verifier::ext_equal]
pub enum JsonView {
    Null,
    Bool(bool),
    Num(Seq<char>),
    Str(Seq<char>),
    Arr(Seq<JsonView>),
    Obj(Map<Seq<char>, JsonView>),
}

/// The abstract JSON value that a `serde_json::Value` holds.
pub uninterp spec fn jview(v: serde_json::Value) -> JsonView;

/// What parsing a text as one JSON document yields: `None` when the text is
/// not valid JSON, otherwise the single value it denotes.
pub uninterp spec fn json_doc(text: Seq<char>) -> Option<JsonView>;

/// Relies on serde_json::from_str::<Value>: parsing succeeds exactly on valid
/// JSON text, and the parsed value is a function of the text alone.
#[verifier::external_body]
pub(crate) fn parse_json(text: &str) -> (r: Result<serde_json::Value, serde_json::Error>)
    ensures
        r is Ok <==> json_doc(text@) is Some,
        r matches Ok(v) ==> Some(jview(v)) == json_doc(text@),
{
    serde_json::from_str::<serde_json::Value>(text)
}

/// Relies on serde_json::Error's Display impl, for diagnostic text only.
#[verifier::external_body]
pub(crate) fn json_err_text(e: &serde_json::Error) -> String {
    e.to_string()
}

/// Relies on serde_json::Value::is_object.
#[verifier::external_body]
pub(crate) fn v_is_object(v: &serde_json::Value) -> (r: bool)
    ensures
        r == (jview(*v) is Obj),
{
    v.is_object()
}

/// Relies on serde_json::Value::get with a string index: `Some` exactly when
/// the value is an object holding the key, and then the member under it.
#[verifier::external_body]
pub(crate) fn v_get<'a>(v: &'a serde_json::Value, key: &str) -> (r: Option<
    &'a serde_json::Value,
>)
    ensures
        match r {
            Some(f) => jview(*v) is Obj && jview(*v)->Obj_0.contains_key(key@) && jview(*f)
                == jview(*v)->Obj_0[key@],
            None => !(jview(*v) is Obj) || !jview(*v)->Obj_0.contains_key(key@),
        },
{
    v.get(key)
}

/// Relies on serde_json::Value::is_null.
#[verifier::external_body]
pub(crate) fn v_is_null(v: &serde_json::Value) -> (r: bool)
    ensures
        r == (jview(*v) is Null),
{
    v.is_null()
}

/// Relies on serde_json::Value::as_bool: `Some` exactly on a boolean.
#[verifier::external_body]
pub(crate) fn v_as_bool(v: &serde_json::Value) -> (r: Option<bool>)
    ensures
        match r {
            Some(b) => jview(*v) == JsonView::Bool(b),
            None => !(jview(*v) is Bool),
        },
{
    v.as_bool()
}

/// Relies on serde_json::Value::as_str: `Some` exactly on a string.
#[verifier::external_body]
pub(crate) fn v_as_str<'a>(v: &'a serde_json::Value) -> (r: Option<&'a str>)
    ensures
        match r {
            Some(s) => jview(*v) is Str && s@ == jview(*v)->Str_0,
            None => !(jview(*v) is Str),
        },
{
    v.as_str()
}

/// Relies on serde_json::Value::as_array: `Some` exactly on an array, and the
/// elements are the array's members in order.
#[verifier::external_body]
pub(crate) fn v_as_array<'a>(v: &'a serde_json::Value) -> (r: Option<&'a Vec<serde_json::Value>>)
    ensures
        match r {
            Some(a) => jview(*v) is Arr && a@.len() == jview(*v)->Arr_0.len() && (forall|i: int|
                0 <= i < a@.len() ==> jview(a@[i]) == jview(*v)->Arr_0[i]),
            None => !(jview(*v) is Arr),
        },
{
    v.as_array()
}

/// Relies on serde_json::Value::as_number and Number's Display impl: `Some`
/// exactly on a number, and the text depends on the number's value alone.
#[verifier::external_body]
pub(crate) fn v_num_text(v: &serde_json::Value) -> (r: Option<String>)
    ensures
        match r {
            Some(s) => jview(*v) is Num && s@ == jview(*v)->Num_0,
            None => !(jview(*v) is Num),
        },
{
    match v.as_number() {
        Some(n) => Some(n.to_string()),
        None => None,
    }
}

/// Relies on serde_json::Value's Clone impl: the clone holds the same value.
#[verifier::external_body]
pub(crate) fn v_clone(v: &serde_json::Value) -> (r: serde_json::Value)
    ensures
        jview(r) == jview(*v),
{
    v.clone()
}

// ---------------------------------------------------------------------------
// Spec-level helpers over an object's member map. Each mirrors how one field
// kind is read: `None` means the document does not conform at that field.
// ---------------------------------------------------------------------------

/// A required string member: present and a string, else a decoding failure.
pub open spec fn req_str(m: Map<Seq<char>, JsonView>, k: Seq<char>) -> Option<Seq<char>> {
    if m.contains_key(k) {
        match m[k] {
            JsonView::Str(s) => Some(s),
            _ => None,
        }
    } else {
        None
    }
}

/// An optional string member: absent or null reads as absent; a string reads
/// as present; anything else is a decoding failure.
pub open spec fn opt_str(m: Map<Seq<char>, JsonView>, k: Seq<char>) -> Option<Option<Seq<char>>> {
    if !m.contains_key(k) {
        Some(None)
    } else {
        match m[k] {
            JsonView::Str(s) => Some(Some(s)),
            JsonView::Null => Some(None),
            _ => None,
        }
    }
}

/// A required number member, read as its decimal text.
pub open spec fn req_num(m: Map<Seq<char>, JsonView>, k: Seq<char>) -> Option<Seq<char>> {
    if m.contains_key(k) {
        match m[k] {
            JsonView::Num(s) => Some(s),
            _ => None,
        }
    } else {
        None
    }
}

/// An optional number member, read as its decimal text.
pub open spec fn opt_num(m: Map<Seq<char>, JsonView>, k: Seq<char>) -> Option<Option<Seq<char>>> {
    if !m.contains_key(k) {
        Some(None)
    } else {
        match m[k] {
            JsonView::Num(s) => Some(Some(s)),
            JsonView::Null => Some(None),
            _ => None,
        }
    }
}

/// A required boolean member.
pub open spec fn req_bool(m: Map<Seq<char>, JsonView>, k: Seq<char>) -> Option<bool> {
    if m.contains_key(k) {
        match m[k] {
            JsonView::Bool(b) => Some(b),
            _ => None,
        }
    } else {
        None
    }
}

/// A member an object does not hold reads as absent — never as an empty
/// string, zero, or any other placeholder.
pub proof fn lemma_absent_member_reads_absent(m: Map<Seq<char>, JsonView>, k: Seq<char>)
    requires
        !m.contains_key(k),
    ensures
        opt_str(m, k) == Some(None::<Seq<char>>),
        opt_num(m, k) == Some(None::<Seq<char>>),
        opt_elem(m, k) is None,
{
}

/// An optional structured member: absent and null both read as absent; any
/// other value is handed on (its own decoder judges it).
pub open spec fn opt_elem(m: Map<Seq<char>, JsonView>, k: Seq<char>) -> Option<JsonView> {
    if m.contains_key(k) && !(m[k] is Null) {
        Some(m[k])
    } else {
        None
    }
}

/// A required structured member: present is handed on, absent is a failure
/// (signalled by `None` here).
pub open spec fn req_elem(m: Map<Seq<char>, JsonView>, k: Seq<char>) -> Option<JsonView> {
    if m.contains_key(k) {
        Some(m[k])
    } else {
        None
    }
}

/// Element-wise decoding of an array: every element must decode, and the
/// results keep the array's length and order.
pub open spec fn dec_elems<T>(s: Seq<JsonView>, f: spec_fn(JsonView) -> Option<T>) -> Option<
    Seq<T>,
>
    decreases s.len(),
{
    if s.len() == 0 {
        Some(Seq::empty())
    } else {
        match (dec_elems(s.drop_last(), f), f(s.last())) {
            (Some(rest), Some(t)) => Some(rest.push(t)),
            _ => None,
        }
    }
}

/// One undecodable element makes the whole array undecodable.
pub proof fn lemma_dec_elems_none<T>(s: Seq<JsonView>, f: spec_fn(JsonView) -> Option<T>, i: int)
    requires
        0 <= i < s.len(),
        f(s[i]) is None,
    ensures
        dec_elems(s, f) is None,
    decreases s.len(),
{
    if i < s.len() - 1 {
        assert(s.drop_last()[i] == s[i]);
        lemma_dec_elems_none(s.drop_last(), f, i);
    }
}

} // verus!
