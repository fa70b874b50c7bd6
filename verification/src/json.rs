//! JSON documents as the payload extraction sees them.
//!
//! serde_json does the parsing; its document type is declared here and
//! modelled by the spec datatype [`JsonView`]. The verified extraction
//! code in `models` walks a parsed document through the small trusted
//! accessors below, whose contracts say what each serde_json method
//! returns in terms of the model.

use vstd::prelude::*;

verus! {

/// Spec-level model of a parsed JSON document. Numbers are modelled by
/// what `as_u64` can see of them: `Num(Some(u))` is a number
/// representable as a `u64`, `Num(None)` any other number (negative or
/// fractional); the extraction below only ever needs non-negative
/// integer counters.
pub enum JsonView {
    Null,
    Bool(bool),
    Num(Option<u64>),
    Str(Seq<char>),
    Arr(Seq<JsonView>),
    Obj(Map<Seq<char>, JsonView>),
}

/// Declares serde_json's document type so that values of it can flow
/// through verified code; the value itself stays opaque.
#[verifier::external_type_specification]
#[verifier::external_body]
pub struct ExJsonValue(serde_json::Value);

/// The model of a parsed document value.
pub uninterp spec fn jview(v: serde_json::Value) -> JsonView;

/// What parsing a string as JSON yields: the model of the document,
/// or `None` when serde_json refuses the string. Parsing depends on
/// the string alone.
pub uninterp spec fn json_of(s: Seq<char>) -> Option<JsonView>;

/// The models of a sequence of document values, element-wise.
pub open spec fn jviews(a: Seq<serde_json::Value>) -> Seq<JsonView> {
    a.map_values(|x: serde_json::Value| jview(x))
}

/// Relies on serde_json::from_str: whether a string parses, and to
/// what document, depends on the string alone.
#[verifier::external_body]
pub(crate) fn parse_json_text(s: &str) -> (r: Result<serde_json::Value, String>)
    ensures
        r matches Ok(v) ==> json_of(s@) == Some(jview(v)),
        r matches Err(_) ==> json_of(s@) is None,
{
    match serde_json::from_str::<serde_json::Value>(s) {
        Ok(v) => Ok(v),
        Err(e) => Err(format!("{}", e)),
    }
}

/// Relies on serde_json::Value::get with a string index: the member of
/// that name for an object, `None` for a missing member or any other
/// value.
#[verifier::external_body]
pub(crate) fn j_get<'a>(v: &'a serde_json::Value, k: &str) -> (r: Option<
    &'a serde_json::Value,
>)
    ensures
        (jview(*v) matches JsonView::Obj(m) ==> ((r is Some <==> m.contains_key(k@)) && (
        r matches Some(rv) ==> jview(*rv) == m[k@]))),
        !(jview(*v) is Obj) ==> r is None,
{
    v.get(k)
}

/// Relies on serde_json::Value::is_object.
#[verifier::external_body]
pub(crate) fn j_is_object(v: &serde_json::Value) -> (r: bool)
    ensures
        r == (jview(*v) is Obj),
{
    v.is_object()
}

/// Relies on serde_json::Value::is_null.
#[verifier::external_body]
pub(crate) fn j_is_null(v: &serde_json::Value) -> (r: bool)
    ensures
        r == (jview(*v) is Null),
{
    v.is_null()
}

/// Relies on serde_json::Value::as_str: the characters of a string
/// value, `None` for any other value.
#[verifier::external_body]
pub(crate) fn j_as_str<'a>(v: &'a serde_json::Value) -> (r: Option<&'a str>)
    ensures
        r matches Some(s) ==> jview(*v) == JsonView::Str(s@),
        (r is Some) == (jview(*v) is Str),
{
    v.as_str()
}

/// Relies on serde_json::Value::as_u64: the value of a number
/// representable as `u64`, `None` for other numbers and non-numbers.
#[verifier::external_body]
pub(crate) fn j_as_u64(v: &serde_json::Value) -> (r: Option<u64>)
    ensures
        jview(*v) matches JsonView::Num(o) ==> r == o,
        !(jview(*v) is Num) ==> r is None,
{
    v.as_u64()
}

/// Relies on serde_json::Value::as_bool.
#[verifier::external_body]
pub(crate) fn j_as_bool(v: &serde_json::Value) -> (r: Option<bool>)
    ensures
        r matches Some(b) ==> jview(*v) == JsonView::Bool(b),
        (r is Some) == (jview(*v) is Bool),
{
    v.as_bool()
}

/// Why a payload did not match the expected structure.
#[derive(Debug)]
pub enum JsonError {
    /// The payload, or a member that must be an object, is not one.
    NotAnObject,
    /// A mandatory member is absent; carries the member's name.
    MissingField(String),
    /// A member has the wrong JSON type or range; carries the member's name.
    WrongType(String),
    /// A member holds a string that is not an ISO 8601 duration.
    BadDuration(String),
}

pub enum JsonErrorV {
    NotAnObject,
    MissingField(Seq<char>),
    WrongType(Seq<char>),
    BadDuration(Seq<char>),
}

impl View for JsonError {
    type V = JsonErrorV;

    open spec fn view(&self) -> JsonErrorV {
        match self {
            JsonError::NotAnObject => JsonErrorV::NotAnObject,
            JsonError::MissingField(f) => JsonErrorV::MissingField(f@),
            JsonError::WrongType(f) => JsonErrorV::WrongType(f@),
            JsonError::BadDuration(f) => JsonErrorV::BadDuration(f@),
        }
    }
}

/// An extraction result agrees with its spec-level counterpart: same
/// outcome, and the payload or error seen through its view.
pub open spec fn res_matches<T: DeepView>(
    r: Result<T, JsonError>,
    s: Result<T::V, JsonErrorV>,
) -> bool {
    match r {
        Ok(x) => s == Ok::<T::V, JsonErrorV>(x.deep_view()),
        Err(e) => s == Err::<T::V, JsonErrorV>(e@),
    }
}

/// Relies on serde_json::Value::as_array: the elements of an array
/// value, `None` for any other value.
#[verifier::external_body]
pub(crate) fn j_as_array<'a>(v: &'a serde_json::Value) -> (r: Option<
    &'a Vec<serde_json::Value>,
>)
    ensures
        r matches Some(a) ==> jview(*v) == JsonView::Arr(jviews(a@)),
        (r is Some) == (jview(*v) is Arr),
{
    v.as_array()
}

/// A mandatory counter member: a number that fits in `u32`.
pub open spec fn spec_req_u32(m: Map<Seq<char>, JsonView>, k: Seq<char>) -> Result<
    u32,
    JsonErrorV,
> {
    if !m.contains_key(k) {
        Err(JsonErrorV::MissingField(k))
    } else {
        match m[k] {
            JsonView::Num(o) => match o {
                Some(u) => if u as int <= u32::MAX as int {
                    Ok(u as u32)
                } else {
                    Err(JsonErrorV::WrongType(k))
                },
                None => Err(JsonErrorV::WrongType(k)),
            },
            _ => Err(JsonErrorV::WrongType(k)),
        }
    }
}

pub(crate) fn req_u32(v: &serde_json::Value, k: &str) -> (r: Result<u32, JsonError>)
    requires
        jview(*v) is Obj,
    ensures
        res_matches(r, spec_req_u32(jview(*v)->Obj_0, k@)),
{
    match j_get(v, k) {
        None => Err(JsonError::MissingField(k.to_owned())),
        Some(f) => match j_as_u64(f) {
            Some(u) => if u <= 0xffff_ffffu64 {
                Ok(u as u32)
            } else {
                Err(JsonError::WrongType(k.to_owned()))
            },
            None => Err(JsonError::WrongType(k.to_owned())),
        },
    }
}

/// A mandatory string member.
pub open spec fn spec_req_str(m: Map<Seq<char>, JsonView>, k: Seq<char>) -> Result<
    Seq<char>,
    JsonErrorV,
> {
    if !m.contains_key(k) {
        Err(JsonErrorV::MissingField(k))
    } else {
        match m[k] {
            JsonView::Str(s) => Ok(s),
            _ => Err(JsonErrorV::WrongType(k)),
        }
    }
}

pub(crate) fn req_str(v: &serde_json::Value, k: &str) -> (r: Result<String, JsonError>)
    requires
        jview(*v) is Obj,
    ensures
        res_matches(r, spec_req_str(jview(*v)->Obj_0, k@)),
{
    match j_get(v, k) {
        None => Err(JsonError::MissingField(k.to_owned())),
        Some(f) => match j_as_str(f) {
            Some(s) => Ok(s.to_owned()),
            None => Err(JsonError::WrongType(k.to_owned())),
        },
    }
}

/// A mandatory boolean member.
pub open spec fn spec_req_bool(m: Map<Seq<char>, JsonView>, k: Seq<char>) -> Result<
    bool,
    JsonErrorV,
> {
    if !m.contains_key(k) {
        Err(JsonErrorV::MissingField(k))
    } else {
        match m[k] {
            JsonView::Bool(b) => Ok(b),
            _ => Err(JsonErrorV::WrongType(k)),
        }
    }
}

pub(crate) fn req_bool(v: &serde_json::Value, k: &str) -> (r: Result<bool, JsonError>)
    requires
        jview(*v) is Obj,
    ensures
        res_matches(r, spec_req_bool(jview(*v)->Obj_0, k@)),
{
    match j_get(v, k) {
        None => Err(JsonError::MissingField(k.to_owned())),
        Some(f) => match j_as_bool(f) {
            Some(b) => Ok(b),
            None => Err(JsonError::WrongType(k.to_owned())),
        },
    }
}

/// An optional string member: absent or `null` is "unknown".
pub open spec fn spec_opt_str(m: Map<Seq<char>, JsonView>, k: Seq<char>) -> Result<
    Option<Seq<char>>,
    JsonErrorV,
> {
    if !m.contains_key(k) || m[k] is Null {
        Ok(None)
    } else {
        match m[k] {
            JsonView::Str(s) => Ok(Some(s)),
            _ => Err(JsonErrorV::WrongType(k)),
        }
    }
}

pub(crate) fn opt_str(v: &serde_json::Value, k: &str) -> (r: Result<Option<String>, JsonError>)
    requires
        jview(*v) is Obj,
    ensures
        res_matches(r, spec_opt_str(jview(*v)->Obj_0, k@)),
{
    match j_get(v, k) {
        None => Ok(None),
        Some(f) => if j_is_null(f) {
            Ok(None)
        } else {
            match j_as_str(f) {
                Some(s) => Ok(Some(s.to_owned())),
                None => Err(JsonError::WrongType(k.to_owned())),
            }
        },
    }
}

/// An optional boolean member: absent or `null` is "unknown".
pub open spec fn spec_opt_bool(m: Map<Seq<char>, JsonView>, k: Seq<char>) -> Result<
    Option<bool>,
    JsonErrorV,
> {
    if !m.contains_key(k) || m[k] is Null {
        Ok(None)
    } else {
        match m[k] {
            JsonView::Bool(b) => Ok(Some(b)),
            _ => Err(JsonErrorV::WrongType(k)),
        }
    }
}

pub(crate) fn opt_bool(v: &serde_json::Value, k: &str) -> (r: Result<Option<bool>, JsonError>)
    requires
        jview(*v) is Obj,
    ensures
        res_matches(r, spec_opt_bool(jview(*v)->Obj_0, k@)),
{
    match j_get(v, k) {
        None => Ok(None),
        Some(f) => if j_is_null(f) {
            Ok(None)
        } else {
            match j_as_bool(f) {
                Some(b) => Ok(Some(b)),
                None => Err(JsonError::WrongType(k.to_owned())),
            }
        },
    }
}

/// An optional duration member: absent or `null` is "unknown"; a string
/// that is not an ISO 8601 duration fails.
pub open spec fn spec_opt_duration(m: Map<Seq<char>, JsonView>, k: Seq<char>) -> Result<
    Option<crate::duration::DurationVal>,
    JsonErrorV,
> {
    if !m.contains_key(k) || m[k] is Null {
        Ok(None)
    } else {
        match m[k] {
            JsonView::Str(s) => match crate::duration::spec_parse_duration(s) {
                Some(d) => Ok(Some(d)),
                None => Err(JsonErrorV::BadDuration(k)),
            },
            _ => Err(JsonErrorV::WrongType(k)),
        }
    }
}

pub(crate) fn opt_duration(v: &serde_json::Value, k: &str) -> (r: Result<
    Option<crate::duration::DurationVal>,
    JsonError,
>)
    requires
        jview(*v) is Obj,
    ensures
        res_matches(r, spec_opt_duration(jview(*v)->Obj_0, k@)),
        r matches Ok(Some(d)) ==> d.wf(),
{
    match j_get(v, k) {
        None => Ok(None),
        Some(f) => if j_is_null(f) {
            Ok(None)
        } else {
            match j_as_str(f) {
                Some(s) => match crate::duration::parse_duration(s) {
                    Some(d) => Ok(Some(d)),
                    None => Err(JsonError::BadDuration(k.to_owned())),
                },
                None => Err(JsonError::WrongType(k.to_owned())),
            }
        },
    }
}

/// A mandatory array member, handed out for element-wise extraction.
pub open spec fn spec_req_arr(m: Map<Seq<char>, JsonView>, k: Seq<char>) -> Result<
    Seq<JsonView>,
    JsonErrorV,
> {
    if !m.contains_key(k) {
        Err(JsonErrorV::MissingField(k))
    } else {
        match m[k] {
            JsonView::Arr(a) => Ok(a),
            _ => Err(JsonErrorV::WrongType(k)),
        }
    }
}

pub(crate) fn req_array<'a>(v: &'a serde_json::Value, k: &str) -> (r: Result<
    &'a Vec<serde_json::Value>,
    JsonError,
>)
    requires
        jview(*v) is Obj,
    ensures
        r matches Ok(a) ==> spec_req_arr(jview(*v)->Obj_0, k@) == Ok::<_, JsonErrorV>(
            jviews(a@),
        ),
        r matches Err(e) ==> spec_req_arr(jview(*v)->Obj_0, k@) == Err::<Seq<JsonView>, _>(e@),
{
    match j_get(v, k) {
        None => Err(JsonError::MissingField(k.to_owned())),
        Some(f) => match j_as_array(f) {
            Some(a) => Ok(a),
            None => Err(JsonError::WrongType(k.to_owned())),
        },
    }
}

/// An optional array member: absent or `null` counts as empty.
pub open spec fn spec_opt_arr(m: Map<Seq<char>, JsonView>, k: Seq<char>) -> Result<
    Seq<JsonView>,
    JsonErrorV,
> {
    if !m.contains_key(k) || m[k] is Null {
        Ok(Seq::empty())
    } else {
        match m[k] {
            JsonView::Arr(a) => Ok(a),
            _ => Err(JsonErrorV::WrongType(k)),
        }
    }
}

pub(crate) fn opt_array<'a>(v: &'a serde_json::Value, k: &str) -> (r: Result<
    Option<&'a Vec<serde_json::Value>>,
    JsonError,
>)
    requires
        jview(*v) is Obj,
    ensures
        r matches Ok(Some(a)) ==> spec_opt_arr(jview(*v)->Obj_0, k@) == Ok::<_, JsonErrorV>(
            jviews(a@),
        ),
        r matches Ok(None::<&Vec<serde_json::Value>>) ==> spec_opt_arr(jview(*v)->Obj_0, k@)
            == Ok::<_, JsonErrorV>(Seq::<JsonView>::empty()),
        r matches Err(e) ==> spec_opt_arr(jview(*v)->Obj_0, k@) == Err::<Seq<JsonView>, _>(e@),
{
    match j_get(v, k) {
        None => Ok(None),
        Some(f) => if j_is_null(f) {
            Ok(None)
        } else {
            match j_as_array(f) {
                Some(a) => Ok(Some(a)),
                None => Err(JsonError::WrongType(k.to_owned())),
            }
        },
    }
}

} // verus!
