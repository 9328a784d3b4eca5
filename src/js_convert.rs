//! Converting between native values and host values.
use vstd::prelude::*;
use crate::js_value::{lookup_from, JsType, JsValue};

verus! {

/// The host value had the wrong runtime type.
#[derive(Debug)]
pub struct BadJsTypeError {
    /// The type(s) that were expected.
    pub wanted: Vec<JsType>,
    /// The type that was found.
    pub got: JsType,
}

impl BadJsTypeError {
    pub fn new(wanted: Vec<JsType>, got: JsType) -> (r: Self)
        ensures
            r.wanted == wanted,
            r.got == got,
    {
        BadJsTypeError { wanted, got }
    }
}

/// Why a host value could not be turned into a native one.
#[derive(Debug)]
pub enum ConversionError {
    /// The value's runtime type did not match.
    BadType(BadJsTypeError),
    /// An object was expected to be a byte array and was not.
    NotBytes,
    /// A present optional value had no `some` field.
    MissingSome,
    /// A tagged result had neither an `ok` nor an `err` field.
    MissingOkOrErr,
    /// A field was set on `null`.
    NoFields,
}

/// The error for a value of runtime type `got` where only `wanted` would do.
pub open spec fn bad_type(e: ConversionError, wanted: JsType, got: JsType) -> bool {
    e matches ConversionError::BadType(b) && b.wanted@ == seq![wanted] && b.got == got
}

/// A list of one type.
fn one_type(t: JsType) -> (r: Vec<JsType>)
    ensures
        r@ == seq![t],
{
    let mut r: Vec<JsType> = Vec::new();
    r.push(t);
    r
}

/// Conversion of a native value into a host value.
pub trait ToJsObject: Sized {
    /// Whether `v` is the host form of this value.
    spec fn encodes_as(&self, v: JsValue) -> bool;

    /// Whether converting this value may fail with `e`. A value of which this
    /// holds for no error converts.
    spec fn encode_fails(&self, e: ConversionError) -> bool;

    fn to_js(self) -> (r: Result<JsValue, ConversionError>)
        ensures
            match r {
                Ok(v) => self.encodes_as(v),
                Err(e) => self.encode_fails(e),
            },
    ;
}

/// Conversion of a host value into a native value.
pub trait FromJsObject: Sized {
    /// The native value that `obj` stands for, if it stands for one.
    spec fn decoded(obj: JsValue) -> Option<Self>;

    /// Whether `e` is the error reported for `obj`, which stands for no value.
    spec fn rejects(obj: JsValue, e: ConversionError) -> bool;

    fn from_js(obj: JsValue) -> (r: Result<Self, ConversionError>)
        ensures
            match r {
                Ok(x) => Self::decoded(obj) == Some(x),
                Err(e) => Self::decoded(obj) is None && Self::rejects(obj, e),
            },
    ;
}

/// A type that can be read back from the host.
pub trait MaybeFromJsObject: FromJsObject {

}

impl<T: FromJsObject> MaybeFromJsObject for T {

}

// ---- native to host

/// Strings become host strings.
impl ToJsObject for String {
    open spec fn encodes_as(&self, v: JsValue) -> bool {
        v == JsValue::Str(*self)
    }

    open spec fn encode_fails(&self, e: ConversionError) -> bool {
        false
    }

    fn to_js(self) -> (r: Result<JsValue, ConversionError>) {
        Ok(JsValue::Str(self))
    }
}

/// Booleans pass through.
impl ToJsObject for bool {
    open spec fn encodes_as(&self, v: JsValue) -> bool {
        v == JsValue::Bool(*self)
    }

    open spec fn encode_fails(&self, e: ConversionError) -> bool {
        false
    }

    fn to_js(self) -> (r: Result<JsValue, ConversionError>) {
        Ok(JsValue::Bool(self))
    }
}

/// Integers become host numbers.
impl ToJsObject for i64 {
    open spec fn encodes_as(&self, v: JsValue) -> bool {
        v == JsValue::Number(*self)
    }

    open spec fn encode_fails(&self, e: ConversionError) -> bool {
        false
    }

    fn to_js(self) -> (r: Result<JsValue, ConversionError>) {
        Ok(JsValue::Number(self))
    }
}

impl ToJsObject for i32 {
    open spec fn encodes_as(&self, v: JsValue) -> bool {
        v == JsValue::Number(*self as i64)
    }

    open spec fn encode_fails(&self, e: ConversionError) -> bool {
        false
    }

    fn to_js(self) -> (r: Result<JsValue, ConversionError>) {
        Ok(JsValue::Number(self as i64))
    }
}

impl ToJsObject for u32 {
    open spec fn encodes_as(&self, v: JsValue) -> bool {
        v == JsValue::Number(*self as i64)
    }

    open spec fn encode_fails(&self, e: ConversionError) -> bool {
        false
    }

    fn to_js(self) -> (r: Result<JsValue, ConversionError>) {
        Ok(JsValue::Number(self as i64))
    }
}

impl ToJsObject for u8 {
    open spec fn encodes_as(&self, v: JsValue) -> bool {
        v == JsValue::Number(*self as i64)
    }

    open spec fn encode_fails(&self, e: ConversionError) -> bool {
        false
    }

    fn to_js(self) -> (r: Result<JsValue, ConversionError>) {
        Ok(JsValue::Number(self as i64))
    }
}

impl ToJsObject for u16 {
    open spec fn encodes_as(&self, v: JsValue) -> bool {
        v == JsValue::Number(*self as i64)
    }

    open spec fn encode_fails(&self, e: ConversionError) -> bool {
        false
    }

    fn to_js(self) -> (r: Result<JsValue, ConversionError>) {
        Ok(JsValue::Number(self as i64))
    }
}

impl ToJsObject for i8 {
    open spec fn encodes_as(&self, v: JsValue) -> bool {
        v == JsValue::Number(*self as i64)
    }

    open spec fn encode_fails(&self, e: ConversionError) -> bool {
        false
    }

    fn to_js(self) -> (r: Result<JsValue, ConversionError>) {
        Ok(JsValue::Number(self as i64))
    }
}

impl ToJsObject for i16 {
    open spec fn encodes_as(&self, v: JsValue) -> bool {
        v == JsValue::Number(*self as i64)
    }

    open spec fn encode_fails(&self, e: ConversionError) -> bool {
        false
    }

    fn to_js(self) -> (r: Result<JsValue, ConversionError>) {
        Ok(JsValue::Number(self as i64))
    }
}

impl ToJsObject for isize {
    open spec fn encodes_as(&self, v: JsValue) -> bool {
        v == JsValue::Number(*self as i64)
    }

    open spec fn encode_fails(&self, e: ConversionError) -> bool {
        false
    }

    fn to_js(self) -> (r: Result<JsValue, ConversionError>) {
        Ok(JsValue::Number(self as i64))
    }
}

/// A box has the host form of what it holds.
impl<T: ToJsObject> ToJsObject for Box<T> {
    open spec fn encodes_as(&self, v: JsValue) -> bool {
        (**self).encodes_as(v)
    }

    open spec fn encode_fails(&self, e: ConversionError) -> bool {
        (**self).encode_fails(e)
    }

    fn to_js(self) -> (r: Result<JsValue, ConversionError>) {
        (*self).to_js()
    }
}

/// A host value is its own host form.
impl ToJsObject for JsValue {
    open spec fn encodes_as(&self, v: JsValue) -> bool {
        v == *self
    }

    open spec fn encode_fails(&self, e: ConversionError) -> bool {
        false
    }

    fn to_js(self) -> (r: Result<JsValue, ConversionError>) {
        Ok(self)
    }
}

/// `Some(it)` becomes the host form of `it`, `None` becomes `null`.
///
/// `Some(None)` and `None` of a nested option both become `null`.
impl<T: ToJsObject> ToJsObject for Option<T> {
    open spec fn encodes_as(&self, v: JsValue) -> bool {
        match self {
            Some(it) => it.encodes_as(v),
            None => v == JsValue::Null,
        }
    }

    open spec fn encode_fails(&self, e: ConversionError) -> bool {
        match self {
            Some(it) => it.encode_fails(e),
            None => false,
        }
    }

    fn to_js(self) -> (r: Result<JsValue, ConversionError>) {
        match self {
            Some(it) => it.to_js(),
            None => Ok(JsValue::null()),
        }
    }
}

/// Whether `v` is an object whose only field is `tag`, holding `inner`.
pub open spec fn tagged(v: JsValue, tag: Seq<char>, inner: JsValue) -> bool {
    v matches JsValue::Object(fields) && fields@.len() == 1 && fields@[0].0@ == tag
        && fields@[0].1 == inner
}

/// `Ok(it)` becomes `{ ok: it }`, `Err(it)` becomes `{ err: it }`.
impl<T: ToJsObject, E: ToJsObject> ToJsObject for Result<T, E> {
    open spec fn encodes_as(&self, v: JsValue) -> bool {
        match self {
            Ok(it) => exists|w: JsValue| tagged(v, "ok"@, w) && it.encodes_as(w),
            Err(it) => exists|w: JsValue| tagged(v, "err"@, w) && it.encodes_as(w),
        }
    }

    /// A failure of the inner conversion is passed on.
    open spec fn encode_fails(&self, e: ConversionError) -> bool {
        match self {
            Ok(it) => it.encode_fails(e),
            Err(it) => it.encode_fails(e),
        }
    }

    fn to_js(self) -> (r: Result<JsValue, ConversionError>) {
        match self {
            Ok(it) => match it.to_js() {
                Ok(w) => {
                    let r = single_field("ok", w);
                    assert(tagged(r, "ok"@, w));
                    Ok(r)
                },
                Err(e) => Err(e),
            },
            Err(it) => match it.to_js() {
                Ok(w) => {
                    let r = single_field("err", w);
                    assert(tagged(r, "err"@, w));
                    Ok(r)
                },
                Err(e) => Err(e),
            },
        }
    }
}

/// An object whose only field is `tag`, holding `inner`.
fn single_field(tag: &str, inner: JsValue) -> (r: JsValue)
    ensures
        tagged(r, tag@, inner),
{
    let mut fields: Vec<(String, JsValue)> = Vec::new();
    fields.push((String::from_str(tag), inner));
    JsValue::Object(fields)
}

/// Vectors become arrays of the host forms of their items.
impl<T: ToJsObject> ToJsObject for Vec<T> {
    open spec fn encodes_as(&self, v: JsValue) -> bool {
        v matches JsValue::Array(items, props) && props@.len() == 0 && items@.len() == self@.len()
            && forall|i: int|
            0 <= i < self@.len() ==> #[trigger] self@[i].encodes_as(items@[i])
    }

    /// A failure of an item's conversion is passed on.
    open spec fn encode_fails(&self, e: ConversionError) -> bool {
        exists|i: int| 0 <= i < self@.len() && #[trigger] self@[i].encode_fails(e)
    }

    fn to_js(self) -> (r: Result<JsValue, ConversionError>) {
        let ghost all = self@;
        let mut rest = self;
        let mut items: Vec<JsValue> = Vec::new();
        while rest.len() > 0
            invariant
                all == self@,
                items@.len() + rest@.len() == all.len(),
                rest@ == all.subrange(items@.len() as int, all.len() as int),
                forall|i: int| 0 <= i < items@.len() ==> #[trigger] all[i].encodes_as(items@[i]),
            decreases rest@.len(),
        {
            let ghost k = items@.len();
            let it = rest.remove(0);
            assert(it == all[k as int]);
            match it.to_js() {
                Ok(w) => items.push(w),
                Err(e) => {
                    assert(all[k as int].encode_fails(e));
                    return Err(e);
                },
            }
            assert(rest@ =~= all.subrange(items@.len() as int, all.len() as int));
        }
        Ok(JsValue::Array(items, Vec::new()))
    }
}

// ---- host to native

/// Only host strings become strings.
impl FromJsObject for String {
    open spec fn decoded(obj: JsValue) -> Option<Self> {
        match obj {
            JsValue::Str(s) => Some(s),
            _ => None,
        }
    }

    open spec fn rejects(obj: JsValue, e: ConversionError) -> bool {
        bad_type(e, JsType::String, obj.type_spec())
    }

    fn from_js(obj: JsValue) -> (r: Result<Self, ConversionError>) {
        match obj {
            JsValue::Str(s) => Ok(s),
            other => {
                let got = other.js_type();
                Err(ConversionError::BadType(BadJsTypeError::new(one_type(JsType::String), got)))
            },
        }
    }
}

/// Any host value becomes `()`.
impl FromJsObject for () {
    open spec fn decoded(obj: JsValue) -> Option<Self> {
        Some(())
    }

    open spec fn rejects(obj: JsValue, e: ConversionError) -> bool {
        false
    }

    fn from_js(obj: JsValue) -> (r: Result<Self, ConversionError>) {
        Ok(())
    }
}

/// A host value is taken as it is.
impl FromJsObject for JsValue {
    open spec fn decoded(obj: JsValue) -> Option<Self> {
        Some(obj)
    }

    open spec fn rejects(obj: JsValue, e: ConversionError) -> bool {
        false
    }

    fn from_js(obj: JsValue) -> (r: Result<Self, ConversionError>) {
        Ok(obj)
    }
}

/// `null` becomes `None`; anything else becomes `Some` of its conversion.
impl<T: FromJsObject> FromJsObject for Option<T> {
    open spec fn decoded(obj: JsValue) -> Option<Self> {
        if obj is Null {
            Some(None)
        } else {
            match T::decoded(obj) {
                Some(it) => Some(Some(it)),
                None => None,
            }
        }
    }

    open spec fn rejects(obj: JsValue, e: ConversionError) -> bool {
        T::rejects(obj, e)
    }

    fn from_js(obj: JsValue) -> (r: Result<Self, ConversionError>) {
        if obj.is_null() {
            Ok(None)
        } else {
            match T::from_js(obj) {
                Ok(it) => Ok(Some(it)),
                Err(e) => Err(e),
            }
        }
    }
}

/// `{ ok: it }` becomes `Ok(it)` and `{ err: it }` becomes `Err(it)`; an `ok`
/// field wins over an `err` field.
impl<T: FromJsObject, E: FromJsObject> FromJsObject for Result<T, E> {
    open spec fn decoded(obj: JsValue) -> Option<Self> {
        match obj.field_spec("ok"@) {
            Some(w) => match T::decoded(w) {
                Some(it) => Some(Ok(it)),
                None => None,
            },
            None => match obj.field_spec("err"@) {
                Some(w) => match E::decoded(w) {
                    Some(it) => Some(Err(it)),
                    None => None,
                },
                None => None,
            },
        }
    }

    open spec fn rejects(obj: JsValue, e: ConversionError) -> bool {
        match obj.field_spec("ok"@) {
            Some(w) => T::rejects(w, e),
            None => match obj.field_spec("err"@) {
                Some(w) => E::rejects(w, e),
                None => e is MissingOkOrErr,
            },
        }
    }

    fn from_js(obj: JsValue) -> (r: Result<Self, ConversionError>) {
        if obj.has_field("ok") {
            match obj.into_field("ok") {
                Some(w) => match T::from_js(w) {
                    Ok(it) => Ok(Ok(it)),
                    Err(e) => Err(e),
                },
                None => Err(ConversionError::MissingOkOrErr),
            }
        } else if obj.has_field("err") {
            match obj.into_field("err") {
                Some(w) => match E::from_js(w) {
                    Ok(it) => Ok(Err(it)),
                    Err(e) => Err(e),
                },
                None => Err(ConversionError::MissingOkOrErr),
            }
        } else {
            Err(ConversionError::MissingOkOrErr)
        }
    }
}

// ---- laws

/// A field named `tag` of an object whose only field is `tag` is found.
proof fn lemma_tagged_field(v: JsValue, tag: Seq<char>, inner: JsValue, other: Seq<char>)
    requires
        tagged(v, tag, inner),
    ensures
        v.field_spec(tag) == Some(inner),
        other != tag ==> v.field_spec(other) is None,
{
    if let JsValue::Object(fields) = v {
        assert(lookup_from(fields@, other, 1) is None);
    }
}

/// Encoding `Ok(a)` and decoding it as a result gives `Ok(t)`, where `t` is
/// what `a`'s host form reads back as; the same holds of `Err(b)` and `Err(e)`.
/// The types written and read may differ, as long as the inner values convert.
pub proof fn lemma_result_round_trip<
    A: ToJsObject,
    B: ToJsObject,
    T: FromJsObject,
    E: FromJsObject,
>(written: Result<A, B>, v: JsValue, read: Result<T, E>)
    requires
        written.encodes_as(v),
        match (written, read) {
            (Ok(a), Ok(t)) => forall|w: JsValue| a.encodes_as(w) ==> T::decoded(w) == Some(t),
            (Err(b), Err(e)) => forall|w: JsValue| b.encodes_as(w) ==> E::decoded(w) == Some(e),
            _ => false,
        },
    ensures
        <Result<T, E> as FromJsObject>::decoded(v) == Some(read),
{
    reveal_strlit("ok");
    reveal_strlit("err");
    assert("ok"@ != "err"@) by {
        assert("ok"@.len() != "err"@.len());
    }
    match written {
        Ok(a) => {
            let w = choose|w: JsValue| tagged(v, "ok"@, w) && a.encodes_as(w);
            lemma_tagged_field(v, "ok"@, w, "err"@);
        },
        Err(b) => {
            let w = choose|w: JsValue| tagged(v, "err"@, w) && b.encodes_as(w);
            lemma_tagged_field(v, "err"@, w, "ok"@);
        },
    }
}

/// Encoding a result of values that come back from their host forms, and
/// decoding it, gives the result back.
pub proof fn lemma_result_round_trip_same<T: ToJsObject + FromJsObject, E: ToJsObject + FromJsObject>(
    r: Result<T, E>,
    v: JsValue,
)
    requires
        r.encodes_as(v),
        r matches Ok(t) ==> forall|w: JsValue| t.encodes_as(w) ==> T::decoded(w) == Some(t),
        r matches Err(e) ==> forall|w: JsValue| e.encodes_as(w) ==> E::decoded(w) == Some(e),
    ensures
        <Result<T, E> as FromJsObject>::decoded(v) == Some(r),
{
    lemma_result_round_trip(r, v, r);
}

/// A string comes back from its host form.
pub proof fn lemma_string_round_trip(s: String, v: JsValue)
    requires
        s.encodes_as(v),
    ensures
        <String as FromJsObject>::decoded(v) == Some(s),
{
}

/// Absence becomes `null`, and `null` becomes absence. For a nested option,
/// `Some(None)` and `None` both become `null`, which reads back as `None`.
pub proof fn lemma_option_null<T: ToJsObject + FromJsObject>(v: JsValue, nested: JsValue)
    requires
        None::<T>.encodes_as(v),
        Some(None::<T>).encodes_as(nested),
    ensures
        v == JsValue::Null,
        <Option<T> as FromJsObject>::decoded(JsValue::Null) == Some(None::<T>),
        nested == JsValue::Null,
        <Option<Option<T>> as FromJsObject>::decoded(nested) == Some(None::<Option<T>>),
{
}

} // verus!
