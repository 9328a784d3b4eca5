//! Wrapper types whose host form differs from that of what they wrap.
use vstd::prelude::*;
use crate::js_convert::{bad_type, tagged, ConversionError, FromJsObject, ToJsObject};
use crate::js_value::{lookup_from, JsType, JsValue};

verus! {

/// An optional value whose host form keeps nested options apart.
///
/// - `Some(inner)` becomes `{ some: <inner as js> }`
/// - `None` becomes `null`
///
/// so `Some(Some(it))` becomes `{ some: { some: it } }`, `Some(None)` becomes
/// `{ some: null }` and `None` becomes `null`.
pub struct LongOption<T>(pub Option<T>);

impl<T: ToJsObject> ToJsObject for LongOption<T> {
    open spec fn encodes_as(&self, v: JsValue) -> bool {
        match self.0 {
            Some(it) => exists|w: JsValue| tagged(v, "some"@, w) && it.encodes_as(w),
            None => v == JsValue::Null,
        }
    }

    /// A failure of the inner conversion is passed on.
    open spec fn encode_fails(&self, e: ConversionError) -> bool {
        match self.0 {
            Some(it) => it.encode_fails(e),
            None => false,
        }
    }

    fn to_js(self) -> (r: Result<JsValue, ConversionError>) {
        match self.0 {
            Some(it) => match it.to_js() {
                Ok(w) => {
                    let mut fields: Vec<(String, JsValue)> = Vec::new();
                    fields.push((String::from_str("some"), w));
                    let r = JsValue::Object(fields);
                    assert(tagged(r, "some"@, w));
                    Ok(r)
                },
                Err(e) => Err(e),
            },
            None => Ok(JsValue::null()),
        }
    }
}

impl<T: FromJsObject> FromJsObject for LongOption<T> {
    open spec fn decoded(obj: JsValue) -> Option<Self> {
        if obj is Null {
            Some(LongOption(None))
        } else {
            match obj.field_spec("some"@) {
                Some(w) => match T::decoded(w) {
                    Some(it) => Some(LongOption(Some(it))),
                    None => None,
                },
                None => None,
            }
        }
    }

    open spec fn rejects(obj: JsValue, e: ConversionError) -> bool {
        match obj.field_spec("some"@) {
            Some(w) => T::rejects(w, e),
            None => e is MissingSome,
        }
    }

    fn from_js(obj: JsValue) -> (r: Result<Self, ConversionError>) {
        if obj.is_null() {
            Ok(LongOption(None))
        } else {
            match obj.into_field("some") {
                Some(w) => match T::from_js(w) {
                    Ok(it) => Ok(LongOption(Some(it))),
                    Err(e) => Err(e),
                },
                None => Err(ConversionError::MissingSome),
            }
        }
    }
}

/// Bytes whose host form is a `Uint8Array` rather than an array of numbers.
pub struct Uint8Array(pub Vec<u8>);

impl ToJsObject for Uint8Array {
    open spec fn encodes_as(&self, v: JsValue) -> bool {
        v matches JsValue::Bytes(b, props) && b == self.0 && props@.len() == 0
    }

    open spec fn encode_fails(&self, e: ConversionError) -> bool {
        false
    }

    fn to_js(self) -> (r: Result<JsValue, ConversionError>) {
        Ok(JsValue::Bytes(self.0, Vec::new()))
    }
}

impl FromJsObject for Uint8Array {
    open spec fn decoded(obj: JsValue) -> Option<Self> {
        match obj {
            JsValue::Bytes(b, _) => Some(Uint8Array(b)),
            _ => None,
        }
    }

    open spec fn rejects(obj: JsValue, e: ConversionError) -> bool {
        if obj.type_spec() is Object {
            e is NotBytes
        } else {
            bad_type(e, JsType::Object, obj.type_spec())
        }
    }

    fn from_js(obj: JsValue) -> (r: Result<Self, ConversionError>) {
        match obj {
            JsValue::Bytes(b, _) => Ok(Uint8Array(b)),
            other => {
                let got = other.js_type();
                match got {
                    JsType::Object => Err(ConversionError::NotBytes),
                    _ => {
                        let mut wanted: Vec<JsType> = Vec::new();
                        wanted.push(JsType::Object);
                        Err(
                            ConversionError::BadType(
                                crate::js_convert::BadJsTypeError::new(wanted, got),
                            ),
                        )
                    },
                }
            },
        }
    }
}

/// A string-keyed mapping, given by its entries in order. Its host form is an
/// object with one field per key; where a key repeats, the later entry wins,
/// as in a map built by inserting the entries in order.
pub struct StringMap<V>(pub Vec<(String, V)>);

/// The value of the last entry with key `key`.
pub open spec fn last_entry<V>(entries: Seq<(String, V)>, key: Seq<char>) -> Option<V>
    decreases entries.len(),
{
    if entries.len() == 0 {
        None
    } else if entries.last().0@ == key {
        Some(entries.last().1)
    } else {
        last_entry(entries.drop_last(), key)
    }
}

/// Whether the object `v` has, for each key, the host form of the value of
/// the last entry with that key, and no other fields.
pub open spec fn holds_entries<V: ToJsObject>(entries: Seq<(String, V)>, v: JsValue) -> bool {
    v is Object && forall|k: Seq<char>|
        match #[trigger] last_entry(entries, k) {
            Some(x) => v.field_spec(k) matches Some(w) && x.encodes_as(w),
            None => v.field_spec(k) is None,
        }
}

/// Setting the field of one more entry keeps an object holding the entries.
proof fn lemma_holds_after_set<V: ToJsObject>(
    done: Seq<(String, V)>,
    entry: (String, V),
    before: JsValue,
    after: JsValue,
    w: JsValue,
)
    requires
        holds_entries(done, before),
        after is Object,
        after.field_spec(entry.0@) == Some(w),
        entry.1.encodes_as(w),
        forall|k: Seq<char>| k != entry.0@ ==> #[trigger] after.field_spec(k) == before.field_spec(k),
    ensures
        holds_entries(done.push(entry), after),
{
    let next = done.push(entry);
    assert(next.drop_last() =~= done);
    assert forall|k: Seq<char>|
        match #[trigger] last_entry(next, k) {
            Some(y) => after.field_spec(k) matches Some(w2) && y.encodes_as(w2),
            None => after.field_spec(k) is None,
        } by {
        if k != entry.0@ {
            assert(last_entry(next, k) == last_entry(done, k));
            assert(after.field_spec(k) == before.field_spec(k));
        } else {
            assert(last_entry(next, k) == Some(entry.1));
            assert(after.field_spec(k) == Some(w) && entry.1.encodes_as(w));
        }
    }
}

impl<V: ToJsObject> ToJsObject for StringMap<V> {
    open spec fn encodes_as(&self, v: JsValue) -> bool {
        holds_entries(self.0@, v)
    }

    /// A failure of a value's conversion is passed on.
    open spec fn encode_fails(&self, e: ConversionError) -> bool {
        exists|i: int| 0 <= i < self.0@.len() && #[trigger] self.0@[i].1.encode_fails(e)
    }

    fn to_js(self) -> (r: Result<JsValue, ConversionError>) {
        let ghost all = self.0@;
        let mut rest = self.0;
        let mut obj = JsValue::object();
        let ghost mut done: Seq<(String, V)> = Seq::empty();
        proof {
            assert forall|k: Seq<char>| #[trigger] last_entry(done, k) is None implies obj.field_spec(
                k,
            ) is None by {
                if let JsValue::Object(fields) = obj {
                    assert(lookup_from(fields@, k, 0) is None);
                }
            }
        }
        while rest.len() > 0
            invariant
                all == self.0@,
                done + rest@ == all,
                holds_entries(done, obj),
            decreases rest@.len(),
        {
            let (key, x) = rest.remove(0);
            let ghost entry = (key, x);
            let ghost before = obj;
            let ghost k = done.len();
            assert(entry == all[k as int]);
            let w = match x.to_js() {
                Ok(w) => w,
                Err(e) => {
                    assert(all[k as int].1.encode_fails(e));
                    return Err(e);
                },
            };
            let _ = obj.set_field(key, w);
            proof {
                lemma_holds_after_set(done, entry, before, obj, w);
                assert(done.push(entry) + rest@ =~= all);
                done = done.push(entry);
            }
        }
        proof {
            assert(done =~= all);
        }
        Ok(obj)
    }
}

/// A value whose host form is its JSON text.
///
/// The conversion itself goes through serde, which lives outside the
/// verified library.
pub struct SerDeWrapper<T>(pub T);

/// A nested-optional value comes back from its host form, wherever its inner
/// value does.
pub proof fn lemma_long_option_round_trip<T: ToJsObject + FromJsObject>(x: LongOption<T>, v: JsValue)
    requires
        x.encodes_as(v),
        x.0 matches Some(t) ==> forall|w: JsValue| t.encodes_as(w) ==> T::decoded(w) == Some(t),
    ensures
        <LongOption<T> as FromJsObject>::decoded(v) == Some(x),
{
    if let Some(t) = x.0 {
        let w = choose|w: JsValue| tagged(v, "some"@, w) && t.encodes_as(w);
        if let JsValue::Object(fields) = v {
            assert(lookup_from(fields@, "some"@, 0) == Some(w));
        }
    }
}

/// The nested-optional wrapper keeps "absent" and "present but inner absent"
/// apart: their host forms differ, and each reads back as itself.
pub proof fn lemma_long_option_keeps_nesting<T: ToJsObject + FromJsObject>(
    absent: JsValue,
    inner_absent: JsValue,
)
    requires
        LongOption(None::<LongOption<T>>).encodes_as(absent),
        LongOption(Some(LongOption(None::<T>))).encodes_as(inner_absent),
    ensures
        absent != inner_absent,
        <LongOption<LongOption<T>> as FromJsObject>::decoded(absent) == Some(
            LongOption(None::<LongOption<T>>),
        ),
        <LongOption<LongOption<T>> as FromJsObject>::decoded(inner_absent) == Some(
            LongOption(Some(LongOption(None::<T>))),
        ),
{
    lemma_long_option_round_trip(LongOption(None::<LongOption<T>>), absent);
    lemma_long_option_round_trip(LongOption(Some(LongOption(None::<T>))), inner_absent);
}

} // verus!
