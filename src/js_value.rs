//! A model of the values that live on the host side of the bridge.
use vstd::prelude::*;
use vstd::string::*;
use crate::js_convert::{bad_type, BadJsTypeError, ConversionError};

verus! {

/// The runtime types that the host's `typeof` reports.
#[derive(Debug, Clone)]
pub enum JsType {
    Undefined,
    Object,
    Boolean,
    Number,
    Bigint,
    String,
    Symbol,
    Function,
    /// `typeof` may report any other name; it is kept as it came.
    Unknown(String),
}

/// A host value, as far as this library reads it.
#[derive(Debug)]
pub enum JsValue {
    Undefined,
    Null,
    Bool(bool),
    Number(i64),
    Str(String),
    /// A `Uint8Array`.
    Bytes(Vec<u8>, Vec<(String, JsValue)>),
    /// An array: its items by position, then its named properties.
    Array(Vec<JsValue>, Vec<(String, JsValue)>),
    /// An object, as its fields in order.
    Object(Vec<(String, JsValue)>),
    /// A value that is none of the above, known only by its type.
    Opaque(OpaqueKind),
}

/// The kinds of host value that this library carries without reading them.
/// None of them has the type of a value it reads (a string, a number, ...).
#[derive(Debug, Clone)]
pub enum OpaqueKind {
    Bigint,
    Symbol,
    Function,
    /// A type that `typeof` reports under a name of its own.
    Unknown(String),
}

/// What `typeof` reports for a type name.
pub open spec fn type_named(name: String) -> JsType {
    if name@ == "undefined"@ {
        JsType::Undefined
    } else if name@ == "object"@ {
        JsType::Object
    } else if name@ == "boolean"@ {
        JsType::Boolean
    } else if name@ == "number"@ {
        JsType::Number
    } else if name@ == "bigint"@ {
        JsType::Bigint
    } else if name@ == "string"@ {
        JsType::String
    } else if name@ == "symbol"@ {
        JsType::Symbol
    } else if name@ == "function"@ {
        JsType::Function
    } else {
        JsType::Unknown(name)
    }
}

/// The value of the first field named `key`, searching from position `i`.
pub open spec fn lookup_from(fields: Seq<(String, JsValue)>, key: Seq<char>, i: int) -> Option<
    JsValue,
>
    decreases fields.len() - i,
{
    if i < 0 || i >= fields.len() {
        None
    } else if fields[i].0@ == key {
        Some(fields[i].1)
    } else {
        lookup_from(fields, key, i + 1)
    }
}

/// The value of the first field named `key`.
pub open spec fn lookup(fields: Seq<(String, JsValue)>, key: Seq<char>) -> Option<JsValue> {
    lookup_from(fields, key, 0)
}

/// The position of the first field named `key`.
fn field_index(fields: &Vec<(String, JsValue)>, key: &str) -> (r: Option<usize>)
    ensures
        match r {
            Some(i) => i < fields@.len() && fields@[i as int].0@ == key@ && lookup(fields@, key@)
                == Some(fields@[i as int].1) && forall|j: int|
                0 <= j < i ==> #[trigger] fields@[j].0@ != key@,
            None => lookup(fields@, key@) is None && forall|j: int|
                0 <= j < fields@.len() ==> #[trigger] fields@[j].0@ != key@,
        },
{
    let wanted = String::from_str(key);
    let mut i: usize = 0;
    while i < fields.len()
        invariant
            i <= fields@.len(),
            wanted@ == key@,
            lookup(fields@, key@) == lookup_from(fields@, key@, i as int),
            forall|j: int| 0 <= j < i ==> #[trigger] fields@[j].0@ != key@,
        decreases fields@.len() - i,
    {
        if fields[i].0 == wanted {
            return Some(i);
        }
        i = i + 1;
    }
    None
}

/// Fields that do not match `key` are passed over by the search.
proof fn lemma_lookup_skips(fields: Seq<(String, JsValue)>, key: Seq<char>, j: int, i: int)
    requires
        0 <= j <= i,
        forall|m: int| j <= m < i ==> #[trigger] fields[m].0@ != key,
    ensures
        lookup_from(fields, key, j) == lookup_from(fields, key, i),
    decreases i - j,
{
    if j < i {
        lemma_lookup_skips(fields, key, j + 1, i);
    }
}

/// Two field lists that differ only at positions whose names are not `key`
/// give the same value for `key`.
proof fn lemma_lookup_same(
    f: Seq<(String, JsValue)>,
    g: Seq<(String, JsValue)>,
    key: Seq<char>,
    j: int,
)
    requires
        0 <= j,
        f.len() == g.len(),
        forall|m: int|
            0 <= m < f.len() ==> f[m] == g[m] || (#[trigger] f[m].0@ != key && g[m].0@ != key),
    ensures
        lookup_from(f, key, j) == lookup_from(g, key, j),
    decreases f.len() - j,
{
    if j < f.len() {
        lemma_lookup_same(f, g, key, j + 1);
    }
}

/// A field added at the end does not change the value of another name.
proof fn lemma_lookup_push(f: Seq<(String, JsValue)>, x: (String, JsValue), key: Seq<char>, j: int)
    requires
        0 <= j,
        x.0@ != key,
    ensures
        lookup_from(f.push(x), key, j) == lookup_from(f, key, j),
    decreases f.len() + 1 - j,
{
    if j < f.len() {
        assert(f.push(x)[j] == f[j]);
        lemma_lookup_push(f, x, key, j + 1);
    } else if j == f.len() {
        assert(lookup_from(f.push(x), key, j + 1) is None);
    }
}

/// The fields with `key` set to `val`, in place of the first field of that
/// name or after the others.
fn set_in(fields: Vec<(String, JsValue)>, key: String, val: JsValue) -> (r: Vec<
    (String, JsValue),
>)
    ensures
        lookup(r@, key@) == Some(val),
        forall|k: Seq<char>| k != key@ ==> #[trigger] lookup(r@, k) == lookup(fields@, k),
{
    let mut fields = fields;
    let ghost before = fields@;
    let ghost k0 = key@;
    match field_index(&fields, key.as_str()) {
        Some(i) => {
            fields.set(i, (key, val));
            proof {
                lemma_lookup_skips(fields@, k0, 0, i as int);
                assert forall|k: Seq<char>| k != k0 implies lookup(fields@, k) == lookup(before, k) by {
                    lemma_lookup_same(fields@, before, k, 0);
                }
            }
        },
        None => {
            fields.push((key, val));
            proof {
                lemma_lookup_skips(fields@, k0, 0, before.len() as int);
                assert forall|k: Seq<char>| k != k0 implies lookup(fields@, k) == lookup(before, k) by {
                    lemma_lookup_push(before, fields@.last(), k, 0);
                    assert(fields@ == before.push(fields@.last()));
                }
            }
        },
    }
    fields
}

/// The decimal digit `d`.
pub open spec fn digit(d: nat) -> char {
    if d == 0 {
        '0'
    } else if d == 1 {
        '1'
    } else if d == 2 {
        '2'
    } else if d == 3 {
        '3'
    } else if d == 4 {
        '4'
    } else if d == 5 {
        '5'
    } else if d == 6 {
        '6'
    } else if d == 7 {
        '7'
    } else if d == 8 {
        '8'
    } else {
        '9'
    }
}

/// The decimal digits of `n`, without leading zeros.
pub open spec fn decimal(n: nat) -> Seq<char>
    decreases n,
{
    if n < 10 {
        seq![digit(n)]
    } else {
        decimal(n / 10).push(digit(n % 10))
    }
}

/// The text of the integer `n`, with a leading `-` where it is negative.
pub open spec fn number_text(n: int) -> Seq<char> {
    if n < 0 {
        seq!['-'] + decimal((-n) as nat)
    } else {
        decimal(n as nat)
    }
}

/// The one-character text of the digit `d`.
fn digit_str(d: u64) -> (r: &'static str)
    requires
        d < 10,
    ensures
        r@ == seq![digit(d as nat)],
{
    proof {
        reveal_strlit("0");
        reveal_strlit("1");
        reveal_strlit("2");
        reveal_strlit("3");
        reveal_strlit("4");
        reveal_strlit("5");
        reveal_strlit("6");
        reveal_strlit("7");
        reveal_strlit("8");
        reveal_strlit("9");
    }
    if d == 0 {
        "0"
    } else if d == 1 {
        "1"
    } else if d == 2 {
        "2"
    } else if d == 3 {
        "3"
    } else if d == 4 {
        "4"
    } else if d == 5 {
        "5"
    } else if d == 6 {
        "6"
    } else if d == 7 {
        "7"
    } else if d == 8 {
        "8"
    } else {
        "9"
    }
}

/// The decimal text of `n`.
fn decimal_string(n: u64) -> (r: String)
    ensures
        r@ == decimal(n as nat),
    decreases n,
{
    let mut r = if n >= 10 {
        decimal_string(n / 10)
    } else {
        String::new()
    };
    r.append(digit_str(n % 10));
    proof {
        if n < 10 {
            assert(r@ =~= decimal(n as nat));
        } else {
            assert(r@ =~= decimal((n / 10) as nat).push(digit((n % 10) as nat)));
        }
    }
    r
}

impl JsType {
    /// Turns a name reported by `typeof` into a type.
    pub fn from_type_name(name: &String) -> (r: JsType)
        ensures
            r == type_named(*name),
    {
        if *name == String::from_str("undefined") {
            JsType::Undefined
        } else if *name == String::from_str("object") {
            JsType::Object
        } else if *name == String::from_str("boolean") {
            JsType::Boolean
        } else if *name == String::from_str("number") {
            JsType::Number
        } else if *name == String::from_str("bigint") {
            JsType::Bigint
        } else if *name == String::from_str("string") {
            JsType::String
        } else if *name == String::from_str("symbol") {
            JsType::Symbol
        } else if *name == String::from_str("function") {
            JsType::Function
        } else {
            JsType::Unknown(name.clone())
        }
    }
}

impl JsValue {
    /// The type that `typeof` reports for this value (`null` is an object).
    pub open spec fn type_spec(&self) -> JsType {
        match self {
            JsValue::Undefined => JsType::Undefined,
            JsValue::Null => JsType::Object,
            JsValue::Bool(_) => JsType::Boolean,
            JsValue::Number(_) => JsType::Number,
            JsValue::Str(_) => JsType::String,
            JsValue::Bytes(..) => JsType::Object,
            JsValue::Array(..) => JsType::Object,
            JsValue::Object(_) => JsType::Object,
            JsValue::Opaque(kind) => match kind {
                OpaqueKind::Bigint => JsType::Bigint,
                OpaqueKind::Symbol => JsType::Symbol,
                OpaqueKind::Function => JsType::Function,
                OpaqueKind::Unknown(name) => JsType::Unknown(*name),
            },
        }
    }

    /// Whether the host treats this value as true in a condition.
    pub open spec fn truthy_spec(&self) -> bool {
        match self {
            JsValue::Undefined => false,
            JsValue::Null => false,
            JsValue::Bool(b) => *b,
            JsValue::Number(n) => *n != 0,
            JsValue::Str(s) => s@.len() > 0,
            _ => true,
        }
    }

    /// The value of the field `key`, where this is an object that has it.
    pub open spec fn field_spec(&self, key: Seq<char>) -> Option<JsValue> {
        match self {
            JsValue::Object(fields) => lookup(fields@, key),
            JsValue::Bytes(_, props) => lookup(props@, key),
            JsValue::Array(_, props) => lookup(props@, key),
            _ => None,
        }
    }

    /// Whether `other` is this value with other named properties: the same
    /// kind of value, with the same items.
    pub open spec fn same_items(&self, other: JsValue) -> bool {
        match (*self, other) {
            (JsValue::Object(_), JsValue::Object(_)) => true,
            (JsValue::Bytes(a, _), JsValue::Bytes(b, _)) => a == b,
            (JsValue::Array(a, _), JsValue::Array(b, _)) => a == b,
            _ => false,
        }
    }

    /// Whether this value can hold named fields.
    pub open spec fn has_fields_spec(&self) -> bool {
        self is Object || self is Bytes || self is Array
    }

    /// What the host's `toString` gives for this value, where the model holds
    /// it: arrays, byte arrays and opaque values have text that it does not.
    pub open spec fn text_spec(&self) -> Option<Seq<char>> {
        match self {
            JsValue::Undefined => Some("undefined"@),
            JsValue::Null => Some("null"@),
            JsValue::Bool(b) => Some(
                if *b {
                    "true"@
                } else {
                    "false"@
                },
            ),
            JsValue::Number(n) => Some(number_text(*n as int)),
            JsValue::Str(s) => Some(s@),
            JsValue::Object(_) => Some("[object Object]"@),
            _ => None,
        }
    }

    /// The text of a string value, and of no other.
    pub fn to_string_direct(&self) -> (r: Option<String>)
        ensures
            match self {
                JsValue::Str(s) => r matches Some(t) && t@ == s@,
                _ => r is None,
            },
    {
        match self {
            JsValue::Str(s) => Some(s.clone()),
            _ => None,
        }
    }

    /// What the host's `toString` gives for this value, where the model holds it.
    pub fn as_string(&self) -> (r: Option<String>)
        ensures
            match self.text_spec() {
                Some(t) => r matches Some(s) && s@ == t,
                None => r is None,
            },
    {
        match self {
            JsValue::Undefined => Some(String::from_str("undefined")),
            JsValue::Null => Some(String::from_str("null")),
            JsValue::Bool(b) => Some(
                if *b {
                    String::from_str("true")
                } else {
                    String::from_str("false")
                },
            ),
            JsValue::Number(n) => {
                let n = *n;
                if n < 0 {
                    let magnitude = (0 - (n as i128)) as u64;
                    let mut r = String::from_str("-");
                    r.append(decimal_string(magnitude).as_str());
                    proof {
                        reveal_strlit("-");
                    }
                    Some(r)
                } else {
                    Some(decimal_string(n as u64))
                }
            },
            JsValue::Str(s) => Some(s.clone()),
            JsValue::Object(_) => Some(String::from_str("[object Object]")),
            _ => None,
        }
    }

    /// The host's `null`.
    pub fn null() -> (r: JsValue)
        ensures
            r == JsValue::Null,
    {
        JsValue::Null
    }

    /// An empty array.
    pub fn array() -> (r: JsValue)
        ensures
            r matches JsValue::Array(items, props) && items@.len() == 0 && props@.len() == 0,
    {
        JsValue::Array(Vec::new(), Vec::new())
    }

    /// An object with no fields.
    pub fn object() -> (r: JsValue)
        ensures
            r matches JsValue::Object(fields) && fields@.len() == 0,
    {
        JsValue::Object(Vec::new())
    }

    /// The type that `typeof` reports for this value.
    pub fn js_type(&self) -> (r: JsType)
        ensures
            r == self.type_spec(),
    {
        match self {
            JsValue::Undefined => JsType::Undefined,
            JsValue::Null => JsType::Object,
            JsValue::Bool(_) => JsType::Boolean,
            JsValue::Number(_) => JsType::Number,
            JsValue::Str(_) => JsType::String,
            JsValue::Bytes(..) => JsType::Object,
            JsValue::Array(..) => JsType::Object,
            JsValue::Object(_) => JsType::Object,
            JsValue::Opaque(kind) => match kind {
                OpaqueKind::Bigint => JsType::Bigint,
                OpaqueKind::Symbol => JsType::Symbol,
                OpaqueKind::Function => JsType::Function,
                OpaqueKind::Unknown(name) => JsType::Unknown(name.clone()),
            },
        }
    }

    /// Whether this is truthy.
    pub fn truthy(&self) -> (r: bool)
        ensures
            r == self.truthy_spec(),
    {
        match self {
            JsValue::Undefined => false,
            JsValue::Null => false,
            JsValue::Bool(b) => *b,
            JsValue::Number(n) => *n != 0,
            JsValue::Str(s) => !s.as_str().is_empty(),
            _ => true,
        }
    }

    /// Whether this is `null` (and not `undefined`).
    pub fn is_null(&self) -> (r: bool)
        ensures
            r == (*self is Null),
    {
        match self {
            JsValue::Null => true,
            _ => false,
        }
    }

    /// The value of the field `key`, where this is an object that has it.
    pub fn try_get_field(&self, key: &str) -> (r: Option<&JsValue>)
        ensures
            r is Some <==> self.field_spec(key@) is Some,
            r matches Some(v) ==> self.field_spec(key@) == Some(*v),
    {
        match self {
            JsValue::Object(fields) | JsValue::Bytes(_, fields) | JsValue::Array(_, fields) => {
                match field_index(fields, key) {
                    Some(i) => Some(&fields[i].1),
                    None => None,
                }
            },
            _ => None,
        }
    }

    /// Takes this value apart for the value of its field `key`.
    pub fn into_field(self, key: &str) -> (r: Option<JsValue>)
        ensures
            r == self.field_spec(key@),
    {
        match self {
            JsValue::Object(fields) | JsValue::Bytes(_, fields) | JsValue::Array(_, fields) => {
                let mut fields = fields;
                match field_index(&fields, key) {
                    Some(i) => Some(fields.remove(i).1),
                    None => None,
                }
            },
            _ => None,
        }
    }

    /// Sets the named field `key` of an object, an array or a byte array to
    /// `val`, in place of the first field of that name or after the others.
    /// Other names keep their values, and an array's items stay as they are.
    ///
    /// Anything else is left as it is. A value whose type is not `object`
    /// gives an error that names its type; `null`, whose type is `object` but
    /// which has no fields, gives [`ConversionError::NoFields`].
    pub fn set_field(&mut self, key: String, val: JsValue) -> (r: Result<(), ConversionError>)
        ensures
            if old(self).has_fields_spec() {
                r is Ok && old(self).same_items(*final(self)) && final(self).field_spec(key@) == Some(
                    val,
                ) && forall|k: Seq<char>|
                    k != key@ ==> #[trigger] final(self).field_spec(k) == old(self).field_spec(k)
            } else {
                *final(self) == *old(self) && (r matches Err(e) && if old(self).type_spec() is Object {
                    e is NoFields
                } else {
                    bad_type(e, JsType::Object, old(self).type_spec())
                })
            },
    {
        let mut taken = JsValue::Undefined;
        std::mem::swap(self, &mut taken);
        match taken {
            JsValue::Object(fields) => {
                *self = JsValue::Object(set_in(fields, key, val));
                Ok(())
            },
            JsValue::Bytes(bytes, props) => {
                *self = JsValue::Bytes(bytes, set_in(props, key, val));
                Ok(())
            },
            JsValue::Array(items, props) => {
                *self = JsValue::Array(items, set_in(props, key, val));
                Ok(())
            },
            other => {
                let got = other.js_type();
                *self = other;
                match got {
                    JsType::Object => Err(ConversionError::NoFields),
                    _ => {
                        let mut wanted: Vec<JsType> = Vec::new();
                        wanted.push(JsType::Object);
                        Err(ConversionError::BadType(BadJsTypeError::new(wanted, got)))
                    },
                }
            },
        }
    }

    /// Whether this is an object with the field `key`.
    pub fn has_field(&self, key: &str) -> (r: bool)
        ensures
            r == self.field_spec(key@) is Some,
    {
        self.try_get_field(key).is_some()
    }
}

} // verus!
