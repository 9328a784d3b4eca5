use quad_wasmnastics::js_convert::{BadJsTypeError, ConversionError, FromJsObject, ToJsObject};
use quad_wasmnastics::js_value::{JsType, JsValue, OpaqueKind};
use quad_wasmnastics::wrappers::{LongOption, StringMap, Uint8Array};

fn obj(fields: Vec<(&str, JsValue)>) -> JsValue {
    JsValue::Object(fields.into_iter().map(|(k, v)| (k.to_string(), v)).collect())
}

fn s(text: &str) -> JsValue {
    JsValue::Str(text.to_string())
}

#[test]
fn type_names_map_to_types() {
    assert!(matches!(JsType::from_type_name(&"undefined".to_string()), JsType::Undefined));
    assert!(matches!(JsType::from_type_name(&"object".to_string()), JsType::Object));
    assert!(matches!(JsType::from_type_name(&"boolean".to_string()), JsType::Boolean));
    assert!(matches!(JsType::from_type_name(&"number".to_string()), JsType::Number));
    assert!(matches!(JsType::from_type_name(&"bigint".to_string()), JsType::Bigint));
    assert!(matches!(JsType::from_type_name(&"string".to_string()), JsType::String));
    assert!(matches!(JsType::from_type_name(&"symbol".to_string()), JsType::Symbol));
    assert!(matches!(JsType::from_type_name(&"function".to_string()), JsType::Function));
    match JsType::from_type_name(&"unknown".to_string()) {
        JsType::Unknown(name) => assert_eq!(name, "unknown"),
        other => panic!("unexpected {:?}", other),
    }
}

#[test]
fn js_type_of_values() {
    assert!(matches!(JsValue::Null.js_type(), JsType::Object));
    assert!(matches!(JsValue::Undefined.js_type(), JsType::Undefined));
    assert!(matches!(JsValue::Number(3).js_type(), JsType::Number));
    assert!(matches!(s("x").js_type(), JsType::String));
    assert!(matches!(JsValue::Bytes(vec![1], Vec::new()).js_type(), JsType::Object));
    assert!(matches!(JsValue::array().js_type(), JsType::Object));
    assert!(matches!(JsValue::Opaque(OpaqueKind::Function).js_type(), JsType::Function));
}

#[test]
fn truthiness() {
    assert!(!JsValue::Null.truthy());
    assert!(!JsValue::Undefined.truthy());
    assert!(!JsValue::Bool(false).truthy());
    assert!(JsValue::Bool(true).truthy());
    assert!(!JsValue::Number(0).truthy());
    assert!(JsValue::Number(-2).truthy());
    assert!(!s("").truthy());
    assert!(s("a").truthy());
    assert!(JsValue::object().truthy());
}

#[test]
fn null_is_not_undefined() {
    assert!(JsValue::null().is_null());
    assert!(!JsValue::Undefined.is_null());
}

#[test]
fn first_field_of_a_name_wins() {
    let o = obj(vec![("a", JsValue::Number(1)), ("b", JsValue::Number(2)), ("a", JsValue::Number(3))]);
    assert!(matches!(o.try_get_field("a"), Some(JsValue::Number(1))));
    assert!(matches!(o.try_get_field("b"), Some(JsValue::Number(2))));
    assert!(o.try_get_field("c").is_none());
    assert!(o.has_field("b"));
    assert!(!o.has_field("c"));
    assert!(JsValue::Number(1).try_get_field("a").is_none());
    assert!(matches!(o.into_field("a"), Some(JsValue::Number(1))));
}

#[test]
fn string_from_js() {
    assert_eq!(String::from_js(s("hi")).unwrap(), "hi");
    match String::from_js(JsValue::Number(4)) {
        Err(ConversionError::BadType(BadJsTypeError { wanted, got })) => {
            assert_eq!(wanted.len(), 1);
            assert!(matches!(wanted[0], JsType::String));
            assert!(matches!(got, JsType::Number));
        },
        other => panic!("unexpected {:?}", other),
    }
}

#[test]
fn bad_type_error_keeps_its_parts() {
    let e = BadJsTypeError::new(vec![JsType::Object, JsType::String], JsType::Symbol);
    assert_eq!(e.wanted.len(), 2);
    assert!(matches!(e.got, JsType::Symbol));
}

#[test]
fn option_encoding_uses_null() {
    assert!(None::<String>.to_js().unwrap().is_null());
    assert!(Some(None::<String>).to_js().unwrap().is_null());
    assert!(matches!(Some("x".to_string()).to_js().unwrap(), JsValue::Str(t) if t == "x"));
    assert_eq!(Option::<String>::from_js(JsValue::Null).unwrap(), None);
    assert_eq!(Option::<String>::from_js(s("y")).unwrap(), Some("y".to_string()));
    assert_eq!(Option::<Option<String>>::from_js(JsValue::Null).unwrap(), None);
    assert!(matches!(Option::<String>::from_js(JsValue::Bool(true)), Err(ConversionError::BadType(_))));
}

#[test]
fn result_round_trips() {
    let ok: Result<String, String> = Ok("fine".to_string());
    let v = ok.to_js().unwrap();
    assert!(matches!(v.try_get_field("ok"), Some(JsValue::Str(t)) if t == "fine"));
    assert!(!v.has_field("err"));
    assert_eq!(Result::<String, String>::from_js(v).unwrap(), Ok("fine".to_string()));

    let err: Result<String, String> = Err("bad".to_string());
    let v = err.to_js().unwrap();
    assert!(matches!(v.try_get_field("err"), Some(JsValue::Str(t)) if t == "bad"));
    assert_eq!(Result::<String, String>::from_js(v).unwrap(), Err("bad".to_string()));
}

#[test]
fn result_without_tag_is_rejected() {
    let v = obj(vec![("value", s("x"))]);
    assert!(matches!(Result::<String, String>::from_js(v), Err(ConversionError::MissingOkOrErr)));
    let v = obj(vec![("ok", JsValue::Number(1))]);
    assert!(matches!(Result::<String, String>::from_js(v), Err(ConversionError::BadType(_))));
    let v = obj(vec![("err", s("e")), ("ok", s("o"))]);
    assert_eq!(Result::<String, String>::from_js(v).unwrap(), Ok("o".to_string()));
}

#[test]
fn unit_reads_anything() {
    assert!(<()>::from_js(JsValue::Number(9)).is_ok());
}

#[test]
fn long_option_keeps_nesting() {
    let absent = LongOption(None::<LongOption<String>>).to_js().unwrap();
    let inner_absent = LongOption(Some(LongOption(None::<String>))).to_js().unwrap();
    assert!(absent.is_null());
    assert!(matches!(inner_absent.try_get_field("some"), Some(JsValue::Null)));

    let back = LongOption::<LongOption<String>>::from_js(absent).unwrap();
    assert!(back.0.is_none());
    let back = LongOption::<LongOption<String>>::from_js(inner_absent).unwrap();
    assert!(matches!(back.0, Some(LongOption(None))));

    let full = LongOption(Some(LongOption(Some("x".to_string())))).to_js().unwrap();
    let back = LongOption::<LongOption<String>>::from_js(full).unwrap();
    assert!(matches!(back.0, Some(LongOption(Some(t))) if t == "x"));
}

#[test]
fn long_option_needs_some_field() {
    assert!(matches!(
        LongOption::<String>::from_js(obj(vec![("other", s("x"))])),
        Err(ConversionError::MissingSome)
    ));
    assert!(matches!(LongOption::<String>::from_js(JsValue::Number(1)), Err(ConversionError::MissingSome)));
}

#[test]
fn byte_arrays() {
    assert!(matches!(Uint8Array(vec![1, 2]).to_js().unwrap(), JsValue::Bytes(b, props) if b == vec![1, 2] && props.is_empty()));
    assert_eq!(Uint8Array::from_js(JsValue::Bytes(vec![7, 8], Vec::new())).unwrap().0, vec![7, 8]);
    assert!(matches!(Uint8Array::from_js(JsValue::array()), Err(ConversionError::NotBytes)));
    match Uint8Array::from_js(s("x")) {
        Err(ConversionError::BadType(e)) => {
            assert!(matches!(e.wanted[0], JsType::Object));
            assert!(matches!(e.got, JsType::String));
        },
        other => panic!("unexpected {:?}", other.map(|u| u.0)),
    }
}

#[test]
fn vectors_become_arrays() {
    match vec![1i64, 2, 3].to_js().unwrap() {
        JsValue::Array(items, _) => {
            assert_eq!(items.len(), 3);
            assert!(matches!(items[0], JsValue::Number(1)));
            assert!(matches!(items[2], JsValue::Number(3)));
        },
        other => panic!("unexpected {:?}", other),
    }
    assert!(matches!(Vec::<String>::new().to_js().unwrap(), JsValue::Array(items, props) if items.is_empty() && props.is_empty()));
}

#[test]
fn primitives_pass_through() {
    assert!(matches!(true.to_js().unwrap(), JsValue::Bool(true)));
    assert!(matches!(7u8.to_js().unwrap(), JsValue::Number(7)));
    assert!(matches!((-5i32).to_js().unwrap(), JsValue::Number(-5)));
    assert!(matches!(4_000_000_000u32.to_js().unwrap(), JsValue::Number(4_000_000_000)));
}

#[test]
fn set_field_replaces_or_appends() {
    let mut o = obj(vec![("a", JsValue::Number(1)), ("b", JsValue::Number(2))]);
    o.set_field("a".to_string(), JsValue::Number(10)).unwrap();
    o.set_field("c".to_string(), JsValue::Number(3)).unwrap();
    assert!(matches!(o.try_get_field("a"), Some(JsValue::Number(10))));
    assert!(matches!(o.try_get_field("b"), Some(JsValue::Number(2))));
    assert!(matches!(o.try_get_field("c"), Some(JsValue::Number(3))));
    match &o {
        JsValue::Object(fields) => assert_eq!(fields.len(), 3),
        other => panic!("unexpected {:?}", other),
    }
}

#[test]
fn set_field_needs_an_object() {
    let mut v = JsValue::Number(4);
    match v.set_field("a".to_string(), JsValue::Null) {
        Err(ConversionError::BadType(e)) => {
            assert!(matches!(e.wanted[0], JsType::Object));
            assert!(matches!(e.got, JsType::Number));
        },
        other => panic!("unexpected {:?}", other),
    }
    assert!(matches!(v, JsValue::Number(4)));
}

#[test]
fn set_field_on_arrays_and_null() {
    let mut a = JsValue::Array(vec![JsValue::Number(1)], Vec::new());
    a.set_field("x".to_string(), JsValue::Bool(true)).unwrap();
    assert!(matches!(a.try_get_field("x"), Some(JsValue::Bool(true))));
    assert!(a.try_get_field("y").is_none());
    assert!(matches!(&a, JsValue::Array(items, _) if items.len() == 1 && matches!(items[0], JsValue::Number(1))));
    let mut b = JsValue::Bytes(vec![9], Vec::new());
    b.set_field("tag".to_string(), JsValue::Number(2)).unwrap();
    assert!(matches!(b.try_get_field("tag"), Some(JsValue::Number(2))));
    assert!(matches!(&b, JsValue::Bytes(bytes, _) if bytes == &vec![9]));
    let mut n = JsValue::Null;
    assert!(matches!(n.set_field("x".to_string(), JsValue::Null), Err(ConversionError::NoFields)));
    assert!(n.is_null());
}

#[test]
fn opaque_values_report_their_own_types() {
    assert!(matches!(JsValue::Opaque(OpaqueKind::Symbol).js_type(), JsType::Symbol));
    assert!(matches!(JsValue::Opaque(OpaqueKind::Bigint).js_type(), JsType::Bigint));
    match JsValue::Opaque(OpaqueKind::Unknown("date".to_string())).js_type() {
        JsType::Unknown(name) => assert_eq!(name, "date"),
        other => panic!("unexpected {:?}", other),
    }
    match String::from_js(JsValue::Opaque(OpaqueKind::Function)) {
        Err(ConversionError::BadType(e)) => assert!(matches!(e.got, JsType::Function)),
        other => panic!("unexpected {:?}", other),
    }
}

#[test]
fn more_primitives_and_boxes() {
    assert!(matches!(65535u16.to_js().unwrap(), JsValue::Number(65535)));
    assert!(matches!((-8i8).to_js().unwrap(), JsValue::Number(-8)));
    assert!(matches!((-300i16).to_js().unwrap(), JsValue::Number(-300)));
    assert!(matches!((-7isize).to_js().unwrap(), JsValue::Number(-7)));
    assert!(matches!(Box::new("b".to_string()).to_js().unwrap(), JsValue::Str(t) if t == "b"));
}

#[test]
fn string_maps_become_objects() {
    let m = StringMap(vec![
        ("x".to_string(), 1i64),
        ("y".to_string(), 2),
        ("x".to_string(), 3),
    ]);
    let v = m.to_js().unwrap();
    assert!(matches!(v.try_get_field("x"), Some(JsValue::Number(3))));
    assert!(matches!(v.try_get_field("y"), Some(JsValue::Number(2))));
    assert!(v.try_get_field("z").is_none());
    assert!(matches!(StringMap(Vec::<(String, bool)>::new()).to_js().unwrap(), JsValue::Object(f) if f.is_empty()));
}

#[test]
fn host_to_string() {
    assert_eq!(JsValue::Number(0).as_string().unwrap(), "0");
    assert_eq!(JsValue::Number(1234).as_string().unwrap(), "1234");
    assert_eq!(JsValue::Number(-56).as_string().unwrap(), "-56");
    assert_eq!(JsValue::Number(i64::MIN).as_string().unwrap(), i64::MIN.to_string());
    assert_eq!(JsValue::Bool(true).as_string().unwrap(), "true");
    assert_eq!(JsValue::Bool(false).as_string().unwrap(), "false");
    assert_eq!(JsValue::Null.as_string().unwrap(), "null");
    assert_eq!(JsValue::Undefined.as_string().unwrap(), "undefined");
    assert_eq!(s("[1,2]").as_string().unwrap(), "[1,2]");
    assert_eq!(JsValue::object().as_string().unwrap(), "[object Object]");
    assert!(JsValue::array().as_string().is_none());
    assert_eq!(s("t").to_string_direct().unwrap(), "t");
    assert!(JsValue::Number(1).to_string_direct().is_none());
}

#[test]
fn nested_results_convert() {
    let v: Result<Vec<i64>, String> = Ok(vec![4, 5]);
    let js = v.to_js().unwrap();
    assert!(matches!(js.try_get_field("ok"), Some(JsValue::Array(items, _)) if items.len() == 2));
}
