use quad_wasmnastics::js_value::JsValue;
use quad_wasmnastics::waiter::{HostHandle, Waiter};

fn snapshot(waiting: Option<JsValue>, value: Option<JsValue>) -> JsValue {
    let mut fields = Vec::new();
    if let Some(w) = waiting {
        fields.push(("waiting".to_string(), w));
    }
    if let Some(v) = value {
        fields.push(("value".to_string(), v));
    }
    JsValue::Object(fields)
}

#[test]
fn ready_value_comes_out_once() {
    let mut w = Waiter::new_immediate("text".to_string());
    assert_eq!(w.try_get(), Some("text".to_string()));
    assert_eq!(w.try_get(), None);
    assert_eq!(w.try_get(), None);
}

#[test]
fn empty_waiter_never_yields() {
    let mut w = Waiter::<String>::new_empty();
    assert_eq!(w.try_get(), None);
    assert_eq!(w.try_get_with(snapshot(Some(JsValue::Bool(false)), Some(JsValue::Str("x".to_string())))), None);
}

#[test]
fn pending_waits_for_flag() {
    let mut w = Waiter::<String>::new_waiting(HostHandle { index: 3 });
    assert_eq!(w.try_get(), None);
    assert_eq!(w.try_get_with(snapshot(Some(JsValue::Bool(true)), None)), None);
    assert_eq!(w.try_get_with(snapshot(Some(JsValue::Bool(true)), None)), None);
    let done = snapshot(Some(JsValue::Bool(false)), Some(JsValue::Str("pasted".to_string())));
    assert_eq!(w.try_get_with(done), Some("pasted".to_string()));
    let again = snapshot(Some(JsValue::Bool(false)), Some(JsValue::Str("pasted".to_string())));
    assert_eq!(w.try_get_with(again), None);
}

#[test]
fn conversion_failure_is_final() {
    let mut w = Waiter::<String>::new_waiting(HostHandle { index: 1 });
    assert_eq!(w.try_get_with(snapshot(Some(JsValue::Bool(false)), Some(JsValue::Number(5)))), None);
    let good = snapshot(Some(JsValue::Bool(false)), Some(JsValue::Str("late".to_string())));
    assert_eq!(w.try_get_with(good), None);
    assert_eq!(w.try_get(), None);
}

#[test]
fn missing_fields_are_final() {
    let mut w = Waiter::<String>::new_waiting(HostHandle { index: 2 });
    assert_eq!(w.try_get_with(snapshot(None, None)), None);
    let good = snapshot(Some(JsValue::Bool(false)), Some(JsValue::Str("x".to_string())));
    assert_eq!(w.try_get_with(good), None);

    let mut w = Waiter::<String>::new_waiting(HostHandle { index: 2 });
    assert_eq!(w.try_get_with(snapshot(Some(JsValue::Bool(false)), None)), None);
    let good = snapshot(Some(JsValue::Bool(false)), Some(JsValue::Str("x".to_string())));
    assert_eq!(w.try_get_with(good), None);
}

#[test]
fn unit_waiter_completes() {
    let mut w = Waiter::<()>::new_waiting(HostHandle { index: 0 });
    assert_eq!(w.try_get_with(snapshot(Some(JsValue::Number(0)), Some(JsValue::Undefined))), Some(()));
    assert_eq!(w.try_get(), None);
}
