use chakracore::boolean::JsBoolean;
use chakracore::context::JsScriptContext;
use chakracore::error::JsError;
use chakracore::runtime::{JsRuntime, JsRuntimeAttributes};
use chakracore::string::JsString;
use chakracore::value::JsValue;

fn runtime_with_context() -> (JsRuntime, JsScriptContext) {
    let mut runtime = JsRuntime::new(JsRuntimeAttributes::none()).unwrap();
    let mut context = JsScriptContext::new(&mut runtime).unwrap();
    context.set_current_context(&mut runtime).unwrap();
    (runtime, context)
}

#[test]
fn convert_from_bool() {
    let (runtime, _context) = runtime_with_context();
    let boolean = JsBoolean::new(&runtime, true).unwrap();
    assert!(!boolean.handle.is_null());
}

#[test]
fn convert_to_bool() {
    let (runtime, _context) = runtime_with_context();
    let boolean = JsBoolean::new(&runtime, true).unwrap();
    assert_eq!(boolean.to_bool(&runtime), Ok(true));
}

#[test]
fn bool_round_trip_both_values() {
    let (runtime, _context) = runtime_with_context();
    for b in [false, true] {
        let boolean = JsBoolean::new(&runtime, b).unwrap();
        assert_eq!(boolean.to_bool(&runtime), Ok(b));
    }
}

#[test]
fn boolean_needs_context() {
    let runtime = JsRuntime::new(JsRuntimeAttributes::none()).unwrap();
    assert_eq!(JsBoolean::new(&runtime, true), Err(JsError::NoCurrentContext));
}

#[test]
fn truth_values_of_other_types() {
    let (mut runtime, _context) = runtime_with_context();
    let empty = JsString::new(&mut runtime, "").unwrap().into_value();
    let word = JsString::new(&mut runtime, "no").unwrap().into_value();
    let truth = |rt: &JsRuntime, v: JsValue| JsBoolean::from_value(rt, v).unwrap().to_bool(rt).unwrap();
    assert!(!truth(&runtime, empty));
    assert!(truth(&runtime, word));
    assert!(!truth(&runtime, JsValue::undefined()));
    assert!(!truth(&runtime, chakracore::number::JsNumber::from(0).into_value()));
    assert!(truth(&runtime, chakracore::number::JsNumber::from(-7).into_value()));
}

#[test]
fn to_bool_of_a_number_is_an_error() {
    let (runtime, _context) = runtime_with_context();
    let not_boolean = JsBoolean { handle: chakracore::value::JsValueRef::Int(1) };
    assert_eq!(not_boolean.to_bool(&runtime), Err(JsError::InvalidArgument));
}
