use chakracore::boolean::JsBoolean;
use chakracore::context::JsScriptContext;
use chakracore::error::JsError;
use chakracore::runtime::{JsRuntime, JsRuntimeAttributes};
use chakracore::value::{type_from_tag, JsType, JsValue, JsValueRef};

#[test]
fn get_type_boolean() {
    let mut runtime = JsRuntime::new(JsRuntimeAttributes::none()).unwrap();
    let mut context = JsScriptContext::new(&mut runtime).unwrap();
    context.set_current_context(&mut runtime).unwrap();

    let bool = JsBoolean::new(&runtime, true).unwrap();
    let value: JsValue = bool.into_value();
    assert_eq!(value.get_type(&runtime), Ok(JsType::Boolean));
}

#[test]
fn get_type_without_context() {
    let runtime = JsRuntime::new(JsRuntimeAttributes::none()).unwrap();
    assert_eq!(JsValue::undefined().get_type(&runtime), Err(JsError::NoCurrentContext));
}

#[test]
fn get_type_of_absent_and_dangling_references() {
    let mut runtime = JsRuntime::new(JsRuntimeAttributes::none()).unwrap();
    let mut context = JsScriptContext::new(&mut runtime).unwrap();
    context.set_current_context(&mut runtime).unwrap();
    let absent = JsValue { handle: JsValueRef::Null };
    let dangling = JsValue { handle: JsValueRef::Slot(1000) };
    assert_eq!(absent.get_type(&runtime), Err(JsError::InvalidArgument));
    assert_eq!(dangling.get_type(&runtime), Err(JsError::InvalidArgument));
    assert_eq!(JsValue::undefined().get_type(&runtime), Ok(JsType::Undefined));
}

#[test]
fn type_tags_decode() {
    assert_eq!(type_from_tag(0), Some(JsType::Undefined));
    assert_eq!(type_from_tag(1), Some(JsType::Null));
    assert_eq!(type_from_tag(2), Some(JsType::Number));
    assert_eq!(type_from_tag(7), Some(JsType::Error));
    assert_eq!(type_from_tag(12), Some(JsType::DataView));
    assert_eq!(type_from_tag(13), None);
    for t in [JsType::Symbol, JsType::Array, JsType::TypedArray, JsType::ArrayBuffer] {
        assert_eq!(type_from_tag(t.tag()), Some(t));
    }
}
