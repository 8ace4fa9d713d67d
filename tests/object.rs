use chakracore::context::JsScriptContext;
use chakracore::error::JsError;
use chakracore::number::JsNumber;
use chakracore::object::JsObject;
use chakracore::runtime::{JsRuntime, JsRuntimeAttributes};
use chakracore::string::JsString;
use chakracore::value::{JsType, JsValue, JsValueRef};

fn runtime_with_context() -> (JsRuntime, JsScriptContext) {
    let mut runtime = JsRuntime::new(JsRuntimeAttributes::none()).unwrap();
    let mut context = JsScriptContext::new(&mut runtime).unwrap();
    context.set_current_context(&mut runtime).unwrap();
    (runtime, context)
}

#[test]
fn create_object() {
    let (mut runtime, _context) = runtime_with_context();
    let object = JsObject::new(&mut runtime).unwrap();
    assert!(!object.handle.is_null());
}

#[test]
fn get_global_object() {
    let (runtime, _context) = runtime_with_context();
    let object = JsObject::global(&runtime).unwrap();
    assert!(!object.handle.is_null());
}

#[test]
fn has_property_string() {
    let (mut runtime, _context) = runtime_with_context();
    let object = JsObject::global(&runtime).unwrap();
    let key = JsString::new(&mut runtime, "hello").unwrap();
    assert!(!object.has_property(&runtime, &key).unwrap());
}

#[test]
fn set_property_object() {
    let (mut runtime, _context) = runtime_with_context();
    let mut global = JsObject::global(&runtime).unwrap();
    let console = JsObject::new(&mut runtime).unwrap();
    let console_key = JsString::new(&mut runtime, "console").unwrap();
    global.set_property(&mut runtime, &console_key, console.into_value()).unwrap();

    assert!(global.has_property(&runtime, &console_key).unwrap());
}

#[test]
fn get_property_int() {
    let (mut runtime, _context) = runtime_with_context();
    let mut global = JsObject::global(&runtime).unwrap();
    let answer = JsNumber::from(42);
    let key = JsString::new(&mut runtime, "answer").unwrap();
    global.set_property(&mut runtime, &key, answer.into_value()).unwrap();

    assert!(global.has_property(&runtime, &key).unwrap());
    let property = JsNumber { handle: global.get_property(&runtime, &key).unwrap().handle };
    assert_eq!(property.to_i32(&runtime), Ok(42));
}

#[test]
fn delete_property_string() {
    let (mut runtime, _context) = runtime_with_context();
    let mut global = JsObject::global(&runtime).unwrap();
    let console = JsObject::new(&mut runtime).unwrap();
    let console_key = JsString::new(&mut runtime, "console").unwrap();
    global.set_property(&mut runtime, &console_key, console.into_value()).unwrap();

    assert!(global.has_property(&runtime, &console_key).unwrap());

    let result = global.delete_property(&mut runtime, &console_key);
    assert_eq!(result, Ok(true));
    assert!(!global.has_property(&runtime, &console_key).unwrap());
}

#[test]
fn keys_match_by_content_and_set_replaces() {
    let (mut runtime, _context) = runtime_with_context();
    let mut object = JsObject::new(&mut runtime).unwrap();
    let key_a = JsString::new(&mut runtime, "k").unwrap();
    let key_b = JsString::new(&mut runtime, "k").unwrap();
    let other = JsString::new(&mut runtime, "other").unwrap();
    object.set_property(&mut runtime, &key_a, JsNumber::from(1).into_value()).unwrap();
    object.set_property(&mut runtime, &other, JsNumber::from(9).into_value()).unwrap();
    object.set_property(&mut runtime, &key_b, JsNumber::from(2).into_value()).unwrap();
    assert_eq!(object.get_property(&runtime, &key_a).unwrap().handle, JsValueRef::Int(2));
    object.delete_property(&mut runtime, &key_a).unwrap();
    assert!(!object.has_property(&runtime, &key_b).unwrap());
    assert_eq!(object.get_property(&runtime, &other).unwrap().handle, JsValueRef::Int(9));
}

#[test]
fn missing_property_reads_undefined() {
    let (mut runtime, _context) = runtime_with_context();
    let object = JsObject::new(&mut runtime).unwrap();
    let key = JsString::new(&mut runtime, "nothing").unwrap();
    let value = object.get_property(&runtime, &key).unwrap();
    assert_eq!(value.get_type(&runtime), Ok(JsType::Undefined));
    assert_eq!(object.delete_property(&mut runtime, &key), Ok(true));
}

#[test]
fn each_context_has_its_own_global() {
    let mut runtime = JsRuntime::new(JsRuntimeAttributes::none()).unwrap();
    let mut first = JsScriptContext::new(&mut runtime).unwrap();
    let mut second = JsScriptContext::new(&mut runtime).unwrap();
    first.set_current_context(&mut runtime).unwrap();
    let g1 = JsObject::global(&runtime).unwrap();
    first.clear_current_context(&mut runtime).unwrap();
    second.set_current_context(&mut runtime).unwrap();
    let g2 = JsObject::global(&runtime).unwrap();
    assert_ne!(g1, g2);
}

#[test]
fn property_errors() {
    let (mut runtime, mut context) = runtime_with_context();
    let mut object = JsObject::new(&mut runtime).unwrap();
    let key = JsString::new(&mut runtime, "k").unwrap();
    let mut number_as_object = JsObject { handle: JsValueRef::Int(3) };
    assert_eq!(number_as_object.has_property(&runtime, &key), Err(JsError::ArgumentNotObject));
    assert_eq!(
        number_as_object.set_property(&mut runtime, &key, JsValue::undefined()),
        Err(JsError::ArgumentNotObject)
    );
    let not_a_key = JsString { handle: object.handle };
    assert_eq!(object.get_property(&runtime, &not_a_key), Err(JsError::InvalidArgument));
    assert_eq!(
        object.set_property(&mut runtime, &key, JsValue { handle: JsValueRef::Null }),
        Err(JsError::InvalidArgument)
    );
    context.clear_current_context(&mut runtime).unwrap();
    assert_eq!(object.has_property(&runtime, &key), Err(JsError::NoCurrentContext));
    assert_eq!(JsObject::new(&mut runtime), Err(JsError::NoCurrentContext));
    assert_eq!(JsObject::global(&runtime), Err(JsError::NoCurrentContext));
}

#[test]
fn global_undefined_cannot_be_deleted_or_set() {
    let (mut runtime, _context) = runtime_with_context();
    let mut global = JsObject::global(&runtime).unwrap();
    let key = JsString::new(&mut runtime, "undefined").unwrap();
    assert!(global.has_property(&runtime, &key).unwrap());
    assert_eq!(global.delete_property(&mut runtime, &key), Err(JsError::ScriptException));
    assert!(global.has_property(&runtime, &key).unwrap());
    assert_eq!(
        global.set_property(&mut runtime, &key, JsNumber::from(1).into_value()),
        Err(JsError::ScriptException)
    );
    let value = global.get_property(&runtime, &key).unwrap();
    assert_eq!(value.get_type(&runtime), Ok(JsType::Undefined));
}
