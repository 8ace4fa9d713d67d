use chakracore::boolean::JsBoolean;
use chakracore::context::JsScriptContext;
use chakracore::error::JsError;
use chakracore::function::JsFunction;
use chakracore::number::JsNumber;
use chakracore::object::JsObject;
use chakracore::runtime::{JsRuntime, JsRuntimeAttributes};
use chakracore::string::JsString;
use chakracore::value::JsValue;

fn runtime_with_context() -> (JsRuntime, JsScriptContext) {
    let mut runtime = JsRuntime::new(JsRuntimeAttributes::none()).unwrap();
    let mut context = JsScriptContext::new(&mut runtime).unwrap();
    context.set_current_context(&mut runtime).unwrap();
    (runtime, context)
}

fn text(runtime: &mut JsRuntime, value: JsValue) -> String {
    let s = JsString::from_value(runtime, value).unwrap();
    s.to_string(runtime).unwrap()
}

fn number(runtime: &mut JsRuntime, s: &str) -> Result<i32, JsError> {
    let v = JsString::new(runtime, s).unwrap().into_value();
    JsNumber::from_value(runtime, v).map(|n| n.to_i32(runtime).unwrap())
}

#[test]
fn numbers_convert_to_decimal_text() {
    let (mut runtime, _context) = runtime_with_context();
    assert_eq!(text(&mut runtime, JsNumber::from(0).into_value()), "0");
    assert_eq!(text(&mut runtime, JsNumber::from(1024).into_value()), "1024");
    assert_eq!(text(&mut runtime, JsNumber::from(-7).into_value()), "-7");
    assert_eq!(text(&mut runtime, JsNumber::from(i32::MIN).into_value()), "-2147483648");
    assert_eq!(text(&mut runtime, JsNumber::from(i32::MAX).into_value()), "2147483647");
}

#[test]
fn other_values_convert_to_their_text() {
    let (mut runtime, _context) = runtime_with_context();
    let t = JsBoolean::new(&runtime, true).unwrap().into_value();
    let f = JsBoolean::new(&runtime, false).unwrap().into_value();
    let o = JsObject::new(&mut runtime).unwrap().into_value();
    let func = JsFunction::<()>::new(&mut runtime).unwrap().into_value();
    assert_eq!(text(&mut runtime, t), "true");
    assert_eq!(text(&mut runtime, f), "false");
    assert_eq!(text(&mut runtime, JsValue::undefined()), "undefined");
    assert_eq!(text(&mut runtime, o), "[object Object]");
    assert_eq!(text(&mut runtime, func), "function() { [native code] }");
}

#[test]
fn a_string_converts_to_itself() {
    let (mut runtime, _context) = runtime_with_context();
    let s = JsString::new(&mut runtime, "hello world").unwrap();
    let again = JsString::from_value(&mut runtime, s.into_value()).unwrap();
    assert_eq!(again, s);
}

#[test]
fn strings_convert_to_numbers() {
    let (mut runtime, _context) = runtime_with_context();
    assert_eq!(number(&mut runtime, "42"), Ok(42));
    assert_eq!(number(&mut runtime, ""), Ok(0));
    assert_eq!(number(&mut runtime, "-2147483648"), Ok(i32::MIN));
    assert_eq!(number(&mut runtime, "2147483647"), Ok(i32::MAX));
    assert_eq!(number(&mut runtime, "007"), Ok(7));
    assert_eq!(number(&mut runtime, "2147483648"), Err(JsError::NotImplemented));
    assert_eq!(number(&mut runtime, "99999999999999999999"), Err(JsError::NotImplemented));
    assert_eq!(number(&mut runtime, "4x"), Err(JsError::NotImplemented));
    assert_eq!(number(&mut runtime, "-"), Err(JsError::NotImplemented));
    assert_eq!(number(&mut runtime, "1.5"), Err(JsError::NotImplemented));
}

#[test]
fn booleans_and_undefined_convert_to_numbers() {
    let (mut runtime, _context) = runtime_with_context();
    let t = JsBoolean::new(&runtime, true).unwrap().into_value();
    let f = JsBoolean::new(&runtime, false).unwrap().into_value();
    assert_eq!(JsNumber::from_value(&runtime, t).unwrap().to_i32(&runtime), Ok(1));
    assert_eq!(JsNumber::from_value(&runtime, f).unwrap().to_i32(&runtime), Ok(0));
    assert_eq!(JsNumber::from_value(&runtime, JsValue::undefined()), Err(JsError::NotImplemented));
    let o = JsObject::new(&mut runtime).unwrap().into_value();
    assert_eq!(JsNumber::from_value(&runtime, o), Err(JsError::NotImplemented));
}

#[test]
fn conversions_need_context_but_for_integers() {
    let mut runtime = JsRuntime::new(JsRuntimeAttributes::none()).unwrap();
    assert_eq!(
        JsString::from_value(&mut runtime, JsNumber::from(1).into_value()),
        Err(JsError::NoCurrentContext)
    );
    assert_eq!(
        JsNumber::from_value(&runtime, JsNumber::from(5).into_value()).unwrap().to_i32(&runtime),
        Ok(5)
    );
    assert_eq!(
        JsBoolean::from_value(&runtime, JsNumber::from(5).into_value()),
        Err(JsError::NoCurrentContext)
    );
}
