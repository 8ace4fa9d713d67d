use chakracore::error::JsError;
use chakracore::number::JsNumber;
use chakracore::runtime::{JsRuntime, JsRuntimeAttributes};
use chakracore::value::{JsType, JsValue};

#[test]
fn convert_from_int() {
    let number = JsNumber::from(42);
    assert!(!number.handle.is_null());
}

#[test]
fn convert_to_int() {
    let runtime = JsRuntime::new(JsRuntimeAttributes::none()).unwrap();
    let number = JsNumber::from(42);
    assert_eq!(number.to_i32(&runtime), Ok(42));
}

#[test]
fn int_round_trip_extremes() {
    let runtime = JsRuntime::new(JsRuntimeAttributes::none()).unwrap();
    for n in [i32::MIN, -1, 0, 1, i32::MAX] {
        assert_eq!(JsNumber::from(n).to_i32(&runtime), Ok(n));
    }
}

#[test]
fn to_i32_of_undefined_is_an_error() {
    let runtime = JsRuntime::new(JsRuntimeAttributes::none()).unwrap();
    let not_number = JsNumber { handle: JsValue::undefined().handle };
    assert_eq!(not_number.to_i32(&runtime), Err(JsError::NoCurrentContext));
}

#[test]
fn get_type_number() {
    let runtime = JsRuntime::new(JsRuntimeAttributes::none()).unwrap();
    let number = JsNumber::from(42);
    let value: JsValue = number.into_value();
    assert_eq!(value.get_type(&runtime), Ok(JsType::Number));
}
