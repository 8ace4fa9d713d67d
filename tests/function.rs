use chakracore::context::JsScriptContext;
use chakracore::error::JsError;
use chakracore::function::{call_function, JsCallbacks, JsFunction, JsFunctionContext};
use std::cell::Cell;
use chakracore::number::JsNumber;
use chakracore::object::JsObject;
use chakracore::runtime::{JsRuntime, JsRuntimeAttributes};
use chakracore::string::JsString;
use chakracore::value::{JsType, JsValue, JsValueRef};

fn runtime_with_context() -> (JsRuntime, JsScriptContext) {
    let mut runtime = JsRuntime::new(JsRuntimeAttributes::none()).unwrap();
    let mut context = JsScriptContext::new(&mut runtime).unwrap();
    context.set_current_context(&mut runtime).unwrap();
    (runtime, context)
}

fn ints(values: &[i32]) -> Vec<JsValue> {
    values.iter().map(|n| JsNumber::from(*n).into_value()).collect()
}

#[test]
fn call_with_four_numbers_delivers_receiver_and_arguments() {
    let (mut runtime, _context) = runtime_with_context();
    let f = JsFunction::<()>::new(&mut runtime).unwrap();
    let (token, c) = call_function(&mut runtime, f.into_value(), &ints(&[1, 2, 3, 4]), false).unwrap();
    assert_eq!(token, f.token());
    assert_eq!(c.argument_count, 5);
    let types: Vec<Result<JsType, JsError>> = c.arguments.iter().map(|x| x.get_type(&runtime)).collect();
    assert_eq!(
        types,
        vec![
            Ok(JsType::Undefined),
            Ok(JsType::Number),
            Ok(JsType::Number),
            Ok(JsType::Number),
            Ok(JsType::Number),
        ]
    );
    assert!(!c.is_construct_call);
    let a: Vec<i32> = c
        .arguments
        .iter()
        .skip(1)
        .map(|x| JsNumber { handle: x.handle }.to_i32(&runtime).unwrap())
        .collect();
    assert_eq!(a, vec![1, 2, 3, 4]);
}

#[test]
fn construct_call_gets_a_new_object_receiver() {
    let (mut runtime, _context) = runtime_with_context();
    let f = JsFunction::<()>::new(&mut runtime).unwrap();
    let (_, c) = call_function(&mut runtime, f.into_value(), &ints(&[7]), true).unwrap();
    assert!(c.is_construct_call);
    assert_eq!(c.argument_count, 2);
    assert_eq!(c.arguments[0].get_type(&runtime), Ok(JsType::Object));
}

#[test]
fn callback_returning_42_gives_number_42() {
    let (mut runtime, _context) = runtime_with_context();
    let get_value = JsFunction::<i32>::new(&mut runtime).unwrap();
    let key = JsString::new(&mut runtime, "getValue").unwrap();
    let mut global = JsObject::global(&runtime).unwrap();
    global.set_property(&mut runtime, &key, get_value.into_value()).unwrap();

    let callee = global.get_property(&runtime, &key).unwrap();
    let (token, c) = call_function(&mut runtime, callee, &Vec::new(), false).unwrap();
    assert_eq!(token, get_value.token());
    let callback = |_: JsFunctionContext| 42;
    let result = get_value.result_value(callback(c));
    assert_eq!(JsNumber { handle: result.handle }.to_i32(&runtime), Ok(42));
}

#[test]
fn callbacks_dispatch_by_token() {
    let (mut runtime, _context) = runtime_with_context();
    let add = JsFunction::<i32>::new(&mut runtime).unwrap();
    let log = JsFunction::<()>::new(&mut runtime).unwrap();
    assert_ne!(add.token(), log.token());
    let (token, c) = call_function(&mut runtime, add.into_value(), &ints(&[1, 2]), false).unwrap();
    assert_eq!(token, add.token());
    let sum: i32 = c
        .arguments
        .iter()
        .skip(1)
        .map(|x| JsNumber { handle: x.handle }.to_i32(&runtime).unwrap())
        .sum();
    assert_eq!(add.result_value(sum).handle, JsValueRef::Int(3));
    assert_eq!(log.result_value(()).handle, JsValueRef::Undefined);
}

#[test]
fn released_function_is_released_once_and_no_longer_called() {
    let (mut runtime, _context) = runtime_with_context();
    let f = JsFunction::<()>::new(&mut runtime).unwrap();
    let value = f.into_value();
    let again = JsFunction::<()>::new(&mut runtime).unwrap();
    assert!(f.release(&mut runtime));
    assert_eq!(call_function(&mut runtime, value, &Vec::new(), false).err(), Some(JsError::InvalidArgument));
    assert!(call_function(&mut runtime, again.into_value(), &Vec::new(), false).is_ok());
}

#[test]
fn calling_a_non_function_throws() {
    let (mut runtime, _context) = runtime_with_context();
    let object = JsObject::new(&mut runtime).unwrap();
    assert_eq!(
        call_function(&mut runtime, object.into_value(), &Vec::new(), false).err(),
        Some(JsError::ScriptException)
    );
}

#[test]
fn functions_need_context() {
    let mut runtime = JsRuntime::new(JsRuntimeAttributes::none()).unwrap();
    assert_eq!(JsFunction::<()>::new(&mut runtime).err(), Some(JsError::NoCurrentContext));
    assert_eq!(
        call_function(&mut runtime, JsValue::undefined(), &Vec::new(), false).err(),
        Some(JsError::NoCurrentContext)
    );
}

#[test]
fn function_context_copies_the_argument_array() {
    let raw = vec![JsValueRef::Undefined, JsValueRef::Int(5), JsValueRef::Int(6)];
    let c = JsFunctionContext::new(2, &raw, false);
    assert_eq!(c.argument_count, 2);
    assert_eq!(c.arguments.len(), 2);
    assert_eq!(c.arguments[1].handle, JsValueRef::Int(5));
}

#[test]
fn registered_closure_adds_its_arguments() {
    let (mut runtime, _context) = runtime_with_context();
    let mut callbacks: JsCallbacks<Box<dyn Fn(JsFunctionContext) -> i32>> = JsCallbacks::new();
    let add = JsFunction::<i32>::new(&mut runtime).unwrap();
    let numbers = JsRuntime::new(JsRuntimeAttributes::none()).unwrap();
    callbacks.insert(
        &add,
        Box::new(move |c: JsFunctionContext| {
            c.arguments
                .iter()
                .skip(1)
                .map(|x| JsNumber { handle: x.handle }.to_i32(&numbers).unwrap())
                .sum()
        }),
    );
    let (token, c) = call_function(&mut runtime, add.into_value(), &ints(&[1, 2]), false).unwrap();
    let result = callbacks.dispatch(token, c).unwrap();
    assert_eq!(add.result_value(result).handle, JsValueRef::Int(3));
}

#[test]
fn closure_sees_construct_flag_and_runs_once_per_call() {
    let (mut runtime, _context) = runtime_with_context();
    let calls = Cell::new(0);
    let constructed = Cell::new(false);
    let mut callbacks: JsCallbacks<Box<dyn Fn(JsFunctionContext)>> = JsCallbacks::new();
    let f = JsFunction::<()>::new(&mut runtime).unwrap();
    callbacks.insert(
        &f,
        Box::new(|c: JsFunctionContext| {
            calls.set(calls.get() + 1);
            constructed.set(c.is_construct_call);
        }),
    );
    let (token, c) = call_function(&mut runtime, f.into_value(), &Vec::new(), true).unwrap();
    assert_eq!(callbacks.dispatch(token, c), Some(()));
    assert_eq!(calls.get(), 1);
    assert!(constructed.get());
    let (token, c) = call_function(&mut runtime, f.into_value(), &Vec::new(), false).unwrap();
    callbacks.dispatch(token, c).unwrap();
    assert_eq!(calls.get(), 2);
    assert!(!constructed.get());
}

#[test]
fn removed_closure_is_gone_and_its_function_released() {
    let (mut runtime, _context) = runtime_with_context();
    let mut callbacks: JsCallbacks<Box<dyn Fn(JsFunctionContext) -> i32>> = JsCallbacks::new();
    let f = JsFunction::<i32>::new(&mut runtime).unwrap();
    let value = f.into_value();
    let token = f.token();
    callbacks.insert(&f, Box::new(|_| 42));
    let taken = callbacks.remove(&mut runtime, f);
    assert_eq!(taken.map(|cb| cb(JsFunctionContext::new(0, &Vec::new(), false))), Some(42));
    assert_eq!(call_function(&mut runtime, value, &Vec::new(), false).err(), Some(JsError::InvalidArgument));
    assert!(callbacks.dispatch(token, JsFunctionContext::new(0, &Vec::new(), false)).is_none());
}

#[test]
fn register_creates_function_and_callback_together() {
    let (mut runtime, _context) = runtime_with_context();
    let mut callbacks: JsCallbacks<Box<dyn Fn(JsFunctionContext) -> i32>> = JsCallbacks::new();
    let get_value = callbacks.register(&mut runtime, Box::new(|_| 42)).unwrap();
    let (token, c) = call_function(&mut runtime, get_value.into_value(), &Vec::new(), false).unwrap();
    let result = get_value.result_value(callbacks.dispatch(token, c).unwrap());
    assert_eq!(JsNumber { handle: result.handle }.to_i32(&runtime), Ok(42));
}
