use chakracore::context::JsScriptContext;
use chakracore::error::JsError;
use chakracore::runtime::{JsRuntime, JsRuntimeAttributes};
use chakracore::script::JsScript;
use chakracore::value::JsValueRef;

#[test]
fn create_script() {
    let mut runtime = JsRuntime::new(JsRuntimeAttributes::none()).unwrap();
    let mut context = JsScriptContext::new(&mut runtime).unwrap();
    context.set_current_context(&mut runtime).unwrap();

    let script = JsScript::new(&mut runtime, "hello", "(() => { return 'Hello world'; })()");
    assert!(script.is_ok());
}

#[test]
fn script_buffer_is_null_terminated() {
    let mut runtime = JsRuntime::new(JsRuntimeAttributes::none()).unwrap();
    let mut context = JsScriptContext::new(&mut runtime).unwrap();
    context.set_current_context(&mut runtime).unwrap();

    let script = JsScript::new(&mut runtime, "sample", "(() => 1024)()").unwrap();
    assert_eq!(script.size(), 14);
    let mut expected = b"(() => 1024)()".to_vec();
    expected.push(0);
    assert_eq!(script.source(), &expected);
    assert_eq!(script.source_url().to_string(&runtime), Ok("sample".to_string()));
}

#[test]
fn script_needs_context() {
    let mut runtime = JsRuntime::new(JsRuntimeAttributes::none()).unwrap();
    assert_eq!(JsScript::new(&mut runtime, "x", "1").err(), Some(JsError::NoCurrentContext));
}

#[test]
fn script_with_a_null_byte_is_refused() {
    let mut runtime = JsRuntime::new(JsRuntimeAttributes::none()).unwrap();
    let mut context = JsScriptContext::new(&mut runtime).unwrap();
    context.set_current_context(&mut runtime).unwrap();
    assert_eq!(JsScript::new(&mut runtime, "x", "1\0").err(), Some(JsError::InvalidArgument));
    assert_eq!(JsScript::new(&mut runtime, "x\0", "1").err(), Some(JsError::InvalidArgument));
}

#[test]
fn run_request_hands_over_source_and_name() {
    let mut runtime = JsRuntime::new(JsRuntimeAttributes::none()).unwrap();
    let mut context = JsScriptContext::new(&mut runtime).unwrap();
    context.set_current_context(&mut runtime).unwrap();
    let script = JsScript::new(&mut runtime, "sample", "(() => 1024)()").unwrap();
    let (source, url) = runtime.run_request(&script).unwrap();
    assert_eq!(source.last(), Some(&0));
    assert_eq!(url.to_string(&runtime), Ok("sample".to_string()));
    context.clear_current_context(&mut runtime).unwrap();
    assert_eq!(runtime.run_request(&script).err(), Some(JsError::NoCurrentContext));
}

#[test]
fn run_result_maps_status() {
    let ok = JsRuntime::run_result(0, JsValueRef::Int(1024)).unwrap();
    assert_eq!(ok.handle, JsValueRef::Int(1024));
    assert_eq!(JsRuntime::run_result(196609, JsValueRef::Null).err(), Some(JsError::ScriptException));
    assert_eq!(JsRuntime::run_result(196610, JsValueRef::Null).err(), Some(JsError::ScriptCompile));
    assert_eq!(JsRuntime::run_result(65539, JsValueRef::Null).err(), Some(JsError::NoCurrentContext));
}
