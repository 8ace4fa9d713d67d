use chakracore::context::JsScriptContext;
use chakracore::error::JsError;
use chakracore::runtime::{JsRuntime, JsRuntimeAttributes};

#[test]
fn create_runtime() {
    let runtime = JsRuntime::new(JsRuntimeAttributes::none());
    assert!(runtime.is_ok());
}

#[test]
fn attributes_are_kept_and_give_their_mask() {
    let mut attributes = JsRuntimeAttributes::none();
    assert_eq!(attributes.bits(), 0);
    attributes.disable_background_work = true;
    attributes.disable_eval = true;
    attributes.disable_executable_page_allocation = true;
    assert_eq!(attributes.bits(), 1 + 16 + 256);
    let runtime = JsRuntime::new(attributes).unwrap();
    assert_eq!(runtime.attributes(), attributes);
}

#[test]
fn all_attributes_mask() {
    let attributes = JsRuntimeAttributes {
        disable_background_work: true,
        allow_script_interrupt: true,
        enable_idle_processing: true,
        disable_native_code_generation: true,
        disable_eval: true,
        enable_experimental_features: true,
        dispatch_set_exceptions_to_debugger: true,
        disable_fatal_on_oom: true,
        disable_executable_page_allocation: true,
    };
    assert_eq!(attributes.bits(), 511);
}

#[test]
fn dispose_while_context_current_fails() {
    let mut runtime = JsRuntime::new(JsRuntimeAttributes::none()).unwrap();
    let mut context = JsScriptContext::new(&mut runtime).unwrap();
    context.set_current_context(&mut runtime).unwrap();
    assert_eq!(runtime.dispose(), Err(JsError::RuntimeInUse));
}

#[test]
fn dispose_after_clear_succeeds() {
    let mut runtime = JsRuntime::new(JsRuntimeAttributes::none()).unwrap();
    let mut context = JsScriptContext::new(&mut runtime).unwrap();
    context.set_current_context(&mut runtime).unwrap();
    context.clear_current_context(&mut runtime).unwrap();
    assert_eq!(runtime.dispose(), Ok(()));
}
