use crate::error::JsError;
use crate::runtime::{bool_of, truth_of, JsRuntime};
use crate::value::{JsValue, JsValueRef};
use vstd::prelude::*;

verus! {

/// A boolean value.
#[derive(Debug, Clone, Copy, PartialEq, Eq, Structural)]
pub struct JsBoolean {
    pub handle: JsValueRef,
}

impl JsBoolean {
    /// The boolean value of `value`. Needs a current context.
    pub fn new(runtime: &JsRuntime, value: bool) -> (r: Result<Self, JsError>)
        ensures
            runtime@.has_context() ==> r == Ok::<JsBoolean, JsError>(
                JsBoolean { handle: JsValueRef::Bool(value) },
            ),
            !runtime@.has_context() ==> r == Err::<JsBoolean, JsError>(JsError::NoCurrentContext),
    {
        if !runtime.has_context() {
            return Err(JsError::NoCurrentContext);
        }
        Ok(JsBoolean { handle: JsValueRef::Bool(value) })
    }

    /// The boolean this value holds. Fails where it holds no boolean.
    pub fn to_bool(&self, runtime: &JsRuntime) -> (r: Result<bool, JsError>)
        ensures
            r == bool_of(runtime@, self.handle),
    {
        if !runtime.has_context() {
            return Err(JsError::NoCurrentContext);
        }
        match self.handle {
            JsValueRef::Bool(b) => Ok(b),
            _ => Err(JsError::InvalidArgument),
        }
    }

    /// Converts a value of any type to its truth value.
    pub fn from_value(runtime: &JsRuntime, value: JsValue) -> (r: Result<Self, JsError>)
        requires
            runtime@.wf(),
        ensures
            truth_of(runtime@, value.handle) matches Ok(b) ==> r == Ok::<JsBoolean, JsError>(
                JsBoolean { handle: JsValueRef::Bool(b) },
            ),
            truth_of(runtime@, value.handle) matches Err(e) ==> r == Err::<JsBoolean, JsError>(e),
    {
        let b = runtime.truth(value.handle)?;
        Ok(JsBoolean { handle: JsValueRef::Bool(b) })
    }

    /// The same boolean as a value of any type.
    pub fn into_value(self) -> (r: JsValue)
        ensures
            r.handle == self.handle,
    {
        JsValue { handle: self.handle }
    }
}

} // verus!
