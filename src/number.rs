use crate::error::JsError;
use crate::convert::{number_of, string_to_number};
use crate::runtime::{int_of, JsRuntime};
use crate::value::{JsType, JsValue, JsValueRef};
use vstd::prelude::*;

verus! {

/// A number value.
#[derive(Debug, Clone, Copy, PartialEq, Eq, Structural)]
pub struct JsNumber {
    pub handle: JsValueRef,
}

impl JsNumber {
    /// The number value of a 32-bit integer. It travels in the reference, so this needs
    /// no context and cannot fail.
    pub fn from(value: i32) -> (r: JsNumber)
        ensures
            r.handle == JsValueRef::Int(value),
    {
        JsNumber { handle: JsValueRef::Int(value) }
    }

    /// The integer this value holds. Fails where it holds no number.
    pub fn to_i32(&self, runtime: &JsRuntime) -> (r: Result<i32, JsError>)
        ensures
            r == int_of(runtime@, self.handle),
    {
        match self.handle {
            JsValueRef::Int(n) => Ok(n),
            _ => {
                if !runtime.has_context() {
                    Err(JsError::NoCurrentContext)
                } else {
                    Err(JsError::InvalidArgument)
                }
            },
        }
    }

    /// Converts a value of any type to a number, as scripts do.
    pub fn from_value(runtime: &JsRuntime, value: JsValue) -> (r: Result<Self, JsError>)
        requires
            runtime@.wf(),
        ensures
            number_of(runtime@, value.handle) matches Ok(n) ==> r == Ok::<JsNumber, JsError>(
                JsNumber { handle: JsValueRef::Int(n) },
            ),
            number_of(runtime@, value.handle) matches Err(e) ==> r == Err::<JsNumber, JsError>(e),
    {
        if let JsValueRef::Int(n) = value.handle {
            return Ok(JsNumber { handle: JsValueRef::Int(n) });
        }
        if !runtime.has_context() {
            return Err(JsError::NoCurrentContext);
        }
        match value.handle {
            JsValueRef::Null => Err(JsError::InvalidArgument),
            JsValueRef::Bool(b) => Ok(JsNumber { handle: JsValueRef::Int(if b { 1 } else { 0 }) }),
            JsValueRef::Slot(_) => {
                match runtime.type_of(value.handle)? {
                    JsType::String => {
                        let bytes = runtime.string_slot(value.handle)?;
                        let n = string_to_number(bytes)?;
                        Ok(JsNumber { handle: JsValueRef::Int(n) })
                    },
                    _ => Err(JsError::NotImplemented),
                }
            },
            _ => Err(JsError::NotImplemented),
        }
    }

    /// The same number as a value of any type.
    pub fn into_value(self) -> (r: JsValue)
        ensures
            r.handle == self.handle,
    {
        JsValue { handle: self.handle }
    }
}

} // verus!
