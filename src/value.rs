use crate::error::JsError;
use crate::runtime::{type_of_handle, JsRuntime};
use vstd::prelude::*;

verus! {

/// The type of a script value, as the engine's type tag reports it.
#[derive(Debug, Clone, Copy, PartialEq, Eq, Structural)]
pub enum JsType {
    Undefined,
    Null,
    Number,
    String,
    Boolean,
    Object,
    Function,
    Error,
    Array,
    Symbol,
    ArrayBuffer,
    TypedArray,
    DataView,
}

/// The type a type tag of the engine stands for: tags 0 to 12, in the order of `JsType`.
pub open spec fn tag_type(tag: u32) -> Option<JsType> {
    if tag == 0 {
        Some(JsType::Undefined)
    } else if tag == 1 {
        Some(JsType::Null)
    } else if tag == 2 {
        Some(JsType::Number)
    } else if tag == 3 {
        Some(JsType::String)
    } else if tag == 4 {
        Some(JsType::Boolean)
    } else if tag == 5 {
        Some(JsType::Object)
    } else if tag == 6 {
        Some(JsType::Function)
    } else if tag == 7 {
        Some(JsType::Error)
    } else if tag == 8 {
        Some(JsType::Array)
    } else if tag == 9 {
        Some(JsType::Symbol)
    } else if tag == 10 {
        Some(JsType::ArrayBuffer)
    } else if tag == 11 {
        Some(JsType::TypedArray)
    } else if tag == 12 {
        Some(JsType::DataView)
    } else {
        None
    }
}

/// The type a type tag stands for; `None` for a tag this table does not know.
pub fn type_from_tag(tag: u32) -> (r: Option<JsType>)
    ensures
        r == tag_type(tag),
{
    match tag {
        0 => Some(JsType::Undefined),
        1 => Some(JsType::Null),
        2 => Some(JsType::Number),
        3 => Some(JsType::String),
        4 => Some(JsType::Boolean),
        5 => Some(JsType::Object),
        6 => Some(JsType::Function),
        7 => Some(JsType::Error),
        8 => Some(JsType::Array),
        9 => Some(JsType::Symbol),
        10 => Some(JsType::ArrayBuffer),
        11 => Some(JsType::TypedArray),
        12 => Some(JsType::DataView),
        _ => None,
    }
}

impl JsType {
    /// The engine's type tag for this type.
    pub fn tag(&self) -> (r: u32)
        ensures
            tag_type(r) == Some(*self),
    {
        match self {
            JsType::Undefined => 0,
            JsType::Null => 1,
            JsType::Number => 2,
            JsType::String => 3,
            JsType::Boolean => 4,
            JsType::Object => 5,
            JsType::Function => 6,
            JsType::Error => 7,
            JsType::Array => 8,
            JsType::Symbol => 9,
            JsType::ArrayBuffer => 10,
            JsType::TypedArray => 11,
            JsType::DataView => 12,
        }
    }
}

/// A reference to a value that the engine holds. Small integers, booleans and `undefined`
/// travel inside the reference itself; every other value lives in a slot of the runtime's
/// heap. `Null` is the absent reference, not the script value `null`.
#[derive(Debug, Clone, Copy, PartialEq, Eq, Structural)]
pub enum JsValueRef {
    Null,
    Undefined,
    Int(i32),
    Bool(bool),
    Slot(usize),
}

impl JsValueRef {
    /// Whether this is an integer carried in the reference itself.
    pub fn is_int(&self) -> (r: bool)
        ensures
            r == (*self is Int),
    {
        match self {
            JsValueRef::Int(_) => true,
            _ => false,
        }
    }

    /// Whether this is the absent reference.
    pub fn is_null(&self) -> (r: bool)
        ensures
            r == (*self is Null),
    {
        match self {
            JsValueRef::Null => true,
            _ => false,
        }
    }
}

/// A value of any type. It does not own what it refers to: the runtime keeps the value.
#[derive(Debug, Clone, Copy, PartialEq, Eq, Structural)]
pub struct JsValue {
    pub handle: JsValueRef,
}

impl JsValue {
    /// The neutral value handed back where a call has no result: `undefined`.
    pub fn undefined() -> (r: JsValue)
        ensures
            r.handle == JsValueRef::Undefined,
    {
        JsValue { handle: JsValueRef::Undefined }
    }

    /// Reads the engine's type tag of this value and decodes it.
    pub fn get_type(&self, runtime: &JsRuntime) -> (r: Result<JsType, JsError>)
        requires
            runtime@.wf(),
        ensures
            r == type_of_handle(runtime@, self.handle),
    {
        let tag = runtime.type_of(self.handle)?.tag();
        match type_from_tag(tag) {
            Some(t) => Ok(t),
            None => Err(JsError::InvalidArgument),
        }
    }
}

} // verus!
