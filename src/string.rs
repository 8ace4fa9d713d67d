use crate::error::JsError;
use crate::convert::{int_text_bytes, text_bytes_of};
use crate::runtime::{string_bytes, string_of, HeapModel, HeapValue, JsRuntime, RuntimeModel};
use crate::value::{JsType, JsValue, JsValueRef};
use vstd::prelude::*;
use vstd::string::StringSliceAdditionalSpecFns;
use vstd::utf8::{decode_utf8, valid_utf8};

verus! {

/// A string value.
#[derive(Debug, Clone, Copy, PartialEq, Eq, Structural)]
pub struct JsString {
    pub handle: JsValueRef,
}

/// What reading out a string of these bytes gives: its characters, where the bytes hold
/// no null byte and are valid UTF-8.
pub open spec fn text_of(b: Seq<u8>) -> Result<Seq<char>, JsError> {
    if b.len() >= usize::MAX {
        Err(JsError::OutOfMemory)
    } else if b.contains(0) {
        Err(JsError::InvalidArgument)
    } else if !valid_utf8(b) {
        Err(JsError::InvalidArgument)
    } else {
        Ok(decode_utf8(b))
    }
}

/// What `to_string` gives for a reference.
pub open spec fn string_text(m: RuntimeModel, h: JsValueRef) -> Result<Seq<char>, JsError> {
    match string_of(m, h) {
        Ok(b) => text_of(b),
        Err(e) => Err(e),
    }
}

/// Relies on std's `String::from_utf8`: it accepts exactly the valid UTF-8 byte strings
/// and keeps the characters they encode.
#[verifier::external_body]
fn string_from_utf8(bytes: Vec<u8>) -> (r: Option<String>)
    ensures
        r is Some <==> valid_utf8(bytes@),
        r matches Some(s) ==> s@ == decode_utf8(bytes@),
{
    String::from_utf8(bytes).ok()
}

/// A buffer of zero bytes.
fn zeroed(n: usize) -> (r: Vec<u8>)
    ensures
        r@ == Seq::new(n as nat, |i: int| 0u8),
{
    let mut r: Vec<u8> = Vec::new();
    let mut i: usize = 0;
    while i < n
        invariant
            i <= n,
            r@ == Seq::new(i as nat, |j: int| 0u8),
        decreases n - i,
    {
        r.push(0);
        i = i + 1;
        assert(r@ =~= Seq::new(i as nat, |j: int| 0u8));
    }
    r
}

/// Whether a byte string holds a null byte.
pub(crate) fn has_nul(b: &Vec<u8>) -> (r: bool)
    ensures
        r == b@.contains(0),
{
    let mut i: usize = 0;
    while i < b.len()
        invariant
            i <= b.len(),
            forall|j: int| 0 <= j < i ==> b@[j] != 0,
        decreases b.len() - i,
    {
        if b[i] == 0 {
            return true;
        }
        i = i + 1;
    }
    false
}

/// The bytes before the terminator of a null-terminated buffer: the buffer must end in a
/// null byte and hold no other.
pub fn bytes_before_nul(buffer: &Vec<u8>) -> (r: Option<Vec<u8>>)
    ensures
        r is Some <==> (buffer@.len() > 0 && buffer@.last() == 0 && !buffer@.drop_last().contains(0)),
        r matches Some(b) ==> b@ == buffer@.drop_last(),
{
    if buffer.len() == 0 || buffer[buffer.len() - 1] != 0 {
        return None;
    }
    let end = buffer.len() - 1;
    let mut out: Vec<u8> = Vec::new();
    let mut i: usize = 0;
    while i < end
        invariant
            end == buffer.len() - 1,
            i <= end,
            out@ == buffer@.subrange(0, i as int),
            !out@.contains(0),
        decreases end - i,
    {
        if buffer[i] == 0 {
            assert(buffer@.drop_last()[i as int] == 0);
            return None;
        }
        out.push(buffer[i]);
        i = i + 1;
        assert(out@ =~= buffer@.subrange(0, i as int));
    }
    assert(out@ =~= buffer@.drop_last());
    Some(out)
}

impl JsString {
    /// Creates a string value of the given text. Needs a current context; text with a
    /// null byte cannot cross the engine's boundary and is refused.
    pub fn new(runtime: &mut JsRuntime, value: &str) -> (r: Result<Self, JsError>)
        requires
            old(runtime)@.wf(),
        ensures
            final(runtime)@.wf(),
            r is Err ==> final(runtime)@ == old(runtime)@,
            !old(runtime)@.has_context() ==> r == Err::<JsString, JsError>(JsError::NoCurrentContext),
            old(runtime)@.has_context() && value.spec_bytes().contains(0) ==> r == Err::<JsString, JsError>(
                JsError::InvalidArgument,
            ),
            old(runtime)@.has_context() && !value.spec_bytes().contains(0) ==> {
                &&& r == Ok::<JsString, JsError>(
                    JsString { handle: JsValueRef::Slot(old(runtime)@.heap.len() as usize) },
                )
                &&& final(runtime)@ == old(runtime)@.allocate(HeapModel::Str(value.spec_bytes()))
            },
    {
        if !runtime.has_context() {
            return Err(JsError::NoCurrentContext);
        }
        let bytes = vstd::slice::slice_to_vec(value.as_bytes());
        if has_nul(&bytes) {
            return Err(JsError::InvalidArgument);
        }
        let handle = runtime.create_value(HeapValue::Str(bytes))?;
        Ok(JsString { handle })
    }

    /// Reads the string out: first its length, then its bytes into a buffer one longer,
    /// which must come back null-terminated and hold valid UTF-8.
    pub fn to_string(&self, runtime: &JsRuntime) -> (r: Result<String, JsError>)
        requires
            runtime@.wf(),
        ensures
            string_text(runtime@, self.handle) matches Ok(t) ==> r matches Ok(s) && s@ == t,
            string_text(runtime@, self.handle) matches Err(e) ==> r == Err::<String, JsError>(e),
    {
        let length = runtime.string_length(self.handle)?;
        if length == usize::MAX {
            return Err(JsError::OutOfMemory);
        }
        let total_length = length + 1;
        let mut buffer = zeroed(total_length);
        let ghost b = string_of(runtime@, self.handle)->Ok_0;
        assert(buffer@.len() == total_length);
        assert(b.len() == length);
        let written = runtime.copy_string(self.handle, &mut buffer)?;
        if written != length {
            return Err(JsError::InvalidArgument);
        }
        assert(buffer@ =~= b.push(0u8));
        assert(buffer@.drop_last() =~= b);
        let bytes = match bytes_before_nul(&buffer) {
            Some(bytes) => bytes,
            None => {
                return Err(JsError::InvalidArgument);
            },
        };
        match string_from_utf8(bytes) {
            Some(s) => Ok(s),
            None => Err(JsError::InvalidArgument),
        }
    }

    /// Converts a value of any type to a string, as scripts do. A string stays the same
    /// value; anything else becomes a new string.
    pub fn from_value(runtime: &mut JsRuntime, value: JsValue) -> (r: Result<Self, JsError>)
        requires
            old(runtime)@.wf(),
        ensures
            final(runtime)@.wf(),
            text_bytes_of(old(runtime)@, value.handle) matches Err(e) ==> r == Err::<JsString, JsError>(e)
                && final(runtime)@ == old(runtime)@,
            old(runtime)@.has_context() && string_bytes(old(runtime)@, value.handle) is Some ==> r == Ok::<
                JsString,
                JsError,
            >(JsString { handle: value.handle }) && final(runtime)@ == old(runtime)@,
            text_bytes_of(old(runtime)@, value.handle) matches Ok(b) ==> string_bytes(old(runtime)@, value.handle) is None ==> {
                &&& r == Ok::<JsString, JsError>(
                    JsString { handle: JsValueRef::Slot(old(runtime)@.heap.len() as usize) },
                )
                &&& final(runtime)@ == old(runtime)@.allocate(HeapModel::Str(b))
            },
    {
        if !runtime.has_context() {
            return Err(JsError::NoCurrentContext);
        }
        let bytes: Vec<u8> = match value.handle {
            JsValueRef::Null => {
                return Err(JsError::InvalidArgument);
            },
            JsValueRef::Undefined => vstd::slice::slice_to_vec("undefined".as_bytes()),
            JsValueRef::Int(n) => int_text_bytes(n),
            JsValueRef::Bool(b) => {
                if b {
                    vstd::slice::slice_to_vec("true".as_bytes())
                } else {
                    vstd::slice::slice_to_vec("false".as_bytes())
                }
            },
            JsValueRef::Slot(_) => match runtime.type_of(value.handle)? {
                JsType::String => {
                    return Ok(JsString { handle: value.handle });
                },
                JsType::Object => vstd::slice::slice_to_vec("[object Object]".as_bytes()),
                _ => vstd::slice::slice_to_vec("function() { [native code] }".as_bytes()),
            },
        };
        let handle = runtime.create_value(HeapValue::Str(bytes))?;
        Ok(JsString { handle })
    }

    /// The same string as a value of any type.
    pub fn into_value(self) -> (r: JsValue)
        ensures
            r.handle == self.handle,
    {
        JsValue { handle: self.handle }
    }
}

} // verus!
