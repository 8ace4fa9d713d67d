use crate::error::JsError;
use crate::runtime::{fixed, lookup, props_at, property_target, with_key, without_key, HeapModel, HeapValue, JsRuntime, RuntimeModel};
use crate::string::JsString;
use crate::value::{JsValue, JsValueRef};
use vstd::prelude::*;

verus! {

/// An object value.
#[derive(Debug, Clone, Copy, PartialEq, Eq, Structural)]
pub struct JsObject {
    pub handle: JsValueRef,
}

/// What `get_property` reads: the property's value, or `undefined` where there is none.
pub open spec fn property_value(props: Seq<(Seq<u8>, JsValueRef, bool)>, key: Seq<u8>) -> JsValueRef {
    match lookup(props, key) {
        Some(v) => v,
        None => JsValueRef::Undefined,
    }
}

impl JsObject {
    /// Creates an empty object. Needs a current context.
    pub fn new(runtime: &mut JsRuntime) -> (r: Result<Self, JsError>)
        requires
            old(runtime)@.wf(),
        ensures
            final(runtime)@.wf(),
            !old(runtime)@.has_context() ==> r == Err::<JsObject, JsError>(JsError::NoCurrentContext)
                && final(runtime)@ == old(runtime)@,
            old(runtime)@.has_context() ==> {
                &&& r == Ok::<JsObject, JsError>(
                    JsObject { handle: JsValueRef::Slot(old(runtime)@.heap.len() as usize) },
                )
                &&& final(runtime)@ == old(runtime)@.allocate(HeapModel::Object(Seq::empty()))
            },
    {
        let props: Vec<crate::runtime::JsProperty> = Vec::new();
        assert(crate::runtime::props_view(props@) =~= Seq::empty());
        let handle = runtime.create_value(HeapValue::Object(props))?;
        Ok(JsObject { handle })
    }

    /// The global object of the current context.
    pub fn global(runtime: &JsRuntime) -> (r: Result<Self, JsError>)
        requires
            runtime@.wf(),
        ensures
            !runtime@.has_context() ==> r == Err::<JsObject, JsError>(JsError::NoCurrentContext),
            runtime@.current matches Some(c) ==> r == Ok::<JsObject, JsError>(
                JsObject { handle: JsValueRef::Slot(runtime@.globals[c as int]) },
            ),
    {
        let handle = runtime.global_object()?;
        Ok(JsObject { handle })
    }

    /// Whether this object has a property of the key.
    pub fn has_property(&self, runtime: &JsRuntime, key: &JsString) -> (r: Result<bool, JsError>)
        requires
            runtime@.wf(),
        ensures
            property_target(runtime@, self.handle, key.handle) matches Err(e) ==> r == Err::<bool, JsError>(e),
            property_target(runtime@, self.handle, key.handle) matches Ok((i, k)) ==> r == Ok::<bool, JsError>(
                lookup(props_at(runtime@, i), k) is Some,
            ),
    {
        runtime.has_property(self.handle, key.handle)
    }

    /// Sets a property of this object to a value, in strict mode: a property that is not
    /// configurable makes it throw.
    pub fn set_property(&mut self, runtime: &mut JsRuntime, key: &JsString, value: JsValue) -> (r: Result<(), JsError>)
        requires
            old(runtime)@.wf(),
        ensures
            final(runtime)@.wf(),
            *final(self) == *old(self),
            property_target(old(runtime)@, old(self).handle, key.handle) matches Err(e) ==> r == Err::<(), JsError>(e),
            property_target(old(runtime)@, old(self).handle, key.handle) is Ok && value.handle is Null
                ==> r == Err::<(), JsError>(JsError::InvalidArgument),
            r is Err ==> final(runtime)@ == old(runtime)@,
            property_target(old(runtime)@, old(self).handle, key.handle) matches Ok((i, k)) ==> !(value.handle is Null)
                ==> fixed(props_at(old(runtime)@, i), k) ==> r == Err::<(), JsError>(JsError::ScriptException),
            property_target(old(runtime)@, old(self).handle, key.handle) matches Ok((i, k)) ==> !(value.handle is Null)
                ==> !fixed(props_at(old(runtime)@, i), k) ==> {
                &&& r is Ok
                &&& final(runtime)@ == (RuntimeModel {
                    heap: old(runtime)@.heap.update(i as int, HeapModel::Object(with_key(props_at(old(runtime)@, i), k, value.handle))),
                    ..old(runtime)@
                })
            },
    {
        runtime.set_property(self.handle, key.handle, value.handle)
    }

    /// The value of a property of this object; `undefined` where it has none.
    pub fn get_property(&self, runtime: &JsRuntime, key: &JsString) -> (r: Result<JsValue, JsError>)
        requires
            runtime@.wf(),
        ensures
            property_target(runtime@, self.handle, key.handle) matches Err(e) ==> r == Err::<JsValue, JsError>(e),
            property_target(runtime@, self.handle, key.handle) matches Ok((i, k)) ==> r == Ok::<JsValue, JsError>(
                JsValue { handle: property_value(props_at(runtime@, i), k) },
            ),
    {
        let handle = runtime.get_property(self.handle, key.handle)?;
        Ok(JsValue { handle })
    }

    /// Deletes a property of this object, in strict mode: a property that is not
    /// configurable makes it throw. Otherwise it reports `true`, also where there was none.
    pub fn delete_property(&self, runtime: &mut JsRuntime, key: &JsString) -> (r: Result<bool, JsError>)
        requires
            old(runtime)@.wf(),
        ensures
            final(runtime)@.wf(),
            property_target(old(runtime)@, self.handle, key.handle) matches Err(e) ==> r == Err::<bool, JsError>(e)
                && final(runtime)@ == old(runtime)@,
            property_target(old(runtime)@, self.handle, key.handle) matches Ok((i, k)) ==> fixed(props_at(old(runtime)@, i), k)
                ==> r == Err::<bool, JsError>(JsError::ScriptException) && final(runtime)@ == old(runtime)@,
            property_target(old(runtime)@, self.handle, key.handle) matches Ok((i, k)) ==> !fixed(props_at(old(runtime)@, i), k) ==> {
                &&& r == Ok::<bool, JsError>(true)
                &&& final(runtime)@ == (RuntimeModel {
                    heap: old(runtime)@.heap.update(i as int, HeapModel::Object(without_key(props_at(old(runtime)@, i), k))),
                    ..old(runtime)@
                })
            },
    {
        runtime.delete_property(self.handle, key.handle)
    }

    /// The same object as a value of any type.
    pub fn into_value(self) -> (r: JsValue)
        ensures
            r.handle == self.handle,
    {
        JsValue { handle: self.handle }
    }
}

} // verus!
