use crate::error::JsError;
use crate::runtime::{cleared, entered, JsRuntime};
use vstd::prelude::*;

verus! {

/// An execution scope of a runtime, with its own global object. It records the runtime
/// it was created in and is refused by any other.
pub struct JsScriptContext {
    runtime: String,
    context: usize,
    is_current_context: bool,
}

impl JsScriptContext {
    /// The identity of the runtime this context belongs to.
    pub closed spec fn runtime_id(&self) -> Seq<char> {
        self.runtime@
    }

    /// The index of this context among its runtime's contexts.
    pub closed spec fn index(&self) -> usize {
        self.context
    }

    /// Whether this context has made itself current and not left since.
    pub closed spec fn is_current(&self) -> bool {
        self.is_current_context
    }

    /// Creates a script context in a runtime. It is not current.
    pub fn new(runtime: &mut JsRuntime) -> (r: Result<Self, JsError>)
        requires
            old(runtime)@.wf(),
        ensures
            final(runtime)@.wf(),
            r matches Ok(c) && !c.is_current() && c.index() == old(runtime)@.globals.len()
                && c.runtime_id() == old(runtime)@.id,
            final(runtime)@ == old(runtime)@.with_context(),
    {
        let context = runtime.create_context();
        let id = runtime.id().clone();
        Ok(JsScriptContext { runtime: id, context, is_current_context: false })
    }

    /// The index of this context among its runtime's contexts.
    pub fn context_index(&self) -> (r: usize)
        ensures
            r == self.index(),
    {
        self.context
    }

    /// Whether this context is current.
    pub fn is_current_context(&self) -> (r: bool)
        ensures
            r == self.is_current(),
    {
        self.is_current_context
    }

    /// Sets this context as the current one of its runtime. Fails with `WrongRuntime` for a
    /// runtime other than its own, and with `InvalidArgument` where another context is
    /// current.
    pub fn set_current_context(&mut self, runtime: &mut JsRuntime) -> (r: Result<(), JsError>)
        requires
            old(runtime)@.wf(),
        ensures
            final(runtime)@.wf(),
            final(self).index() == old(self).index(),
            final(self).runtime_id() == old(self).runtime_id(),
            old(self).runtime_id() != old(runtime)@.id ==> r == Err::<(), JsError>(
                JsError::WrongRuntime,
            ),
            old(self).runtime_id() == old(runtime)@.id ==> (r is Ok <==> (old(self).index()
                < old(runtime)@.globals.len() && (old(runtime)@.current matches Some(d) ==> d
                == old(self).index()))),
            old(self).runtime_id() == old(runtime)@.id && r is Err ==> r == Err::<(), JsError>(
                JsError::InvalidArgument,
            ),
            r is Ok ==> final(self).is_current() && final(runtime)@ == entered(
                old(runtime)@,
                old(self).index(),
            ),
            r is Err ==> *final(self) == *old(self) && final(runtime)@ == old(runtime)@,
    {
        if self.runtime != *runtime.id() {
            return Err(JsError::WrongRuntime);
        }
        runtime.enter_context(self.context)?;
        self.is_current_context = true;
        Ok(())
    }

    /// Leaves this context: clears the runtime's current context. Where this context is
    /// not current, nothing changes and this succeeds; it fails with `WrongRuntime` for a
    /// runtime other than its own.
    pub fn clear_current_context(&mut self, runtime: &mut JsRuntime) -> (r: Result<(), JsError>)
        requires
            old(runtime)@.wf(),
        ensures
            final(runtime)@.wf(),
            final(self).index() == old(self).index(),
            final(self).runtime_id() == old(self).runtime_id(),
            !old(self).is_current() ==> r is Ok && *final(self) == *old(self) && final(runtime)@
                == old(runtime)@,
            old(self).is_current() && old(self).runtime_id() != old(runtime)@.id ==> r
                == Err::<(), JsError>(JsError::WrongRuntime) && *final(self) == *old(self)
                && final(runtime)@ == old(runtime)@,
            old(self).is_current() && old(self).runtime_id() == old(runtime)@.id ==> r is Ok
                && !final(self).is_current() && final(runtime)@ == cleared(old(runtime)@),
            old(self).is_current() && r is Ok ==> !final(runtime)@.has_context(),
    {
        if !self.is_current_context {
            return Ok(());
        }
        if self.runtime != *runtime.id() {
            return Err(JsError::WrongRuntime);
        }
        runtime.leave_context();
        self.is_current_context = false;
        Ok(())
    }
}

} // verus!
