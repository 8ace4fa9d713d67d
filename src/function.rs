use crate::error::JsError;
use crate::object::JsObject;
use crate::runtime::{callback_of, HeapModel, JsRuntime, RuntimeModel};
use crate::value::{JsValue, JsValueRef};
use std::marker::PhantomData;
use vstd::prelude::*;

verus! {

/// What a native function receives when a script calls it: the arguments, the receiver
/// (`this`) first, and whether it was called with `new`.
pub struct JsFunctionContext {
    pub argument_count: u16,
    pub arguments: Vec<JsValue>,
    pub is_construct_call: bool,
}

impl JsFunctionContext {
    /// Copies the first `argument_count` references of the engine's argument array, which
    /// lives only for the length of the call.
    pub fn new(argument_count: u16, arguments: &Vec<JsValueRef>, is_construct_call: bool) -> (r: Self)
        requires
            argument_count <= arguments.len(),
        ensures
            r.argument_count == argument_count,
            r.is_construct_call == is_construct_call,
            r.arguments@.len() == argument_count,
            forall|i: int| 0 <= i < argument_count ==> (#[trigger] r.arguments@[i]).handle == arguments@[i],
    {
        let mut args: Vec<JsValue> = Vec::new();
        let mut i: usize = 0;
        while i < argument_count as usize
            invariant
                argument_count <= arguments.len(),
                i <= argument_count,
                args@.len() == i,
                forall|j: int| 0 <= j < i ==> (#[trigger] args@[j]).handle == arguments@[j],
            decreases argument_count - i,
        {
            args.push(JsValue { handle: arguments[i] });
            i = i + 1;
        }
        JsFunctionContext { argument_count, arguments: args, is_construct_call }
    }
}

/// The references a call hands to a native function: the receiver, then the arguments.
pub open spec fn call_arguments(receiver: JsValueRef, arguments: Seq<JsValue>) -> Seq<JsValueRef> {
    seq![receiver] + arguments.map_values(|v: JsValue| v.handle)
}

/// A native function that scripts can call. Calls reach the host through its callback
/// token; `T` is what the host's callback returns.
pub struct JsFunction<T> {
    handle: JsValueRef,
    token: usize,
    _marker: PhantomData<T>,
}

impl<T> JsFunction<T> {
    /// The reference to the function value.
    pub closed spec fn handle_spec(&self) -> JsValueRef {
        self.handle
    }

    /// The callback token that calls of this function dispatch to.
    pub closed spec fn token_spec(&self) -> usize {
        self.token
    }

    /// The callback token that calls of this function dispatch to.
    pub fn token(&self) -> (r: usize)
        ensures
            r == self.token_spec(),
    {
        self.token
    }

    /// The function as a value of any type, for instance to store it as a property.
    pub fn into_value(&self) -> (r: JsValue)
        ensures
            r.handle == self.handle_spec(),
    {
        JsValue { handle: self.handle }
    }

    /// Unregisters the callback. After this no call reaches it.
    pub fn release(self, runtime: &mut JsRuntime) -> (r: bool)
        requires
            old(runtime)@.wf(),
        ensures
            final(runtime)@.wf(),
            r == (self.token_spec() < old(runtime)@.callbacks.len()
                && old(runtime)@.callbacks[self.token_spec() as int]),
            r ==> final(runtime)@ == (RuntimeModel {
                callbacks: old(runtime)@.callbacks.update(self.token_spec() as int, false),
                ..old(runtime)@
            }),
            !r ==> final(runtime)@ == old(runtime)@,
    {
        runtime.release_callback(self.token)
    }
}

/// Registers a callback token and wraps its function value.
fn create_function<T>(runtime: &mut JsRuntime) -> (r: Result<JsFunction<T>, JsError>)
    requires
        old(runtime)@.wf(),
    ensures
        final(runtime)@.wf(),
        !old(runtime)@.has_context() ==> r is Err && r->Err_0 == JsError::NoCurrentContext
            && final(runtime)@ == old(runtime)@,
        old(runtime)@.has_context() ==> {
            let t = old(runtime)@.callbacks.len() as usize;
            &&& r matches Ok(f) && f.token_spec() == t && f.handle_spec() == JsValueRef::Slot(
                old(runtime)@.heap.len() as usize,
            )
            &&& final(runtime)@ == (RuntimeModel {
                heap: old(runtime)@.heap.push(HeapModel::Function(t)),
                callbacks: old(runtime)@.callbacks.push(true),
                ..old(runtime)@
            })
        },
{
    let (handle, token) = runtime.register_callback()?;
    Ok(JsFunction { handle, token, _marker: PhantomData })
}

impl JsFunction<()> {
    /// Creates a function whose callback returns nothing. Needs a current context.
    pub fn new(runtime: &mut JsRuntime) -> (r: Result<Self, JsError>)
        requires
            old(runtime)@.wf(),
        ensures
            final(runtime)@.wf(),
            !old(runtime)@.has_context() ==> r is Err && r->Err_0 == JsError::NoCurrentContext
                && final(runtime)@ == old(runtime)@,
            old(runtime)@.has_context() ==> {
                let t = old(runtime)@.callbacks.len() as usize;
                &&& r matches Ok(f) && f.token_spec() == t && f.handle_spec() == JsValueRef::Slot(
                    old(runtime)@.heap.len() as usize,
                )
                &&& final(runtime)@ == (RuntimeModel {
                    heap: old(runtime)@.heap.push(HeapModel::Function(t)),
                    callbacks: old(runtime)@.callbacks.push(true),
                    ..old(runtime)@
                })
            },
    {
        create_function(runtime)
    }

    /// What the engine receives from a callback that returns nothing: `undefined`.
    pub fn result_value(&self, result: ()) -> (r: JsValue)
        ensures
            r.handle == JsValueRef::Undefined,
    {
        JsValue::undefined()
    }
}

impl JsFunction<i32> {
    /// Creates a function whose callback returns an integer. Needs a current context.
    pub fn new(runtime: &mut JsRuntime) -> (r: Result<Self, JsError>)
        requires
            old(runtime)@.wf(),
        ensures
            final(runtime)@.wf(),
            !old(runtime)@.has_context() ==> r is Err && r->Err_0 == JsError::NoCurrentContext
                && final(runtime)@ == old(runtime)@,
            old(runtime)@.has_context() ==> {
                let t = old(runtime)@.callbacks.len() as usize;
                &&& r matches Ok(f) && f.token_spec() == t && f.handle_spec() == JsValueRef::Slot(
                    old(runtime)@.heap.len() as usize,
                )
                &&& final(runtime)@ == (RuntimeModel {
                    heap: old(runtime)@.heap.push(HeapModel::Function(t)),
                    callbacks: old(runtime)@.callbacks.push(true),
                    ..old(runtime)@
                })
            },
    {
        create_function(runtime)
    }

    /// What the engine receives from a callback that returns an integer: that number.
    pub fn result_value(&self, result: i32) -> (r: JsValue)
        ensures
            r.handle == JsValueRef::Int(result),
    {
        JsValue { handle: JsValueRef::Int(result) }
    }
}

/// Calls a function value as a script does, `f(...)` or, with `is_construct_call`,
/// `new f(...)`: finds the callback token it dispatches to and hands over the arguments
/// with the receiver first, `undefined` for a plain call and a new object for `new`.
pub fn call_function(
    runtime: &mut JsRuntime,
    function: JsValue,
    arguments: &Vec<JsValue>,
    is_construct_call: bool,
) -> (r: Result<(usize, JsFunctionContext), JsError>)
    requires
        old(runtime)@.wf(),
    ensures
        final(runtime)@.wf(),
        callback_of(old(runtime)@, function.handle) matches Err(e) ==> (r matches Err(f) && f == e),
        callback_of(old(runtime)@, function.handle) is Ok && arguments@.len() >= 0xffff ==> (r matches Err(f)
            && f == JsError::InvalidArgument),
        r is Err ==> final(runtime)@ == old(runtime)@,
        callback_of(old(runtime)@, function.handle) matches Ok(t) ==> arguments@.len() < 0xffff ==> {
            let receiver = if is_construct_call {
                JsValueRef::Slot(old(runtime)@.heap.len() as usize)
            } else {
                JsValueRef::Undefined
            };
            &&& r matches Ok((token, c))
            &&& token == t
            &&& c.is_construct_call == is_construct_call
            &&& c.argument_count == arguments@.len() + 1
            &&& c.arguments@.map_values(|v: JsValue| v.handle) == call_arguments(receiver, arguments@)
            &&& final(runtime)@ == if is_construct_call {
                old(runtime)@.allocate(HeapModel::Object(Seq::empty()))
            } else {
                old(runtime)@
            }
        },
{
    let token = runtime.callback(function.handle)?;
    if arguments.len() >= 0xffff {
        return Err(JsError::InvalidArgument);
    }
    let receiver = if is_construct_call {
        let this = JsObject::new(runtime)?;
        this.handle
    } else {
        JsValueRef::Undefined
    };
    let mut raw: Vec<JsValueRef> = Vec::new();
    raw.push(receiver);
    let mut i: usize = 0;
    while i < arguments.len()
        invariant
            i <= arguments.len(),
            raw@ == call_arguments(receiver, arguments@.subrange(0, i as int)),
        decreases arguments.len() - i,
    {
        raw.push(arguments[i].handle);
        i = i + 1;
        assert(raw@ =~= call_arguments(receiver, arguments@.subrange(0, i as int)));
    }
    assert(arguments@.subrange(0, arguments.len() as int) =~= arguments@);
    let c = JsFunctionContext::new((arguments.len() + 1) as u16, &raw, is_construct_call);
    assert(c.arguments@.map_values(|v: JsValue| v.handle) =~= raw@);
    Ok((token, c))
}

/// The host's callbacks, each under the token of the function that dispatches to it. A
/// callback is taken out once, when its function is released, and not called after.
pub struct JsCallbacks<F> {
    entries: Vec<Option<F>>,
}

impl<F> JsCallbacks<F> {
    /// The callback under each token, where there is one.
    pub closed spec fn entries(&self) -> Seq<Option<F>> {
        self.entries@
    }

    /// No callbacks.
    pub fn new() -> (r: Self)
        ensures
            r.entries() == Seq::<Option<F>>::empty(),
    {
        JsCallbacks { entries: Vec::new() }
    }

    /// Puts a callback under a function's token, in place of any other.
    pub fn insert<T>(&mut self, function: &JsFunction<T>, callback: F)
        ensures
            final(self).entries().len() == if function.token_spec() < old(self).entries().len() {
                old(self).entries().len() as int
            } else {
                function.token_spec() + 1
            },
            final(self).entries()[function.token_spec() as int] == Some(callback),
            forall|t: int|
                0 <= t < final(self).entries().len() && t != function.token_spec() ==> #[trigger] final(self).entries()[t] == if t < old(self).entries().len() {
                    old(self).entries()[t]
                } else {
                    None::<F>
                },
    {
        let token = function.token;
        while self.entries.len() <= token
            invariant
                old(self).entries@.len() <= self.entries@.len(),
                self.entries@.len() <= if token < old(self).entries@.len() {
                    old(self).entries@.len() as int
                } else {
                    token + 1
                },
                forall|t: int|
                    0 <= t < self.entries@.len() ==> #[trigger] self.entries@[t] == if t < old(self).entries@.len() {
                        old(self).entries@[t]
                    } else {
                        None::<F>
                    },
            decreases token + 1 - self.entries.len(),
        {
            self.entries.push(None);
        }
        self.entries.set(token, Some(callback));
    }

    /// Takes out the callback under a function's token, releasing the function.
    pub fn remove<T>(&mut self, runtime: &mut JsRuntime, function: JsFunction<T>) -> (r: Option<F>)
        requires
            old(runtime)@.wf(),
        ensures
            final(runtime)@.wf(),
            r == if function.token_spec() < old(self).entries().len() {
                old(self).entries()[function.token_spec() as int]
            } else {
                None::<F>
            },
            final(self).entries() == if function.token_spec() < old(self).entries().len() {
                old(self).entries().update(function.token_spec() as int, None)
            } else {
                old(self).entries()
            },
            final(runtime)@.callbacks == if function.token_spec() < old(runtime)@.callbacks.len() {
                old(runtime)@.callbacks.update(function.token_spec() as int, false)
            } else {
                old(runtime)@.callbacks
            },
            final(runtime)@.heap == old(runtime)@.heap,
            final(runtime)@.current == old(runtime)@.current,
    {
        let token = function.token;
        let r = if token < self.entries.len() {
            let mut taken: Option<F> = None;
            std::mem::swap(&mut taken, &mut self.entries[token]);
            taken
        } else {
            None
        };
        proof {
            if token < old(self).entries@.len() {
                assert(self.entries@ =~= old(self).entries@.update(token as int, None));
            }
        }
        function.release(runtime);
        r
    }
}

impl<R, F: Fn(JsFunctionContext) -> R> JsCallbacks<F> {
    /// Creates a native function and puts its callback under its token, in one step, so
    /// that every call of the function reaches the callback. Needs a current context.
    pub fn register(&mut self, runtime: &mut JsRuntime, callback: F) -> (r: Result<JsFunction<R>, JsError>)
        requires
            old(runtime)@.wf(),
        ensures
            final(runtime)@.wf(),
            !old(runtime)@.has_context() ==> r is Err && r->Err_0 == JsError::NoCurrentContext
                && final(runtime)@ == old(runtime)@ && final(self).entries() == old(self).entries(),
            old(runtime)@.has_context() ==> {
                let t = old(runtime)@.callbacks.len() as usize;
                &&& r matches Ok(f) && f.token_spec() == t && f.handle_spec() == JsValueRef::Slot(
                    old(runtime)@.heap.len() as usize,
                )
                &&& final(runtime)@ == (RuntimeModel {
                    heap: old(runtime)@.heap.push(HeapModel::Function(t)),
                    callbacks: old(runtime)@.callbacks.push(true),
                    ..old(runtime)@
                })
                &&& final(self).entries()[t as int] == Some(callback)
                &&& forall|u: int|
                    0 <= u < final(self).entries().len() && u != t ==> #[trigger] final(self).entries()[u]
                        == if u < old(self).entries().len() {
                        old(self).entries()[u]
                    } else {
                        None::<F>
                    }
            },
    {
        let function = create_function::<R>(runtime)?;
        self.insert(&function, callback);
        Ok(function)
    }

    /// Runs the callback under a token with what a call handed over, as the engine's entry
    /// point does for a native function. `None` where no callback is under the token.
    pub fn dispatch(&self, token: usize, context: JsFunctionContext) -> (r: Option<R>)
        requires
            forall|c: JsFunctionContext, t: int|
                0 <= t < self.entries().len() && self.entries()[t] is Some ==> #[trigger] self.entries()[t]->Some_0.requires((c,)),
        ensures
            (token < self.entries().len() && self.entries()[token as int] is Some) <==> r is Some,
            r matches Some(v) ==> self.entries()[token as int]->Some_0.ensures((context,), v),
    {
        if token >= self.entries.len() {
            return None;
        }
        match &self.entries[token] {
            Some(f) => Some(f(context)),
            None => None,
        }
    }
}

} // verus!
