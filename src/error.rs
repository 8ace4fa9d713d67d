use vstd::prelude::*;

verus! {

/// The broad group a failure belongs to: the high half of its status code.
#[derive(Debug, Clone, Copy, PartialEq, Eq, Structural)]
pub enum JsErrorCategory {
    Usage,
    Engine,
    Script,
    Fatal,
    Diagnostic,
    Unknown,
}

/// A failure reported by the engine, one variant per known nonzero status code.
#[derive(Debug, Clone, Copy, PartialEq, Eq, Structural)]
pub enum JsError {
    /// Category of errors that relates to incorrect usage of the API itself.
    CategoryUsage,
    /// An argument to a hosting API was invalid.
    InvalidArgument,
    /// An argument to a hosting API was null in a context where null is not allowed.
    NullArgument,
    /// The hosting API requires that a context be current, but there is no current context.
    NoCurrentContext,
    /// The engine is in an exception state and no APIs can be called until the exception is
    /// cleared.
    InExceptionState,
    /// A hosting API is not yet implemented.
    NotImplemented,
    /// A hosting API was called on the wrong thread.
    WrongThread,
    /// A runtime that is still in use cannot be disposed.
    RuntimeInUse,
    /// A bad serialized script was used, or the serialized script was serialized by a different
    /// version of the Chakra engine.
    BadSerializedScript,
    /// The runtime is in a disabled state.
    InDisabledState,
    /// Runtime does not support reliable script interruption.
    CannotDisableExecution,
    /// A heap enumeration is currently underway in the script context.
    HeapEnumInProgress,
    /// A hosting API that operates on object values was called with a non-object value.
    ArgumentNotObject,
    /// A script context is in the middle of a profile callback.
    InProfileCallback,
    /// A thread service callback is currently underway.
    InThreadServiceCallback,
    /// Scripts cannot be serialized in debug contexts.
    CannotSerializeDebugScript,
    /// The context cannot be put into a debug state because it is already in a debug state.
    AlreadyDebuggingContext,
    /// The context cannot start profiling because it is already profiling.
    AlreadyProfilingContext,
    /// Idle notification given when the host did not enable idle processing.
    IdleNotEnabled,
    /// The context did not accept the enqueue callback.
    CannotSetProjectionEnqueueCallback,
    /// Failed to start projection.
    CannotStartProjection,
    /// The operation is not supported in an object before collect callback.
    InObjectBeforeCollectCallback,
    /// Object cannot be unwrapped to IInspectable pointer.
    ObjectNotInspectable,
    /// "A hosting API that operates on symbol property ids but was called with a non-symbol
    /// property id. The error code is returned by JsGetSymbolFromPropertyId if the function is
    /// called with non-symbol property id."
    PropertyNotSymbol,
    /// A hosting API that operates on string property ids but was called with a non-string property
    /// id. The error code is returned by existing JsGetPropertyNamefromId if the function is called
    /// with non-string property id.
    PropertyNotString,
    /// Module evaluation is called in wrong context.
    InvalidContext,
    /// Module evaluation is called in wrong context.
    InvalidModuleHostInfoKind,
    /// Module was parsed already when JsParseModuleSource is called.
    ModuleParsed,
    /// Argument passed to JsCreateWeakReference is a primitive that is not managed by the GC. No
    /// weak reference is required, the value will never be collected.
    NoWeakRefRequired,
    /// The Promise object is still in the pending state.
    PromisePending,
    /// Module was not yet evaluated when JsGetModuleNamespace was called.
    ModuleNotEvaluated,
    /// Category of errors that relates to errors occurring within the engine itself.
    CategoryEngine,
    /// The Chakra engine has run out of memory.
    OutOfMemory,
    /// The Chakra engine failed to set the Floating Point Unit state.
    BadFPUState,
    /// Category of errors that relates to errors in a script.
    CategoryScript,
    /// A JavaScript exception occurred while running a script.
    ScriptException,
    /// JavaScript failed to compile.
    ScriptCompile,
    /// A script was terminated due to a request to suspend a runtime.
    ScriptTerminated,
    /// A script was terminated because it tried to use eval or function and eval was disabled.
    ScriptEvalDisabled,
    /// Category of errors that are fatal and signify failure of the engine.
    CategoryFatal,
    /// A fatal error in the engine has occurred.
    Fatal,
    /// A hosting API was called with object created on different javascript runtime.
    WrongRuntime,
    /// Category of errors that are related to failures during diagnostic operations.
    CategoryDiagError,
    /// The object for which the debugging API was called was not found.
    DiagAlreadyInDebugMode,
    /// The debugging API can only be called when VM is in debug mode.
    DiagNotInDebugMode,
    /// The debugging API can only be called when VM is at a break.
    DiagNotAtBreak,
    /// Debugging API was called with an invalid handle.
    DiagInvalidHandle,
    /// The object for which the debugging API was called was not found.
    DiagObjectNotFound,
    /// VM was unable to perform the request action.
    DiagUnableToPerformAction,
    /// A nonzero status code that this table does not know.
    UnknownStatus(u32),
}

/// The status code that stands for each failure.
pub open spec fn status_of(e: JsError) -> u32 {
    match e {
        JsError::CategoryUsage => 65536,
        JsError::InvalidArgument => 65537,
        JsError::NullArgument => 65538,
        JsError::NoCurrentContext => 65539,
        JsError::InExceptionState => 65540,
        JsError::NotImplemented => 65541,
        JsError::WrongThread => 65542,
        JsError::RuntimeInUse => 65543,
        JsError::BadSerializedScript => 65544,
        JsError::InDisabledState => 65545,
        JsError::CannotDisableExecution => 65546,
        JsError::HeapEnumInProgress => 65547,
        JsError::ArgumentNotObject => 65548,
        JsError::InProfileCallback => 65549,
        JsError::InThreadServiceCallback => 65550,
        JsError::CannotSerializeDebugScript => 65551,
        JsError::AlreadyDebuggingContext => 65552,
        JsError::AlreadyProfilingContext => 65553,
        JsError::IdleNotEnabled => 65554,
        JsError::CannotSetProjectionEnqueueCallback => 65555,
        JsError::CannotStartProjection => 65556,
        JsError::InObjectBeforeCollectCallback => 65557,
        JsError::ObjectNotInspectable => 65558,
        JsError::PropertyNotSymbol => 65559,
        JsError::PropertyNotString => 65560,
        JsError::InvalidContext => 65561,
        JsError::InvalidModuleHostInfoKind => 65562,
        JsError::ModuleParsed => 65563,
        JsError::NoWeakRefRequired => 65564,
        JsError::PromisePending => 65565,
        JsError::ModuleNotEvaluated => 65566,
        JsError::CategoryEngine => 131072,
        JsError::OutOfMemory => 131073,
        JsError::BadFPUState => 131074,
        JsError::CategoryScript => 196608,
        JsError::ScriptException => 196609,
        JsError::ScriptCompile => 196610,
        JsError::ScriptTerminated => 196611,
        JsError::ScriptEvalDisabled => 196612,
        JsError::CategoryFatal => 262144,
        JsError::Fatal => 262145,
        JsError::WrongRuntime => 262146,
        JsError::CategoryDiagError => 327680,
        JsError::DiagAlreadyInDebugMode => 327681,
        JsError::DiagNotInDebugMode => 327682,
        JsError::DiagNotAtBreak => 327683,
        JsError::DiagInvalidHandle => 327684,
        JsError::DiagObjectNotFound => 327685,
        JsError::DiagUnableToPerformAction => 327686,
        JsError::UnknownStatus(code) => code,
    }
}

/// A status code that names one of the known failures.
pub open spec fn is_known_status(code: u32) -> bool {
    exists|e: JsError| !(e is UnknownStatus) && status_of(e) == code
}

/// What a status code reports: nothing for success, else the failure it names.
pub open spec fn error_of_status(code: u32) -> Option<JsError> {
    if code == 0 {
        None
    } else if is_known_status(code) {
        Some(choose|e: JsError| !(e is UnknownStatus) && status_of(e) == code)
    } else {
        Some(JsError::UnknownStatus(code))
    }
}

/// The category of a status code, read from its high half.
pub open spec fn category_of_status(code: u32) -> JsErrorCategory {
    let high = code / 0x10000;
    if high == 1 {
        JsErrorCategory::Usage
    } else if high == 2 {
        JsErrorCategory::Engine
    } else if high == 3 {
        JsErrorCategory::Script
    } else if high == 4 {
        JsErrorCategory::Fatal
    } else if high == 5 {
        JsErrorCategory::Diagnostic
    } else {
        JsErrorCategory::Unknown
    }
}

/// Two known failures never share a status code.
pub proof fn lemma_status_injective(a: JsError, b: JsError)
    requires
        !(a is UnknownStatus),
        !(b is UnknownStatus),
        status_of(a) == status_of(b),
    ensures
        a == b,
{
}

impl JsError {
    /// Maps a status code to the failure it reports, or `None` for success.
    pub fn from(error_code: u32) -> (r: Option<JsError>)
        ensures
            r == error_of_status(error_code),
    {
        let r = match error_code {
            0 => None,
            65536 => Some(JsError::CategoryUsage),
            65537 => Some(JsError::InvalidArgument),
            65538 => Some(JsError::NullArgument),
            65539 => Some(JsError::NoCurrentContext),
            65540 => Some(JsError::InExceptionState),
            65541 => Some(JsError::NotImplemented),
            65542 => Some(JsError::WrongThread),
            65543 => Some(JsError::RuntimeInUse),
            65544 => Some(JsError::BadSerializedScript),
            65545 => Some(JsError::InDisabledState),
            65546 => Some(JsError::CannotDisableExecution),
            65547 => Some(JsError::HeapEnumInProgress),
            65548 => Some(JsError::ArgumentNotObject),
            65549 => Some(JsError::InProfileCallback),
            65550 => Some(JsError::InThreadServiceCallback),
            65551 => Some(JsError::CannotSerializeDebugScript),
            65552 => Some(JsError::AlreadyDebuggingContext),
            65553 => Some(JsError::AlreadyProfilingContext),
            65554 => Some(JsError::IdleNotEnabled),
            65555 => Some(JsError::CannotSetProjectionEnqueueCallback),
            65556 => Some(JsError::CannotStartProjection),
            65557 => Some(JsError::InObjectBeforeCollectCallback),
            65558 => Some(JsError::ObjectNotInspectable),
            65559 => Some(JsError::PropertyNotSymbol),
            65560 => Some(JsError::PropertyNotString),
            65561 => Some(JsError::InvalidContext),
            65562 => Some(JsError::InvalidModuleHostInfoKind),
            65563 => Some(JsError::ModuleParsed),
            65564 => Some(JsError::NoWeakRefRequired),
            65565 => Some(JsError::PromisePending),
            65566 => Some(JsError::ModuleNotEvaluated),
            131072 => Some(JsError::CategoryEngine),
            131073 => Some(JsError::OutOfMemory),
            131074 => Some(JsError::BadFPUState),
            196608 => Some(JsError::CategoryScript),
            196609 => Some(JsError::ScriptException),
            196610 => Some(JsError::ScriptCompile),
            196611 => Some(JsError::ScriptTerminated),
            196612 => Some(JsError::ScriptEvalDisabled),
            262144 => Some(JsError::CategoryFatal),
            262145 => Some(JsError::Fatal),
            262146 => Some(JsError::WrongRuntime),
            327680 => Some(JsError::CategoryDiagError),
            327681 => Some(JsError::DiagAlreadyInDebugMode),
            327682 => Some(JsError::DiagNotInDebugMode),
            327683 => Some(JsError::DiagNotAtBreak),
            327684 => Some(JsError::DiagInvalidHandle),
            327685 => Some(JsError::DiagObjectNotFound),
            327686 => Some(JsError::DiagUnableToPerformAction),
            _ => Some(JsError::UnknownStatus(error_code)),
        };
        proof {
            if error_code != 0 {
                let e = r.unwrap();
                if !(e is UnknownStatus) {
                    assert(status_of(e) == error_code);
                    assert(is_known_status(error_code));
                    let c = choose|c: JsError| !(c is UnknownStatus) && status_of(c) == error_code;
                    lemma_status_injective(e, c);
                } else {
                    assert(!is_known_status(error_code));
                }
            }
        }
        r
    }

    /// Turns a status code into a result: `Ok` for success, else the failure it reports.
    pub fn check(error_code: u32) -> (r: Result<(), JsError>)
        ensures
            error_code == 0 <==> r is Ok,
            r matches Err(e) ==> Some(e) == error_of_status(error_code),
            r matches Err(e) ==> status_of(e) == error_code,
    {
        match JsError::from(error_code) {
            None => Ok(()),
            Some(e) => Err(e),
        }
    }

    /// The status code that reports this failure.
    pub fn code(&self) -> (r: u32)
        ensures
            r == status_of(*self),
    {
        match self {
            JsError::CategoryUsage => 65536,
            JsError::InvalidArgument => 65537,
            JsError::NullArgument => 65538,
            JsError::NoCurrentContext => 65539,
            JsError::InExceptionState => 65540,
            JsError::NotImplemented => 65541,
            JsError::WrongThread => 65542,
            JsError::RuntimeInUse => 65543,
            JsError::BadSerializedScript => 65544,
            JsError::InDisabledState => 65545,
            JsError::CannotDisableExecution => 65546,
            JsError::HeapEnumInProgress => 65547,
            JsError::ArgumentNotObject => 65548,
            JsError::InProfileCallback => 65549,
            JsError::InThreadServiceCallback => 65550,
            JsError::CannotSerializeDebugScript => 65551,
            JsError::AlreadyDebuggingContext => 65552,
            JsError::AlreadyProfilingContext => 65553,
            JsError::IdleNotEnabled => 65554,
            JsError::CannotSetProjectionEnqueueCallback => 65555,
            JsError::CannotStartProjection => 65556,
            JsError::InObjectBeforeCollectCallback => 65557,
            JsError::ObjectNotInspectable => 65558,
            JsError::PropertyNotSymbol => 65559,
            JsError::PropertyNotString => 65560,
            JsError::InvalidContext => 65561,
            JsError::InvalidModuleHostInfoKind => 65562,
            JsError::ModuleParsed => 65563,
            JsError::NoWeakRefRequired => 65564,
            JsError::PromisePending => 65565,
            JsError::ModuleNotEvaluated => 65566,
            JsError::CategoryEngine => 131072,
            JsError::OutOfMemory => 131073,
            JsError::BadFPUState => 131074,
            JsError::CategoryScript => 196608,
            JsError::ScriptException => 196609,
            JsError::ScriptCompile => 196610,
            JsError::ScriptTerminated => 196611,
            JsError::ScriptEvalDisabled => 196612,
            JsError::CategoryFatal => 262144,
            JsError::Fatal => 262145,
            JsError::WrongRuntime => 262146,
            JsError::CategoryDiagError => 327680,
            JsError::DiagAlreadyInDebugMode => 327681,
            JsError::DiagNotInDebugMode => 327682,
            JsError::DiagNotAtBreak => 327683,
            JsError::DiagInvalidHandle => 327684,
            JsError::DiagObjectNotFound => 327685,
            JsError::DiagUnableToPerformAction => 327686,
            JsError::UnknownStatus(code) => *code,
        }
    }

    /// The category that this failure belongs to.
    pub fn category(&self) -> (r: JsErrorCategory)
        ensures
            r == category_of_status(status_of(*self)),
    {
        let high = self.code() / 0x10000;
        if high == 1 {
            JsErrorCategory::Usage
        } else if high == 2 {
            JsErrorCategory::Engine
        } else if high == 3 {
            JsErrorCategory::Script
        } else if high == 4 {
            JsErrorCategory::Fatal
        } else if high == 5 {
            JsErrorCategory::Diagnostic
        } else {
            JsErrorCategory::Unknown
        }
    }
}

} // verus!
