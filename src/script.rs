use crate::error::{error_of_status, JsError};
use crate::runtime::{HeapModel, JsRuntime};
use crate::string::{has_nul, JsString};
use crate::value::{JsValue, JsValueRef};
use vstd::prelude::*;
use vstd::string::StringSliceAdditionalSpecFns;

verus! {

/// Script source held for the engine: its bytes with a null terminator, which the script
/// owns and frees once, when it goes, and the name that stack traces give it.
pub struct JsScript {
    source_url: JsString,
    source: Vec<u8>,
    size: usize,
}

impl JsScript {
    /// The source buffer, null-terminated.
    pub closed spec fn source_spec(&self) -> Seq<u8> {
        self.source@
    }

    /// The length of the source, without the terminator.
    pub closed spec fn size_spec(&self) -> usize {
        self.size
    }

    /// The name of the source.
    pub closed spec fn url_spec(&self) -> JsString {
        self.source_url
    }

    /// Takes a script's source and the name it goes by. Needs a current context, in which
    /// the name becomes a string value. Neither may hold a null byte.
    pub fn new(runtime: &mut JsRuntime, url: &str, script: &str) -> (r: Result<Self, JsError>)
        requires
            old(runtime)@.wf(),
        ensures
            final(runtime)@.wf(),
            r is Err ==> final(runtime)@ == old(runtime)@,
            !old(runtime)@.has_context() ==> r is Err && r->Err_0 == JsError::NoCurrentContext,
            old(runtime)@.has_context() && (url.spec_bytes().contains(0) || script.spec_bytes().contains(0))
                ==> r is Err && r->Err_0 == JsError::InvalidArgument,
            old(runtime)@.has_context() && !url.spec_bytes().contains(0) && !script.spec_bytes().contains(0) ==> {
                &&& r matches Ok(s)
                &&& s.source_spec() == script.spec_bytes().push(0u8)
                &&& s.size_spec() == script.spec_bytes().len()
                &&& s.url_spec() == (JsString {
                    handle: JsValueRef::Slot(old(runtime)@.heap.len() as usize),
                })
                &&& final(runtime)@ == old(runtime)@.allocate(HeapModel::Str(url.spec_bytes()))
            },
    {
        if !runtime.has_context() {
            return Err(JsError::NoCurrentContext);
        }
        let mut source = vstd::slice::slice_to_vec(script.as_bytes());
        if has_nul(&source) {
            return Err(JsError::InvalidArgument);
        }
        let size = source.len();
        source.push(0);
        let source_url = JsString::new(runtime, url)?;
        Ok(JsScript { source_url, source, size })
    }

    /// The source buffer, null-terminated.
    pub fn source(&self) -> (r: &Vec<u8>)
        ensures
            r@ == self.source_spec(),
    {
        &self.source
    }

    /// The length of the source, without the terminator.
    pub fn size(&self) -> (r: usize)
        ensures
            r == self.size_spec(),
    {
        self.size
    }

    /// The name of the source, as a string value.
    pub fn source_url(&self) -> (r: JsString)
        ensures
            r == self.url_spec(),
    {
        self.source_url
    }
}

impl JsRuntime {
    /// What running a script hands to the engine: its null-terminated source and its
    /// name. Running needs a current context.
    pub fn run_request<'a>(&self, script: &'a JsScript) -> (r: Result<(&'a Vec<u8>, JsString), JsError>)
        requires
            self@.wf(),
        ensures
            !self@.has_context() ==> r is Err && r->Err_0 == JsError::NoCurrentContext,
            self@.has_context() ==> (r matches Ok((s, u)) && s@ == script.source_spec() && u
                == script.url_spec()),
    {
        if !self.has_context() {
            return Err(JsError::NoCurrentContext);
        }
        Ok((script.source(), script.source_url()))
    }

    /// What running a script gives, from the engine's status and result: the result's
    /// value on success, else the failure the status reports (a thrown exception or a
    /// compile failure among them).
    pub fn run_result(status: u32, result: JsValueRef) -> (r: Result<JsValue, JsError>)
        ensures
            status == 0 <==> r is Ok,
            r matches Ok(v) ==> v.handle == result,
            r matches Err(e) ==> Some(e) == error_of_status(status),
    {
        JsError::check(status)?;
        Ok(JsValue { handle: result })
    }
}

} // verus!
