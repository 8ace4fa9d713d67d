use crate::error::JsError;
use crate::value::{JsType, JsValueRef};
use vstd::prelude::*;
use vstd::utf8::encode_utf8;

verus! {

/// The options a runtime is created with.
#[derive(Debug, Clone, Copy, PartialEq, Eq, Structural)]
pub struct JsRuntimeAttributes {
    /// The runtime will not do any work (such as garbage collection) on background threads.
    pub disable_background_work: bool,
    /// The runtime should support reliable script interruption.
    pub allow_script_interrupt: bool,
    /// The host will signal idle time, so idle processing is enabled.
    pub enable_idle_processing: bool,
    /// The runtime will not generate native code.
    pub disable_native_code_generation: bool,
    /// Using eval or the function constructor will throw an exception.
    pub disable_eval: bool,
    /// The runtime will enable all experimental features.
    pub enable_experimental_features: bool,
    /// Setting an exception also hands it to the script debugger, if any.
    pub dispatch_set_exceptions_to_debugger: bool,
    /// Running out of memory is not a fatal error.
    pub disable_fatal_on_oom: bool,
    /// The runtime will not allocate executable pages.
    pub disable_executable_page_allocation: bool,
}

/// The value of one option in the engine's attribute mask.
pub open spec fn flag_bit(on: bool, bit: u32) -> u32 {
    if on {
        bit
    } else {
        0
    }
}

/// The engine's attribute mask for a set of options: one bit per option, lowest first.
pub open spec fn attribute_bits(a: JsRuntimeAttributes) -> u32 {
    (flag_bit(a.disable_background_work, 1) + flag_bit(a.allow_script_interrupt, 2)
        + flag_bit(a.enable_idle_processing, 4) + flag_bit(a.disable_native_code_generation, 8)
        + flag_bit(a.disable_eval, 16) + flag_bit(a.enable_experimental_features, 32)
        + flag_bit(a.dispatch_set_exceptions_to_debugger, 64) + flag_bit(
        a.disable_fatal_on_oom,
        128,
    ) + flag_bit(a.disable_executable_page_allocation, 256)) as u32
}

impl JsRuntimeAttributes {
    /// No special options.
    pub fn none() -> (r: JsRuntimeAttributes)
        ensures
            attribute_bits(r) == 0,
            r == (JsRuntimeAttributes {
                disable_background_work: false,
                allow_script_interrupt: false,
                enable_idle_processing: false,
                disable_native_code_generation: false,
                disable_eval: false,
                enable_experimental_features: false,
                dispatch_set_exceptions_to_debugger: false,
                disable_fatal_on_oom: false,
                disable_executable_page_allocation: false,
            }),
    {
        JsRuntimeAttributes {
            disable_background_work: false,
            allow_script_interrupt: false,
            enable_idle_processing: false,
            disable_native_code_generation: false,
            disable_eval: false,
            enable_experimental_features: false,
            dispatch_set_exceptions_to_debugger: false,
            disable_fatal_on_oom: false,
            disable_executable_page_allocation: false,
        }
    }

    /// The attribute mask that the engine reads.
    pub fn bits(&self) -> (r: u32)
        ensures
            r == attribute_bits(*self),
    {
        flag(self.disable_background_work, 1) + flag(self.allow_script_interrupt, 2) + flag(
            self.enable_idle_processing,
            4,
        ) + flag(self.disable_native_code_generation, 8) + flag(self.disable_eval, 16) + flag(
            self.enable_experimental_features,
            32,
        ) + flag(self.dispatch_set_exceptions_to_debugger, 64) + flag(self.disable_fatal_on_oom, 128)
            + flag(self.disable_executable_page_allocation, 256)
    }
}

fn flag(on: bool, bit: u32) -> (r: u32)
    ensures
        r == flag_bit(on, bit),
{
    if on {
        bit
    } else {
        0
    }
}

/// One named property of an object. A property that is not configurable can be neither
/// deleted nor set.
pub struct JsProperty {
    pub key: Vec<u8>,
    pub value: JsValueRef,
    pub configurable: bool,
}

/// A value that lives in the runtime's heap.
pub enum HeapValue {
    /// A string, as its bytes.
    Str(Vec<u8>),
    /// An object, as its properties in the order they were last set.
    Object(Vec<JsProperty>),
    /// A native function, as the token of the callback it dispatches to.
    Function(usize),
}

/// What a heap value holds.
pub enum HeapModel {
    Str(Seq<u8>),
    Object(Seq<(Seq<u8>, JsValueRef, bool)>),
    Function(usize),
}

/// The properties of an object as (key, value, configurable) triples.
pub open spec fn props_view(p: Seq<JsProperty>) -> Seq<(Seq<u8>, JsValueRef, bool)> {
    p.map_values(|q: JsProperty| (q.key@, q.value, q.configurable))
}

impl View for HeapValue {
    type V = HeapModel;

    open spec fn view(&self) -> HeapModel {
        match self {
            HeapValue::Str(b) => HeapModel::Str(b@),
            HeapValue::Object(p) => HeapModel::Object(props_view(p@)),
            HeapValue::Function(t) => HeapModel::Function(*t),
        }
    }
}

/// The value of a key in a property list: the last entry with that key.
pub open spec fn lookup(props: Seq<(Seq<u8>, JsValueRef, bool)>, key: Seq<u8>) -> Option<JsValueRef>
    decreases props.len(),
{
    if props.len() == 0 {
        None
    } else if props.last().0 == key {
        Some(props.last().1)
    } else {
        lookup(props.drop_last(), key)
    }
}

/// A property list with every entry of the given key taken out, the rest in order.
pub open spec fn without_key(props: Seq<(Seq<u8>, JsValueRef, bool)>, key: Seq<u8>) -> Seq<
    (Seq<u8>, JsValueRef, bool),
>
    decreases props.len(),
{
    if props.len() == 0 {
        props
    } else if props.last().0 == key {
        without_key(props.drop_last(), key)
    } else {
        without_key(props.drop_last(), key).push(props.last())
    }
}

/// A property list after setting a key: its old entry goes, the new one, configurable,
/// comes last.
pub open spec fn with_key(props: Seq<(Seq<u8>, JsValueRef, bool)>, key: Seq<u8>, value: JsValueRef) -> Seq<
    (Seq<u8>, JsValueRef, bool),
> {
    without_key(props, key).push((key, value, true))
}

/// Whether a property list holds the key as a property that is not configurable.
pub open spec fn fixed(props: Seq<(Seq<u8>, JsValueRef, bool)>, key: Seq<u8>) -> bool {
    exists|i: int| 0 <= i < props.len() && (#[trigger] props[i]).0 == key && !props[i].2
}

/// The properties a global object starts with: `undefined`, which is not configurable.
pub open spec fn global_props() -> Seq<(Seq<u8>, JsValueRef, bool)> {
    seq![(encode_utf8("undefined"@), JsValueRef::Undefined, false)]
}

/// What a runtime holds: the identity its contexts record, its options, its heap, the global object of each context, the
/// context that is current, and which callback tokens are still registered.
pub struct RuntimeModel {
    pub id: Seq<char>,
    pub attributes: JsRuntimeAttributes,
    pub heap: Seq<HeapModel>,
    pub globals: Seq<usize>,
    pub current: Option<usize>,
    pub callbacks: Seq<bool>,
}

impl RuntimeModel {
    /// Each context's global object is an object of the heap, and the current context
    /// is one of this runtime's.
    pub open spec fn wf(self) -> bool {
        &&& forall|c: int|
            0 <= c < self.globals.len() ==> {
                &&& #[trigger] self.globals[c] < self.heap.len()
                &&& self.heap[self.globals[c] as int] is Object
            }
        &&& self.current matches Some(c) ==> c < self.globals.len()
    }

    /// Some context of this runtime is current.
    pub open spec fn has_context(self) -> bool {
        self.current is Some
    }

    /// The heap value a reference points at, if it points into the heap.
    pub open spec fn slot(self, h: JsValueRef) -> Option<HeapModel> {
        match h {
            JsValueRef::Slot(i) => if i < self.heap.len() {
                Some(self.heap[i as int])
            } else {
                None
            },
            _ => None,
        }
    }

    /// The same runtime with one more context, whose global object comes at the end of the
    /// heap.
    pub open spec fn with_context(self) -> RuntimeModel {
        RuntimeModel {
            heap: self.heap.push(HeapModel::Object(global_props())),
            globals: self.globals.push(self.heap.len() as usize),
            ..self
        }
    }

    /// The same runtime with one more value at the end of its heap.
    pub open spec fn allocate(self, v: HeapModel) -> RuntimeModel {
        RuntimeModel { heap: self.heap.push(v), ..self }
    }
}

/// The failure that an operation on a value reports before it looks at the value: none for
/// an integer, which needs no context; else "no current context" where none is current.
pub open spec fn context_gate(m: RuntimeModel, h: JsValueRef) -> Option<JsError> {
    if h is Int {
        None
    } else if !m.has_context() {
        Some(JsError::NoCurrentContext)
    } else {
        None
    }
}

/// The type tag the engine reports for a reference.
pub open spec fn type_of_handle(m: RuntimeModel, h: JsValueRef) -> Result<JsType, JsError> {
    if context_gate(m, h) is Some {
        Err(context_gate(m, h).unwrap())
    } else {
        match h {
            JsValueRef::Null => Err(JsError::InvalidArgument),
            JsValueRef::Undefined => Ok(JsType::Undefined),
            JsValueRef::Int(_) => Ok(JsType::Number),
            JsValueRef::Bool(_) => Ok(JsType::Boolean),
            JsValueRef::Slot(_) => match m.slot(h) {
                Some(HeapModel::Str(_)) => Ok(JsType::String),
                Some(HeapModel::Object(_)) => Ok(JsType::Object),
                Some(HeapModel::Function(_)) => Ok(JsType::Function),
                None => Err(JsError::InvalidArgument),
            },
        }
    }
}

/// Where a property operation acts: the heap index of the object and the bytes of the key.
/// It needs a current context, an object, and a string key.
pub open spec fn property_target(m: RuntimeModel, obj: JsValueRef, key: JsValueRef) -> Result<
    (usize, Seq<u8>),
    JsError,
> {
    if !m.has_context() {
        Err(JsError::NoCurrentContext)
    } else if obj is Null || key is Null {
        Err(JsError::InvalidArgument)
    } else if !(m.slot(obj) matches Some(HeapModel::Object(_))) {
        Err(JsError::ArgumentNotObject)
    } else if !(m.slot(key) matches Some(HeapModel::Str(_))) {
        Err(JsError::InvalidArgument)
    } else {
        Ok((obj->Slot_0, m.slot(key)->Some_0->Str_0))
    }
}

/// The properties of the object at a heap index.
pub open spec fn props_at(m: RuntimeModel, i: usize) -> Seq<(Seq<u8>, JsValueRef, bool)> {
    m.heap[i as int]->Object_0
}

/// The bytes of a string reference, where it refers to a string of the heap.
pub open spec fn string_bytes(m: RuntimeModel, h: JsValueRef) -> Option<Seq<u8>> {
    match m.slot(h) {
        Some(HeapModel::Str(b)) => Some(b),
        _ => None,
    }
}

/// The bytes of the string a reference refers to. Reading a string needs a current context.
pub open spec fn string_of(m: RuntimeModel, h: JsValueRef) -> Result<Seq<u8>, JsError> {
    if !m.has_context() {
        Err(JsError::NoCurrentContext)
    } else {
        match string_bytes(m, h) {
            Some(b) => Ok(b),
            None => Err(JsError::InvalidArgument),
        }
    }
}

/// The boolean a boolean value holds. Reading it needs a current context.
pub open spec fn bool_of(m: RuntimeModel, h: JsValueRef) -> Result<bool, JsError> {
    if !m.has_context() {
        Err(JsError::NoCurrentContext)
    } else {
        match h {
            JsValueRef::Bool(b) => Ok(b),
            _ => Err(JsError::InvalidArgument),
        }
    }
}

/// The integer a number value holds. Integers travel in the reference, so reading one
/// needs no context; anything else is no number.
pub open spec fn int_of(m: RuntimeModel, h: JsValueRef) -> Result<i32, JsError> {
    match h {
        JsValueRef::Int(n) => Ok(n),
        _ => if !m.has_context() {
            Err(JsError::NoCurrentContext)
        } else {
            Err(JsError::InvalidArgument)
        },
    }
}

/// The script's truth value of a value: `undefined`, zero and the empty string are false,
/// objects and functions are true. Converting needs a current context.
pub open spec fn truth_of(m: RuntimeModel, h: JsValueRef) -> Result<bool, JsError> {
    if !m.has_context() {
        Err(JsError::NoCurrentContext)
    } else {
        match h {
            JsValueRef::Null => Err(JsError::InvalidArgument),
            JsValueRef::Undefined => Ok(false),
            JsValueRef::Int(n) => Ok(n != 0),
            JsValueRef::Bool(b) => Ok(b),
            JsValueRef::Slot(_) => match m.slot(h) {
                Some(HeapModel::Str(b)) => Ok(b.len() > 0),
                Some(_) => Ok(true),
                None => Err(JsError::InvalidArgument),
            },
        }
    }
}

/// The callback token that calling a value dispatches to. Calling needs a current context
/// and a function whose callback is still registered; calling anything else throws.
pub open spec fn callback_of(m: RuntimeModel, h: JsValueRef) -> Result<usize, JsError> {
    if !m.has_context() {
        Err(JsError::NoCurrentContext)
    } else if h is Null {
        Err(JsError::InvalidArgument)
    } else {
        match m.slot(h) {
            Some(HeapModel::Function(t)) => if t < m.callbacks.len() && m.callbacks[t as int] {
                Ok(t)
            } else {
                Err(JsError::InvalidArgument)
            },
            _ => Err(JsError::ScriptException),
        }
    }
}

/// The same runtime with a context made current.
pub open spec fn entered(m: RuntimeModel, c: usize) -> RuntimeModel {
    RuntimeModel { current: Some(c), ..m }
}

/// The same runtime with no context current.
pub open spec fn cleared(m: RuntimeModel) -> RuntimeModel {
    RuntimeModel { current: None, ..m }
}

/// What disposing a runtime gives: it is refused while a context is current.
pub open spec fn dispose_result(m: RuntimeModel) -> Result<(), JsError> {
    if m.has_context() {
        Err(JsError::RuntimeInUse)
    } else {
        Ok(())
    }
}

/// Relies on std's `{:p}` formatting, which writes the address of a value. Applied to the
/// byte a runtime allocates for itself and keeps, it tells live runtimes apart; nothing is
/// claimed of the text.
#[verifier::external_body]
fn allocation_address(anchor: &Box<u8>) -> (r: String) {
    format!("{:p}", &**anchor)
}

/// One instance of the script engine: it owns every value created while one of its
/// contexts is current. Its heap holds strings, objects and native functions, and keeps
/// each of them until the runtime goes. Contexts, values and calls are passed to and from
/// it explicitly; it holds no script source and runs none.
pub struct JsRuntime {
    anchor: Box<u8>,
    id: String,
    attributes: JsRuntimeAttributes,
    heap: Vec<HeapValue>,
    globals: Vec<usize>,
    current: Option<usize>,
    callbacks: Vec<bool>,
}

impl View for JsRuntime {
    type V = RuntimeModel;

    closed spec fn view(&self) -> RuntimeModel {
        RuntimeModel {
            id: self.id@,
            attributes: self.attributes,
            heap: self.heap@.map_values(|v: HeapValue| v@),
            globals: self.globals@,
            current: self.current,
            callbacks: self.callbacks@,
        }
    }
}

/// Byte-wise equality of two byte strings.
fn bytes_eq(a: &Vec<u8>, b: &Vec<u8>) -> (r: bool)
    ensures
        r == (a@ == b@),
{
    if a.len() != b.len() {
        return false;
    }
    let mut i: usize = 0;
    while i < a.len()
        invariant
            a.len() == b.len(),
            i <= a.len(),
            forall|j: int| 0 <= j < i ==> a@[j] == b@[j],
        decreases a.len() - i,
    {
        if a[i] != b[i] {
            return false;
        }
        i = i + 1;
    }
    assert(a@ =~= b@);
    true
}

/// A fresh copy of a byte string.
fn copy_bytes(a: &Vec<u8>) -> (r: Vec<u8>)
    ensures
        r@ == a@,
{
    let mut r: Vec<u8> = Vec::new();
    let mut i: usize = 0;
    while i < a.len()
        invariant
            i <= a.len(),
            r@ == a@.subrange(0, i as int),
        decreases a.len() - i,
    {
        r.push(a[i]);
        i = i + 1;
        assert(r@ =~= a@.subrange(0, i as int));
    }
    assert(a@.subrange(0, a.len() as int) =~= a@);
    r
}

/// The value of a key among an object's properties.
fn find_property(props: &Vec<JsProperty>, key: &Vec<u8>) -> (r: Option<JsValueRef>)
    ensures
        r == lookup(props_view(props@), key@),
{
    let ghost pv = props_view(props@);
    let mut i: usize = props.len();
    assert(pv.subrange(0, i as int) =~= pv);
    while i > 0
        invariant
            i <= props.len(),
            pv == props_view(props@),
            lookup(pv, key@) == lookup(pv.subrange(0, i as int), key@),
        decreases i,
    {
        let ghost prefix = pv.subrange(0, i as int);
        assert(prefix.drop_last() =~= pv.subrange(0, i - 1));
        i = i - 1;
        if bytes_eq(&props[i].key, key) {
            return Some(props[i].value);
        }
    }
    assert(pv.subrange(0, 0).len() == 0);
    None
}

/// Whether an object holds the key as a property that is not configurable.
fn has_fixed(props: &Vec<JsProperty>, key: &Vec<u8>) -> (r: bool)
    ensures
        r == fixed(props_view(props@), key@),
{
    let ghost pv = props_view(props@);
    let mut i: usize = 0;
    while i < props.len()
        invariant
            i <= props.len(),
            pv == props_view(props@),
            forall|j: int| 0 <= j < i ==> !((#[trigger] pv[j]).0 == key@ && !pv[j].2),
        decreases props.len() - i,
    {
        if !props[i].configurable && bytes_eq(&props[i].key, key) {
            assert(pv[i as int].0 == key@ && !pv[i as int].2);
            return true;
        }
        i = i + 1;
    }
    false
}

/// An object's properties without those of one key.
fn remove_property(props: &Vec<JsProperty>, key: &Vec<u8>) -> (r: Vec<JsProperty>)
    ensures
        props_view(r@) == without_key(props_view(props@), key@),
{
    let ghost pv = props_view(props@);
    let mut out: Vec<JsProperty> = Vec::new();
    let mut i: usize = 0;
    while i < props.len()
        invariant
            i <= props.len(),
            pv == props_view(props@),
            props_view(out@) == without_key(pv.subrange(0, i as int), key@),
        decreases props.len() - i,
    {
        let ghost before = out@;
        assert(pv.subrange(0, i + 1).drop_last() =~= pv.subrange(0, i as int));
        if !bytes_eq(&props[i].key, key) {
            let k = copy_bytes(&props[i].key);
            out.push(JsProperty { key: k, value: props[i].value, configurable: props[i].configurable });
            assert(props_view(out@) =~= props_view(before).push(pv[i as int]));
        }
        i = i + 1;
    }
    assert(pv.subrange(0, props.len() as int) =~= pv);
    out
}

impl JsRuntime {
    /// Creates a runtime with the given options, with no context and an empty heap.
    pub fn new(attributes: JsRuntimeAttributes) -> (r: Result<JsRuntime, JsError>)
        ensures
            r matches Ok(rt) && rt@ == (RuntimeModel {
                id: rt@.id,
                attributes,
                heap: Seq::empty(),
                globals: Seq::empty(),
                current: None,
                callbacks: Seq::empty(),
            }),
    {
        let anchor = Box::new(0u8);
        let id = allocation_address(&anchor);
        let rt = JsRuntime {
            anchor,
            id,
            attributes,
            heap: Vec::new(),
            globals: Vec::new(),
            current: None,
            callbacks: Vec::new(),
        };
        assert(rt@.heap =~= Seq::empty());
        Ok(rt)
    }

    /// The options this runtime was created with.
    pub fn attributes(&self) -> (r: JsRuntimeAttributes)
        ensures
            r == self@.attributes,
    {
        self.attributes
    }

    /// Releases the runtime. This fails while one of its contexts is still current.
    pub fn dispose(self) -> (r: Result<(), JsError>)
        ensures
            r == dispose_result(self@),
    {
        if self.current.is_some() {
            Err(JsError::RuntimeInUse)
        } else {
            Ok(())
        }
    }

    proof fn lemma_view_heap(&self, i: int)
        requires
            0 <= i < self.heap.len(),
        ensures
            self@.heap[i] == self.heap@[i]@,
            self@.heap.len() == self.heap.len(),
    {
    }

    /// Adds a value at the end of the heap and refers to it.
    fn allocate(&mut self, v: HeapValue) -> (r: JsValueRef)
        requires
            old(self)@.wf(),
        ensures
            final(self)@ == old(self)@.allocate(v@),
            final(self)@.wf(),
            r == JsValueRef::Slot(old(self)@.heap.len() as usize),
    {
        let i = self.heap.len();
        self.heap.push(v);
        assert(self@.heap =~= old(self)@.heap.push(v@));
        JsValueRef::Slot(i)
    }

    /// Creates a context with a fresh global object; returns its index.
    pub(crate) fn create_context(&mut self) -> (r: usize)
        requires
            old(self)@.wf(),
        ensures
            final(self)@.wf(),
            r == old(self)@.globals.len(),
            final(self)@ == old(self)@.with_context(),
    {
        let i = self.heap.len();
        let mut props: Vec<JsProperty> = Vec::new();
        props.push(
            JsProperty {
                key: vstd::slice::slice_to_vec("undefined".as_bytes()),
                value: JsValueRef::Undefined,
                configurable: false,
            },
        );
        assert(props_view(props@) =~= global_props());
        self.heap.push(HeapValue::Object(props));
        let c = self.globals.len();
        self.globals.push(i);
        assert(self@.heap =~= old(self)@.heap.push(HeapModel::Object(global_props())));
        assert(self@.globals =~= old(self)@.globals.push(i));
        c
    }

    /// Makes a context current. Fails where the index is not one of this runtime's
    /// contexts, or where another context is current.
    pub(crate) fn enter_context(&mut self, c: usize) -> (r: Result<(), JsError>)
        requires
            old(self)@.wf(),
        ensures
            final(self)@.wf(),
            r is Ok <==> (c < old(self)@.globals.len() && (old(self)@.current matches Some(d)
                ==> d == c)),
            r is Ok ==> final(self)@ == (RuntimeModel { current: Some(c), ..old(self)@ }),
            r is Err ==> final(self)@ == old(self)@,
            r matches Err(e) ==> e == JsError::InvalidArgument,
    {
        if c >= self.globals.len() {
            return Err(JsError::InvalidArgument);
        }
        match self.current {
            Some(d) => {
                if d != c {
                    return Err(JsError::InvalidArgument);
                }
            },
            None => {},
        }
        self.current = Some(c);
        Ok(())
    }

    /// The identity that this runtime's contexts record.
    pub fn id(&self) -> (r: &String)
        ensures
            r@ == self@.id,
    {
        &self.id
    }

    /// The index of the current context, if any.
    pub fn current_context(&self) -> (r: Option<usize>)
        ensures
            r == self@.current,
    {
        self.current
    }

    /// Leaves the current context, if any.
    pub(crate) fn leave_context(&mut self)
        requires
            old(self)@.wf(),
        ensures
            final(self)@.wf(),
            final(self)@ == (RuntimeModel { current: None, ..old(self)@ }),
    {
        self.current = None;
    }

    /// Adds a value to the heap; needs a current context.
    pub(crate) fn create_value(&mut self, v: HeapValue) -> (r: Result<JsValueRef, JsError>)
        requires
            old(self)@.wf(),
        ensures
            final(self)@.wf(),
            !old(self)@.has_context() ==> r == Err::<JsValueRef, JsError>(JsError::NoCurrentContext)
                && final(self)@ == old(self)@,
            old(self)@.has_context() ==> r == Ok::<JsValueRef, JsError>(
                JsValueRef::Slot(old(self)@.heap.len() as usize),
            ) && final(self)@ == old(self)@.allocate(v@),
    {
        if self.current.is_none() {
            return Err(JsError::NoCurrentContext);
        }
        Ok(self.allocate(v))
    }

    /// The global object of the current context.
    pub(crate) fn global_object(&self) -> (r: Result<JsValueRef, JsError>)
        requires
            self@.wf(),
        ensures
            !self@.has_context() ==> r == Err::<JsValueRef, JsError>(JsError::NoCurrentContext),
            self@.current matches Some(c) ==> r == Ok::<JsValueRef, JsError>(
                JsValueRef::Slot(self@.globals[c as int]),
            ),
    {
        match self.current {
            None => Err(JsError::NoCurrentContext),
            Some(c) => Ok(JsValueRef::Slot(self.globals[c])),
        }
    }

    /// Checks the operands of a property operation.
    fn target(&self, obj: JsValueRef, key: JsValueRef) -> (r: Result<(usize, usize), JsError>)
        requires
            self@.wf(),
        ensures
            r is Ok <==> property_target(self@, obj, key) is Ok,
            r matches Err(e) ==> property_target(self@, obj, key) == Err::<(usize, Seq<u8>), JsError>(e),
            r matches Ok((i, k)) ==> {
                &&& property_target(self@, obj, key) == Ok::<(usize, Seq<u8>), JsError>((i, self@.heap[k as int]->Str_0))
                &&& i < self.heap.len() && k < self.heap.len()
                &&& self.heap@[i as int] is Object
                &&& self.heap@[k as int] is Str
                &&& obj == JsValueRef::Slot(i) && key == JsValueRef::Slot(k)
            },
    {
        if self.current.is_none() {
            return Err(JsError::NoCurrentContext);
        }
        if obj.is_null() || key.is_null() {
            return Err(JsError::InvalidArgument);
        }
        let i = match obj {
            JsValueRef::Slot(i) => {
                if i >= self.heap.len() {
                    return Err(JsError::ArgumentNotObject);
                }
                proof {
                    self.lemma_view_heap(i as int);
                }
                match &self.heap[i] {
                    HeapValue::Object(_) => i,
                    _ => {
                        return Err(JsError::ArgumentNotObject);
                    },
                }
            },
            _ => {
                return Err(JsError::ArgumentNotObject);
            },
        };
        match key {
            JsValueRef::Slot(k) => {
                if k >= self.heap.len() {
                    return Err(JsError::InvalidArgument);
                }
                proof {
                    self.lemma_view_heap(k as int);
                }
                match &self.heap[k] {
                    HeapValue::Str(_) => Ok((i, k)),
                    _ => Err(JsError::InvalidArgument),
                }
            },
            _ => Err(JsError::InvalidArgument),
        }
    }

    /// Whether an object has a property of the key.
    pub(crate) fn has_property(&self, obj: JsValueRef, key: JsValueRef) -> (r: Result<bool, JsError>)
        requires
            self@.wf(),
        ensures
            property_target(self@, obj, key) matches Err(e) ==> r == Err::<bool, JsError>(e),
            property_target(self@, obj, key) matches Ok((i, k)) ==> r == Ok::<bool, JsError>(
                lookup(props_at(self@, i), k) is Some,
            ),
    {
        let (i, k) = self.target(obj, key)?;
        proof {
            self.lemma_view_heap(i as int);
            self.lemma_view_heap(k as int);
        }
        match (&self.heap[i], &self.heap[k]) {
            (HeapValue::Object(props), HeapValue::Str(kb)) => Ok(find_property(props, kb).is_some()),
            _ => Err(JsError::InvalidArgument),
        }
    }

    /// The value of an object's property; `undefined` where it has none.
    pub(crate) fn get_property(&self, obj: JsValueRef, key: JsValueRef) -> (r: Result<JsValueRef, JsError>)
        requires
            self@.wf(),
        ensures
            property_target(self@, obj, key) matches Err(e) ==> r == Err::<JsValueRef, JsError>(e),
            property_target(self@, obj, key) matches Ok((i, k)) ==> r == Ok::<JsValueRef, JsError>(
                match lookup(props_at(self@, i), k) {
                    Some(v) => v,
                    None => JsValueRef::Undefined,
                },
            ),
    {
        let (i, k) = self.target(obj, key)?;
        proof {
            self.lemma_view_heap(i as int);
            self.lemma_view_heap(k as int);
        }
        match (&self.heap[i], &self.heap[k]) {
            (HeapValue::Object(props), HeapValue::Str(kb)) => match find_property(props, kb) {
                Some(v) => Ok(v),
                None => Ok(JsValueRef::Undefined),
            },
            _ => Err(JsError::InvalidArgument),
        }
    }

    /// Sets an object's property to a value. The absent reference is no value.
    pub(crate) fn set_property(&mut self, obj: JsValueRef, key: JsValueRef, value: JsValueRef) -> (r: Result<(), JsError>)
        requires
            old(self)@.wf(),
        ensures
            final(self)@.wf(),
            property_target(old(self)@, obj, key) matches Err(e) ==> r == Err::<(), JsError>(e),
            property_target(old(self)@, obj, key) is Ok && value is Null ==> r == Err::<(), JsError>(JsError::InvalidArgument),
            r is Err ==> final(self)@ == old(self)@,
            property_target(old(self)@, obj, key) matches Ok((i, k)) ==> !(value is Null) ==> fixed(props_at(old(self)@, i), k)
                ==> r == Err::<(), JsError>(JsError::ScriptException),
            property_target(old(self)@, obj, key) matches Ok((i, k)) ==> !(value is Null) ==> !fixed(props_at(old(self)@, i), k) ==> {
                &&& r is Ok
                &&& final(self)@ == (RuntimeModel {
                    heap: old(self)@.heap.update(i as int, HeapModel::Object(with_key(props_at(old(self)@, i), k, value))),
                    ..old(self)@
                })
            },
    {
        let (i, k) = self.target(obj, key)?;
        if value.is_null() {
            return Err(JsError::InvalidArgument);
        }
        proof {
            self.lemma_view_heap(i as int);
            self.lemma_view_heap(k as int);
        }
        let new_props = match (&self.heap[i], &self.heap[k]) {
            (HeapValue::Object(props), HeapValue::Str(kb)) => {
                if has_fixed(props, kb) {
                    return Err(JsError::ScriptException);
                }
                let mut rest = remove_property(props, kb);
                let kc = copy_bytes(kb);
                let ghost before = rest@;
                rest.push(JsProperty { key: kc, value, configurable: true });
                assert(props_view(rest@) =~= props_view(before).push((kb@, value, true)));
                rest
            },
            _ => {
                return Err(JsError::InvalidArgument);
            },
        };
        let ghost nv = HeapValue::Object(new_props)@;
        self.heap.set(i, HeapValue::Object(new_props));
        assert(self@.heap =~= old(self)@.heap.update(i as int, nv));
        Ok(())
    }

    /// Deletes an object's property of the key, in strict mode: a property that is not
    /// configurable makes it throw. Otherwise it reports `true`, also where there was none.
    pub(crate) fn delete_property(&mut self, obj: JsValueRef, key: JsValueRef) -> (r: Result<bool, JsError>)
        requires
            old(self)@.wf(),
        ensures
            final(self)@.wf(),
            property_target(old(self)@, obj, key) matches Err(e) ==> r == Err::<bool, JsError>(e) && final(self)@ == old(self)@,
            property_target(old(self)@, obj, key) matches Ok((i, k)) ==> fixed(props_at(old(self)@, i), k)
                ==> r == Err::<bool, JsError>(JsError::ScriptException) && final(self)@ == old(self)@,
            property_target(old(self)@, obj, key) matches Ok((i, k)) ==> !fixed(props_at(old(self)@, i), k) ==> {
                &&& r == Ok::<bool, JsError>(true)
                &&& final(self)@ == (RuntimeModel {
                    heap: old(self)@.heap.update(i as int, HeapModel::Object(without_key(props_at(old(self)@, i), k))),
                    ..old(self)@
                })
            },
    {
        let (i, k) = self.target(obj, key)?;
        proof {
            self.lemma_view_heap(i as int);
            self.lemma_view_heap(k as int);
        }
        let new_props = match (&self.heap[i], &self.heap[k]) {
            (HeapValue::Object(props), HeapValue::Str(kb)) => {
                if has_fixed(props, kb) {
                    return Err(JsError::ScriptException);
                }
                remove_property(props, kb)
            },
            _ => {
                return Err(JsError::InvalidArgument);
            },
        };
        let ghost nv = HeapValue::Object(new_props)@;
        self.heap.set(i, HeapValue::Object(new_props));
        assert(self@.heap =~= old(self)@.heap.update(i as int, nv));
        Ok(true)
    }

    /// The bytes of a string of the heap.
    pub(crate) fn string_slot(&self, h: JsValueRef) -> (r: Result<&Vec<u8>, JsError>)
        requires
            self@.wf(),
        ensures
            r matches Ok(b) ==> string_of(self@, h) == Ok::<Seq<u8>, JsError>(b@),
            r matches Err(e) ==> string_of(self@, h) == Err::<Seq<u8>, JsError>(e),
    {
        if self.current.is_none() {
            return Err(JsError::NoCurrentContext);
        }
        match h {
            JsValueRef::Slot(i) => {
                if i >= self.heap.len() {
                    return Err(JsError::InvalidArgument);
                }
                proof {
                    self.lemma_view_heap(i as int);
                }
                match &self.heap[i] {
                    HeapValue::Str(b) => Ok(b),
                    _ => Err(JsError::InvalidArgument),
                }
            },
            _ => Err(JsError::InvalidArgument),
        }
    }

    /// The length in bytes of a string: the first step of reading it out.
    pub(crate) fn string_length(&self, h: JsValueRef) -> (r: Result<usize, JsError>)
        requires
            self@.wf(),
        ensures
            string_of(self@, h) matches Ok(b) ==> b.len() <= usize::MAX && r == Ok::<usize, JsError>(b.len() as usize),
            string_of(self@, h) matches Err(e) ==> r == Err::<usize, JsError>(e),
    {
        let b = self.string_slot(h)?;
        Ok(b.len())
    }

    /// Copies a string's bytes to the front of a buffer, as many as fit; the rest of the
    /// buffer is left as it was. Returns how many were copied.
    pub(crate) fn copy_string(&self, h: JsValueRef, buffer: &mut Vec<u8>) -> (r: Result<usize, JsError>)
        requires
            self@.wf(),
        ensures
            string_of(self@, h) matches Err(e) ==> r == Err::<usize, JsError>(e) && final(buffer)@ == old(buffer)@,
            string_of(self@, h) matches Ok(b) ==> {
                let n: int = if b.len() < old(buffer)@.len() { b.len() as int } else { old(buffer)@.len() as int };
                &&& r == Ok::<usize, JsError>(n as usize)
                &&& final(buffer)@ == b.subrange(0, n) + old(buffer)@.subrange(n, old(buffer)@.len() as int)
            },
    {
        let b = self.string_slot(h)?;
        let n = if b.len() < buffer.len() {
            b.len()
        } else {
            buffer.len()
        };
        let mut i: usize = 0;
        while i < n
            invariant
                n <= b.len(),
                n <= buffer.len(),
                buffer.len() == old(buffer)@.len(),
                i <= n,
                buffer@ == b@.subrange(0, i as int) + old(buffer)@.subrange(i as int, old(buffer)@.len() as int),
            decreases n - i,
        {
            buffer.set(i, b[i]);
            i = i + 1;
            assert(buffer@ =~= b@.subrange(0, i as int) + old(buffer)@.subrange(i as int, old(buffer)@.len() as int));
        }
        Ok(n)
    }

    /// Whether some context is current.
    pub fn has_context(&self) -> (r: bool)
        ensures
            r == self@.has_context(),
    {
        self.current.is_some()
    }

    /// The script's truth value of a value.
    pub(crate) fn truth(&self, h: JsValueRef) -> (r: Result<bool, JsError>)
        requires
            self@.wf(),
        ensures
            r == truth_of(self@, h),
    {
        if self.current.is_none() {
            return Err(JsError::NoCurrentContext);
        }
        match h {
            JsValueRef::Null => Err(JsError::InvalidArgument),
            JsValueRef::Undefined => Ok(false),
            JsValueRef::Int(n) => Ok(n != 0),
            JsValueRef::Bool(b) => Ok(b),
            JsValueRef::Slot(i) => {
                if i >= self.heap.len() {
                    return Err(JsError::InvalidArgument);
                }
                proof {
                    self.lemma_view_heap(i as int);
                }
                match &self.heap[i] {
                    HeapValue::Str(b) => Ok(b.len() > 0),
                    _ => Ok(true),
                }
            },
        }
    }

    /// Registers a new callback token and creates the function value that dispatches to it.
    /// Needs a current context.
    pub(crate) fn register_callback(&mut self) -> (r: Result<(JsValueRef, usize), JsError>)
        requires
            old(self)@.wf(),
        ensures
            final(self)@.wf(),
            !old(self)@.has_context() ==> r == Err::<(JsValueRef, usize), JsError>(JsError::NoCurrentContext)
                && final(self)@ == old(self)@,
            old(self)@.has_context() ==> {
                let t = old(self)@.callbacks.len() as usize;
                &&& r == Ok::<(JsValueRef, usize), JsError>((JsValueRef::Slot(old(self)@.heap.len() as usize), t))
                &&& final(self)@ == (RuntimeModel {
                    heap: old(self)@.heap.push(HeapModel::Function(t)),
                    callbacks: old(self)@.callbacks.push(true),
                    ..old(self)@
                })
            },
    {
        if self.current.is_none() {
            return Err(JsError::NoCurrentContext);
        }
        let t = self.callbacks.len();
        self.callbacks.push(true);
        let h = self.allocate(HeapValue::Function(t));
        Ok((h, t))
    }

    /// Releases a callback token. Reports whether it was registered: a token is released
    /// at most once, and its function can no longer be called.
    pub(crate) fn release_callback(&mut self, token: usize) -> (r: bool)
        requires
            old(self)@.wf(),
        ensures
            final(self)@.wf(),
            r == (token < old(self)@.callbacks.len() && old(self)@.callbacks[token as int]),
            r ==> final(self)@ == (RuntimeModel {
                callbacks: old(self)@.callbacks.update(token as int, false),
                ..old(self)@
            }),
            !r ==> final(self)@ == old(self)@,
    {
        if token < self.callbacks.len() && self.callbacks[token] {
            self.callbacks.set(token, false);
            assert(self@.callbacks =~= old(self)@.callbacks.update(token as int, false));
            true
        } else {
            false
        }
    }

    /// The callback token that calling a value dispatches to.
    pub(crate) fn callback(&self, h: JsValueRef) -> (r: Result<usize, JsError>)
        requires
            self@.wf(),
        ensures
            r == callback_of(self@, h),
    {
        if self.current.is_none() {
            return Err(JsError::NoCurrentContext);
        }
        if h.is_null() {
            return Err(JsError::InvalidArgument);
        }
        match h {
            JsValueRef::Slot(i) => {
                if i >= self.heap.len() {
                    return Err(JsError::ScriptException);
                }
                proof {
                    self.lemma_view_heap(i as int);
                }
                match &self.heap[i] {
                    HeapValue::Function(t) => {
                        if *t < self.callbacks.len() && self.callbacks[*t] {
                            Ok(*t)
                        } else {
                            Err(JsError::InvalidArgument)
                        }
                    },
                    _ => Err(JsError::ScriptException),
                }
            },
            _ => Err(JsError::ScriptException),
        }
    }

    /// The type tag of a reference.
    pub(crate) fn type_of(&self, h: JsValueRef) -> (r: Result<JsType, JsError>)
        requires
            self@.wf(),
        ensures
            r == type_of_handle(self@, h),
    {
        if !h.is_int() && self.current.is_none() {
            return Err(JsError::NoCurrentContext);
        }
        match h {
            JsValueRef::Null => Err(JsError::InvalidArgument),
            JsValueRef::Undefined => Ok(JsType::Undefined),
            JsValueRef::Int(_) => Ok(JsType::Number),
            JsValueRef::Bool(_) => Ok(JsType::Boolean),
            JsValueRef::Slot(i) => {
                if i >= self.heap.len() {
                    return Err(JsError::InvalidArgument);
                }
                proof {
                    self.lemma_view_heap(i as int);
                }
                match &self.heap[i] {
                    HeapValue::Str(_) => Ok(JsType::String),
                    HeapValue::Object(_) => Ok(JsType::Object),
                    HeapValue::Function(_) => Ok(JsType::Function),
                }
            },
        }
    }
}

} // verus!
