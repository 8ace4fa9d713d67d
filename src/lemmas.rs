use crate::error::JsError;
use crate::function::call_arguments;
use crate::object::property_value;
use crate::runtime::{
    bool_of, callback_of, cleared, dispose_result, entered, fixed, global_props, int_of, lookup,
    props_at, property_target, string_of, truth_of, type_of_handle, with_key, without_key,
    HeapModel, RuntimeModel,
};
use crate::string::string_text;
use crate::value::{JsType, JsValue, JsValueRef};
use vstd::prelude::*;
use vstd::utf8::{encode_utf8, encode_utf8_decode_utf8, encode_utf8_valid_utf8};

verus! {

/// A 32-bit integer made into a number reads back as itself, whatever the runtime holds
/// and whether or not a context is current.
pub proof fn lemma_int_round_trip(m: RuntimeModel, n: i32)
    ensures
        int_of(m, JsValueRef::Int(n)) == Ok::<i32, JsError>(n),
        type_of_handle(m, JsValueRef::Int(n)) == Ok::<JsType, JsError>(JsType::Number),
{
}

/// A boolean made into a boolean value reads back as itself.
pub proof fn lemma_bool_round_trip(m: RuntimeModel, b: bool)
    requires
        m.has_context(),
    ensures
        bool_of(m, JsValueRef::Bool(b)) == Ok::<bool, JsError>(b),
        truth_of(m, JsValueRef::Bool(b)) == Ok::<bool, JsError>(b),
{
}

/// Text without a null byte, made into a string value, reads back as the same text; the
/// empty text too.
pub proof fn lemma_string_round_trip(m: RuntimeModel, text: Seq<char>)
    requires
        m.has_context(),
        !encode_utf8(text).contains(0),
        encode_utf8(text).len() < usize::MAX,
        m.heap.len() < usize::MAX,
    ensures
        string_text(
            m.allocate(HeapModel::Str(encode_utf8(text))),
            JsValueRef::Slot(m.heap.len() as usize),
        ) == Ok::<Seq<char>, JsError>(text),
{
    let m2 = m.allocate(HeapModel::Str(encode_utf8(text)));
    assert(m2.heap[m.heap.len() as int] == HeapModel::Str(encode_utf8(text)));
    assert(string_of(m2, JsValueRef::Slot(m.heap.len() as usize)) == Ok::<Seq<u8>, JsError>(
        encode_utf8(text),
    ));
    encode_utf8_valid_utf8(text);
    encode_utf8_decode_utf8(text);
}

/// With no context current, every operation on a value that is not an integer fails with
/// "no current context", and so does every property operation and every call.
pub proof fn lemma_no_context(m: RuntimeModel, h: JsValueRef, obj: JsValueRef, key: JsValueRef)
    requires
        !m.has_context(),
        !(h is Int),
    ensures
        type_of_handle(m, h) == Err::<JsType, JsError>(JsError::NoCurrentContext),
        int_of(m, h) == Err::<i32, JsError>(JsError::NoCurrentContext),
        bool_of(m, h) == Err::<bool, JsError>(JsError::NoCurrentContext),
        truth_of(m, h) == Err::<bool, JsError>(JsError::NoCurrentContext),
        string_of(m, h) == Err::<Seq<u8>, JsError>(JsError::NoCurrentContext),
        string_text(m, h) == Err::<Seq<char>, JsError>(JsError::NoCurrentContext),
        callback_of(m, h) == Err::<usize, JsError>(JsError::NoCurrentContext),
        property_target(m, obj, key) == Err::<(usize, Seq<u8>), JsError>(JsError::NoCurrentContext),
{
}

/// The value of a key after it is set, in any property list.
pub proof fn lemma_lookup_with_key(
    props: Seq<(Seq<u8>, JsValueRef, bool)>,
    key: Seq<u8>,
    value: JsValueRef,
    other: Seq<u8>,
)
    ensures
        lookup(with_key(props, key, value), other) == if other == key {
            Some(value)
        } else {
            lookup(props, other)
        },
{
    lemma_lookup_without_key(props, key, other);
    assert(with_key(props, key, value).drop_last() == without_key(props, key));
}

/// The value of a key after the pairs of some key are taken out.
pub proof fn lemma_lookup_without_key(props: Seq<(Seq<u8>, JsValueRef, bool)>, key: Seq<u8>, other: Seq<u8>)
    ensures
        lookup(without_key(props, key), other) == if other == key {
            None
        } else {
            lookup(props, other)
        },
    decreases props.len(),
{
    if props.len() > 0 {
        lemma_lookup_without_key(props.drop_last(), key, other);
        if props.last().0 != key {
            let rest = without_key(props.drop_last(), key);
            assert(rest.push(props.last()).drop_last() == rest);
        }
    }
}

/// Taking out the entries of a key leaves none of that key.
pub proof fn lemma_without_key_drops(props: Seq<(Seq<u8>, JsValueRef, bool)>, key: Seq<u8>)
    ensures
        forall|j: int|
            0 <= j < without_key(props, key).len() ==> (#[trigger] without_key(props, key)[j]).0
                != key,
    decreases props.len(),
{
    if props.len() > 0 {
        lemma_without_key_drops(props.drop_last(), key);
        let rest = without_key(props.drop_last(), key);
        if props.last().0 != key {
            assert forall|j: int| 0 <= j < rest.push(props.last()).len() implies (
            #[trigger] rest.push(props.last())[j]).0 != key by {
                if j < rest.len() {
                    assert(rest.push(props.last())[j] == rest[j]);
                }
            }
        }
    }
}

/// A key just set, or just deleted, is not held as a property that is not configurable.
pub proof fn lemma_not_fixed_after(props: Seq<(Seq<u8>, JsValueRef, bool)>, key: Seq<u8>, value: JsValueRef)
    ensures
        !fixed(without_key(props, key), key),
        !fixed(with_key(props, key, value), key),
{
    lemma_without_key_drops(props, key);
    let w = with_key(props, key, value);
    assert forall|i: int| 0 <= i < w.len() && (#[trigger] w[i]).0 == key implies w[i].2 by {
        if i < w.len() - 1 {
            assert(w[i] == without_key(props, key)[i]);
        }
    }
}

/// A global object's `undefined` property can be neither deleted nor set: it is not
/// configurable, and holds `undefined`.
pub proof fn lemma_global_undefined_fixed()
    ensures
        fixed(global_props(), encode_utf8("undefined"@)),
        lookup(global_props(), encode_utf8("undefined"@)) == Some(JsValueRef::Undefined),
{
    assert(global_props()[0].0 == encode_utf8("undefined"@));
    assert(global_props().drop_last().len() == 0);
}

/// Setting a property, then reading it: the object has it and gives back the value set.
/// Deleting it after that: the object no longer has it. Other keys keep their values.
pub proof fn lemma_property_lifecycle(
    m: RuntimeModel,
    obj: JsValueRef,
    key: JsValueRef,
    value: JsValue,
    other: Seq<u8>,
)
    requires
        m.wf(),
        property_target(m, obj, key) is Ok,
        !fixed(
            props_at(m, property_target(m, obj, key)->Ok_0.0),
            property_target(m, obj, key)->Ok_0.1,
        ),
        !(value.handle is Null),
    ensures
        ({
            let (i, k) = property_target(m, obj, key)->Ok_0;
            let set = RuntimeModel {
                heap: m.heap.update(
                    i as int,
                    HeapModel::Object(with_key(props_at(m, i), k, value.handle)),
                ),
                ..m
            };
            let deleted = RuntimeModel {
                heap: set.heap.update(i as int, HeapModel::Object(without_key(props_at(set, i), k))),
                ..set
            };
            &&& set.wf()
            &&& property_target(set, obj, key) == Ok::<(usize, Seq<u8>), JsError>((i, k))
            &&& !fixed(props_at(set, i), k)
            &&& lookup(props_at(set, i), k) is Some
            &&& property_value(props_at(set, i), k) == value.handle
            &&& other != k ==> lookup(props_at(set, i), other) == lookup(props_at(m, i), other)
            &&& deleted.wf()
            &&& property_target(deleted, obj, key) == Ok::<(usize, Seq<u8>), JsError>((i, k))
            &&& lookup(props_at(deleted, i), k) is None
            &&& other != k ==> lookup(props_at(deleted, i), other) == lookup(props_at(m, i), other)
        }),
{
    let (i, k) = property_target(m, obj, key)->Ok_0;
    let set = RuntimeModel {
        heap: m.heap.update(i as int, HeapModel::Object(with_key(props_at(m, i), k, value.handle))),
        ..m
    };
    let deleted = RuntimeModel {
        heap: set.heap.update(i as int, HeapModel::Object(without_key(props_at(set, i), k))),
        ..set
    };
    lemma_lookup_with_key(props_at(m, i), k, value.handle, k);
    lemma_lookup_with_key(props_at(m, i), k, value.handle, other);
    lemma_not_fixed_after(props_at(m, i), k, value.handle);
    lemma_lookup_without_key(props_at(set, i), k, k);
    lemma_lookup_without_key(props_at(set, i), k, other);
    let ks = key->Slot_0;
    assert(ks != i);
    assert(set.heap[ks as int] == m.heap[ks as int]);
    assert(deleted.heap[ks as int] == m.heap[ks as int]);
    assert(forall|c: int| 0 <= c < m.globals.len() ==> set.heap[#[trigger] m.globals[c] as int] is Object);
    assert(forall|c: int| 0 <= c < m.globals.len() ==> deleted.heap[#[trigger] m.globals[c] as int] is Object);
}

/// A plain call hands over the receiver `undefined` and then the arguments, one reference
/// more than there are arguments; called with integers, the types read
/// `[Undefined, Number, ...]`.
pub proof fn lemma_call_argument_types(m: RuntimeModel, arguments: Seq<JsValue>)
    requires
        m.has_context(),
        forall|i: int| 0 <= i < arguments.len() ==> (#[trigger] arguments[i]).handle is Int,
    ensures
        ({
            let a = call_arguments(JsValueRef::Undefined, arguments);
            &&& a.len() == arguments.len() + 1
            &&& type_of_handle(m, a[0]) == Ok::<JsType, JsError>(JsType::Undefined)
            &&& forall|i: int|
                1 <= i < a.len() ==> type_of_handle(m, #[trigger] a[i]) == Ok::<JsType, JsError>(
                    JsType::Number,
                )
        }),
{
    let a = call_arguments(JsValueRef::Undefined, arguments);
    assert forall|i: int| 1 <= i < a.len() implies type_of_handle(m, #[trigger] a[i]) == Ok::<
        JsType,
        JsError,
    >(JsType::Number) by {
        assert(a[i] == arguments[i - 1].handle);
    }
}

/// A runtime in which a context has been made current cannot be disposed; once that
/// context is cleared, it can.
pub proof fn lemma_dispose_needs_clear(m: RuntimeModel, c: usize)
    requires
        m.wf(),
        c < m.globals.len(),
    ensures
        dispose_result(entered(m, c)) == Err::<(), JsError>(JsError::RuntimeInUse),
        dispose_result(cleared(entered(m, c))) == Ok::<(), JsError>(()),
{
}

} // verus!
