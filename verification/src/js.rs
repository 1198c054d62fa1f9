//! The values of the JavaScript side, and what this library reads of them.
//!
//! A `JsValue` is a handle on a value that lives outside: nothing of it is
//! known here but what a call into `wasm-bindgen` or `js-sys` reports, and
//! the next call may report something else. The few such calls stand at the
//! top of this file, each behind a function whose contract is taken on trust.
//! The functions below them are verified. Those that read put what was read
//! into plain values and leave every decision to a function that takes such
//! values as its arguments, here or in [`firestore`](crate::firestore); each
//! states what holds whatever the calls report.
//!
//! The calls need a JavaScript host. In a build for any other target
//! `wasm-bindgen` puts a panic in the place of each, so every function of
//! this file that reaches one is for WebAssembly alone.

use crate::error::FirebaseError;
use crate::firestore::error::{FirestoreError, TransactionError};
use crate::firestore::retry::{classified, BridgeState, RejectionShape, RetryBridge};
use crate::storage::stream::UploadTaskAsyncIter;
use js_sys::Function;
use vstd::prelude::*;
use wasm_bindgen::{JsCast, JsValue};

verus! {

/// `wasm_bindgen::JsValue`: a handle on a value of the JavaScript side.
/// Nothing of the value is visible here.
#[verifier::external_type_specification]
#[verifier::external_body]
pub struct ExJsValue(JsValue);

/// `js_sys::Function`: a handle on a function of the JavaScript side.
#[verifier::external_type_specification]
#[verifier::external_body]
pub struct ExFunction(Function);

/// Calls `JsCast::has_type::<js_sys::Object>`, the test by which a checked
/// cast to `Object` decides: whether the value is an instance of `Object`.
/// Nothing is claimed of the answer.
#[verifier::external_body]
fn has_object_type(value: &JsValue) -> (instance: bool) {
    value.has_type::<js_sys::Object>()
}

/// Calls `js_sys::Reflect::get` with a string as the key: the property of
/// `target` under that name, or what the read threw. The call catches what is
/// thrown, so it returns on every target; nothing is claimed of what it
/// returns.
#[verifier::external_body]
fn property(target: &JsValue, key: &str) -> (found: Result<JsValue, JsValue>) {
    js_sys::Reflect::get(target, &JsValue::from_str(key))
}

/// Calls `JsValue::as_string`: the text of a value that is a string, `None`
/// for any other value. Nothing is claimed of the text.
#[verifier::external_body]
fn as_string(value: &JsValue) -> (text: Option<String>) {
    value.as_string()
}

/// Calls `js_sys::Function::call0` with `undefined` as the receiver: invokes
/// the function without arguments, and returns what it returned or what it
/// threw. Nothing is claimed of either.
#[verifier::external_body]
fn call_without_arguments(function: &Function) -> (returned: Result<JsValue, JsValue>) {
    function.call0(&JsValue::UNDEFINED)
}

/// Reads a property as text. What the read comes back with lies with the
/// value; [`text_of_read`] says what text each outcome of it yields.
fn text_property(value: &JsValue, key: &str) -> (text: Option<String>) {
    let read = match property(value, key) {
        Ok(found) => Ok(as_string(&found)),
        Err(thrown) => Err(thrown),
    };
    text_of_read(read)
}

/// Reads the name of a value's constructor, of an object alone and through
/// `Reflect::get`, which reports an accessor that throws where a direct read
/// would not return. What is read lies with the value; [`name_of_read`] says
/// what name each outcome of the reading yields.
fn constructor_name(value: &JsValue) -> (name: Option<String>) {
    let reading = if has_object_type(value) {
        Some(match property(value, "constructor") {
            Ok(constructor) => Ok(text_property(&constructor, "name")),
            Err(thrown) => Err(thrown),
        })
    } else {
        None
    };
    name_of_read(reading)
}

/// Reads a failure of the store from the value that stands for it: its
/// `code` and its `message`. What is read lies with the value;
/// [`FirebaseError::from_properties`] says what failure each reading
/// yields, and that an absent property is read as empty.
pub fn read_error(value: &JsValue) -> (error: FirebaseError) {
    FirebaseError::from_properties(text_property(value, "code"), text_property(value, "message"))
}

/// Reads the shape of a rejected value: the name of its constructor, and its
/// `code` and `message` where the constructor is the store's error class.
/// Of any other value nothing further is read.
fn read_shape(value: &JsValue) -> (shape: RejectionShape)
    ensures
        !shape.is_store_error() ==> shape.code is None && shape.message is None,
{
    let named = RejectionShape { constructor: constructor_name(value), code: None, message: None };
    if named.names_store_error() {
        RejectionShape {
            constructor: named.constructor,
            code: text_property(value, "code"),
            message: text_property(value, "message"),
        }
    } else {
        named
    }
}

/// The text that a read of a property yields, from what the read came back
/// with: `Err` where the read threw, and else the text of what was found, if
/// that is a text. A read that threw yields no text.
pub fn text_of_read<E>(read: Result<Option<String>, E>) -> (text: Option<String>)
    ensures
        text == (match read {
            Ok(found) => found,
            Err(_) => None,
        }),
{
    match read {
        Ok(found) => found,
        Err(_) => None,
    }
}

/// The name of a value's constructor, from how far the reading of it got:
/// `None` where the value is no object and nothing was read, and else what
/// the read of the constructor's name came back with. Only a name that was
/// read in full is a name.
pub fn name_of_read<E>(reading: Option<Result<Option<String>, E>>) -> (name: Option<String>)
    ensures
        name == (match reading {
            Some(Ok(found)) => found,
            _ => None,
        }),
{
    match reading {
        Some(read) => text_of_read(read),
        None => None,
    }
}

/// Types the outcome of a call into the store that was awaited: the value it
/// resolved with, or the failure read from what it rejected with, its kind
/// made out from its code.
pub fn typed_outcome(outcome: Result<JsValue, JsValue>) -> (result: Result<JsValue, FirestoreError>)
    ensures
        outcome is Ok ==> result == Ok::<JsValue, FirestoreError>(outcome->Ok_0),
        outcome is Err ==> result is Err && result->Err_0@ == crate::firestore::error::typed(
            result->Err_0@.source,
        ),
{
    match outcome {
        Ok(value) => Ok(value),
        Err(rejected) => Err(FirestoreError::from(read_error(&rejected))),
    }
}

/// Settles a transaction with what the retry loop came back with: a success
/// whatever it resolved with; for a rejection, a failure of the store with
/// its kind made out where the rejected value is one, and the value itself,
/// untouched, where it is anything else.
///
/// Which of the two a rejected value is lies with what is read of it;
/// [`classify`](crate::firestore::retry::classify) says what is made of each
/// reading.
pub fn settle_transaction(bridge: &mut RetryBridge, outcome: Result<JsValue, JsValue>) -> (result:
    Result<(), TransactionError<JsValue>>)
    ensures
        final(bridge)@ == BridgeState::Settled,
        outcome is Ok <==> result is Ok,
        outcome is Err ==> exists|shape: RejectionShape|
            result->Err_0@ == #[trigger] classified(outcome->Err_0, shape),
        result is Err && result->Err_0 is Custom ==> result->Err_0->Custom_0 == outcome->Err_0,
{
    match outcome {
        Ok(_) => bridge.settle(Ok(())),
        Err(rejected) => {
            let shape = read_shape(&rejected);
            let result = bridge.settle(Err((rejected, shape)));
            assert(result->Err_0@ == classified(rejected, shape));
            result
        },
    }
}

/// Answers the retry loop for one attempt: what the update function gave,
/// each side turned into a value of the loop's.
pub fn answer_attempt<T: Into<JsValue>, E: Into<JsValue>>(outcome: Result<T, E>) -> (answer: Result<
    JsValue,
    JsValue,
>)
    ensures
        outcome is Ok <==> answer is Ok,
        outcome is Ok ==> call_ensures(<T as Into<JsValue>>::into, (outcome->Ok_0,), answer->Ok_0),
        outcome is Err ==> call_ensures(
            <E as Into<JsValue>>::into,
            (outcome->Err_0,),
            answer->Err_0,
        ),
{
    match outcome {
        Ok(value) => Ok(value.into()),
        Err(thrown) => Err(thrown.into()),
    }
}

/// Cancels the registration of a stream by calling its handle, and leaves the
/// rest of the stream as it is. Returns what the call came back with, or
/// `None` where the stream owned no registration: a second call therefore
/// cancels nothing.
pub fn unsubscribe<S, E>(stream: &mut UploadTaskAsyncIter<S, E, Function>) -> (called: Option<
    Result<JsValue, JsValue>,
>)
    ensures
        called is Some <==> old(stream)@.subscription is Some,
        final(stream)@ == old(stream)@.after_close(),
{
    match stream.close() {
        Some(handle) => Some(call_without_arguments(&handle)),
        None => None,
    }
}

} // verus!
