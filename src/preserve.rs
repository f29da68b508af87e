//! The passthrough wrapper: presents a host-runtime handle as an ordinary
//! field whose wire form is the sentinel.
use vstd::prelude::*;
use wasm_bindgen::JsValue;

use crate::relay::{decode_passthrough, encode_passthrough, RelayError, RelaySlot, SENTINEL, after_retrieve};

verus! {

/// Relies on wasm_bindgen::JsValue only as an opaque handle that is moved
/// around; nothing inside it is read.
#[verifier::external_type_specification]
#[verifier::external_body]
pub struct ExJsValue(JsValue);

/// Keeps a value convertible to and from `JsValue` intact across an
/// in-process serialize / deserialize round trip.
#[derive(Clone, Debug, PartialEq)]
pub struct PreserveJsValue<T: From<JsValue> + Into<JsValue> + Clone>(pub T);

impl<T: From<JsValue> + Into<JsValue> + Clone> From<T> for PreserveJsValue<T> {
    fn from(value: T) -> (r: Self)
        ensures
            r.0 == value,
    {
        PreserveJsValue(value)
    }
}

impl<T: From<JsValue> + Into<JsValue> + Clone> vstd::std_specs::convert::FromSpecImpl<T> for PreserveJsValue<T> {
    open spec fn obeys_from_spec() -> bool {
        true
    }

    open spec fn from_spec(value: T) -> Self {
        PreserveJsValue(value)
    }
}

impl<T: From<JsValue> + Into<JsValue> + Clone + Default> Default for PreserveJsValue<T> {
    fn default() -> (r: Self)
        ensures
            call_ensures(T::default, (), r.0),
    {
        PreserveJsValue(T::default())
    }
}

impl<T: From<JsValue> + Into<JsValue> + Clone> PreserveJsValue<T> {
    /// The wrapped value.
    pub fn unwrap(self) -> (r: T)
        ensures
            r == self.0,
    {
        self.0
    }

    /// Converts a copy of the wrapped value into a `JsValue`, deposits it in
    /// `slot` (overwriting anything pending), and returns the sentinel that
    /// stands for this field on the wire.
    pub fn encode(&self, slot: &mut RelaySlot<JsValue>) -> (wire: i64)
        ensures
            wire == SENTINEL,
            final(slot)@ is Some,
            exists|c: T|
                call_ensures(T::clone, (&self.0,), c) && call_ensures(
                    <T as Into<JsValue>>::into,
                    (c,),
                    final(slot)@->Some_0,
                ),
    {
        let c = self.0.clone();
        let ghost gc = c;
        let js: JsValue = c.into();
        let wire = encode_passthrough(slot, js);
        assert(call_ensures(T::clone, (&self.0,), gc) && call_ensures(
            <T as Into<JsValue>>::into,
            (gc,),
            slot@->Some_0,
        ));
        wire
    }

    /// Discards the sentinel read from the wire, takes the pending `JsValue`
    /// out of `slot` and converts it back. An empty slot is an error, never a
    /// default value.
    pub fn decode(wire: i64, slot: &mut RelaySlot<JsValue>) -> (r: Result<Self, RelayError>)
        ensures
            final(slot)@ == after_retrieve(old(slot)@),
            r is Err <==> old(slot)@ is None,
            r is Err ==> r == Err::<Self, RelayError>(RelayError::EmptySlot),
            r is Ok ==> call_ensures(T::from, (old(slot)@->Some_0,), r->Ok_0.0),
    {
        match decode_passthrough(slot, wire) {
            Ok(js) => Ok(PreserveJsValue(T::from(js))),
            Err(e) => Err(e),
        }
    }
}

} // verus!
