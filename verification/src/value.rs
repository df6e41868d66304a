use vstd::prelude::*;

use googleapis_tonic_google_firestore_v1::google::firestore::v1::Value;

use crate::error::Error;

verus! {

/// The protocol's tagged-union document value.
///
/// Its internal structure is the protocol's business, not this crate's: the
/// builder only carries values through into filters and cursors, so the type
/// is declared opaquely and never inspected.
#[verifier::external_type_specification]
#[verifier::external_body]
pub struct ExValue(Value);

/// Relies on the derived `Value::clone`: a deep copy of the message,
/// structurally identical to its input.
pub assume_specification[ <Value as Clone>::clone ](v: &Value) -> (r: Value)
    ensures
        r == *v,
;

/// A Firestore value converter trait.
///
/// The right-hand side of a field filter and the entries of a cursor accept
/// anything convertible into a wire value: a wire value itself (identity,
/// infallible), any serializable value (delegated to the external
/// serializer), or a caller's own type implementing this trait directly.
pub trait IntoValue: Sized {
    /// The conversion outcomes this value admits; by default nothing is
    /// promised of them.
    open spec fn converts_to(self, r: Result<Value, Error>) -> bool {
        true
    }

    /// Converts the value into a Firestore value.
    fn into_value(self) -> (r: Result<Value, Error>)
        ensures
            self.converts_to(r),
    ;
}

impl IntoValue for Value {
    /// A wire value converts to itself, and the conversion cannot fail.
    open spec fn converts_to(self, r: Result<Value, Error>) -> bool {
        r == Ok::<Value, Error>(self)
    }

    fn into_value(self) -> (r: Result<Value, Error>) {
        Ok(self)
    }
}

/// Converts any serializable value into a Firestore value.
///
/// Relies on `serde_firestore_value::to_value`: serializes the value into a
/// wire value, or reports why it cannot be; the reported message is carried
/// over unchanged.
#[verifier::external_body]
pub fn to_value<T: serde::Serialize>(v: &T) -> Result<Value, Error> {
    match serde_firestore_value::to_value(v) {
        Ok(value) => Ok(value),
        Err(e) => Err(Error::new(e.to_string().as_str())),
    }
}

} // verus!
