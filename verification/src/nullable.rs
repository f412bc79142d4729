//! The tri-state field codec for partial-update payloads: an update field
//! distinguishes leaving a value unchanged, clearing it, and setting it —
//! a distinction ordinary optional encoding collapses.

use vstd::prelude::*;

use crate::json::JsonValue;
use crate::json::SpecJson;

verus! {

/// An update field with three distinguishable states. A field's state is
/// fixed once a request is built; every field starts out `Unset` until the
/// caller explicitly clears or sets it.
#[derive(Debug)]
pub enum NullableField<T> {
    /// Leave the field unchanged: the key is omitted from the payload.
    Unset,
    /// Clear the field: the key is present with a null value.
    SetNull,
    /// Set the field: the key is present with the encoded value.
    SetValue(T),
}

impl<T: DeepView> DeepView for NullableField<T> {
    type V = NullableField<T::V>;

    open spec fn deep_view(&self) -> NullableField<T::V> {
        match self {
            NullableField::Unset => NullableField::Unset,
            NullableField::SetNull => NullableField::SetNull,
            NullableField::SetValue(t) => NullableField::SetValue(t.deep_view()),
        }
    }
}

/// A value a payload field can carry, with the document it encodes to.
pub trait JsonEncode {
    /// The document this value encodes to.
    spec fn json_view(&self) -> SpecJson;

    /// A set value never encodes to the JSON `null`: null is reserved for
    /// the clear state, so the three states stay distinguishable.
    proof fn json_view_not_null(&self)
        ensures
            !(self.json_view() is Null),
    ;

    /// Encode the value.
    fn encode_json(&self) -> (r: JsonValue)
        ensures
            r.deep_view() == self.json_view(),
    ;
}

/// What a tri-state field encodes to: nothing when unset, the JSON `null`
/// when cleared, the value's document when set.
pub open spec fn spec_encode_nullable<T: JsonEncode>(f: NullableField<T>) -> Option<SpecJson> {
    match f {
        NullableField::Unset => None,
        NullableField::SetNull => Some(SpecJson::Null),
        NullableField::SetValue(t) => Some(t.json_view()),
    }
}

/// Encode of a tri-state field, presence-tagged: `None` means the key is
/// omitted from the payload entirely; `Some` carries the value the present
/// key holds.
pub fn encode_nullable_field<T: JsonEncode>(f: &NullableField<T>) -> (r: Option<JsonValue>)
    ensures
        match r {
            None => spec_encode_nullable(*f) is None,
            Some(v) => spec_encode_nullable(*f) == Some(v.deep_view()),
        },
{
    match f {
        NullableField::Unset => None,
        NullableField::SetNull => Some(JsonValue::Null),
        NullableField::SetValue(t) => Some(t.encode_json()),
    }
}

/// Tri-state omission: the three states produce pairwise distinguishable
/// encodings — omitted, present-and-null, and present-with-a-value that is
/// never null.
pub proof fn lemma_tri_state_distinguishable<T: JsonEncode>(f: NullableField<T>)
    ensures
        (spec_encode_nullable(f) is None) <==> (f is Unset),
        (spec_encode_nullable(f) == Some(SpecJson::Null)) <==> (f is SetNull),
        f matches NullableField::SetValue(t) ==> spec_encode_nullable(f) == Some(t.json_view())
            && !(t.json_view() is Null),
{
    if let NullableField::SetValue(t) = f {
        t.json_view_not_null();
    }
}

impl JsonEncode for String {
    open spec fn json_view(&self) -> SpecJson {
        SpecJson::String(self@)
    }

    proof fn json_view_not_null(&self) {
    }

    fn encode_json(&self) -> (r: JsonValue) {
        JsonValue::String(self.clone())
    }
}

impl JsonEncode for i64 {
    open spec fn json_view(&self) -> SpecJson {
        SpecJson::Integer(*self)
    }

    proof fn json_view_not_null(&self) {
    }

    fn encode_json(&self) -> (r: JsonValue) {
        JsonValue::Integer(*self)
    }
}

impl JsonEncode for bool {
    open spec fn json_view(&self) -> SpecJson {
        SpecJson::Bool(*self)
    }

    proof fn json_view_not_null(&self) {
    }

    fn encode_json(&self) -> (r: JsonValue) {
        JsonValue::Bool(*self)
    }
}

} // verus!
