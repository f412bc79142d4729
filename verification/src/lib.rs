//! Codec for a remote service's JSON resources: a polymorphic command-option
//! codec (a recursive discriminated union with variant-dependent fields) and a
//! tri-state nullable-field codec for partial-update payloads.

pub mod codec;
pub mod digits;
pub mod json;
pub mod model;
pub mod nullable;
pub mod option;
pub mod request;
pub mod validate;
