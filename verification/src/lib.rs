//! Positional decoding of structured records.
//!
//! A record type normally decodes from a name-keyed encoding. This library
//! instead lets each field declare, independent of its declaration order,
//! which zero-based position of an array-like input it is read from. The
//! library validates the per-field position annotations into a schema,
//! derives the minimum input length the schema demands, and decodes one
//! input sequence into the values each field reads, with exact error
//! reporting for inputs that are too short or fields that do not convert.

pub mod decimal;
pub mod schema;
pub mod decode;
pub mod json;
