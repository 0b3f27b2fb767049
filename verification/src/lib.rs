//! A length-prefixed, version-aware binary wire format.
//!
//! Every primitive, container and optional value has a canonical big-endian
//! byte layout, and composite message types can evolve across protocol
//! versions while remaining backward compatible.  The [`Decoder`] and
//! [`Encoder`] traits give every wire-representable type a machine-checked
//! contract: decoding is specified against a total specification function
//! over byte sequences, and encoding is proved to produce exactly the bytes
//! that decoding consumes.

use vstd::prelude::*;

pub mod containers;
pub mod create;
pub mod cursor;
pub mod decoder;
pub mod encoder;
pub mod error;
pub mod format;
pub mod laws;
pub mod varint;

pub use containers::{MapKey, Phantom};
pub use create::{
    CommonCreateRequest, CreateRequest, CustomSpuSpec, DerivedStreamSpec, ManagedConnectorSpec,
    ObjectApiCreateRequest, ObjectCreateRequest, SmartModuleSpec, SpuGroupSpec, TableFormatSpec,
    TestRecord, TopicSpec,
};
pub use cursor::Cursor;
pub use decoder::{Decoded, Decoder};
pub use encoder::Encoder;
pub use error::DecodeError;
pub use varint::DecoderVarInt;

verus! {

/// The negotiated protocol version for one decode or encode operation.
///
/// A field of a composite type is present on the wire exactly when the
/// negotiated version reaches the field's declared minimum version.
pub type Version = i16;

} // verus!
