//! The byte encoding of payloads.
//!
//! A topic does not know how its payload type is encoded. It is built with
//! two functions, an encoder and a decoder, and is verified for every such
//! pair. Contracts speak of them through the two relations below.

use vstd::prelude::*;

verus! {

/// `serde_json::Error`, what a decoder reports. The library carries it from
/// the decoder to the caller and makes no call on it.
#[verifier::external_type_specification]
#[verifier::external_body]
pub struct ExJsonError(serde_json::Error);

/// Whether `bytes` is an encoding of `value` that `encode` may return.
pub open spec fn encodes<E, Enc: Fn(&E) -> Vec<u8>>(encode: Enc, value: E, bytes: Seq<u8>) -> bool {
    exists|made: Vec<u8>| #[trigger] call_ensures(encode, (&value,), made) && made@ == bytes
}

/// Whether `decode` may answer `outcome` when it is given `bytes`.
pub open spec fn decodes<E, Dec: Fn(&[u8]) -> Result<E, serde_json::Error>>(
    decode: Dec,
    bytes: Seq<u8>,
    outcome: Result<E, serde_json::Error>,
) -> bool {
    exists|given: &[u8]| #[trigger] call_ensures(decode, (given,), outcome) && given@ == bytes
}

/// The bytes handed to a topic did not decode into its payload type.
#[derive(Debug)]
pub struct DecodeError {
    /// What the decoder reported.
    pub cause: serde_json::Error,
}

impl From<serde_json::Error> for DecodeError {
    fn from(cause: serde_json::Error) -> (error: DecodeError) {
        DecodeError { cause }
    }
}

impl vstd::std_specs::convert::FromSpecImpl<serde_json::Error> for DecodeError {
    open spec fn obeys_from_spec() -> bool {
        true
    }

    open spec fn from_spec(cause: serde_json::Error) -> DecodeError {
        DecodeError { cause }
    }
}

} // verus!
