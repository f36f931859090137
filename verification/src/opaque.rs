//! Types of outside crates that the library carries through without looking
//! inside them.

use vstd::prelude::*;

verus! {

/// A whole Blaze packet (header and encoded contents), from `blaze_pk`.
#[verifier::external_type_specification]
#[verifier::external_body]
pub struct ExPacket(blaze_pk::packet::Packet);

/// The error `blaze_pk` gives when packet contents cannot be decoded.
#[verifier::external_type_specification]
#[verifier::external_body]
pub struct ExDecodeError(blaze_pk::error::DecodeError);

/// An I/O error from the standard library.
#[verifier::external_type_specification]
#[verifier::external_body]
pub struct ExIoError(std::io::Error);

} // verus!
