//! The failures an operation can end in.
use vstd::prelude::*;

verus! {

/// Why an operation failed.
#[derive(Clone, Copy, Debug, PartialEq, Eq, Structural)]
pub enum Error {
    /// The peer refused a request; the number is the cause it reported.
    Channel(i32),
    /// The segment is already allocated with another length or name.
    Conflict,
    /// Another mapping already starts at the guest-physical address.
    AlreadyExists,
    /// No mapping starts at or above the guest-physical address.
    NotFound,
    /// An argument breaks a structural rule: a name with a zero byte or one
    /// too long for its buffer, a length out of bounds, a vCPU index that no
    /// machine has.
    InvalidInput,
    /// A reply could not be read as the record it should be.
    InvalidData,
    /// The host could not place a mapping at the address asked for.
    AddressUnavailable,
}

} // verus!
