//! What a request can fail with.

use vstd::prelude::*;

verus! {

/// A request that breaks one of the rules of the log. The caller can correct
/// it and ask again.
#[derive(Clone, Copy, Debug, PartialEq, Eq, Structural)]
pub enum EventError {
    /// The name of a stream or of an event is empty.
    InvalidName,
    /// The payload of an event is empty.
    InvalidData,
    /// The version of an event is zero.
    InvalidVersion,
    /// The actor who asks is not the owner of the stream.
    WrongStreamOwner,
}

/// A request that the ledger itself turns down.
#[derive(Clone, Copy, Debug, PartialEq, Eq, Structural)]
pub enum HostError {
    /// A record already sits at the address of the record to create.
    AddressInUse,
    /// No address can be derived from what identifies the record.
    InvalidSeeds,
    /// No stream sits at the address that was given for the stream.
    AccountNotInitialized,
    /// The stream that was given does not sit at the address that its own
    /// name and bump derive.
    ConstraintSeeds,
}

/// Why nothing was created.
#[derive(Clone, Copy, Debug, PartialEq, Eq, Structural)]
pub enum Error {
    Event(EventError),
    Host(HostError),
}

impl EventError {
    /// The message that goes with the error.
    pub fn message(&self) -> (text: &'static str)
        ensures
            text@ == match *self {
                EventError::InvalidName => "Invalid name"@,
                EventError::InvalidData => "Invalid data"@,
                EventError::InvalidVersion => "Invalid version"@,
                EventError::WrongStreamOwner => "Wrong stream owner"@,
            },
    {
        match self {
            EventError::InvalidName => "Invalid name",
            EventError::InvalidData => "Invalid data",
            EventError::InvalidVersion => "Invalid version",
            EventError::WrongStreamOwner => "Wrong stream owner",
        }
    }
}

} // verus!
