//! An owner-gated, append-only event log on a shared ledger.
//!
//! Anyone may create a named stream; only the actor who created a stream may
//! append events to it. Every record is stored at an address derived from what
//! identifies it, and a record, once created, is never changed or removed.
//!
//! The name of a stream and the name of an event must not be empty. An event
//! has a payload, which must not be empty, and a version, which must not be
//! zero. The actor who pays for the storage of an event need not be the owner
//! of the stream. The time of a record is handed in with the request: the log
//! reads no clock of its own.
//!
//! - [`address`]: the thirty-two bytes that name an actor or a record.
//! - [`derivation`]: how the ledger derives an address from seeds.
//! - [`seeds`]: the seeds of streams and events, and their addresses.
//! - [`record`]: the records, and the rules that their fields meet.
//! - [`ledger`]: the store, in which an address is filled at most once.
//! - [`program`]: the two requests, `create_event_stream` and `create_event`.
//! - [`laws`]: what holds of the log as a whole.

pub mod address;
pub mod derivation;
pub mod error;
pub mod laws;
pub mod ledger;
pub mod program;
pub mod record;
pub mod seeds;

pub use crate::address::Address;
pub use crate::error::{Error, EventError, HostError};
pub use crate::ledger::Ledger;
pub use crate::program::{create_event, create_event_stream, CreateEvent, CreateEventStream};
pub use crate::record::{Clock, Event, Record, Stream};
