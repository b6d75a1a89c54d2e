//! The two requests of the log: create a stream, and append an event to one.
//!
//! A request either creates exactly one record or fails and leaves the ledger
//! as it was. The rules are checked in a fixed order and the first one that is
//! broken decides the error: the fields of the request come first, then the
//! stream and its owner, then the address of the new record.
//!
//! Each request comes in two layers. [`create_event_stream`] and
//! [`create_event`] derive the addresses and then call [`store_stream`] and
//! [`store_event`], which take what the derivation gave as arguments and
//! decide everything else.

use vstd::prelude::*;
use vstd::utf8::encode_utf8;
use crate::address::Address;
use crate::derivation::{found_view, MAX_SEED_LEN};
use crate::error::{Error, EventError, HostError};
use crate::ledger::Ledger;
use crate::record::{
    event_fault, validate_event, validate_stream, Clock, Event, EventView, Record, RecordView,
    Stream, StreamView,
};
use crate::seeds::{
    event_address, find_event_address, find_stream_address, rederive_stream_address,
    stream_address, stream_address_with,
};

verus! {

/// Who asks for a stream.
#[derive(Clone, Copy, Debug)]
pub struct CreateEventStream {
    /// The actor who creates the stream and becomes its owner.
    pub signer: Address,
}

/// Who asks for an event, and on which stream.
#[derive(Clone, Copy, Debug)]
pub struct CreateEvent {
    /// The actor who claims to own the stream.
    pub owner: Address,
    /// The actor who pays for the storage of the event. It need not be the
    /// owner, and nothing is decided by it.
    pub user: Address,
    /// The address of the stream to append to.
    pub event_stream: Address,
}

/// The view of an address that may be missing.
pub open spec fn address_view(address: Option<Address>) -> Option<Seq<u8>> {
    match address {
        Some(a) => Some(a@),
        None => None,
    }
}

/// What a request for a stream called `name` comes to, where the search for
/// the stream's address gave `found`: the address and the record to create,
/// or the error.
pub open spec fn stream_outcome(
    ledger: Map<Seq<u8>, RecordView>,
    ctx: CreateEventStream,
    clock: Clock,
    name: Seq<char>,
    found: Option<(Seq<u8>, u8)>,
) -> Result<(Seq<u8>, StreamView), Error> {
    if name.len() == 0 {
        Err(Error::Event(EventError::InvalidName))
    } else {
        match found {
            None => Err(Error::Host(HostError::InvalidSeeds)),
            Some((address, bump)) => if ledger.dom().contains(address) {
                Err(Error::Host(HostError::AddressInUse))
            } else {
                Ok(
                    (
                        address,
                        StreamView {
                            name,
                            owner: ctx.signer@,
                            created_at: clock.unix_timestamp,
                            bump,
                        },
                    ),
                )
            },
        }
    }
}

/// Why `owner` may not append to `stream`, which was found at the address
/// `at` and whose name and bump derive `rederived`; `None` where the actor
/// may. The stream is trusted only at the address that it derives itself, and
/// its owner is looked at only then.
pub open spec fn stream_fault_for(
    stream: StreamView,
    at: Seq<u8>,
    rederived: Option<Seq<u8>>,
    owner: Seq<u8>,
) -> Option<Error> {
    if rederived != Some(at) {
        Some(Error::Host(HostError::ConstraintSeeds))
    } else if stream.owner != owner {
        Some(Error::Event(EventError::WrongStreamOwner))
    } else {
        None
    }
}

/// The stream that a request for an event may append to, where deriving the
/// address of the stream at `ctx.event_stream` again gave `rederived`; or why
/// it may not. The stream must be there, it must sit at the address that its
/// own name and bump derive, and its owner must be the actor who asks.
pub open spec fn guard_outcome(
    ledger: Map<Seq<u8>, RecordView>,
    ctx: CreateEvent,
    rederived: Option<Seq<u8>>,
) -> Result<StreamView, Error> {
    if !ledger.dom().contains(ctx.event_stream@) {
        Err(Error::Host(HostError::AccountNotInitialized))
    } else {
        match ledger[ctx.event_stream@] {
            RecordView::Event(_) => Err(Error::Host(HostError::AccountNotInitialized)),
            RecordView::Stream(stream) => match stream_fault_for(
                stream,
                ctx.event_stream@,
                rederived,
                ctx.owner@,
            ) {
                Some(e) => Err(e),
                None => Ok(stream),
            },
        }
    }
}

/// What a request for an event comes to, where deriving the stream's address
/// again gave `rederived` and the search for the event's address gave
/// `found`: the address and the record to create, or the error.
pub open spec fn event_outcome(
    ledger: Map<Seq<u8>, RecordView>,
    ctx: CreateEvent,
    clock: Clock,
    name: Seq<char>,
    data: Seq<u8>,
    version: u16,
    rederived: Option<Seq<u8>>,
    found: Option<(Seq<u8>, u8)>,
) -> Result<(Seq<u8>, EventView), Error> {
    match event_fault(name, data, version) {
        Some(e) => Err(Error::Event(e)),
        None => match guard_outcome(ledger, ctx, rederived) {
            Err(e) => Err(e),
            Ok(stream) => match found {
                None => Err(Error::Host(HostError::InvalidSeeds)),
                Some((address, bump)) => if ledger.dom().contains(address) {
                    Err(Error::Host(HostError::AddressInUse))
                } else {
                    Ok(
                        (
                            address,
                            EventView {
                                epoch: clock.epoch,
                                stream_name: stream.name,
                                name,
                                version,
                                created_at: clock.unix_timestamp,
                                bump,
                                data,
                            },
                        ),
                    )
                },
            },
        },
    }
}

/// The address that the stream at `address` derives again from the name and
/// the bump that it stores; `None` where no stream sits there.
pub open spec fn rederived_stream(ledger: Map<Seq<u8>, RecordView>, address: Seq<u8>) -> Option<Seq<u8>> {
    if ledger.dom().contains(address) {
        match ledger[address] {
            RecordView::Stream(stream) => stream_address_with(stream.name, stream.bump),
            RecordView::Event(_) => None,
        }
    } else {
        None
    }
}

/// What `create_event_stream` comes to on `ledger`.
pub open spec fn create_event_stream_spec(
    ledger: Map<Seq<u8>, RecordView>,
    ctx: CreateEventStream,
    clock: Clock,
    name: Seq<char>,
) -> Result<(Seq<u8>, StreamView), Error> {
    stream_outcome(ledger, ctx, clock, name, stream_address(name))
}

/// What `create_event` comes to on `ledger`.
pub open spec fn create_event_spec(
    ledger: Map<Seq<u8>, RecordView>,
    ctx: CreateEvent,
    clock: Clock,
    nonce: Seq<u8>,
    name: Seq<char>,
    data: Seq<u8>,
    version: u16,
) -> Result<(Seq<u8>, EventView), Error> {
    event_outcome(
        ledger,
        ctx,
        clock,
        name,
        data,
        version,
        rederived_stream(ledger, ctx.event_stream@),
        event_address(ctx.event_stream@, nonce),
    )
}

/// Creates the stream called `name` at the address `found`, which the search
/// for its address gave, with `ctx.signer` as its owner and the time of
/// `clock`. Refuses an empty name, a missing address and an address that is
/// taken, in this order, and then changes nothing.
pub fn store_stream(
    ledger: &mut Ledger,
    ctx: &CreateEventStream,
    clock: &Clock,
    name: String,
    found: Option<(Address, u8)>,
) -> (r: Result<Stream, Error>)
    ensures
        match stream_outcome(old(ledger)@, *ctx, *clock, name@, found_view(found)) {
            Ok((address, stream)) => {
                &&& r is Ok
                &&& r.unwrap()@ == stream
                &&& final(ledger)@ == old(ledger)@.insert(address, RecordView::Stream(stream))
            },
            Err(e) => r == Err::<Stream, Error>(e) && final(ledger)@ == old(ledger)@,
        },
{
    match validate_stream(name.as_str()) {
        Err(e) => {
            return Err(Error::Event(e));
        },
        Ok(()) => {},
    }
    let (address, bump) = match found {
        Some(pair) => pair,
        None => {
            return Err(Error::Host(HostError::InvalidSeeds));
        },
    };
    let stream = Stream::make(name, ctx.signer, clock, bump);
    let copy = stream.clone();
    match ledger.allocate(address, Record::Stream(stream)) {
        Ok(()) => Ok(copy),
        Err(e) => Err(Error::Host(e)),
    }
}

/// Creates the stream called `name`, owned by `ctx.signer` and stamped with
/// the time of `clock`, at the address that its name derives. A second stream
/// of the same name finds that address taken.
pub fn create_event_stream(ledger: &mut Ledger, ctx: &CreateEventStream, clock: &Clock, name: String) -> (r: Result<Stream, Error>)
    ensures
        match create_event_stream_spec(old(ledger)@, *ctx, *clock, name@) {
            Ok((address, stream)) => {
                &&& r is Ok
                &&& r.unwrap()@ == stream
                &&& final(ledger)@ == old(ledger)@.insert(address, RecordView::Stream(stream))
            },
            Err(e) => r == Err::<Stream, Error>(e) && final(ledger)@ == old(ledger)@,
        },
        name@.len() == 0 ==> r == Err::<Stream, Error>(Error::Event(EventError::InvalidName))
            && final(ledger)@ == old(ledger)@,
        name@.len() > 0 && encode_utf8(name@).len() > MAX_SEED_LEN ==> r == Err::<Stream, Error>(
            Error::Host(HostError::InvalidSeeds),
        ) && final(ledger)@ == old(ledger)@,
{
    let found = find_stream_address(name.as_str());
    store_stream(ledger, ctx, clock, name, found)
}

/// Decides whether `owner` may append to `stream`, which was found at the
/// address `at` and whose name and bump derive `rederived`.
pub fn check_stream(stream: &Stream, at: &Address, rederived: Option<Address>, owner: &Address) -> (r: Result<(), Error>)
    ensures
        r == match stream_fault_for(stream@, at@, address_view(rederived), owner@) {
            Some(e) => Err::<(), Error>(e),
            None => Ok(()),
        },
{
    let at_home = match rederived {
        Some(address) => address == *at,
        None => false,
    };
    if !at_home {
        return Err(Error::Host(HostError::ConstraintSeeds));
    }
    if !(stream.owner() == *owner) {
        return Err(Error::Event(EventError::WrongStreamOwner));
    }
    Ok(())
}

/// Decides whether `ctx.owner` may append to the stream at
/// `ctx.event_stream`, where deriving that stream's address again gave
/// `rederived`, and hands out the stream if so.
pub fn authorize<'a>(ledger: &'a Ledger, ctx: &CreateEvent, rederived: Option<Address>) -> (r: Result<&'a Stream, Error>)
    ensures
        match guard_outcome(ledger@, *ctx, address_view(rederived)) {
            Ok(stream) => r is Ok && r.unwrap()@ == stream,
            Err(e) => r == Err::<&Stream, Error>(e),
        },
{
    let stream = match ledger.stream_at(&ctx.event_stream) {
        Some(stream) => stream,
        None => {
            return Err(Error::Host(HostError::AccountNotInitialized));
        },
    };
    match check_stream(stream, &ctx.event_stream, rederived, &ctx.owner) {
        Ok(()) => Ok(stream),
        Err(e) => Err(e),
    }
}

/// Derives again, from the name and the bump that it stores, the address of
/// the stream at `address`; `None` where no stream sits there or the
/// derivation fails.
pub fn rederive_stream(ledger: &Ledger, address: &Address) -> (r: Option<Address>)
    ensures
        address_view(r) == rederived_stream(ledger@, address@),
{
    match ledger.stream_at(address) {
        Some(stream) => rederive_stream_address(stream.name().as_str(), stream.bump()),
        None => None,
    }
}

/// Appends the event to the stream at `ctx.event_stream`, at the address
/// `found`, which the search for its address gave; `rederived` is what
/// deriving the stream's address again gave. Checks the name, the payload and
/// the version, then the stream and its owner, then the address, and changes
/// nothing where one of them fails.
pub fn store_event(
    ledger: &mut Ledger,
    ctx: &CreateEvent,
    clock: &Clock,
    name: String,
    data: Vec<u8>,
    version: u16,
    rederived: Option<Address>,
    found: Option<(Address, u8)>,
) -> (r: Result<Event, Error>)
    ensures
        match event_outcome(
            old(ledger)@,
            *ctx,
            *clock,
            name@,
            data@,
            version,
            address_view(rederived),
            found_view(found),
        ) {
            Ok((address, event)) => {
                &&& r is Ok
                &&& r.unwrap()@ == event
                &&& final(ledger)@ == old(ledger)@.insert(address, RecordView::Event(event))
            },
            Err(e) => r == Err::<Event, Error>(e) && final(ledger)@ == old(ledger)@,
        },
{
    match validate_event(name.as_str(), data.as_slice(), version) {
        Err(e) => {
            return Err(Error::Event(e));
        },
        Ok(()) => {},
    }
    let stream = match authorize(ledger, ctx, rederived) {
        Err(e) => {
            return Err(e);
        },
        Ok(stream) => stream,
    };
    let (address, bump) = match found {
        Some(pair) => pair,
        None => {
            return Err(Error::Host(HostError::InvalidSeeds));
        },
    };
    let event = Event::make(stream, name, data, version, clock, bump);
    let copy = event.clone();
    match ledger.allocate(address, Record::Event(event)) {
        Ok(()) => Ok(copy),
        Err(e) => Err(Error::Host(e)),
    }
}

/// Appends an event called `name`, with the payload `data` and the version
/// `version`, to the stream at `ctx.event_stream`, stamped with the time and
/// the epoch of `clock`. Only the owner of the stream may do so. The event
/// sits at the address that the stream's address and `nonce` derive: a second
/// event with the same nonce finds that address taken.
pub fn create_event(
    ledger: &mut Ledger,
    ctx: &CreateEvent,
    clock: &Clock,
    nonce: Vec<u8>,
    name: String,
    data: Vec<u8>,
    version: u16,
) -> (r: Result<Event, Error>)
    ensures
        match create_event_spec(old(ledger)@, *ctx, *clock, nonce@, name@, data@, version) {
            Ok((address, event)) => {
                &&& r is Ok
                &&& r.unwrap()@ == event
                &&& final(ledger)@ == old(ledger)@.insert(address, RecordView::Event(event))
            },
            Err(e) => r == Err::<Event, Error>(e) && final(ledger)@ == old(ledger)@,
        },
        name@.len() == 0 ==> r == Err::<Event, Error>(Error::Event(EventError::InvalidName))
            && final(ledger)@ == old(ledger)@,
        name@.len() > 0 && data@.len() == 0 ==> r == Err::<Event, Error>(
            Error::Event(EventError::InvalidData),
        ) && final(ledger)@ == old(ledger)@,
        name@.len() > 0 && data@.len() > 0 && version == 0 ==> r == Err::<Event, Error>(
            Error::Event(EventError::InvalidVersion),
        ) && final(ledger)@ == old(ledger)@,
        nonce@.len() > MAX_SEED_LEN ==> r is Err && final(ledger)@ == old(ledger)@,
{
    let rederived = rederive_stream(ledger, &ctx.event_stream);
    let found = find_event_address(&ctx.event_stream, nonce.as_slice());
    store_event(ledger, ctx, clock, name, data, version, rederived, found)
}

} // verus!
