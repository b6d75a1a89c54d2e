//! What holds of the log as a whole, proved from the contracts of its
//! requests.

use vstd::prelude::*;
use crate::error::{Error, EventError, HostError};
use crate::program::{
    create_event_spec, create_event_stream_spec, rederived_stream, CreateEvent, CreateEventStream,
};
use crate::record::{event_fault, Clock, EventView, RecordView, StreamView};
use crate::seeds::{event_address, stream_address, stream_address_with};

verus! {

/// A stream is created where its name is not empty, an address can be found
/// for the name, and no record sits at that address yet; and then the actor
/// who asked owns it.
pub proof fn law_stream_creation_succeeds(
    ledger: Map<Seq<u8>, RecordView>,
    ctx: CreateEventStream,
    clock: Clock,
    name: Seq<char>,
)
    requires
        name.len() > 0,
        stream_address(name) is Some,
        !ledger.dom().contains(stream_address(name).unwrap().0),
    ensures
        create_event_stream_spec(ledger, ctx, clock, name) == Ok::<(Seq<u8>, StreamView), Error>(
            (
                stream_address(name).unwrap().0,
                StreamView {
                    name,
                    owner: ctx.signer@,
                    created_at: clock.unix_timestamp,
                    bump: stream_address(name).unwrap().1,
                },
            ),
        ),
{
}

/// A name is taken once and for all. After a stream was created, whoever
/// asks for a stream of the same name, at whatever time, in whatever the
/// ledger has become while the stream sits in it, is refused because the
/// address is in use.
pub proof fn law_stream_name_taken_once(
    ledger: Map<Seq<u8>, RecordView>,
    ctx: CreateEventStream,
    clock: Clock,
    name: Seq<char>,
    later: Map<Seq<u8>, RecordView>,
    other_ctx: CreateEventStream,
    other_clock: Clock,
)
    requires
        create_event_stream_spec(ledger, ctx, clock, name) is Ok,
        ledger.insert(
            create_event_stream_spec(ledger, ctx, clock, name).unwrap().0,
            RecordView::Stream(create_event_stream_spec(ledger, ctx, clock, name).unwrap().1),
        ).submap_of(later),
    ensures
        create_event_stream_spec(later, other_ctx, other_clock, name) == Err::<
            (Seq<u8>, StreamView),
            Error,
        >(Error::Host(HostError::AddressInUse)),
{
    let (address, stream) = create_event_stream_spec(ledger, ctx, clock, name).unwrap();
    assert(ledger.insert(address, RecordView::Stream(stream)).dom().contains(address));
}

/// An event is created where its fields are in order, a stream sits at the
/// address that the request names and at the address that its own name and
/// bump derive, the actor who asks owns that stream, and an address can be
/// found for the nonce at which no record sits yet. The event then carries
/// the name of the stream and the time and the epoch of the clock. Who pays
/// decides nothing.
pub proof fn law_event_creation_succeeds(
    ledger: Map<Seq<u8>, RecordView>,
    ctx: CreateEvent,
    clock: Clock,
    nonce: Seq<u8>,
    name: Seq<char>,
    data: Seq<u8>,
    version: u16,
)
    requires
        event_fault(name, data, version) is None,
        ledger.dom().contains(ctx.event_stream@),
        ledger[ctx.event_stream@] is Stream,
        rederived_stream(ledger, ctx.event_stream@) == Some(ctx.event_stream@),
        ledger[ctx.event_stream@]->Stream_0.owner == ctx.owner@,
        event_address(ctx.event_stream@, nonce) is Some,
        !ledger.dom().contains(event_address(ctx.event_stream@, nonce).unwrap().0),
    ensures
        create_event_spec(ledger, ctx, clock, nonce, name, data, version) == Ok::<(Seq<u8>, EventView), Error>(
            (
                event_address(ctx.event_stream@, nonce).unwrap().0,
                EventView {
                    epoch: clock.epoch,
                    stream_name: ledger[ctx.event_stream@]->Stream_0.name,
                    name,
                    version,
                    created_at: clock.unix_timestamp,
                    bump: event_address(ctx.event_stream@, nonce).unwrap().1,
                    data,
                },
            ),
        ),
{
}

/// A nonce is taken once and for all under its stream. After an event was
/// created, a request for an event on the same stream with the same nonce
/// does not succeed, whoever makes it and whatever else it holds; and where
/// nothing else is wrong with it, it is refused because the address is in use.
pub proof fn law_event_nonce_taken_once(
    ledger: Map<Seq<u8>, RecordView>,
    ctx: CreateEvent,
    clock: Clock,
    nonce: Seq<u8>,
    name: Seq<char>,
    data: Seq<u8>,
    version: u16,
    later: Map<Seq<u8>, RecordView>,
    other_ctx: CreateEvent,
    other_clock: Clock,
    other_name: Seq<char>,
    other_data: Seq<u8>,
    other_version: u16,
)
    requires
        create_event_spec(ledger, ctx, clock, nonce, name, data, version) is Ok,
        ledger.insert(
            create_event_spec(ledger, ctx, clock, nonce, name, data, version).unwrap().0,
            RecordView::Event(create_event_spec(ledger, ctx, clock, nonce, name, data, version).unwrap().1),
        ).submap_of(later),
        other_ctx.event_stream@ == ctx.event_stream@,
    ensures
        create_event_spec(later, other_ctx, other_clock, nonce, other_name, other_data, other_version) is Err,
        event_fault(other_name, other_data, other_version) is None && other_ctx.owner@ == ctx.owner@
            ==> create_event_spec(later, other_ctx, other_clock, nonce, other_name, other_data, other_version)
            == Err::<(Seq<u8>, EventView), Error>(Error::Host(HostError::AddressInUse)),
{
    let (address, event) = create_event_spec(ledger, ctx, clock, nonce, name, data, version).unwrap();
    let after = ledger.insert(address, RecordView::Event(event));
    assert(after.dom().contains(address));
    assert(after.dom().contains(ctx.event_stream@));
    assert(later.dom().contains(ctx.event_stream@));
    assert(later[ctx.event_stream@] == after[ctx.event_stream@]);
}

/// Two events with different nonces do not stand in each other's way. Where
/// each of two requests on one stream would succeed on the ledger as it is,
/// and their nonces derive different addresses, the second succeeds after the
/// first just as it would have without it, and both events are in the ledger.
pub proof fn law_distinct_nonces_both_succeed(
    ledger: Map<Seq<u8>, RecordView>,
    first_ctx: CreateEvent,
    first_clock: Clock,
    first_nonce: Seq<u8>,
    first_name: Seq<char>,
    first_data: Seq<u8>,
    first_version: u16,
    second_ctx: CreateEvent,
    second_clock: Clock,
    second_nonce: Seq<u8>,
    second_name: Seq<char>,
    second_data: Seq<u8>,
    second_version: u16,
)
    requires
        first_nonce != second_nonce,
        first_ctx.event_stream@ == second_ctx.event_stream@,
        create_event_spec(ledger, first_ctx, first_clock, first_nonce, first_name, first_data, first_version) is Ok,
        create_event_spec(ledger, second_ctx, second_clock, second_nonce, second_name, second_data, second_version) is Ok,
        event_address(first_ctx.event_stream@, first_nonce).unwrap().0 != event_address(
            second_ctx.event_stream@,
            second_nonce,
        ).unwrap().0,
    ensures
        ({
            let first = create_event_spec(ledger, first_ctx, first_clock, first_nonce, first_name, first_data, first_version).unwrap();
            let second = create_event_spec(ledger, second_ctx, second_clock, second_nonce, second_name, second_data, second_version).unwrap();
            let after = ledger.insert(first.0, RecordView::Event(first.1));
            &&& create_event_spec(after, second_ctx, second_clock, second_nonce, second_name, second_data, second_version)
                == Ok::<(Seq<u8>, EventView), Error>(second)
            &&& first.0 != second.0
            &&& after.insert(second.0, RecordView::Event(second.1)).dom().contains(first.0)
            &&& after.insert(second.0, RecordView::Event(second.1))[first.0] == RecordView::Event(first.1)
            &&& after.insert(second.0, RecordView::Event(second.1))[second.0] == RecordView::Event(second.1)
        }),
{
    let first = create_event_spec(ledger, first_ctx, first_clock, first_nonce, first_name, first_data, first_version).unwrap();
    let after = ledger.insert(first.0, RecordView::Event(first.1));
    assert(ledger.dom().contains(second_ctx.event_stream@));
    assert(first.0 != second_ctx.event_stream@);
    assert(after[second_ctx.event_stream@] == ledger[second_ctx.event_stream@]);
}

/// Only the owner appends. Where a request for an event succeeds, a stream
/// sits at the address that the request names, at the address that its own
/// name and bump derive, and its owner is the actor who asked.
pub proof fn law_success_needs_owner(
    ledger: Map<Seq<u8>, RecordView>,
    ctx: CreateEvent,
    clock: Clock,
    nonce: Seq<u8>,
    name: Seq<char>,
    data: Seq<u8>,
    version: u16,
)
    requires
        create_event_spec(ledger, ctx, clock, nonce, name, data, version) is Ok,
    ensures
        ledger.dom().contains(ctx.event_stream@),
        ledger[ctx.event_stream@] is Stream,
        ledger[ctx.event_stream@]->Stream_0.owner == ctx.owner@,
        stream_address_with(ledger[ctx.event_stream@]->Stream_0.name, ledger[ctx.event_stream@]->Stream_0.bump)
            == Some(ctx.event_stream@),
        create_event_spec(ledger, ctx, clock, nonce, name, data, version).unwrap().1.stream_name
            == ledger[ctx.event_stream@]->Stream_0.name,
{
}

/// An actor who is not the owner of a stream is told so. Where the fields of
/// the request are in order and the stream sits at the address that its name
/// and bump derive, a request by anyone but its owner fails with
/// `WrongStreamOwner`, whatever the nonce.
pub proof fn law_stranger_is_refused(
    ledger: Map<Seq<u8>, RecordView>,
    ctx: CreateEvent,
    clock: Clock,
    nonce: Seq<u8>,
    name: Seq<char>,
    data: Seq<u8>,
    version: u16,
)
    requires
        event_fault(name, data, version) is None,
        ledger.dom().contains(ctx.event_stream@),
        ledger[ctx.event_stream@] is Stream,
        rederived_stream(ledger, ctx.event_stream@) == Some(ctx.event_stream@),
        ledger[ctx.event_stream@]->Stream_0.owner != ctx.owner@,
    ensures
        create_event_spec(ledger, ctx, clock, nonce, name, data, version) == Err::<
            (Seq<u8>, EventView),
            Error,
        >(Error::Event(EventError::WrongStreamOwner)),
{
}

/// The address of a stream can be derived again from what the stream stores.
/// The address that is found for a name is the one that the name derives
/// with the bump that was found with it. So where a stream was created, its
/// name and its bump derive the address at which it was put, and so does the
/// record in the ledger from then on.
pub proof fn law_stream_address_round_trip(
    ledger: Map<Seq<u8>, RecordView>,
    ctx: CreateEventStream,
    clock: Clock,
    name: Seq<char>,
)
    ensures
        stream_address(name) is Some ==> stream_address_with(name, stream_address(name).unwrap().1)
            == Some(stream_address(name).unwrap().0),
        create_event_stream_spec(ledger, ctx, clock, name) is Ok ==> ({
            let (address, stream) = create_event_stream_spec(ledger, ctx, clock, name).unwrap();
            &&& stream_address(name) == Some((address, stream.bump))
            &&& stream_address_with(stream.name, stream.bump) == Some(address)
            &&& rederived_stream(ledger.insert(address, RecordView::Stream(stream)), address) == Some(address)
        }),
{
}

/// A record that is created meets the rules of its kind: a stream has a
/// name; an event has a name, a payload and a version that is not zero, and
/// the name of its stream, where the stream in the ledger has one.
pub proof fn law_created_records_are_valid(
    ledger: Map<Seq<u8>, RecordView>,
    stream_ctx: CreateEventStream,
    ctx: CreateEvent,
    clock: Clock,
    nonce: Seq<u8>,
    name: Seq<char>,
    data: Seq<u8>,
    version: u16,
)
    requires
        forall|k: Seq<u8>| ledger.dom().contains(k) ==> (#[trigger] ledger[k]).valid(),
    ensures
        create_event_stream_spec(ledger, stream_ctx, clock, name) is Ok ==> create_event_stream_spec(
            ledger,
            stream_ctx,
            clock,
            name,
        ).unwrap().1.valid(),
        create_event_spec(ledger, ctx, clock, nonce, name, data, version) is Ok ==> create_event_spec(
            ledger,
            ctx,
            clock,
            nonce,
            name,
            data,
            version,
        ).unwrap().1.valid(),
{
    if create_event_spec(ledger, ctx, clock, nonce, name, data, version) is Ok {
        assert(ledger[ctx.event_stream@].valid());
    }
}

/// The owner of a stream that was created may append to it. After a stream
/// was created, a request by its creator for an event on it, with fields that
/// are in order and a nonce whose address can be found and is still free,
/// succeeds, and the event carries the name of the stream.
pub proof fn law_creator_may_append(
    ledger: Map<Seq<u8>, RecordView>,
    stream_ctx: CreateEventStream,
    stream_clock: Clock,
    stream_name: Seq<char>,
    ctx: CreateEvent,
    clock: Clock,
    nonce: Seq<u8>,
    name: Seq<char>,
    data: Seq<u8>,
    version: u16,
)
    requires
        create_event_stream_spec(ledger, stream_ctx, stream_clock, stream_name) is Ok,
        ctx.event_stream@ == create_event_stream_spec(ledger, stream_ctx, stream_clock, stream_name).unwrap().0,
        ctx.owner@ == stream_ctx.signer@,
        event_fault(name, data, version) is None,
        event_address(ctx.event_stream@, nonce) is Some,
        !ledger.insert(
            ctx.event_stream@,
            RecordView::Stream(create_event_stream_spec(ledger, stream_ctx, stream_clock, stream_name).unwrap().1),
        ).dom().contains(event_address(ctx.event_stream@, nonce).unwrap().0),
    ensures
        ({
            let (address, stream) = create_event_stream_spec(ledger, stream_ctx, stream_clock, stream_name).unwrap();
            let after = ledger.insert(address, RecordView::Stream(stream));
            create_event_spec(after, ctx, clock, nonce, name, data, version) == Ok::<(Seq<u8>, EventView), Error>(
                (
                    event_address(ctx.event_stream@, nonce).unwrap().0,
                    EventView {
                        epoch: clock.epoch,
                        stream_name,
                        name,
                        version,
                        created_at: clock.unix_timestamp,
                        bump: event_address(ctx.event_stream@, nonce).unwrap().1,
                        data,
                    },
                ),
            )
        }),
{
}

/// Records are never changed and never removed. A request that succeeds puts
/// its record at an address that was free, so every record that was in the
/// ledger is in it afterwards, as it was.
pub proof fn law_records_stay(
    ledger: Map<Seq<u8>, RecordView>,
    stream_ctx: CreateEventStream,
    ctx: CreateEvent,
    clock: Clock,
    nonce: Seq<u8>,
    name: Seq<char>,
    data: Seq<u8>,
    version: u16,
)
    ensures
        create_event_stream_spec(ledger, stream_ctx, clock, name) is Ok ==> ledger.submap_of(
            ledger.insert(
                create_event_stream_spec(ledger, stream_ctx, clock, name).unwrap().0,
                RecordView::Stream(create_event_stream_spec(ledger, stream_ctx, clock, name).unwrap().1),
            ),
        ),
        create_event_spec(ledger, ctx, clock, nonce, name, data, version) is Ok ==> ledger.submap_of(
            ledger.insert(
                create_event_spec(ledger, ctx, clock, nonce, name, data, version).unwrap().0,
                RecordView::Event(create_event_spec(ledger, ctx, clock, nonce, name, data, version).unwrap().1),
            ),
        ),
{
}

} // verus!
