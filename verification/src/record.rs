//! The two kinds of record, and the rules that a record meets before it is
//! stored. A record is made once and never changed: its fields can be read
//! and nothing more.

use vstd::prelude::*;
use crate::address::Address;
use crate::error::EventError;

verus! {

/// What the ledger's clock shows at the moment of a request.
#[derive(Clone, Copy, Debug, PartialEq, Eq, Structural)]
pub struct Clock {
    pub unix_timestamp: i64,
    pub epoch: u64,
}

/// A named log that its owner appends events to.
#[derive(Debug)]
pub struct Stream {
    name: String,
    owner: Address,
    created_at: i64,
    bump: u8,
}

/// What a stream holds.
pub struct StreamView {
    pub name: Seq<char>,
    pub owner: Seq<u8>,
    pub created_at: i64,
    pub bump: u8,
}

/// One entry of a stream.
#[derive(Debug)]
pub struct Event {
    epoch: u64,
    stream_name: String,
    name: String,
    version: u16,
    created_at: i64,
    bump: u8,
    data: Vec<u8>,
}

/// What an event holds.
pub struct EventView {
    pub epoch: u64,
    pub stream_name: Seq<char>,
    pub name: Seq<char>,
    pub version: u16,
    pub created_at: i64,
    pub bump: u8,
    pub data: Seq<u8>,
}

/// A record of either kind.
#[derive(Debug)]
pub enum Record {
    Stream(Stream),
    Event(Event),
}

/// What a record holds.
pub enum RecordView {
    Stream(StreamView),
    Event(EventView),
}

impl StreamView {
    /// A stream has a name.
    pub open spec fn valid(self) -> bool {
        self.name.len() > 0
    }
}

impl EventView {
    /// An event has a name, a payload and a version, and belongs to a stream
    /// that has a name.
    pub open spec fn valid(self) -> bool {
        &&& self.stream_name.len() > 0
        &&& self.name.len() > 0
        &&& self.data.len() > 0
        &&& self.version != 0
    }
}

impl RecordView {
    /// The record meets the rules of its kind.
    pub open spec fn valid(self) -> bool {
        match self {
            RecordView::Stream(s) => s.valid(),
            RecordView::Event(e) => e.valid(),
        }
    }
}

/// The first rule that an event with these fields breaks, if it breaks one:
/// the name is looked at first, then the payload, then the version.
pub open spec fn event_fault(name: Seq<char>, data: Seq<u8>, version: u16) -> Option<EventError> {
    if name.len() == 0 {
        Some(EventError::InvalidName)
    } else if data.len() == 0 {
        Some(EventError::InvalidData)
    } else if version == 0 {
        Some(EventError::InvalidVersion)
    } else {
        None
    }
}

/// The rule that a stream with this name breaks, if it breaks one.
pub open spec fn stream_fault(name: Seq<char>) -> Option<EventError> {
    if name.len() == 0 {
        Some(EventError::InvalidName)
    } else {
        None
    }
}

/// Checks the name of a stream to create.
pub fn validate_stream(name: &str) -> (r: Result<(), EventError>)
    ensures
        r == match stream_fault(name@) {
            Some(e) => Err::<(), EventError>(e),
            None => Ok(()),
        },
{
    if name.is_empty() {
        return Err(EventError::InvalidName);
    }
    Ok(())
}

/// Checks the fields of an event to create, in the order name, payload,
/// version: the first rule that is broken decides the error.
pub fn validate_event(name: &str, data: &[u8], version: u16) -> (r: Result<(), EventError>)
    ensures
        r == match event_fault(name@, data@, version) {
            Some(e) => Err::<(), EventError>(e),
            None => Ok(()),
        },
{
    if name.is_empty() {
        return Err(EventError::InvalidName);
    }
    if data.len() == 0 {
        return Err(EventError::InvalidData);
    }
    if version == 0 {
        return Err(EventError::InvalidVersion);
    }
    Ok(())
}

impl View for Stream {
    type V = StreamView;

    closed spec fn view(&self) -> StreamView {
        StreamView {
            name: self.name@,
            owner: self.owner@,
            created_at: self.created_at,
            bump: self.bump,
        }
    }
}

impl Stream {
    #[verifier::type_invariant]
    spec fn well_formed(self) -> bool {
        self.name@.len() > 0
    }

    /// Makes the record of a stream whose name was checked.
    pub(crate) fn make(name: String, owner: Address, clock: &Clock, bump: u8) -> (stream: Stream)
        requires
            stream_fault(name@) is None,
        ensures
            stream@ == (StreamView {
                name: name@,
                owner: owner@,
                created_at: clock.unix_timestamp,
                bump,
            }),
    {
        Stream { name, owner, created_at: clock.unix_timestamp, bump }
    }

    /// Makes the record of a stream that `owner` creates under `name` at the
    /// time that `clock` shows, with the bump that its address was found with.
    /// An empty name is refused.
    pub fn new(name: String, owner: Address, clock: &Clock, bump: u8) -> (r: Result<Stream, EventError>)
        ensures
            match stream_fault(name@) {
                Some(e) => r == Err::<Stream, EventError>(e),
                None => r is Ok && r.unwrap()@ == (StreamView {
                    name: name@,
                    owner: owner@,
                    created_at: clock.unix_timestamp,
                    bump,
                }),
            },
    {
        match validate_stream(name.as_str()) {
            Err(e) => Err(e),
            Ok(()) => Ok(Stream::make(name, owner, clock, bump)),
        }
    }

    /// The unique name of the stream.
    pub fn name(&self) -> (name: &String)
        ensures
            name@ == self@.name,
            self@.valid(),
    {
        proof {
            use_type_invariant(self);
        }
        &self.name
    }

    /// The actor who created the stream, and the only one who may append to it.
    pub fn owner(&self) -> (owner: Address)
        ensures
            owner@ == self@.owner,
    {
        self.owner
    }

    /// The time at which the stream was created.
    pub fn created_at(&self) -> (at: i64)
        ensures
            at == self@.created_at,
    {
        self.created_at
    }

    /// The bump with which the name of the stream derives its address.
    pub fn bump(&self) -> (bump: u8)
        ensures
            bump == self@.bump,
    {
        self.bump
    }
}

impl Clone for Stream {
    fn clone(&self) -> (r: Stream)
        ensures
            r@ == self@,
    {
        proof {
            use_type_invariant(self);
        }
        Stream {
            name: self.name.clone(),
            owner: self.owner,
            created_at: self.created_at,
            bump: self.bump,
        }
    }
}

impl View for Event {
    type V = EventView;

    closed spec fn view(&self) -> EventView {
        EventView {
            epoch: self.epoch,
            stream_name: self.stream_name@,
            name: self.name@,
            version: self.version,
            created_at: self.created_at,
            bump: self.bump,
            data: self.data@,
        }
    }
}

impl Event {
    #[verifier::type_invariant]
    spec fn well_formed(self) -> bool {
        self@.valid()
    }

    /// Makes the record of an event whose fields were checked.
    pub(crate) fn make(stream: &Stream, name: String, data: Vec<u8>, version: u16, clock: &Clock, bump: u8) -> (event: Event)
        requires
            event_fault(name@, data@, version) is None,
        ensures
            event@ == (EventView {
                epoch: clock.epoch,
                stream_name: stream@.name,
                name: name@,
                version,
                created_at: clock.unix_timestamp,
                bump,
                data: data@,
            }),
    {
        Event {
            epoch: clock.epoch,
            stream_name: stream.name().clone(),
            name,
            version,
            created_at: clock.unix_timestamp,
            bump,
            data,
        }
    }

    /// Makes the record of an event under `stream`, at the time and in the
    /// epoch that `clock` shows, with the bump that its address was found
    /// with. The name of the stream is copied into the event. An empty name,
    /// an empty payload and a version of zero are refused, in this order.
    pub fn new(stream: &Stream, name: String, data: Vec<u8>, version: u16, clock: &Clock, bump: u8) -> (r: Result<Event, EventError>)
        ensures
            match event_fault(name@, data@, version) {
                Some(e) => r == Err::<Event, EventError>(e),
                None => r is Ok && r.unwrap()@ == (EventView {
                    epoch: clock.epoch,
                    stream_name: stream@.name,
                    name: name@,
                    version,
                    created_at: clock.unix_timestamp,
                    bump,
                    data: data@,
                }),
            },
    {
        match validate_event(name.as_str(), data.as_slice(), version) {
            Err(e) => Err(e),
            Ok(()) => Ok(Event::make(stream, name, data, version, clock, bump)),
        }
    }

    /// The epoch in which the event was created.
    pub fn epoch(&self) -> (epoch: u64)
        ensures
            epoch == self@.epoch,
    {
        self.epoch
    }

    /// The name of the stream that the event belongs to.
    pub fn stream_name(&self) -> (name: &String)
        ensures
            name@ == self@.stream_name,
    {
        &self.stream_name
    }

    /// The name of the event.
    pub fn name(&self) -> (name: &String)
        ensures
            name@ == self@.name,
            self@.valid(),
    {
        proof {
            use_type_invariant(self);
        }
        &self.name
    }

    /// The version of the event's payload: a tag that is never zero.
    pub fn version(&self) -> (version: u16)
        ensures
            version == self@.version,
            version != 0,
    {
        proof {
            use_type_invariant(self);
        }
        self.version
    }

    /// The time at which the event was created.
    pub fn created_at(&self) -> (at: i64)
        ensures
            at == self@.created_at,
    {
        self.created_at
    }

    /// The bump with which the event's address was found.
    pub fn bump(&self) -> (bump: u8)
        ensures
            bump == self@.bump,
    {
        self.bump
    }

    /// The payload of the event.
    pub fn data(&self) -> (data: &Vec<u8>)
        ensures
            data@ == self@.data,
            data@.len() > 0,
    {
        proof {
            use_type_invariant(self);
        }
        &self.data
    }
}

impl Clone for Event {
    fn clone(&self) -> (r: Event)
        ensures
            r@ == self@,
    {
        proof {
            use_type_invariant(self);
        }
        let data = self.data.clone();
        assert(data@ =~= self.data@);
        Event {
            epoch: self.epoch,
            stream_name: self.stream_name.clone(),
            name: self.name.clone(),
            version: self.version,
            created_at: self.created_at,
            bump: self.bump,
            data,
        }
    }
}

impl View for Record {
    type V = RecordView;

    open spec fn view(&self) -> RecordView {
        match self {
            Record::Stream(s) => RecordView::Stream(s@),
            Record::Event(e) => RecordView::Event(e@),
        }
    }
}

impl Clone for Record {
    fn clone(&self) -> (r: Record)
        ensures
            r@ == self@,
    {
        match self {
            Record::Stream(s) => Record::Stream(s.clone()),
            Record::Event(e) => Record::Event(e.clone()),
        }
    }
}

} // verus!
