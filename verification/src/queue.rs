//! Draining the creation queue in chunks. The caller performs each `Fetch`
//! (one `basic_get` on the queue) and reports what came of it.

use vstd::prelude::*;

use crate::data_access::db::Person;

verus! {

/// Most messages taken from the queue per bulk insert.
pub const BATCH_CHUNK_SIZE: u16 = 1000;

/// Seconds the batch loader waits before its first chunk.
pub const BATCH_START_DELAY_SECONDS: u64 = 5;

/// What the chunk fetch asks for next.
#[derive(Clone, Copy, PartialEq, Eq, Structural, Debug)]
pub enum FetchAction {
    /// Take one more message from the queue.
    Fetch,
    /// The chunk is complete.
    Finish,
}

/// What one take from the queue gave.
pub enum DeliveryEvent {
    /// A message carrying this person (already acknowledged or about to be).
    Delivered(Person),
    /// The queue had no message.
    QueueEmpty,
    /// The broker answered with an error.
    FetchFailed,
}

/// The state of a chunk fetch as a whole.
pub ghost struct ChunkView {
    pub messages: Seq<Person>,
    pub chunk_size: nat,
    pub finished: bool,
}

impl ChunkView {
    /// Whether another message is to be taken.
    pub open spec fn awaiting(self) -> bool {
        !self.finished && self.messages.len() < self.chunk_size
    }

    /// How many more takes the chunk may ask for.
    pub open spec fn takes_left(self) -> nat {
        if self.awaiting() {
            (self.chunk_size - self.messages.len()) as nat
        } else {
            0
        }
    }
}

/// The people taken so far for one bulk insert.
pub struct ChunkFetch {
    messages: Vec<Person>,
    count: u16,
    chunk_size: u16,
    finished: bool,
}

impl View for ChunkFetch {
    type V = ChunkView;

    closed spec fn view(&self) -> ChunkView {
        ChunkView {
            messages: self.messages@,
            chunk_size: self.chunk_size as nat,
            finished: self.finished,
        }
    }
}

impl ChunkFetch {
    /// The count matches the people taken and never exceeds the chunk size.
    pub closed spec fn wf(&self) -> bool {
        &&& self.count as nat == self.messages@.len()
        &&& self.count <= self.chunk_size
    }

    /// An empty chunk of at most `chunk_size` people.
    pub fn new(chunk_size: u16) -> (fetch: ChunkFetch)
        ensures
            fetch.wf(),
            fetch@ == (ChunkView { messages: Seq::empty(), chunk_size: chunk_size as nat, finished: false }),
    {
        ChunkFetch { messages: Vec::new(), count: 0, chunk_size, finished: false }
    }

    /// `Fetch` while the chunk is open and not full, `Finish` otherwise.
    pub fn next_action(&self) -> (action: FetchAction)
        requires
            self.wf(),
        ensures
            action == FetchAction::Fetch <==> self@.awaiting(),
            self@.messages.len() <= self@.chunk_size,
    {
        if !self.finished && self.count < self.chunk_size {
            FetchAction::Fetch
        } else {
            FetchAction::Finish
        }
    }

    /// Records what the last take gave: a delivered person joins the chunk,
    /// an empty queue or a broker error closes it. Returns what to do next.
    pub fn step(&mut self, event: DeliveryEvent) -> (action: FetchAction)
        requires
            old(self).wf(),
        ensures
            final(self).wf(),
            final(self)@.chunk_size == old(self)@.chunk_size,
            old(self)@.awaiting() ==> match event {
                DeliveryEvent::Delivered(person) => {
                    &&& final(self)@.messages == old(self)@.messages.push(person)
                    &&& final(self)@.finished == old(self)@.finished
                },
                _ => final(self)@.messages == old(self)@.messages && final(self)@.finished,
            },
            !old(self)@.awaiting() ==> final(self)@.messages == old(self)@.messages
                && final(self)@.finished,
            action == FetchAction::Fetch <==> final(self)@.awaiting(),
            final(self)@.messages.len() <= final(self)@.chunk_size,
            old(self)@.awaiting() ==> final(self)@.takes_left() < old(self)@.takes_left(),
    {
        if !self.finished && self.count < self.chunk_size {
            match event {
                DeliveryEvent::Delivered(person) => {
                    self.messages.push(person);
                    self.count = self.count + 1;
                },
                _ => {
                    self.finished = true;
                },
            }
        } else {
            self.finished = true;
        }
        if !self.finished && self.count < self.chunk_size {
            FetchAction::Fetch
        } else {
            FetchAction::Finish
        }
    }

    /// The people of the chunk, in the order they were delivered.
    pub fn into_messages(self) -> (people: Vec<Person>)
        requires
            self.wf(),
        ensures
            people@ == self@.messages,
            people@.len() <= self@.chunk_size,
    {
        self.messages
    }
}

} // verus!
