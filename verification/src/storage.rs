//! The stream record store: typed load and save of stream records keyed by
//! a numeric id, together with the monotonic id counter.
//!
//! Ids are assigned densely from zero, so the records live in a vector
//! indexed by id and the counter is its length: the next id to be assigned.
//! Appending a record under the next id is what advances the counter, once
//! per successful creation; the counter never decreases and an id is never
//! reused, because records are never removed.

use vstd::pervasive::VecAdditionalExecFns;
use vstd::prelude::*;

use crate::types::StreamType;

verus! {

/// The id-keyed table of stream records.
pub struct StreamStore {
    streams: Vec<StreamType>,
}

impl View for StreamStore {
    type V = Seq<StreamType>;

    closed spec fn view(&self) -> Seq<StreamType> {
        self.streams@
    }
}

impl StreamStore {
    /// An empty store: no records, next id zero.
    pub fn new() -> (store: StreamStore)
        ensures
            store@ == Seq::<StreamType>::empty(),
    {
        StreamStore { streams: Vec::new() }
    }

    /// The current value of the id counter: the id the next creation will
    /// receive.  Reads without mutating.
    pub fn next_id(&self) -> (id: u64)
        ensures
            id == self@.len(),
    {
        self.streams.len() as u64
    }

    /// Loads the record stored under `id`, or nothing if the id has not
    /// been assigned yet.
    pub fn get(&self, id: u64) -> (r: Option<StreamType>)
        ensures
            id < self@.len() ==> r == Some(self@[id as int]),
            id >= self@.len() ==> r is None,
    {
        if id < self.streams.len() as u64 {
            Some(self.streams[id as usize])
        } else {
            None
        }
    }

    /// Stores `stream` under `id`: a full overwrite of an existing record,
    /// or an append under the next free id, which advances the counter.
    pub fn put(&mut self, id: u64, stream: StreamType)
        requires
            id <= old(self)@.len(),
        ensures
            id < old(self)@.len() ==> final(self)@ == old(self)@.update(id as int, stream),
            id == old(self)@.len() ==> final(self)@ == old(self)@.push(stream),
    {
        if id < self.streams.len() as u64 {
            self.streams.set(id as usize, stream);
        } else {
            self.streams.push(stream);
        }
    }
}

} // verus!
