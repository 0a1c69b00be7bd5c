//! Per-container sample handling.
//!
//! One emitter serves one container: it consumes that container's raw
//! counter samples, derives a metric record from each, and forwards every
//! derived record to the publisher's queue without ever waiting on it. A
//! sample that admits no record is dropped and the stream goes on.
//!
//! The task loop that owns the engine's counter stream — and races it
//! against the cancellation signal — feeds samples in from outside.

use vstd::prelude::*;

use crate::publish::PublisherHandle;
use crate::sample::RawSample;
use crate::stats::{spec_derivable, Stats};

verus! {

/// Derives and forwards metric records for one container.
pub struct Emitter {
    container_id: String,
    publisher_handle: PublisherHandle,
}

impl Emitter {
    /// The id of the container this emitter serves.
    pub closed spec fn spec_container_id(&self) -> Seq<char> {
        self.container_id@
    }

    pub fn new(container_id: String, publisher_handle: PublisherHandle) -> (r: Emitter)
        ensures
            r.spec_container_id() == container_id@,
    {
        Emitter { container_id, publisher_handle }
    }

    /// The id of the container this emitter serves.
    pub fn container_id(&self) -> (r: &str)
        ensures
            r@ == self.spec_container_id(),
    {
        self.container_id.as_str()
    }

    /// Handles one raw sample: derives its metric record and enqueues it.
    /// Says whether a record was emitted, which is the case exactly when
    /// the sample admits one; a sample that does not is dropped without
    /// ending the stream.
    pub fn handle_sample(&self, sample: &RawSample) -> (emitted: bool)
        ensures
            emitted == spec_derivable(*sample),
    {
        match Stats::try_from_sample(sample) {
            Ok(record) => {
                self.publisher_handle.send(record);
                true
            },
            Err(_) => false,
        }
    }
}

} // verus!
