//! Batching and delivery dispatch for metric records.
//!
//! The publisher decouples record production from network delivery: records
//! arrive on a multi-producer queue, accumulate in a batch, and a flush is
//! triggered by the batch filling, by the flush interval elapsing, or by
//! the queue closing. Delivery is best-effort: the batch is handed out at
//! the flush and never kept, so a failed send drops it rather than letting
//! a backlog grow.
//!
//! The decision logic is a verified state machine ([`Publisher::on_event`]);
//! the surrounding task loop, which waits on the queue and the timer, drives
//! it from outside with one [`PubEvent`] per wakeup.

use vstd::prelude::*;

use crate::client::Client;
use crate::stats::Stats;

use tokio::sync::mpsc::{UnboundedReceiver, UnboundedSender};

verus! {

#[verifier::external_type_specification]
#[verifier::external_body]
#[verifier::reject_recursive_types(T)]
pub struct ExUnboundedSender<T>(UnboundedSender<T>);

#[verifier::external_type_specification]
#[verifier::external_body]
#[verifier::reject_recursive_types(T)]
pub struct ExUnboundedReceiver<T>(UnboundedReceiver<T>);

/// Relies on tokio's `mpsc::unbounded_channel`: a fresh connected
/// sender/receiver pair.
#[verifier::external_body]
fn record_channel() -> (r: (UnboundedSender<Stats>, UnboundedReceiver<Stats>)) {
    tokio::sync::mpsc::unbounded_channel()
}

/// Relies on tokio's `UnboundedSender::send`: enqueues the record unless
/// the receiver is gone; the result says only whether it was accepted.
#[verifier::external_body]
fn send_record(sender: &UnboundedSender<Stats>, record: Stats) -> (r: bool) {
    sender.send(record).is_ok()
}

/// Relies on tokio's `UnboundedSender` `Clone` impl: another handle to the
/// same queue.
#[verifier::external_body]
fn clone_sender(sender: &UnboundedSender<Stats>) -> (r: UnboundedSender<Stats>) {
    sender.clone()
}

/// A producer-side handle to the publisher's inbound queue; any number of
/// emitters may hold one and enqueue concurrently.
pub struct PublisherHandle {
    sender: UnboundedSender<Stats>,
}

impl PublisherHandle {
    /// Enqueues one record without ever waiting; a record offered after
    /// the queue has closed is dropped.
    pub fn send(&self, data: Stats) {
        let _accepted = send_record(&self.sender, data);
    }

    /// Another handle to the same queue.
    pub fn duplicate(&self) -> (r: PublisherHandle) {
        PublisherHandle { sender: clone_sender(&self.sender) }
    }
}

/// Batching and flush-interval settings for the publisher. Valid settings
/// have a batch size of at least one record and a positive interval.
#[derive(Clone, Debug)]
pub struct PublisherConfig {
    log_name: String,
    batch_size: usize,
    interval: usize,
}

impl PublisherConfig {
    /// Valid settings: a batch fills at one record or more, and the flush
    /// interval is positive.
    pub closed spec fn wf(&self) -> bool {
        self.batch_size >= 1 && self.interval >= 1
    }

    /// The destination label batches are filed under.
    pub closed spec fn spec_log_name(&self) -> Seq<char> {
        self.log_name@
    }

    /// The number of records that fills a batch.
    pub closed spec fn spec_batch_size(&self) -> usize {
        self.batch_size
    }

    /// The flush interval in seconds.
    pub closed spec fn spec_interval(&self) -> usize {
        self.interval
    }

    pub fn new(log_name: &str, batch_size: usize, interval: usize) -> (r: PublisherConfig)
        requires
            batch_size >= 1,
            interval >= 1,
        ensures
            r.wf(),
            r.spec_log_name() == log_name@,
            r.spec_batch_size() == batch_size,
            r.spec_interval() == interval,
    {
        PublisherConfig { log_name: log_name.to_owned(), batch_size, interval }
    }

    pub fn into_parts(self) -> (r: (String, usize, u64))
        ensures
            r.0@ == self.spec_log_name(),
            r.1 == self.spec_batch_size(),
            r.2 == self.spec_interval() as u64,
    {
        (self.log_name, self.batch_size, self.interval as u64)
    }
}

/// The publisher's abstract state: the records batched so far, and whether
/// the queue has closed and the loop is over.
pub ghost struct PubModel {
    pub batch: Seq<Stats>,
    pub stopped: bool,
}

/// One transition of the publisher: the state after the event, and the
/// records to deliver now, if any.
pub ghost struct PubStep {
    pub post: PubModel,
    pub flushed: Option<Seq<Stats>>,
}

/// One wakeup of the publisher loop: a record arrived, the queue closed
/// (every producer handle is gone), or the flush interval elapsed.
pub enum PubEvent {
    Received(Stats),
    Closed,
    TimerElapsed,
}

/// What the publisher loop must do after an event: keep collecting, deliver
/// a batch, or stop — delivering first if records remain.
pub enum PubAction {
    Continue,
    Flush(Vec<Stats>),
    FlushAndStop(Vec<Stats>),
    Stop,
}

/// The publisher's transition function. A received record joins the batch
/// and forces a flush exactly when it fills the batch; an elapsed timer
/// flushes whatever partial batch exists (nothing is delivered when it is
/// empty); a closed queue flushes any remainder and stops. A flush always
/// leaves the batch empty — delivery is best-effort and never retried, so
/// the outcome of a send does not influence the state.
pub open spec fn spec_on_event(m: PubModel, batch_size: nat, ev: PubEvent) -> PubStep {
    match ev {
        PubEvent::Received(rec) => {
            let grown = m.batch.push(rec);
            if grown.len() >= batch_size {
                PubStep {
                    post: PubModel { batch: Seq::empty(), stopped: false },
                    flushed: Some(grown),
                }
            } else {
                PubStep { post: PubModel { batch: grown, stopped: false }, flushed: None }
            }
        },
        PubEvent::TimerElapsed => {
            if m.batch.len() > 0 {
                PubStep {
                    post: PubModel { batch: Seq::empty(), stopped: false },
                    flushed: Some(m.batch),
                }
            } else {
                PubStep { post: m, flushed: None }
            }
        },
        PubEvent::Closed => {
            if m.batch.len() > 0 {
                PubStep {
                    post: PubModel { batch: Seq::empty(), stopped: true },
                    flushed: Some(m.batch),
                }
            } else {
                PubStep { post: PubModel { batch: Seq::empty(), stopped: true }, flushed: None }
            }
        },
    }
}

/// Batches inbound metric records and prepares their delivery. The async
/// loop that owns the receiver feeds events in; this state machine decides
/// what to deliver and when.
pub struct Publisher {
    client: Client,
    log_name: String,
    batch_size: usize,
    interval: usize,
    batch: Vec<Stats>,
    stopped: bool,
}

impl Publisher {
    /// The settings are valid and the delivery client is well-formed.
    pub closed spec fn wf(&self) -> bool {
        self.batch_size >= 1 && self.interval >= 1 && self.client.wf()
    }

    /// The publisher's abstract state.
    pub closed spec fn model(&self) -> PubModel {
        PubModel { batch: self.batch@, stopped: self.stopped }
    }

    /// The number of records that fills a batch.
    pub closed spec fn spec_batch_size(&self) -> usize {
        self.batch_size
    }

    /// The flush interval in seconds.
    pub closed spec fn spec_interval(&self) -> usize {
        self.interval
    }

    /// The destination label batches are filed under.
    pub closed spec fn spec_log_name(&self) -> Seq<char> {
        self.log_name@
    }

    /// The delivery client.
    pub closed spec fn spec_client(&self) -> Client {
        self.client
    }

    /// The settings and client of two publisher states agree.
    pub open spec fn same_setup(&self, other: &Publisher) -> bool {
        &&& self.spec_batch_size() == other.spec_batch_size()
        &&& self.spec_interval() == other.spec_interval()
        &&& self.spec_log_name() == other.spec_log_name()
        &&& self.spec_client() == other.spec_client()
    }

    /// Builds the publisher with an empty batch, its inbound queue, and a
    /// first producer handle.
    pub fn new(client: Client, config: PublisherConfig) -> (r: (
        Publisher,
        PublisherHandle,
        UnboundedReceiver<Stats>,
    ))
        requires
            client.wf(),
            config.wf(),
        ensures
            r.0.wf(),
            r.0.model() == (PubModel { batch: Seq::<Stats>::empty(), stopped: false }),
            r.0.spec_batch_size() == config.spec_batch_size(),
            r.0.spec_interval() == config.spec_interval(),
            r.0.spec_log_name() == config.spec_log_name(),
            r.0.spec_client() == client,
    {
        let (sender, receiver) = record_channel();
        let publisher = Publisher {
            client,
            log_name: config.log_name,
            batch_size: config.batch_size,
            interval: config.interval,
            batch: Vec::new(),
            stopped: false,
        };
        proof {
            assert(publisher.model().batch =~= Seq::<Stats>::empty());
        }
        (publisher, PublisherHandle { sender }, receiver)
    }

    /// The flush interval in seconds, for the loop's timer.
    pub fn interval_secs(&self) -> (r: u64)
        ensures
            r == self.spec_interval() as u64,
    {
        self.interval as u64
    }

    /// The destination label, for the request headers.
    pub fn log_name(&self) -> (r: &str)
        ensures
            r@ == self.spec_log_name(),
    {
        self.log_name.as_str()
    }

    /// The delivery client, for addressing and signing a flush.
    pub fn client(&self) -> (r: &Client)
        ensures
            *r == self.spec_client(),
    {
        &self.client
    }

    /// Feeds one event to the state machine and says what the loop must do
    /// next; the transition is exactly [`spec_on_event`].
    pub fn on_event(&mut self, ev: PubEvent) -> (act: PubAction)
        requires
            old(self).wf(),
            !old(self).model().stopped,
        ensures
            final(self).wf(),
            final(self).same_setup(old(self)),
            final(self).model() == spec_on_event(
                old(self).model(),
                old(self).spec_batch_size() as nat,
                ev,
            ).post,
            ({
                let step = spec_on_event(old(self).model(), old(self).spec_batch_size() as nat, ev);
                match act {
                    PubAction::Continue => step.flushed is None && !step.post.stopped,
                    PubAction::Flush(v) => step.flushed == Some(v@) && !step.post.stopped,
                    PubAction::FlushAndStop(v) => step.flushed == Some(v@) && step.post.stopped,
                    PubAction::Stop => step.flushed is None && step.post.stopped,
                }
            }),
    {
        match ev {
            PubEvent::Received(rec) => {
                self.batch.push(rec);
                if self.batch.len() >= self.batch_size {
                    let full = self.take_batch();
                    PubAction::Flush(full)
                } else {
                    PubAction::Continue
                }
            },
            PubEvent::TimerElapsed => {
                if self.batch.len() > 0 {
                    let partial = self.take_batch();
                    PubAction::Flush(partial)
                } else {
                    PubAction::Continue
                }
            },
            PubEvent::Closed => {
                self.stopped = true;
                if self.batch.len() > 0 {
                    let rest = self.take_batch();
                    PubAction::FlushAndStop(rest)
                } else {
                    proof {
                        assert(self.batch@ =~= Seq::<Stats>::empty());
                    }
                    PubAction::Stop
                }
            },
        }
    }

    /// Hands the current batch out and leaves an empty one behind.
    fn take_batch(&mut self) -> (r: Vec<Stats>)
        ensures
            r@ == old(self).batch@,
            final(self).batch@ == Seq::<Stats>::empty(),
            final(self).same_setup(old(self)),
            final(self).stopped == old(self).stopped,
    {
        let mut taken: Vec<Stats> = Vec::new();
        core::mem::swap(&mut taken, &mut self.batch);
        proof {
            assert(final(self).batch@ =~= Seq::<Stats>::empty());
        }
        taken
    }
}

/// Runs a sequence of record arrivals through the transition function,
/// following only the state (the flush outputs are examined separately).
pub open spec fn spec_after_received(m: PubModel, batch_size: nat, recs: Seq<Stats>) -> PubModel
    decreases recs.len(),
{
    if recs.len() == 0 {
        m
    } else {
        spec_on_event(
            spec_after_received(m, batch_size, recs.drop_last()),
            batch_size,
            PubEvent::Received(recs.last()),
        ).post
    }
}

/// Size trigger, filling side: starting from an empty batch, the arrivals
/// before the batch-filling one flush nothing — the batch only grows.
pub proof fn lemma_growing_batch_flushes_nothing(
    m: PubModel,
    batch_size: nat,
    recs: Seq<Stats>,
    i: int,
)
    requires
        m.batch.len() == 0,
        !m.stopped,
        recs.len() <= batch_size,
        0 <= i < recs.len(),
    ensures
        spec_after_received(m, batch_size, recs.take(i)).batch == recs.take(i),
        !spec_after_received(m, batch_size, recs.take(i)).stopped,
        i < batch_size - 1 ==> spec_on_event(
            spec_after_received(m, batch_size, recs.take(i)),
            batch_size,
            PubEvent::Received(recs[i]),
        ).flushed is None,
    decreases i,
{
    if i == 0 {
        assert(recs.take(0) =~= Seq::<Stats>::empty());
    } else {
        lemma_growing_batch_flushes_nothing(m, batch_size, recs, i - 1);
        assert(recs.take(i).drop_last() =~= recs.take(i - 1));
        assert(recs.take(i).last() == recs[i - 1]);
        assert(recs.take(i) =~= recs.take(i - 1).push(recs[i - 1]));
    }
}

/// Size trigger: with batch size `N`, enqueuing exactly `N` records into an
/// empty batch flushes exactly those records, in order, at the `N`-th
/// arrival — without waiting for any timer — and no earlier arrival flushes
/// anything.
pub proof fn lemma_full_batch_triggers_flush(m: PubModel, batch_size: nat, recs: Seq<Stats>)
    requires
        m.batch.len() == 0,
        !m.stopped,
        batch_size >= 1,
        recs.len() == batch_size,
    ensures
        forall|i: int|
            0 <= i < batch_size - 1 ==> spec_on_event(
                spec_after_received(m, batch_size, recs.take(i)),
                batch_size,
                PubEvent::Received(recs[i]),
            ).flushed is None,
        spec_on_event(
            spec_after_received(m, batch_size, recs.take(batch_size - 1)),
            batch_size,
            PubEvent::Received(recs[batch_size - 1]),
        ).flushed == Some(recs),
        spec_after_received(m, batch_size, recs).batch.len() == 0,
{
    assert forall|i: int| 0 <= i < batch_size - 1 implies spec_on_event(
        spec_after_received(m, batch_size, recs.take(i)),
        batch_size,
        PubEvent::Received(recs[i]),
    ).flushed is None by {
        lemma_growing_batch_flushes_nothing(m, batch_size, recs, i);
    }
    lemma_growing_batch_flushes_nothing(m, batch_size, recs, batch_size as int - 1);
    assert(recs.take(batch_size as int - 1).push(recs[batch_size as int - 1]) =~= recs);
    assert(recs.take(recs.len() as int) =~= recs);
    assert(recs.drop_last() =~= recs.take(batch_size as int - 1));
}

/// Interval trigger: fewer records than the batch size flush nothing on
/// their own, and the flush interval elapsing then delivers exactly that
/// partial batch, in order; an empty batch delivers nothing.
pub proof fn lemma_timer_flushes_partial_batch(m: PubModel, batch_size: nat, recs: Seq<Stats>)
    requires
        m.batch.len() == 0,
        !m.stopped,
        batch_size >= 1,
        recs.len() < batch_size,
    ensures
        ({
            let collected = spec_after_received(m, batch_size, recs);
            let step = spec_on_event(collected, batch_size, PubEvent::TimerElapsed);
            &&& collected.batch == recs
            &&& (recs.len() > 0 ==> step.flushed == Some(recs))
            &&& (recs.len() == 0 ==> step.flushed is None)
            &&& step.post.batch.len() == 0
        }),
{
    if recs.len() > 0 {
        lemma_growing_batch_flushes_nothing(m, batch_size, recs, recs.len() as int - 1);
        assert(recs.take(recs.len() - 1).push(recs.last()) =~= recs);
        assert(recs.drop_last() =~= recs.take(recs.len() - 1));
    } else {
        assert(spec_after_received(m, batch_size, recs) == m);
    }
}

/// The state after running a whole event sequence through the transition
/// function.
pub open spec fn spec_run(m: PubModel, batch_size: nat, evs: Seq<PubEvent>) -> PubModel
    decreases evs.len(),
{
    if evs.len() == 0 {
        m
    } else {
        spec_on_event(spec_run(m, batch_size, evs.drop_last()), batch_size, evs.last()).post
    }
}

/// The records the events carried, in arrival order.
pub open spec fn spec_received_of(evs: Seq<PubEvent>) -> Seq<Stats>
    decreases evs.len(),
{
    if evs.len() == 0 {
        Seq::empty()
    } else {
        let rest = spec_received_of(evs.drop_last());
        match evs.last() {
            PubEvent::Received(rec) => rest.push(rec),
            _ => rest,
        }
    }
}

/// Everything the flushes of an event sequence delivered, concatenated in
/// flush order.
pub open spec fn spec_flushed_during(m: PubModel, batch_size: nat, evs: Seq<PubEvent>) -> Seq<
    Stats,
>
    decreases evs.len(),
{
    if evs.len() == 0 {
        Seq::empty()
    } else {
        let prior = spec_flushed_during(m, batch_size, evs.drop_last());
        match spec_on_event(spec_run(m, batch_size, evs.drop_last()), batch_size, evs.last()).flushed {
            Some(v) => prior + v,
            None => prior,
        }
    }
}

/// Order and conservation: over any run of events, what the flushes
/// delivered followed by what still sits in the batch is exactly the
/// starting batch followed by the records received, in arrival order. The
/// publisher neither reorders records — within a batch or across flush
/// boundaries — nor drops or duplicates one on its own.
pub proof fn lemma_flushes_keep_arrival_order(m: PubModel, batch_size: nat, evs: Seq<PubEvent>)
    ensures
        spec_flushed_during(m, batch_size, evs) + spec_run(m, batch_size, evs).batch == m.batch
            + spec_received_of(evs),
    decreases evs.len(),
{
    if evs.len() == 0 {
        assert(spec_flushed_during(m, batch_size, evs) + spec_run(m, batch_size, evs).batch =~= m.batch
            + spec_received_of(evs));
    } else {
        let prior_evs = evs.drop_last();
        lemma_flushes_keep_arrival_order(m, batch_size, prior_evs);
        let s = spec_run(m, batch_size, prior_evs);
        let f = spec_flushed_during(m, batch_size, prior_evs);
        let step = spec_on_event(s, batch_size, evs.last());
        match step.flushed {
            Some(v) => {
                assert((f + v) + step.post.batch =~= f + (v + step.post.batch));
                assert(v + step.post.batch =~= v);
                match evs.last() {
                    PubEvent::Received(rec) => {
                        assert(v =~= s.batch.push(rec));
                        assert(f + s.batch.push(rec) =~= (f + s.batch).push(rec));
                        assert((m.batch + spec_received_of(prior_evs)).push(rec) =~= m.batch
                            + spec_received_of(evs));
                    },
                    _ => {
                        assert(v =~= s.batch);
                    },
                }
            },
            None => {
                match evs.last() {
                    PubEvent::Received(rec) => {
                        assert(f + s.batch.push(rec) =~= (f + s.batch).push(rec));
                        assert((m.batch + spec_received_of(prior_evs)).push(rec) =~= m.batch
                            + spec_received_of(evs));
                    },
                    _ => {
                        assert(step.post.batch =~= s.batch);
                    },
                }
            },
        }
    }
}

/// Send-failure resilience: every flush leaves the batch empty. The
/// transition takes no notice of how delivery went, so a failed send can
/// neither crash the loop nor leave the failed records behind — the next
/// flush starts from an empty batch either way. And no flush delivers an
/// empty batch: when there is nothing to send, the send is skipped.
pub proof fn lemma_flush_clears_batch(m: PubModel, batch_size: nat, ev: PubEvent)
    ensures
        spec_on_event(m, batch_size, ev).flushed is Some ==> spec_on_event(
            m,
            batch_size,
            ev,
        ).post.batch.len() == 0,
        spec_on_event(m, batch_size, ev).flushed matches Some(v) ==> v.len() > 0,
{
}

/// Memory bound: the batch never outgrows the configured batch size — a
/// record that fills it is delivered at once, so between flushes at most
/// one unfilled batch accumulates.
pub proof fn lemma_batch_stays_bounded(m: PubModel, batch_size: nat, ev: PubEvent)
    requires
        m.batch.len() < batch_size,
    ensures
        spec_on_event(m, batch_size, ev).post.batch.len() < batch_size,
{
}

} // verus!
