//! Container discovery and emitter lifecycle.
//!
//! The collector owns the map from live container ids to their emitter
//! handles and keeps it synchronized with what the engine reports: each
//! poll starts an emitter for every new container and stops the emitter of
//! every vanished one, and shutdown stops them all before anything returns.
//!
//! The map bookkeeping is verified here; the poll loop around it — listing
//! containers, spawning emitter tasks and awaiting stopped ones — drives
//! these methods from outside, one container list per tick.

use vstd::prelude::*;

use crate::publish::PublisherHandle;

use tokio::sync::oneshot::Sender;
use tokio::task::JoinHandle;

verus! {

#[verifier::external_type_specification]
#[verifier::external_body]
#[verifier::reject_recursive_types(T)]
pub struct ExOneshotSender<T>(Sender<T>);

#[verifier::external_type_specification]
#[verifier::external_body]
#[verifier::reject_recursive_types(T)]
pub struct ExJoinHandle<T>(JoinHandle<T>);

#[verifier::external_type_specification]
#[verifier::external_body]
pub struct ExJoinError(tokio::task::JoinError);

/// Relies on tokio's `oneshot::Sender::send`: delivers the cancellation
/// signal unless the receiving task is already gone; the result says only
/// whether it was taken.
#[verifier::external_body]
fn send_shutdown(sender: Sender<()>) -> (r: bool) {
    sender.send(()).is_ok()
}

/// One running emitter as the collector owns it: the sender that cancels
/// it, paired with the handle that joins it.
pub struct EmitterHandle {
    cancel: Sender<()>,
    task: JoinHandle<()>,
}

impl EmitterHandle {
    /// Pairs a freshly spawned emitter task with its cancellation sender.
    pub fn new(cancel: Sender<()>, task: JoinHandle<()>) -> EmitterHandle {
        EmitterHandle { cancel, task }
    }

    /// Signals the emitter to stop and surrenders the handle to join it.
    pub fn stop(self) -> JoinHandle<()> {
        let EmitterHandle { cancel, task } = self;
        let _received = send_shutdown(cancel);
        task
    }
}

/// The ids of a sequence of strings, as character sequences.
pub open spec fn spec_ids_of(v: Seq<String>) -> Seq<Seq<char>> {
    v.map_values(|s: String| s@)
}

/// No id occurs twice.
pub open spec fn spec_unique(ids: Seq<Seq<char>>) -> bool {
    forall|i: int, j: int| 0 <= i < j < ids.len() ==> ids[i] != ids[j]
}

/// The ids of `ids` that are still live: membership in `live` kept, order
/// kept.
pub open spec fn spec_retained(ids: Seq<Seq<char>>, live: Seq<Seq<char>>) -> Seq<Seq<char>>
    decreases ids.len(),
{
    if ids.len() == 0 {
        Seq::empty()
    } else {
        let rest = spec_retained(ids.drop_last(), live);
        if live.contains(ids.last()) {
            rest.push(ids.last())
        } else {
            rest
        }
    }
}

/// The ids of `ids` that are no longer live, order kept.
pub open spec fn spec_removed(ids: Seq<Seq<char>>, live: Seq<Seq<char>>) -> Seq<Seq<char>>
    decreases ids.len(),
{
    if ids.len() == 0 {
        Seq::empty()
    } else {
        let rest = spec_removed(ids.drop_last(), live);
        if live.contains(ids.last()) {
            rest
        } else {
            rest.push(ids.last())
        }
    }
}

/// The active ids after the start phase of one tick: every live id not yet
/// present is appended, in the order the engine listed them.
pub open spec fn spec_after_starts(ids: Seq<Seq<char>>, live: Seq<Seq<char>>) -> Seq<Seq<char>>
    decreases live.len(),
{
    if live.len() == 0 {
        ids
    } else {
        let grown = if ids.contains(live.first()) {
            ids
        } else {
            ids.push(live.first())
        };
        spec_after_starts(grown, live.drop_first())
    }
}

/// Tracks the live containers and owns one emitter handle per live
/// container; ids never repeat.
pub struct Collector {
    publisher_handle: PublisherHandle,
    containers: Vec<(String, EmitterHandle)>,
}

impl Collector {
    /// The active container ids, in insertion order.
    pub closed spec fn ids(&self) -> Seq<Seq<char>> {
        self.containers@.map_values(|p: (String, EmitterHandle)| p.0@)
    }

    /// Each active container id occurs once.
    pub closed spec fn wf(&self) -> bool {
        spec_unique(self.ids())
    }

    /// A collector with no active emitters, holding the handle that every
    /// spawned emitter will feed.
    pub fn new(handle: PublisherHandle) -> (r: Collector)
        ensures
            r.wf(),
            r.ids() == Seq::<Seq<char>>::empty(),
    {
        let r = Collector { publisher_handle: handle, containers: Vec::new() };
        proof {
            assert(r.ids() =~= Seq::<Seq<char>>::empty());
        }
        r
    }

    /// A producer handle for the next emitter to be spawned.
    pub fn emitter_handle(&self) -> PublisherHandle {
        self.publisher_handle.duplicate()
    }

    /// Whether an emitter is already active for this container.
    pub fn contains_id(&self, id: &String) -> (r: bool)
        ensures
            r == self.ids().contains(id@),
    {
        let n = self.containers.len();
        let mut i: usize = 0;
        while i < n
            invariant
                n == self.containers@.len(),
                i <= n,
                forall|k: int| 0 <= k < i ==> self.ids()[k] != id@,
            decreases n - i,
        {
            if self.containers[i].0.eq(id) {
                assert(self.ids()[i as int] == id@);
                return true;
            }
            i = i + 1;
        }
        false
    }

    /// Records a freshly started emitter for a container that had none.
    pub fn note_started(&mut self, id: String, handle: EmitterHandle)
        requires
            old(self).wf(),
            !old(self).ids().contains(id@),
        ensures
            final(self).wf(),
            final(self).ids() == old(self).ids().push(id@),
    {
        let ghost old_ids = self.ids();
        let ghost idv = id@;
        self.containers.push((id, handle));
        proof {
            assert(self.ids() =~= old_ids.push(idv));
        }
    }

    /// The ids of every active emitter whose container is no longer in the
    /// live list, in activation order.
    pub fn removed_ids(&self, live: &Vec<String>) -> (r: Vec<String>)
        ensures
            spec_ids_of(r@) == spec_removed(self.ids(), spec_ids_of(live@)),
    {
        let mut out: Vec<String> = Vec::new();
        let n = self.containers.len();
        let mut i: usize = 0;
        proof {
            assert(spec_ids_of(out@) =~= spec_removed(self.ids().take(0), spec_ids_of(live@)));
        }
        while i < n
            invariant
                n == self.containers@.len(),
                i <= n,
                spec_ids_of(out@) == spec_removed(self.ids().take(i as int), spec_ids_of(live@)),
            decreases n - i,
        {
            let ghost prev = spec_ids_of(out@);
            proof {
                assert(self.ids().take(i + 1).drop_last() =~= self.ids().take(i as int));
                assert(self.ids().take(i + 1).last() == self.ids()[i as int]);
            }
            if !vec_contains_str(live, &self.containers[i].0) {
                out.push(self.containers[i].0.clone());
                proof {
                    assert(spec_ids_of(out@) =~= prev.push(self.ids()[i as int]));
                }
            }
            i = i + 1;
        }
        proof {
            assert(self.ids().take(n as int) =~= self.ids());
        }
        out
    }

    /// Stops the emitter of one container: signals its cancellation, drops
    /// it from the active map, and surrenders the handle to join the task.
    /// Yields nothing exactly when no emitter was active for the id.
    pub fn stop_one(&mut self, id: &String) -> (r: Option<JoinHandle<()>>)
        requires
            old(self).wf(),
        ensures
            final(self).wf(),
            r is Some <==> old(self).ids().contains(id@),
            r is Some ==> exists|k: int|
                0 <= k < old(self).ids().len() && old(self).ids()[k] == id@ && final(self).ids()
                    == old(self).ids().remove(k),
            r is None ==> final(self).ids() == old(self).ids(),
    {
        let n = self.containers.len();
        let mut i: usize = 0;
        while i < n
            invariant
                self.containers@ == old(self).containers@,
                spec_unique(self.ids()),
                n == self.containers@.len(),
                i <= n,
                forall|k: int| 0 <= k < i ==> self.ids()[k] != id@,
            decreases n - i,
        {
            if self.containers[i].0.eq(id) {
                let ghost old_ids = self.ids();
                proof {
                    assert(old_ids[i as int] == id@);
                    assert(old_ids.contains(id@));
                }
                let (_key, handle) = self.containers.remove(i);
                proof {
                    assert(self.ids() =~= old_ids.remove(i as int));
                    lemma_remove_keeps_unique(old_ids, i as int);
                }
                return Some(handle.stop());
            }
            i = i + 1;
        }
        proof {
            assert(!old(self).ids().contains(id@)) by {
                if old(self).ids().contains(id@) {
                    let k = choose|k: int|
                        0 <= k < old(self).ids().len() && old(self).ids()[k] == id@;
                    assert(self.ids()[k] != id@);
                }
            }
        }
        None
    }

    /// Stops every active emitter: each gets its cancellation signal, the
    /// map is left empty, and one join handle per former emitter is
    /// surrendered so the caller can wait for all of them.
    pub fn shutdown_all(&mut self) -> (r: Vec<JoinHandle<()>>)
        requires
            old(self).wf(),
        ensures
            final(self).wf(),
            final(self).ids().len() == 0,
            r@.len() == old(self).ids().len(),
    {
        let mut out: Vec<JoinHandle<()>> = Vec::new();
        loop
            invariant
                out@.len() + self.containers@.len() == old(self).containers@.len(),
                spec_unique(self.ids()),
            decreases self.containers@.len(),
        {
            let ghost old_ids = self.ids();
            match self.containers.pop() {
                Some((_id, handle)) => {
                    proof {
                        assert(self.ids() =~= old_ids.drop_last());
                    }
                    out.push(handle.stop());
                },
                None => {
                    return out;
                },
            }
        }
    }
}

/// Whether a list of container ids holds this id.
fn vec_contains_str(v: &Vec<String>, s: &String) -> (r: bool)
    ensures
        r == spec_ids_of(v@).contains(s@),
{
    let n = v.len();
    let mut i: usize = 0;
    while i < n
        invariant
            n == v@.len(),
            i <= n,
            forall|k: int| 0 <= k < i ==> spec_ids_of(v@)[k] != s@,
        decreases n - i,
    {
        if v[i].eq(s) {
            assert(spec_ids_of(v@)[i as int] == s@);
            return true;
        }
        i = i + 1;
    }
    false
}

/// Removing one element of a duplicate-free sequence keeps it
/// duplicate-free.
proof fn lemma_remove_keeps_unique(ids: Seq<Seq<char>>, at: int)
    requires
        spec_unique(ids),
        0 <= at < ids.len(),
    ensures
        spec_unique(ids.remove(at)),
{
    let shorter = ids.remove(at);
    assert forall|i: int, j: int| 0 <= i < j < shorter.len() implies shorter[i] != shorter[j] by {
        let oi = if i < at {
            i
        } else {
            i + 1
        };
        let oj = if j < at {
            j
        } else {
            j + 1
        };
        assert(shorter[i] == ids[oi]);
        assert(shorter[j] == ids[oj]);
    }
}

/// Membership across dropping the last element.
proof fn lemma_contains_drop_last(s: Seq<Seq<char>>, x: Seq<char>)
    requires
        s.len() > 0,
    ensures
        s.contains(x) <==> (s.drop_last().contains(x) || s.last() == x),
{
    if s.contains(x) {
        let i = choose|i: int| 0 <= i < s.len() && s[i] == x;
        if i < s.len() - 1 {
            assert(s.drop_last()[i] == x);
        }
    }
    if s.drop_last().contains(x) {
        let i = choose|i: int| 0 <= i < s.drop_last().len() && s.drop_last()[i] == x;
        assert(s[i] == x);
    }
    if s.last() == x {
        assert(s[s.len() - 1] == x);
    }
}

/// Membership across dropping the first element.
proof fn lemma_contains_drop_first(s: Seq<Seq<char>>, x: Seq<char>)
    requires
        s.len() > 0,
    ensures
        s.contains(x) <==> (s.drop_first().contains(x) || s.first() == x),
{
    if s.contains(x) {
        let i = choose|i: int| 0 <= i < s.len() && s[i] == x;
        if i > 0 {
            assert(s.drop_first()[i - 1] == x);
        }
    }
    if s.drop_first().contains(x) {
        let i = choose|i: int| 0 <= i < s.drop_first().len() && s.drop_first()[i] == x;
        assert(s[i + 1] == x);
    }
    if s.first() == x {
        assert(s[0] == x);
    }
}

/// Membership across a push.
proof fn lemma_contains_push(s: Seq<Seq<char>>, y: Seq<char>, x: Seq<char>)
    ensures
        s.push(y).contains(x) <==> (s.contains(x) || x == y),
{
    if s.push(y).contains(x) {
        let i = choose|i: int| 0 <= i < s.push(y).len() && s.push(y)[i] == x;
        if i < s.len() {
            assert(s[i] == x);
        }
    }
    if s.contains(x) {
        let i = choose|i: int| 0 <= i < s.len() && s[i] == x;
        assert(s.push(y)[i] == x);
    }
    if x == y {
        assert(s.push(y)[s.len() as int] == x);
    }
}

/// What the retention phase keeps: exactly the ids that were active and
/// are still live.
pub proof fn lemma_retained_membership(ids: Seq<Seq<char>>, live: Seq<Seq<char>>, x: Seq<char>)
    ensures
        spec_retained(ids, live).contains(x) <==> (ids.contains(x) && live.contains(x)),
    decreases ids.len(),
{
    if ids.len() == 0 {
    } else {
        lemma_retained_membership(ids.drop_last(), live, x);
        lemma_contains_drop_last(ids, x);
        if live.contains(ids.last()) {
            lemma_contains_push(spec_retained(ids.drop_last(), live), ids.last(), x);
        }
    }
}

/// What [`Collector::removed_ids`] selects: exactly the ids that were
/// active and are no longer live — the complement, within the active ids,
/// of what the retention phase keeps.
pub proof fn lemma_removed_membership(ids: Seq<Seq<char>>, live: Seq<Seq<char>>, x: Seq<char>)
    ensures
        spec_removed(ids, live).contains(x) <==> (ids.contains(x) && !live.contains(x)),
    decreases ids.len(),
{
    if ids.len() > 0 {
        lemma_removed_membership(ids.drop_last(), live, x);
        lemma_contains_drop_last(ids, x);
        if !live.contains(ids.last()) {
            lemma_contains_push(spec_removed(ids.drop_last(), live), ids.last(), x);
        }
    }
}

/// The retention phase keeps ids duplicate-free.
proof fn lemma_retained_unique(ids: Seq<Seq<char>>, live: Seq<Seq<char>>)
    requires
        spec_unique(ids),
    ensures
        spec_unique(spec_retained(ids, live)),
    decreases ids.len(),
{
    if ids.len() > 0 {
        assert(spec_unique(ids.drop_last()));
        lemma_retained_unique(ids.drop_last(), live);
        if live.contains(ids.last()) {
            let rest = spec_retained(ids.drop_last(), live);
            lemma_retained_membership(ids.drop_last(), live, ids.last());
            assert(!ids.drop_last().contains(ids.last())) by {
                if ids.drop_last().contains(ids.last()) {
                    let i = choose|i: int|
                        0 <= i < ids.drop_last().len() && ids.drop_last()[i] == ids.last();
                    assert(ids[i] == ids[ids.len() - 1]);
                }
            }
            assert(!rest.contains(ids.last()));
            let grown = rest.push(ids.last());
            assert forall|i: int, j: int| 0 <= i < j < grown.len() implies grown[i] != grown[j] by {
                if j < grown.len() - 1 {
                    assert(grown[i] == rest[i] && grown[j] == rest[j]);
                } else {
                    assert(grown[j] == ids.last());
                    assert(grown[i] == rest[i]);
                    assert(rest.contains(rest[i]));
                }
            }
        }
    }
}

/// What the start phase yields: the ids it began with plus every live id,
/// and no duplicate appears if none was there before.
proof fn lemma_after_starts_membership(
    ids: Seq<Seq<char>>,
    live: Seq<Seq<char>>,
    x: Seq<char>,
)
    ensures
        spec_after_starts(ids, live).contains(x) <==> (ids.contains(x) || live.contains(x)),
    decreases live.len(),
{
    if live.len() == 0 {
    } else {
        let grown = if ids.contains(live.first()) {
            ids
        } else {
            ids.push(live.first())
        };
        lemma_after_starts_membership(grown, live.drop_first(), x);
        lemma_contains_drop_first(live, x);
        if !ids.contains(live.first()) {
            lemma_contains_push(ids, live.first(), x);
        }
    }
}

/// The start phase keeps ids duplicate-free.
proof fn lemma_after_starts_unique(ids: Seq<Seq<char>>, live: Seq<Seq<char>>)
    requires
        spec_unique(ids),
    ensures
        spec_unique(spec_after_starts(ids, live)),
    decreases live.len(),
{
    if live.len() > 0 {
        if ids.contains(live.first()) {
            lemma_after_starts_unique(ids, live.drop_first());
        } else {
            let grown = ids.push(live.first());
            assert forall|i: int, j: int| 0 <= i < j < grown.len() implies grown[i] != grown[j] by {
                if j < grown.len() - 1 {
                    assert(grown[i] == ids[i] && grown[j] == ids[j]);
                } else {
                    assert(grown[j] == live.first());
                    assert(grown[i] == ids[i]);
                    assert(ids.contains(ids[i]));
                }
            }
            lemma_after_starts_unique(grown, live.drop_first());
        }
    }
}

/// Lifecycle synchronization: one full tick — keeping only the still-live
/// emitters, then starting one for each live container that lacks one —
/// leaves exactly one active emitter per live container: the active ids
/// are duplicate-free and are precisely the ids the engine listed.
pub proof fn lemma_tick_synchronizes(ids: Seq<Seq<char>>, live: Seq<Seq<char>>)
    requires
        spec_unique(ids),
    ensures
        spec_unique(spec_after_starts(spec_retained(ids, live), live)),
        forall|x: Seq<char>|
            spec_after_starts(spec_retained(ids, live), live).contains(x) <==> live.contains(x),
{
    let kept = spec_retained(ids, live);
    lemma_retained_unique(ids, live);
    lemma_after_starts_unique(kept, live);
    assert forall|x: Seq<char>|
        spec_after_starts(kept, live).contains(x) <==> live.contains(x) by {
        lemma_retained_membership(ids, live, x);
        lemma_after_starts_membership(kept, live, x);
    }
}

} // verus!
