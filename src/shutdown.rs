use vstd::prelude::*;

verus! {

broadcast use vstd::set::group_set_axioms;

/// Seconds between two looks at the count of connections in flight while draining.
pub const SHUTDOWN_POLL_SECONDS: u64 = 1;

/// The single-use signal that one registered connection has finished. It cannot be copied, so
/// handing it back to `ShutdownHelper::complete` uses it up.
pub struct Completion {
    id: u64,
}

impl View for Completion {
    type V = u64;

    closed spec fn view(&self) -> u64 {
        self.id
    }
}

/// What a draining shutdown does after one look at the connections in flight.
#[derive(Clone, Copy, Debug, PartialEq, Eq, Structural)]
pub enum Drain {
    /// None is left: shutdown is complete.
    Finished,
    /// Some are left: look again after `SHUTDOWN_POLL_SECONDS`.
    Wait,
}

/// The registry of connections in flight, shared by a listener's connections: each accepted
/// connection registers and signals completion once, and shutdown drains the registry.
pub struct ShutdownHelper {
    outstanding: Vec<u64>,
    next_id: u64,
}

impl View for ShutdownHelper {
    type V = Set<u64>;

    /// The completions not yet signalled.
    closed spec fn view(&self) -> Set<u64> {
        self.outstanding@.to_set()
    }
}

/// What a drain does on a registry holding `active`.
pub open spec fn drain_of(active: Set<u64>) -> Drain {
    if active.is_empty() {
        Drain::Finished
    } else {
        Drain::Wait
    }
}

impl ShutdownHelper {
    pub closed spec fn wf(&self) -> bool {
        &&& self.outstanding@.no_duplicates()
        &&& forall|i: int| 0 <= i < self.outstanding.len() ==> #[trigger] self.outstanding@[i] < self.next_id
    }

    /// Whether another connection can still be registered.
    pub closed spec fn has_room(&self) -> bool {
        self.next_id < u64::MAX
    }

    /// An empty registry.
    pub fn new() -> (r: Self)
        ensures
            r.wf(),
            r@ == Set::<u64>::empty(),
            r.has_room(),
    {
        let r = ShutdownHelper { outstanding: Vec::new(), next_id: 0 };
        assert(r@ =~= Set::<u64>::empty());
        r
    }

    /// Registers a connection and hands out the signal that it must give back when it
    /// finishes, on every exit path. `None` once the registry has handed out `u64::MAX`
    /// signals.
    pub fn register(&mut self) -> (r: Option<Completion>)
        requires
            old(self).wf(),
        ensures
            final(self).wf(),
            match r {
                Some(c) => old(self).has_room() && !old(self)@.contains(c@) && final(self)@ == old(
                    self,
                )@.insert(c@),
                None => !old(self).has_room() && final(self)@ == old(self)@,
            },
    {
        if self.next_id == u64::MAX {
            return None;
        }
        let id = self.next_id;
        let ghost before = self.outstanding@;
        proof {
            assert(!self.outstanding@.contains(id));
        }
        self.outstanding.push(id);
        self.next_id = id + 1;
        proof {
            let after = self.outstanding@;
            assert forall|x: u64| after.contains(x) <==> (before.contains(x) || x == id) by {
                if after.contains(x) {
                    let k = choose|k: int| 0 <= k < after.len() && after[k] == x;
                    if k < before.len() {
                        assert(before[k] == x);
                    }
                }
                if before.contains(x) {
                    let k = choose|k: int| 0 <= k < before.len() && before[k] == x;
                    assert(after[k] == x);
                }
                if x == id {
                    assert(after[before.len() as int] == x);
                }
            }
            assert(self@ =~= old(self)@.insert(id));
        }
        Some(Completion { id })
    }

    /// Takes back the signal of a connection that has finished.
    pub fn complete(&mut self, c: Completion)
        requires
            old(self).wf(),
        ensures
            final(self).wf(),
            final(self)@ == old(self)@.remove(c@),
            old(self).has_room() ==> final(self).has_room(),
    {
        let mut i: usize = 0;
        while i < self.outstanding.len() && self.outstanding[i] != c.id
            invariant
                i <= self.outstanding.len(),
                forall|j: int| 0 <= j < i ==> #[trigger] self.outstanding@[j] != c.id,
            decreases self.outstanding.len() - i,
        {
            i = i + 1;
        }
        if i < self.outstanding.len() {
            let ghost before = self.outstanding@;
            self.outstanding.remove(i);
            proof {
                let after = self.outstanding@;
                assert forall|x: u64| after.contains(x) <==> (before.contains(x) && x != c.id) by {
                    if after.contains(x) {
                        let k = choose|k: int| 0 <= k < after.len() && after[k] == x;
                        if k < i {
                            assert(before[k] == x);
                        } else {
                            assert(before[k + 1] == x);
                        }
                    }
                    if before.contains(x) && x != c.id {
                        let k = choose|k: int| 0 <= k < before.len() && before[k] == x;
                        if k < i {
                            assert(after[k] == x);
                        } else {
                            assert(k != i);
                            assert(after[k - 1] == x);
                        }
                    }
                }
                assert(self@ =~= old(self)@.remove(c.id));
            }
        } else {
            proof {
                assert(!self.outstanding@.contains(c.id));
                assert(self@ =~= old(self)@.remove(c.id));
            }
        }
    }

    /// How many connections are in flight.
    pub fn active(&self) -> (r: usize)
        requires
            self.wf(),
        ensures
            r == self@.len(),
    {
        proof {
            self.outstanding@.unique_seq_to_set();
        }
        self.outstanding.len()
    }

    /// One look of a draining shutdown at the connections in flight.
    pub fn shutdown(&self) -> (r: Drain)
        requires
            self.wf(),
        ensures
            r == drain_of(self@),
    {
        proof {
            self.outstanding@.unique_seq_to_set();
            if self@.is_empty() {
                assert(self@.len() == 0);
            } else {
                assert(self@.len() != 0);
            }
        }
        if self.outstanding.len() == 0 {
            Drain::Finished
        } else {
            Drain::Wait
        }
    }
}

/// One change to a registry: a connection registers under an id, or signals completion.
pub ghost enum RegistryEvent {
    Register(u64),
    Complete(u64),
}

/// The connections in flight after `events`, starting from `active`: a registration adds its id
/// (what `register` does) and a completion removes it (what `complete` does).
pub open spec fn replay(active: Set<u64>, events: Seq<RegistryEvent>) -> Set<u64>
    decreases events.len(),
{
    if events.len() == 0 {
        active
    } else {
        let before = replay(active, events.drop_last());
        match events.last() {
            RegistryEvent::Register(id) => before.insert(id),
            RegistryEvent::Complete(id) => before.remove(id),
        }
    }
}

pub open spec fn is_registered(events: Seq<RegistryEvent>, id: u64) -> bool {
    exists|i: int| 0 <= i < events.len() && #[trigger] events[i] == RegistryEvent::Register(id)
}

pub open spec fn is_completed(events: Seq<RegistryEvent>, id: u64) -> bool {
    exists|i: int| 0 <= i < events.len() && #[trigger] events[i] == RegistryEvent::Complete(id)
}

/// Each id registers at most once, and signals completion only after it registered: what
/// `register` and the single-use `Completion` guarantee, in whatever order connections come
/// and go.
pub open spec fn well_ordered(events: Seq<RegistryEvent>) -> bool {
    &&& forall|i: int, j: int|
        0 <= i < events.len() && 0 <= j < events.len() && #[trigger] events[i] == #[trigger] events[j]
            && events[i] is Register ==> i == j
    &&& forall|j: int|
        #![trigger events[j]]
        0 <= j < events.len() && events[j] is Complete ==> exists|i: int|
            0 <= i < j && #[trigger] events[i] == RegistryEvent::Register(events[j]->Complete_0)
}

proof fn lemma_replay_in_flight(events: Seq<RegistryEvent>)
    requires
        well_ordered(events),
    ensures
        replay(Set::empty(), events) == Set::new(
            |id: u64| is_registered(events, id) && !is_completed(events, id),
        ),
    decreases events.len(),
{
    if events.len() == 0 {
        assert(replay(Set::empty(), events) =~= Set::new(
            |id: u64| is_registered(events, id) && !is_completed(events, id),
        ));
    } else {
        let pre = events.drop_last();
        let n = events.len() - 1;
        assert forall|j: int| 0 <= j < pre.len() implies pre[j] == events[j] by {}
        assert(well_ordered(pre)) by {
            assert forall|j: int|
                #![trigger pre[j]]
                0 <= j < pre.len() && pre[j] is Complete implies exists|i: int|
                0 <= i < j && #[trigger] pre[i] == RegistryEvent::Register(pre[j]->Complete_0) by {
                let i = choose|i: int|
                    0 <= i < j && #[trigger] events[i] == RegistryEvent::Register(
                        events[j]->Complete_0,
                    );
                assert(pre[i] == events[i]);
            }
        }
        lemma_replay_in_flight(pre);
        let target = Set::new(|id: u64| is_registered(events, id) && !is_completed(events, id));
        assert forall|x: u64| #[trigger]
            replay(Set::empty(), events).contains(x) <==> target.contains(x) by {
            let last = events[n];
            assert(events.last() == last);
            if is_registered(pre, x) {
                let i = choose|i: int| 0 <= i < pre.len() && #[trigger] pre[i] == RegistryEvent::Register(x);
                assert(events[i] == RegistryEvent::Register(x));
            }
            if is_completed(pre, x) {
                let i = choose|i: int| 0 <= i < pre.len() && #[trigger] pre[i] == RegistryEvent::Complete(x);
                assert(events[i] == RegistryEvent::Complete(x));
            }
            if is_registered(events, x) {
                let i = choose|i: int| 0 <= i < events.len() && #[trigger] events[i] == RegistryEvent::Register(x);
                if i < n {
                    assert(pre[i] == RegistryEvent::Register(x));
                }
            }
            if is_completed(events, x) {
                let i = choose|i: int| 0 <= i < events.len() && #[trigger] events[i] == RegistryEvent::Complete(x);
                if i < n {
                    assert(pre[i] == RegistryEvent::Complete(x));
                }
            }
            match last {
                RegistryEvent::Register(id) => {
                    if x == id && is_completed(pre, x) {
                        let j = choose|j: int| 0 <= j < pre.len() && #[trigger] pre[j] == RegistryEvent::Complete(x);
                        assert(events[j] == RegistryEvent::Complete(x));
                        let i = choose|i: int| 0 <= i < j && #[trigger] events[i] == RegistryEvent::Register(
                            events[j]->Complete_0,
                        );
                        assert(events[i] == events[n]);
                    }
                },
                RegistryEvent::Complete(id) => {},
            }
        }
        assert(replay(Set::empty(), events) =~= target);
    }
}

/// Once every connection that registered has signalled completion, in any interleaving of
/// registrations and completions, nothing is left in flight and the next look of a draining
/// shutdown finishes it.
pub proof fn lemma_all_completed_drains(events: Seq<RegistryEvent>)
    requires
        well_ordered(events),
        forall|id: u64| is_registered(events, id) ==> is_completed(events, id),
    ensures
        replay(Set::empty(), events) == Set::<u64>::empty(),
        drain_of(replay(Set::empty(), events)) == Drain::Finished,
{
    lemma_replay_in_flight(events);
    assert(replay(Set::empty(), events) =~= Set::<u64>::empty());
}

} // verus!
