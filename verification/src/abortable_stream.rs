//! Handles to live streams, and the registry that can close them all at once.
//!
//! A handle is known by a number that is never given out twice. The registry
//! keeps the handles in the order in which they were issued; a handle that is
//! no longer listed counts as closed.

use vstd::prelude::*;

verus! {

/// The record the registry keeps of one stream.
#[derive(Clone, Copy, Debug, PartialEq, Eq, Structural)]
pub struct AbortableStreamHandle {
    pub id: u64,
    pub closed: bool,
}

impl AbortableStreamHandle {
    /// A handle to a stream that has just been established.
    pub fn new(id: u64) -> (handle: AbortableStreamHandle)
        ensures
            handle == (AbortableStreamHandle { id, closed: false }),
    {
        AbortableStreamHandle { id, closed: false }
    }

    /// Closes the stream. Closing a closed handle changes nothing.
    pub fn close(&mut self)
        ensures
            *final(self) == (AbortableStreamHandle { id: old(self).id, closed: true }),
    {
        self.closed = true;
    }

    /// Whether the stream has been closed.
    pub fn is_closed(&self) -> (closed: bool)
        ensures
            closed == self.closed,
    {
        self.closed
    }
}

/// The predicate that keeps the handles whose stream is still open.
pub open spec fn still_open() -> spec_fn(AbortableStreamHandle) -> bool {
    |h: AbortableStreamHandle| !h.closed
}

/// The handle `h` after a request to close the stream `id`.
pub open spec fn closed_if(id: u64) -> spec_fn(AbortableStreamHandle) -> AbortableStreamHandle {
    |h: AbortableStreamHandle|
        if h.id == id {
            AbortableStreamHandle { id: h.id, closed: true }
        } else {
            h
        }
}

/// The number of a handle.
pub open spec fn id_of() -> spec_fn(AbortableStreamHandle) -> u64 {
    |h: AbortableStreamHandle| h.id
}

/// What a registry holds, as plain values.
pub struct RegistryView {
    /// The handles held, oldest first.
    pub handles: Seq<AbortableStreamHandle>,
    /// How many handles have been issued so far; also the number of the next one.
    pub issued: nat,
}

impl RegistryView {
    /// The count of handles issued fits the numbers that handles get, every
    /// handle held was issued by this registry, and the handles stand in the
    /// order of their numbers, so none is held twice.
    pub open spec fn wf(self) -> bool {
        &&& self.issued <= u64::MAX
        &&& forall|i: int|
            0 <= i < self.handles.len() ==> (#[trigger] self.handles[i]).id < self.issued
        &&& forall|i: int, j: int|
            0 <= i < j < self.handles.len() ==> (#[trigger] self.handles[i]).id < (
            #[trigger] self.handles[j]).id
    }

    /// The numbers of the streams that are open.
    pub open spec fn open_ids(self) -> Set<u64> {
        Set::new(|id: u64| self.handles.contains(AbortableStreamHandle { id, closed: false }))
    }

    /// A stream counts as closed unless the registry holds an open handle to it.
    pub open spec fn is_closed(self, id: u64) -> bool {
        !self.open_ids().contains(id)
    }

    /// Whether the registry has given out the number `id`.
    pub open spec fn has_issued(self, id: u64) -> bool {
        id < self.issued
    }

    /// The registry after it has dropped the handles of closed streams and
    /// issued a handle for a new one.
    pub open spec fn registered(self) -> RegistryView {
        RegistryView {
            handles: self.handles.filter(still_open()).push(
                AbortableStreamHandle { id: self.issued as u64, closed: false },
            ),
            issued: self.issued + 1,
        }
    }

    /// The registry after the stream `id` was marked as closed.
    pub open spec fn closed(self, id: u64) -> RegistryView {
        RegistryView { handles: self.handles.map_values(closed_if(id)), issued: self.issued }
    }

    /// The registry after it has let go of every handle.
    pub open spec fn cleared(self) -> RegistryView {
        RegistryView { handles: Seq::empty(), issued: self.issued }
    }

    /// The numbers of the streams that are open, oldest first.
    pub open spec fn open_in_order(self) -> Seq<u64> {
        self.handles.filter(still_open()).map_values(id_of())
    }
}

/// The handles of the streams that a connector has produced and not yet let go.
#[derive(Debug)]
pub struct StreamRegistry {
    handles: Vec<AbortableStreamHandle>,
    next_id: u64,
}

impl View for StreamRegistry {
    type V = RegistryView;

    closed spec fn view(&self) -> RegistryView {
        RegistryView { handles: self.handles@, issued: self.next_id as nat }
    }
}

impl StreamRegistry {
    /// What the registry holds is well formed.
    #[verifier::type_invariant]
    pub open spec fn well_formed(self) -> bool {
        self@.wf()
    }

    /// A registry that has issued nothing.
    pub fn new() -> (registry: StreamRegistry)
        ensures
            registry@ == (RegistryView { handles: Seq::empty(), issued: 0 }),
            registry@.wf(),
    {
        StreamRegistry { handles: Vec::new(), next_id: 0 }
    }

    /// The number of handles held, open or not.
    pub fn len(&self) -> (n: usize)
        ensures
            n == self@.handles.len(),
    {
        self.handles.len()
    }

    /// The number that the next handle will get.
    pub fn next_id(&self) -> (id: u64)
        ensures
            id == self@.issued,
    {
        self.next_id
    }

    /// Whether another handle can be issued.
    pub fn has_room(&self) -> (room: bool)
        ensures
            room == (self@.issued < u64::MAX),
    {
        self.next_id < u64::MAX
    }

    /// Drops the handles of closed streams, then issues a handle for a new
    /// stream and returns its number.
    pub fn register(&mut self) -> (id: u64)
        requires
            old(self)@.issued < u64::MAX,
        ensures
            old(self)@.wf(),
            final(self)@ == old(self)@.registered(),
            final(self)@.wf(),
            id == old(self)@.issued,
    {
        proof {
            use_type_invariant(&*self);
        }
        let id: u64 = self.next_id;
        let mut kept: Vec<AbortableStreamHandle> = Vec::new();
        let mut i: usize = 0;
        while i < self.handles.len()
            invariant
                i <= self.handles.len(),
                self.handles@ == old(self).handles@,
                kept@ == self.handles@.take(i as int).filter(still_open()),
            decreases self.handles.len() - i,
        {
            let h = self.handles[i];
            proof {
                assert(self.handles@.take(i + 1) == self.handles@.take(i as int).push(h));
                self.handles@.take(i as int).lemma_filter_push(h, still_open());
            }
            if !h.closed {
                kept.push(h);
            }
            i = i + 1;
        }
        proof {
            assert(self.handles@.take(i as int) == self.handles@);
            lemma_registered_is_well_formed(old(self)@);
        }
        kept.push(AbortableStreamHandle { id, closed: false });
        self.next_id = id + 1;
        self.handles = kept;
        id
    }

    /// Marks the stream `id` as closed, as when the stream itself ends.
    /// Closing a stream twice, or one that is not held, changes nothing more.
    pub fn close(&mut self, id: u64)
        ensures
            old(self)@.wf(),
            final(self)@ == old(self)@.closed(id),
            final(self)@.wf(),
    {
        proof {
            use_type_invariant(&*self);
        }
        let mut marked: Vec<AbortableStreamHandle> = Vec::new();
        let mut i: usize = 0;
        while i < self.handles.len()
            invariant
                i <= self.handles.len(),
                self.handles@ == old(self).handles@,
                marked@ == self.handles@.take(i as int).map_values(closed_if(id)),
            decreases self.handles.len() - i,
        {
            let h = self.handles[i];
            proof {
                assert(self.handles@.take(i + 1).map_values(closed_if(id)) =~= self.handles@.take(
                    i as int,
                ).map_values(closed_if(id)).push(closed_if(id)(h)));
            }
            if h.id == id {
                marked.push(AbortableStreamHandle { id: h.id, closed: true });
            } else {
                marked.push(h);
            }
            i = i + 1;
        }
        proof {
            assert(self.handles@.take(i as int) =~= self.handles@);
            lemma_closed_is_well_formed(old(self)@, id);
        }
        self.handles = marked;
    }

    /// Lets go of every handle and returns, oldest first, the numbers of the
    /// streams that were still open: those are the streams to tear down.
    pub fn close_all(&mut self) -> (closed: Vec<u64>)
        ensures
            old(self)@.wf(),
            final(self)@ == old(self)@.cleared(),
            final(self)@.wf(),
            closed@ == old(self)@.open_in_order(),
    {
        proof {
            use_type_invariant(&*self);
        }
        let mut closed: Vec<u64> = Vec::new();
        let mut i: usize = 0;
        while i < self.handles.len()
            invariant
                i <= self.handles.len(),
                self.handles@ == old(self).handles@,
                self.next_id == old(self).next_id,
                closed@ == self.handles@.take(i as int).filter(still_open()).map_values(id_of()),
            decreases self.handles.len() - i,
        {
            let h = self.handles[i];
            proof {
                let seen = self.handles@.take(i as int);
                assert(self.handles@.take(i + 1) == seen.push(h));
                seen.lemma_filter_push(h, still_open());
                if !h.closed {
                    assert(seen.filter(still_open()).push(h).map_values(id_of()) =~= seen.filter(
                        still_open(),
                    ).map_values(id_of()).push(h.id));
                }
            }
            if !h.closed {
                closed.push(h.id);
            }
            i = i + 1;
        }
        proof {
            assert(self.handles@.take(i as int) == self.handles@);
        }
        self.handles = Vec::new();
        closed
    }

    /// Whether the stream `id` is closed.
    pub fn is_closed(&self, id: u64) -> (closed: bool)
        ensures
            closed == self@.is_closed(id),
    {
        let mut i: usize = 0;
        while i < self.handles.len()
            invariant
                i <= self.handles.len(),
                forall|k: int|
                    0 <= k < i ==> self.handles@[k] != (AbortableStreamHandle { id, closed: false }),
            decreases self.handles.len() - i,
        {
            let h = self.handles[i];
            if h.id == id && !h.closed {
                assert(self@.handles[i as int] == (AbortableStreamHandle { id, closed: false }));
                return false;
            }
            i = i + 1;
        }
        true
    }
}

/// Registering keeps a registry well formed.
pub proof fn lemma_registered_is_well_formed(registry: RegistryView)
    requires
        registry.wf(),
        registry.issued < u64::MAX,
    ensures
        registry.registered().wf(),
{
    lemma_pruned_keeps_order(registry.handles);
    let pruned = registry.handles.filter(still_open());
    let after = registry.registered().handles;
    assert forall|i: int| 0 <= i < after.len() implies (#[trigger] after[i]).id < registry.issued
        + 1 by {
        if i < pruned.len() {
            assert(registry.handles.contains(pruned[i]));
        }
    }
    assert forall|i: int, j: int| 0 <= i < j < after.len() implies (#[trigger] after[i]).id < (
    #[trigger] after[j]).id by {
        assert(after[i] == pruned[i]);
        assert(registry.handles.contains(pruned[i]));
        if j < pruned.len() {
            assert(after[j] == pruned[j]);
        }
    }
}

/// Closing a stream keeps a registry well formed.
pub proof fn lemma_closed_is_well_formed(registry: RegistryView, id: u64)
    requires
        registry.wf(),
    ensures
        registry.closed(id).wf(),
{
}

/// Registering opens exactly one stream more: the one whose number is returned.
pub proof fn lemma_registered_opens_one(registry: RegistryView)
    requires
        registry.issued < u64::MAX,
    ensures
        registry.registered().open_ids() == registry.open_ids().insert(registry.issued as u64),
{
    let id = registry.issued as u64;
    let before = registry.handles;
    let pruned = before.filter(still_open());
    let after = registry.registered().handles;
    assert forall|x: u64|
        registry.registered().open_ids().contains(x) == registry.open_ids().insert(id).contains(
            x,
        ) by {
        let hx = AbortableStreamHandle { id: x, closed: false };
        if after.contains(hx) {
            let k = choose|k: int| 0 <= k < after.len() && after[k] == hx;
            if k < pruned.len() {
                assert(pruned.contains(hx));
                before.lemma_filter_contains_rev(still_open(), hx);
            }
        }
        if before.contains(hx) {
            let k = choose|k: int| 0 <= k < before.len() && before[k] == hx;
            before.lemma_filter_contains(still_open(), k);
            let m = choose|m: int| 0 <= m < pruned.len() && pruned[m] == hx;
            assert(after[m] == hx);
        }
        if x == id {
            assert(after[pruned.len() as int] == hx);
        }
    }
    assert(registry.registered().open_ids() =~= registry.open_ids().insert(id));
}

/// Closing a stream closes that stream and no other.
pub proof fn lemma_closed_closes_one(registry: RegistryView, id: u64)
    ensures
        registry.closed(id).open_ids() == registry.open_ids().remove(id),
{
    let before = registry.handles;
    let after = registry.closed(id).handles;
    assert forall|x: u64|
        registry.closed(id).open_ids().contains(x) == registry.open_ids().remove(id).contains(
            x,
        ) by {
        let hx = AbortableStreamHandle { id: x, closed: false };
        if after.contains(hx) {
            let k = choose|k: int| 0 <= k < after.len() && after[k] == hx;
            assert(before[k] == hx);
        }
        if before.contains(hx) && x != id {
            let k = choose|k: int| 0 <= k < before.len() && before[k] == hx;
            assert(after[k] == hx);
        }
    }
    assert(registry.closed(id).open_ids() =~= registry.open_ids().remove(id));
}

/// Closing a stream a second time changes nothing.
pub proof fn lemma_close_is_idempotent(registry: RegistryView, id: u64)
    ensures
        registry.closed(id).closed(id) == registry.closed(id),
{
    assert(registry.closed(id).closed(id).handles =~= registry.closed(id).handles);
}

/// Once a registry has let go of its handles, every stream counts as closed.
pub proof fn lemma_cleared_closes_all(registry: RegistryView, id: u64)
    ensures
        registry.cleared().is_closed(id),
        registry.cleared().open_ids() == Set::<u64>::empty(),
{
    assert(registry.cleared().open_ids() =~= Set::<u64>::empty());
}

/// A stream that is closed stays closed, whatever the registry does next:
/// no number is given out twice, and no handle is ever opened again.
pub proof fn lemma_closed_stays_closed(registry: RegistryView, id: u64, other: u64)
    requires
        registry.wf(),
        registry.issued < u64::MAX,
        registry.has_issued(id),
        registry.is_closed(id),
    ensures
        registry.registered().is_closed(id),
        registry.registered().has_issued(id),
        registry.closed(other).is_closed(id),
        registry.cleared().is_closed(id),
{
    lemma_registered_opens_one(registry);
    lemma_closed_closes_one(registry, other);
    lemma_cleared_closes_all(registry, id);
}

/// The numbers handed out for tearing down are those of the open streams.
pub proof fn lemma_open_in_order_lists_open(registry: RegistryView, id: u64)
    ensures
        registry.open_in_order().contains(id) <==> registry.open_ids().contains(id),
{
    let kept = registry.handles.filter(still_open());
    let ids = registry.open_in_order();
    let hx = AbortableStreamHandle { id, closed: false };
    if ids.contains(id) {
        let k = choose|k: int| 0 <= k < ids.len() && ids[k] == id;
        assert(kept.contains(kept[k]));
        registry.handles.lemma_filter_contains_rev(still_open(), kept[k]);
        registry.handles.lemma_filter_pred(still_open(), k);
        assert(kept[k] == hx);
    }
    if registry.handles.contains(hx) {
        let k = choose|k: int| 0 <= k < registry.handles.len() && registry.handles[k] == hx;
        registry.handles.lemma_filter_contains(still_open(), k);
        let m = choose|m: int| 0 <= m < kept.len() && kept[m] == hx;
        assert(ids[m] == id);
    }
}

/// Dropping closed handles keeps the rest in their order, so a registry
/// that was well formed stays so.
pub proof fn lemma_pruned_keeps_order(handles: Seq<AbortableStreamHandle>)
    requires
        forall|i: int, j: int|
            0 <= i < j < handles.len() ==> (#[trigger] handles[i]).id < (#[trigger] handles[j]).id,
    ensures
        forall|i: int, j: int|
            0 <= i < j < handles.filter(still_open()).len() ==> (#[trigger] handles.filter(
                still_open(),
            )[i]).id < (#[trigger] handles.filter(still_open())[j]).id,
        forall|i: int|
            0 <= i < handles.filter(still_open()).len() ==> handles.contains(
                #[trigger] handles.filter(still_open())[i],
            ),
    decreases handles.len(),
{
    reveal(Seq::filter);
    let kept = handles.filter(still_open());
    if handles.len() > 0 {
        let front = handles.drop_last();
        lemma_pruned_keeps_order(front);
        let kept_front = front.filter(still_open());
        assert forall|i: int| 0 <= i < kept.len() implies handles.contains(#[trigger] kept[i]) by {
            if i < kept_front.len() {
                assert(front.contains(kept_front[i]));
                let k = choose|k: int| 0 <= k < front.len() && front[k] == kept_front[i];
                assert(handles[k] == kept[i]);
            } else {
                assert(kept[i] == handles.last());
                assert(handles[handles.len() - 1] == kept[i]);
            }
        }
        assert forall|i: int, j: int| 0 <= i < j < kept.len() implies (#[trigger] kept[i]).id < (
        #[trigger] kept[j]).id by {
            if j < kept_front.len() {
                assert(kept[i] == kept_front[i]);
                assert(kept[j] == kept_front[j]);
            } else {
                assert(kept[j] == handles.last());
                assert(kept[i] == kept_front[i]);
                assert(front.contains(kept_front[i]));
                let k = choose|k: int| 0 <= k < front.len() && front[k] == kept_front[i];
                assert(handles[k] == kept[i]);
            }
        }
    }
}

} // verus!
