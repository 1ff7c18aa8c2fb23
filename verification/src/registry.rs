//! The process-wide registry of virtual machine instances.
//!
//! The registry is the arena that owns every instance ever created,
//! together with an explicit count of the owning handles clients hold
//! on each. An entry whose handle count has reached zero is dead: it
//! is invisible to lookups and listings and is pruned lazily whenever
//! a new instance is added. A small list of identifiers records the
//! handles held on behalf of debug callers.

use crate::errors::{ErrorKind, ServiceError};
use crate::instance::{get_state, spec_get_state, VirtualMachineState, VmInstance, VmState};
use crate::{ChildId, Cid};
use vstd::prelude::*;

verus! {

/// One arena slot: an instance and the number of owning handles that
/// are still outstanding on it.
#[derive(Debug)]
pub struct VmEntry {
    /// The instance itself.
    pub instance: VmInstance,
    /// How many owning handles clients still hold. Zero means dead.
    pub handle_count: u64,
}

impl VmEntry {
    /// Whether any owning handle is still outstanding.
    pub open spec fn live(self) -> bool {
        self.handle_count > 0
    }
}

/// The instances of the live entries, in registry order.
pub open spec fn live_seq_of(s: Seq<VmEntry>) -> Seq<VmInstance>
    decreases s.len(),
{
    if s.len() == 0 {
        Seq::empty()
    } else if s.last().live() {
        live_seq_of(s.drop_last()).push(s.last().instance)
    } else {
        live_seq_of(s.drop_last())
    }
}

/// Whether a live entry of the sequence carries the identifier.
pub open spec fn has_live_of(s: Seq<VmEntry>, cid: Cid) -> bool {
    exists|i: int| 0 <= i < s.len() && s[i].live() && s[i].instance.cid == cid
}

/// Whether the live entries of the sequence carry pairwise distinct
/// identifiers.
pub open spec fn distinct_cids_of(s: Seq<VmEntry>) -> bool {
    forall|i: int, j: int|
        0 <= i < j < s.len() && s[i].live() && s[j].live() ==> s[i].instance.cid
            != s[j].instance.cid
}

/// Replacing one entry changes the live sequence's length exactly by
/// the difference the replacement makes.
proof fn lemma_live_seq_update(s: Seq<VmEntry>, i: int, e: VmEntry)
    requires
        0 <= i < s.len(),
    ensures
        live_seq_of(s.update(i, e)).len() == live_seq_of(s).len() - (if s[i].live() {
            1int
        } else {
            0int
        }) + (if e.live() {
            1int
        } else {
            0int
        }),
    decreases s.len(),
{
    let t = s.update(i, e);
    if i == s.len() - 1 {
        assert(t.drop_last() =~= s.drop_last());
        assert(t.last() == e);
    } else {
        assert(t.drop_last() =~= s.drop_last().update(i, e));
        assert(t.last() == s.last());
        lemma_live_seq_update(s.drop_last(), i, e);
    }
}

/// Updating an entry without changing its liveness or instance leaves
/// the live sequence unchanged.
proof fn lemma_live_seq_update_same(s: Seq<VmEntry>, i: int, e: VmEntry)
    requires
        0 <= i < s.len(),
        e.live() == s[i].live(),
        e.instance == s[i].instance,
    ensures
        live_seq_of(s.update(i, e)) == live_seq_of(s),
    decreases s.len(),
{
    let t = s.update(i, e);
    if i == s.len() - 1 {
        assert(t.drop_last() =~= s.drop_last());
    } else {
        assert(t.drop_last() =~= s.drop_last().update(i, e));
        lemma_live_seq_update_same(s.drop_last(), i, e);
    }
}

/// Removing a dead entry leaves the live sequence unchanged.
proof fn lemma_live_seq_remove_dead(s: Seq<VmEntry>, i: int)
    requires
        0 <= i < s.len(),
        !s[i].live(),
    ensures
        live_seq_of(s.remove(i)) == live_seq_of(s),
    decreases s.len(),
{
    let t = s.remove(i);
    if i == s.len() - 1 {
        assert(t =~= s.drop_last());
    } else {
        assert(t.drop_last() =~= s.drop_last().remove(i));
        assert(t.last() == s.last());
        lemma_live_seq_remove_dead(s.drop_last(), i);
    }
}

/// Removing a dead entry changes which identifiers are live for no
/// identifier.
proof fn lemma_has_live_remove_dead(s: Seq<VmEntry>, i: int)
    requires
        0 <= i < s.len(),
        !s[i].live(),
    ensures
        forall|c: Cid| has_live_of(s.remove(i), c) <==> has_live_of(s, c),
{
    let t = s.remove(i);
    assert forall|c: Cid| has_live_of(t, c) <==> has_live_of(s, c) by {
        if has_live_of(s, c) {
            let w = choose|w: int| 0 <= w < s.len() && s[w].live() && s[w].instance.cid == c;
            if w < i {
                assert(t[w] == s[w]);
            } else {
                assert(t[w - 1] == s[w]);
            }
        }
        if has_live_of(t, c) {
            let w = choose|w: int| 0 <= w < t.len() && t[w].live() && t[w].instance.cid == c;
            if w < i {
                assert(s[w] == t[w]);
            } else {
                assert(s[w + 1] == t[w]);
            }
        }
    }
}

/// Removing an entry preserves distinctness of live identifiers.
proof fn lemma_distinct_remove(s: Seq<VmEntry>, i: int)
    requires
        0 <= i < s.len(),
        distinct_cids_of(s),
    ensures
        distinct_cids_of(s.remove(i)),
{
    let t = s.remove(i);
    assert forall|a: int, b: int|
        0 <= a < b < t.len() && t[a].live() && t[b].live() implies t[a].instance.cid
        != t[b].instance.cid by {
        let a0 = if a < i {
            a
        } else {
            a + 1
        };
        let b0 = if b < i {
            b
        } else {
            b + 1
        };
        assert(t[a] == s[a0]);
        assert(t[b] == s[b0]);
    }
}

/// One successful creation, as [`State::add_vm`] ensures it: one more
/// live instance.
pub open spec fn registry_create_step(pre: State, post: State) -> bool {
    post.live_count() == pre.live_count() + 1
}

/// One release of a sole owning handle, as [`State::drop_handle`]
/// ensures it when the released handle was the last: one live
/// instance fewer.
pub open spec fn registry_release_step(pre: State, post: State) -> bool {
    post.live_count() == pre.live_count() - 1
}

proof fn lemma_create_chain(states: Seq<State>, lo: int, hi: int)
    requires
        0 <= lo <= hi < states.len(),
        forall|i: int| lo <= i < hi ==> #[trigger] registry_create_step(states[i], states[i + 1]),
    ensures
        states[hi].live_count() == states[lo].live_count() + (hi - lo),
    decreases hi - lo,
{
    if lo < hi {
        lemma_create_chain(states, lo, hi - 1);
        assert(registry_create_step(states[hi - 1], states[hi - 1 + 1]));
    }
}

proof fn lemma_release_chain(states: Seq<State>, lo: int, hi: int)
    requires
        0 <= lo <= hi < states.len(),
        forall|i: int| lo <= i < hi ==> #[trigger] registry_release_step(states[i], states[i + 1]),
    ensures
        states[hi].live_count() == states[lo].live_count() - (hi - lo),
    decreases hi - lo,
{
    if lo < hi {
        lemma_release_chain(states, lo, hi - 1);
        assert(registry_release_step(states[hi - 1], states[hi - 1 + 1]));
    }
}

/// Registry accounting: after `n` successful creations followed by
/// the release of `m` of the returned handles (each the sole handle
/// on its instance, with nothing interleaved), exactly `n - m` more
/// instances are live than before, and a listing returns exactly
/// that many entries, since [`State::vms`] returns one entry per
/// live instance.
pub proof fn lemma_registry_accounting(states: Seq<State>, n: int, m: int)
    requires
        0 <= n,
        0 <= m,
        states.len() == n + m + 1,
        forall|i: int| 0 <= i < n ==> #[trigger] registry_create_step(states[i], states[i + 1]),
        forall|i: int| n <= i < n + m ==> #[trigger] registry_release_step(states[i], states[i + 1]),
    ensures
        states.last().live_count() == states[0].live_count() + n - m,
{
    lemma_create_chain(states, 0, n);
    lemma_release_chain(states, n, n + m);
}

/// Swapping the last element into a removed slot and shortening the
/// sequence removes exactly the element that stood in the slot.
proof fn lemma_swap_remove_to_multiset(s: Seq<Cid>, i: int)
    requires
        0 <= i < s.len(),
    ensures
        s.update(i, s.last()).drop_last().to_multiset() == s.to_multiset().remove(s[i]),
{
    broadcast use vstd::seq_lib::group_to_multiset_ensures;
    broadcast use vstd::multiset::group_multiset_axioms;

    let t = s.update(i, s.last());
    assert(t.to_multiset() == s.to_multiset().insert(s.last()).remove(s[i]));
    assert(t.last() == s.last());
    assert(t.drop_last() =~= t.remove(t.len() - 1));
    assert(t.remove(t.len() - 1).to_multiset() =~= t.to_multiset().remove(t.last()));
    assert(s.to_multiset().insert(s.last()).remove(s[i]).remove(s.last())
        =~= s.to_multiset().remove(s[i]));
}

/// Updating one entry to a value with the same identifier and the same
/// liveness changes no query result but the instance contents.
pub proof fn lemma_update_entry_same_cid(s: Seq<VmEntry>, i: int, e: VmEntry)
    requires
        0 <= i < s.len(),
        e.live() == s[i].live(),
        e.instance.cid == s[i].instance.cid,
    ensures
        forall|c: Cid| has_live_of(s.update(i, e), c) <==> has_live_of(s, c),
        distinct_cids_of(s) ==> distinct_cids_of(s.update(i, e)),
        live_seq_of(s.update(i, e)).len() == live_seq_of(s).len(),
{
    let t = s.update(i, e);
    lemma_live_seq_update(s, i, e);
    assert forall|c: Cid| has_live_of(t, c) <==> has_live_of(s, c) by {
        if has_live_of(s, c) {
            let w = choose|w: int| 0 <= w < s.len() && s[w].live() && s[w].instance.cid == c;
            assert(t[w].live() && t[w].instance.cid == c);
        }
        if has_live_of(t, c) {
            let w = choose|w: int| 0 <= w < t.len() && t[w].live() && t[w].instance.cid == c;
            assert(s[w].live() && s[w].instance.cid == c);
        }
    }
    if distinct_cids_of(s) {
        assert forall|a: int, b: int|
            0 <= a < b < t.len() && t[a].live() && t[b].live() implies t[a].instance.cid
            != t[b].instance.cid by {
            assert(s[a].live() && s[b].live());
            assert(t[a].instance.cid == s[a].instance.cid);
            assert(t[b].instance.cid == s[b].instance.cid);
        }
    }
}

/// The point-in-time description of one live instance, as returned to
/// debug listings.
#[derive(Debug)]
pub struct VirtualMachineDebugInfo {
    /// The guest context identifier.
    pub cid: i32,
    /// The directory holding the VM's temporary image files.
    pub temporary_directory: String,
    /// The user id of the requester.
    pub requester_uid: i32,
    /// The security context of the requester.
    pub requester_sid: String,
    /// The process id of the requester.
    pub requester_pid: i32,
    /// The externally visible state.
    pub state: VirtualMachineState,
}

/// The debug description of one instance.
pub open spec fn spec_debug_info_of(v: VmInstance) -> VirtualMachineDebugInfo {
    VirtualMachineDebugInfo {
        cid: v.cid as i32,
        temporary_directory: v.temporary_directory,
        requester_uid: v.requester_uid as i32,
        requester_sid: v.requester_sid,
        requester_pid: v.requester_debug_pid,
        state: spec_get_state(v),
    }
}

/// The mutable state of the service: all instances ever created, with
/// lazy pruning, plus the identifiers of debug-held handles.
#[derive(Debug)]
pub struct State {
    /// The arena of instances. Dead entries linger until the next
    /// addition prunes them; they are invisible to every query.
    pub vms: Vec<VmEntry>,
    /// Owning handles held on behalf of debug callers that cannot hold
    /// one themselves, by guest context identifier.
    pub debug_held_vms: Vec<Cid>,
}

impl State {
    /// The instances clients still hold handles on, in registry order.
    pub open spec fn live_vms(self) -> Seq<VmInstance> {
        live_seq_of(self.vms@)
    }

    /// How many instances are live.
    pub open spec fn live_count(self) -> nat {
        live_seq_of(self.vms@).len()
    }

    /// Whether a live entry carries the given identifier.
    pub open spec fn has_live(self, cid: Cid) -> bool {
        has_live_of(self.vms@, cid)
    }

    /// Live entries carry pairwise distinct identifiers.
    pub open spec fn distinct_live_cids(self) -> bool {
        distinct_cids_of(self.vms@)
    }

    /// The index of a live entry carrying the identifier; under
    /// distinct live identifiers it is the only one.
    pub open spec fn live_index(self, cid: Cid) -> int {
        choose|i: int|
            0 <= i < self.vms@.len() && self.vms@[i].live() && self.vms@[i].instance.cid == cid
    }

    /// The live instance carrying the identifier, when one exists.
    pub open spec fn live_instance(self, cid: Cid) -> VmInstance {
        self.vms@[self.live_index(cid)].instance
    }

    /// Under distinct live identifiers, any live entry carrying an
    /// identifier is the one `live_index` denotes.
    pub proof fn lemma_live_index_unique(self, cid: Cid, i: int)
        requires
            self.distinct_live_cids(),
            0 <= i < self.vms@.len(),
            self.vms@[i].live(),
            self.vms@[i].instance.cid == cid,
        ensures
            self.has_live(cid),
            self.live_index(cid) == i,
            self.live_instance(cid) == self.vms@[i].instance,
    {
        assert(self.has_live(cid)) by {
            assert(self.vms@[i].live() && self.vms@[i].instance.cid == cid);
        }
        let w = self.live_index(cid);
        assert(0 <= w < self.vms@.len() && self.vms@[w].live() && self.vms@[w].instance.cid
            == cid) by {
            assert(exists|k: int|
                0 <= k < self.vms@.len() && self.vms@[k].live() && self.vms@[k].instance.cid
                    == cid);
        }
        if w != i {
            if w < i {
                assert(self.vms@[w].instance.cid != self.vms@[i].instance.cid);
            } else {
                assert(self.vms@[i].instance.cid != self.vms@[w].instance.cid);
            }
        }
    }

    /// An empty registry.
    pub fn new() -> (r: State)
        ensures
            r.vms@ == Seq::<VmEntry>::empty(),
            r.debug_held_vms@ == Seq::<Cid>::empty(),
            r.live_count() == 0,
            r.distinct_live_cids(),
            forall|c: Cid| !r.has_live(c),
    {
        let r = State { vms: Vec::new(), debug_held_vms: Vec::new() };
        proof {
            assert(live_seq_of(r.vms@) =~= Seq::<VmInstance>::empty());
        }
        r
    }

    /// Add a new VM to the registry with one owning handle, first
    /// garbage-collecting every entry whose handles are all gone.
    ///
    /// The caller guarantees the identifier is not in live use; the
    /// allocator's monotonicity provides that.
    pub fn add_vm(&mut self, vm: VmInstance)
        requires
            !old(self).has_live(vm.cid),
        ensures
            final(self).live_vms() == old(self).live_vms().push(vm),
            final(self).live_count() == old(self).live_count() + 1,
            final(self).has_live(vm.cid),
            forall|c: Cid| c != vm.cid ==> (final(self).has_live(c) <==> old(self).has_live(c)),
            old(self).distinct_live_cids() ==> final(self).distinct_live_cids(),
            final(self).debug_held_vms@ == old(self).debug_held_vms@,
            // The lazy prune: no dead entry survives an addition.
            forall|j: int| 0 <= j < final(self).vms@.len() ==> final(self).vms@[j].live(),
            final(self).vms@.last() == (VmEntry { instance: vm, handle_count: 1u64 }),
    {
        let ghost orig = self.vms@;
        let mut i: usize = 0;
        while i < self.vms.len()
            invariant
                i <= self.vms@.len(),
                forall|j: int| 0 <= j < i ==> self.vms@[j].live(),
                live_seq_of(self.vms@) == live_seq_of(orig),
                forall|c: Cid| has_live_of(self.vms@, c) <==> has_live_of(orig, c),
                distinct_cids_of(orig) ==> distinct_cids_of(self.vms@),
                self.debug_held_vms@ == old(self).debug_held_vms@,
            decreases self.vms@.len() - i,
        {
            if self.vms[i].handle_count == 0 {
                let ghost pre = self.vms@;
                self.vms.remove(i);
                proof {
                    lemma_live_seq_remove_dead(pre, i as int);
                    lemma_has_live_remove_dead(pre, i as int);
                    if distinct_cids_of(pre) {
                        lemma_distinct_remove(pre, i as int);
                    }
                    assert forall|j: int| 0 <= j < i implies self.vms@[j].live() by {
                        assert(self.vms@[j] == pre[j]);
                    }
                }
            } else {
                i = i + 1;
            }
        }
        let ghost pruned = self.vms@;
        let new_entry = VmEntry { instance: vm, handle_count: 1 };
        self.vms.push(new_entry);
        proof {
            assert(self.vms@.drop_last() =~= pruned);
            assert(self.vms@.last() == new_entry);
            assert(live_seq_of(self.vms@) == live_seq_of(pruned).push(vm));
            assert(self.has_live(vm.cid)) by {
                assert(self.vms@[self.vms@.len() - 1].live());
            }
            assert forall|c: Cid|
                c != vm.cid implies (self.has_live(c) <==> has_live_of(orig, c)) by {
                if has_live_of(pruned, c) {
                    let w = choose|w: int|
                        0 <= w < pruned.len() && pruned[w].live() && pruned[w].instance.cid == c;
                    assert(self.vms@[w].live() && self.vms@[w].instance.cid == c);
                }
                if self.has_live(c) {
                    let w = choose|w: int|
                        0 <= w < self.vms@.len() && self.vms@[w].live()
                            && self.vms@[w].instance.cid == c;
                    assert(w < pruned.len());
                    assert(pruned[w] == self.vms@[w]);
                }
            }
            if distinct_cids_of(orig) {
                assert forall|a: int, b: int|
                    0 <= a < b < self.vms@.len() && self.vms@[a].live()
                        && self.vms@[b].live() implies self.vms@[a].instance.cid
                    != self.vms@[b].instance.cid by {
                    if b == self.vms@.len() - 1 {
                        assert(self.vms@[a] == pruned[a]);
                        assert(!has_live_of(pruned, vm.cid));
                        if self.vms@[a].instance.cid == vm.cid {
                            assert(has_live_of(pruned, vm.cid));
                        }
                    } else {
                        assert(self.vms@[a] == pruned[a]);
                        assert(self.vms@[b] == pruned[b]);
                    }
                }
            }
        }
    }

    /// The index of the live entry carrying the given identifier, if
    /// any. The first match wins; under distinct live identifiers it
    /// is the only one.
    pub fn get_vm(&self, cid: Cid) -> (r: Option<usize>)
        ensures
            match r {
                Some(i) => i < self.vms@.len() && self.vms@[i as int].live()
                    && self.vms@[i as int].instance.cid == cid,
                None => !self.has_live(cid),
            },
    {
        let n = self.vms.len();
        let mut i: usize = 0;
        while i < n
            invariant
                n == self.vms@.len(),
                0 <= i <= n,
                forall|j: int|
                    0 <= j < i ==> !(self.vms@[j].live() && self.vms@[j].instance.cid == cid),
            decreases n - i,
        {
            if self.vms[i].handle_count > 0 && self.vms[i].instance.cid == cid {
                return Some(i);
            }
            i = i + 1;
        }
        None
    }

    /// A consistent snapshot of every live instance, in registry
    /// order, as debug descriptions. The snapshot may be stale the
    /// moment the caller reads it; it is never dangling.
    pub fn vms(&self) -> (r: Vec<VirtualMachineDebugInfo>)
        ensures
            r@ == self.live_vms().map_values(|v: VmInstance| spec_debug_info_of(v)),
            r@.len() == self.live_count(),
    {
        let n = self.vms.len();
        let mut out: Vec<VirtualMachineDebugInfo> = Vec::new();
        let mut i: usize = 0;
        while i < n
            invariant
                n == self.vms@.len(),
                0 <= i <= n,
                out@ == live_seq_of(self.vms@.subrange(0, i as int)).map_values(
                    |v: VmInstance| spec_debug_info_of(v),
                ),
            decreases n - i,
        {
            proof {
                assert(self.vms@.subrange(0, i + 1).drop_last() =~= self.vms@.subrange(
                    0,
                    i as int,
                ));
                assert(self.vms@.subrange(0, i + 1).last() == self.vms@[i as int]);
            }
            if self.vms[i].handle_count > 0 {
                let v = &self.vms[i].instance;
                let info = VirtualMachineDebugInfo {
                    cid: v.cid as i32,
                    temporary_directory: v.temporary_directory.clone(),
                    requester_uid: v.requester_uid as i32,
                    requester_sid: v.requester_sid.clone(),
                    requester_pid: v.requester_debug_pid,
                    state: get_state(v),
                };
                out.push(info);
                proof {
                    let sub = self.vms@.subrange(0, i + 1);
                    assert(out@ =~= live_seq_of(sub).map_values(
                        |v: VmInstance| spec_debug_info_of(v),
                    ));
                }
            }
            i = i + 1;
        }
        proof {
            assert(self.vms@.subrange(0, n as int) =~= self.vms@);
        }
        out
    }

    /// Record one more owning handle on the live entry with the given
    /// identifier, held on behalf of a debug caller.
    ///
    /// Succeeds for every live identifier; the one failure short of
    /// `NotFound` is a handle count at the machine limit.
    pub fn debug_hold_vm(&mut self, cid: Cid) -> (r: Result<(), ServiceError>)
        requires
            old(self).distinct_live_cids(),
        ensures
            r is Ok <==> (old(self).has_live(cid)
                && old(self).vms@[old(self).live_index(cid)].handle_count < u64::MAX),
            match r {
                Ok(()) => {
                    let i = old(self).live_index(cid);
                    &&& final(self).debug_held_vms@ == old(self).debug_held_vms@.push(cid)
                    &&& final(self).vms@ == old(self).vms@.update(
                        i,
                        VmEntry {
                            instance: old(self).vms@[i].instance,
                            handle_count: (old(self).vms@[i].handle_count + 1) as u64,
                        },
                    )
                    &&& final(self).live_vms() == old(self).live_vms()
                    &&& forall|c: Cid| final(self).has_live(c) <==> old(self).has_live(c)
                    &&& final(self).distinct_live_cids()
                },
                Err(e) => {
                    &&& *final(self) == *old(self)
                    &&& (e.kind == ErrorKind::NotFound && !old(self).has_live(cid)) || (e.kind
                        == ErrorKind::Internal && old(self).has_live(cid))
                },
            },
    {
        let i = match self.get_vm(cid) {
            Some(i) => i,
            None => {
                return Err(ServiceError::new(ErrorKind::NotFound, "no VM with this CID"));
            },
        };
        proof {
            self.lemma_live_index_unique(cid, i as int);
        }
        if self.vms[i].handle_count == u64::MAX {
            return Err(ServiceError::new(ErrorKind::Internal, "handle count overflow"));
        }
        let ghost pre = self.vms@;
        let entry = &mut self.vms[i];
        entry.handle_count = entry.handle_count + 1;
        proof {
            let updated = self.vms@[i as int];
            assert(self.vms@ == pre.update(i as int, updated));
            assert(updated == (VmEntry {
                instance: pre[i as int].instance,
                handle_count: (pre[i as int].handle_count + 1) as u64,
            }));
            lemma_live_seq_update_same(pre, i as int, updated);
            assert forall|c: Cid| self.has_live(c) <==> has_live_of(pre, c) by {
                if has_live_of(pre, c) {
                    let w = choose|w: int|
                        0 <= w < pre.len() && pre[w].live() && pre[w].instance.cid == c;
                    assert(self.vms@[w].live() && self.vms@[w].instance.cid == c);
                }
                if self.has_live(c) {
                    let w = choose|w: int|
                        0 <= w < self.vms@.len() && self.vms@[w].live()
                            && self.vms@[w].instance.cid == c;
                    assert(pre[w].live() && pre[w].instance.cid == c);
                }
            }
            if distinct_cids_of(pre) {
                assert forall|a: int, b: int|
                    0 <= a < b < self.vms@.len() && self.vms@[a].live()
                        && self.vms@[b].live() implies self.vms@[a].instance.cid
                    != self.vms@[b].instance.cid by {
                    assert(pre[a].live() && pre[b].live());
                }
            }
        }
        self.debug_held_vms.push(cid);
        Ok(())
    }

    /// Retrieve and remove a debug-held handle for the given
    /// identifier. Ownership of the handle passes to the caller, who
    /// must release it like any other; the entry's handle count is
    /// unchanged.
    pub fn debug_drop_vm(&mut self, cid: Cid) -> (r: Option<Cid>)
        ensures
            final(self).vms@ == old(self).vms@,
            match r {
                Some(c) => {
                    &&& c == cid
                    &&& old(self).debug_held_vms@.contains(cid)
                    // Exactly one occurrence of the identifier leaves
                    // the held list; every other hold stays.
                    &&& final(self).debug_held_vms@.to_multiset() == old(
                        self,
                    ).debug_held_vms@.to_multiset().remove(cid)
                },
                None => !old(self).debug_held_vms@.contains(cid) && *final(self) == *old(self),
            },
    {
        let n = self.debug_held_vms.len();
        let mut i: usize = 0;
        while i < n
            invariant
                *self == *old(self),
                n == self.debug_held_vms@.len(),
                0 <= i <= n,
                forall|j: int| 0 <= j < i ==> self.debug_held_vms@[j] != cid,
            decreases n - i,
        {
            if self.debug_held_vms[i] == cid {
                proof {
                    assert(self.debug_held_vms@.contains(cid)) by {
                        assert(self.debug_held_vms@[i as int] == cid);
                    }
                }
                let ghost held = self.debug_held_vms@;
                let c = self.debug_held_vms.swap_remove(i);
                proof {
                    lemma_swap_remove_to_multiset(held, i as int);
                }
                return Some(c);
            }
            i = i + 1;
        }
        proof {
            if self.debug_held_vms@.contains(cid) {
                let w = choose|w: int|
                    0 <= w < self.debug_held_vms@.len() && self.debug_held_vms@[w] == cid;
                assert(false);
            }
        }
        None
    }

    /// Whether any debug-held handles remain; while some do, the
    /// caller keeps the process alive on their behalf.
    pub fn has_debug_holds(&self) -> (r: bool)
        ensures
            r == (self.debug_held_vms@.len() > 0),
    {
        self.debug_held_vms.len() > 0
    }

    /// Release one owning handle on the live entry with the given
    /// identifier. When the last handle goes, the instance is torn
    /// down: it becomes dead to every query, and the returned child
    /// handle, if any, is the process the caller should kill,
    /// best-effort.
    pub fn drop_handle(&mut self, cid: Cid) -> (r: Result<Option<ChildId>, ServiceError>)
        requires
            old(self).distinct_live_cids(),
        ensures
            final(self).debug_held_vms@ == old(self).debug_held_vms@,
            final(self).distinct_live_cids(),
            r is Ok <==> old(self).has_live(cid),
            match r {
                Ok(killed) => {
                    let i = old(self).live_index(cid);
                    let e = old(self).vms@[i];
                    &&& final(self).vms@ == old(self).vms@.update(i, final(self).vms@[i])
                    &&& final(self).vms@[i].handle_count == e.handle_count - 1
                    &&& (e.handle_count > 1 ==> {
                        &&& final(self).vms@[i].instance == e.instance
                        &&& killed is None
                        &&& final(self).has_live(cid)
                        &&& final(self).live_instance(cid) == e.instance
                        &&& final(self).live_count() == old(self).live_count()
                    })
                    &&& (e.handle_count == 1 ==> {
                        &&& !final(self).has_live(cid)
                        &&& final(self).live_count() == old(self).live_count() - 1
                        &&& final(self).vms@[i].instance == (VmInstance {
                            vm_state: final(self).vms@[i].instance.vm_state,
                            ..e.instance
                        })
                        &&& final(self).vms@[i].instance.vm_state == (
                        match e.instance.vm_state {
                            VmState::Failed => VmState::Failed,
                            _ => VmState::Dead,
                        })
                        &&& killed == (match e.instance.vm_state {
                            VmState::Running { child } => Some(child),
                            _ => None,
                        })
                    })
                    &&& forall|c: Cid|
                        c != cid ==> (final(self).has_live(c) <==> old(self).has_live(c))
                },
                Err(e) => {
                    &&& e.kind == ErrorKind::NotFound
                    &&& !old(self).has_live(cid)
                    &&& *final(self) == *old(self)
                },
            },
    {
        let i = match self.get_vm(cid) {
            Some(i) => i,
            None => {
                return Err(ServiceError::new(ErrorKind::NotFound, "no VM with this CID"));
            },
        };
        proof {
            old(self).lemma_live_index_unique(cid, i as int);
        }
        let ghost pre = self.vms@;
        let entry = &mut self.vms[i];
        let new_count = entry.handle_count - 1;
        entry.handle_count = new_count;
        let killed = if new_count == 0 {
            entry.instance.kill()
        } else {
            None
        };
        proof {
            let updated = self.vms@[i as int];
            assert(self.vms@ == pre.update(i as int, updated));
            lemma_live_seq_update(pre, i as int, updated);
            assert forall|c: Cid|
                c != cid implies (self.has_live(c) <==> has_live_of(pre, c)) by {
                if has_live_of(pre, c) {
                    let w = choose|w: int|
                        0 <= w < pre.len() && pre[w].live() && pre[w].instance.cid == c;
                    assert(w != i);
                    assert(self.vms@[w].live() && self.vms@[w].instance.cid == c);
                }
                if self.has_live(c) {
                    let w = choose|w: int|
                        0 <= w < self.vms@.len() && self.vms@[w].live()
                            && self.vms@[w].instance.cid == c;
                    assert(pre[w].live() && pre[w].instance.cid == c);
                }
            }
            if new_count > 0 {
                assert(self.has_live(cid)) by {
                    assert(self.vms@[i as int].live());
                }
            } else {
                assert(!self.has_live(cid)) by {
                    if self.has_live(cid) {
                        let w = choose|w: int|
                            0 <= w < self.vms@.len() && self.vms@[w].live()
                                && self.vms@[w].instance.cid == cid;
                        assert(w != i);
                        assert(pre[w].live() && pre[w].instance.cid == cid);
                        assert(pre[i as int].live() && pre[i as int].instance.cid == cid);
                        assert(false);
                    }
                }
            }
            assert forall|a: int, b: int|
                0 <= a < b < self.vms@.len() && self.vms@[a].live()
                    && self.vms@[b].live() implies self.vms@[a].instance.cid
                != self.vms@[b].instance.cid by {
                assert(pre[a].live() && pre[b].live());
                assert(self.vms@[a].instance.cid == pre[a].instance.cid);
                assert(self.vms@[b].instance.cid == pre[b].instance.cid);
            }
            assert(distinct_cids_of(self.vms@));
            if new_count > 0 {
                self.lemma_live_index_unique(cid, i as int);
            }
        }
        Ok(killed)
    }
}

} // verus!
