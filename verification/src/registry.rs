//! The connection registry: the set of open notification channels, keyed by
//! session identifier, and the broadcast plan drawn from it.
//!
//! The registry owns the channels and never looks inside them. Whoever holds
//! it decides how access is serialised; every operation here takes the whole
//! registry, so a caller that guards it with one lock gets insert, remove and
//! iterate mutually exclusive.

use std::collections::HashMap;
use vstd::prelude::*;
use vstd::std_specs::hash::spec_hash_map_iter;
use vstd::std_specs::iter::IteratorSpec;

verus! {

broadcast use vstd::std_specs::hash::group_hash_axioms;

/// Whether `plan` lists the sessions of `sessions`, each exactly once and
/// with its own channel.
pub open spec fn is_broadcast_plan<C>(plan: Seq<(u128, C)>, sessions: Map<u128, C>) -> bool {
    &&& forall|i: int|
        0 <= i < plan.len() ==> sessions.contains_key((#[trigger] plan[i]).0)
            && sessions[plan[i].0] == plan[i].1
    &&& forall|i: int, j: int|
        0 <= i < j < plan.len() ==> (#[trigger] plan[i]).0 != (#[trigger] plan[j]).0
    &&& forall|id: u128|
        sessions.contains_key(id) ==> exists|i: int|
            0 <= i < plan.len() && (#[trigger] plan[i]).0 == id
}

/// Whether `id` has the shape of a random identifier: version 4 in its
/// version field and the RFC 4122 variant in its variant field.
pub open spec fn is_random_id(id: u128) -> bool {
    (id >> 76) & 0xf == 4 && (id >> 62) & 0x3 == 2
}

/// Calls `uuid::Uuid::new_v4` and packs the identifier into an integer with
/// `Uuid::as_u128`. Trusted: whatever the random bits, the version and
/// variant fields are those of a random identifier. Nothing is claimed about
/// two calls differing. The call panics where the operating system hands out
/// no random bytes.
#[verifier::external_body]
fn fresh_session_id() -> (id: u128)
    ensures
        is_random_id(id),
{
    uuid::Uuid::new_v4().as_u128()
}

/// Open sessions, each an identifier with its channel.
pub struct Registry<C> {
    sessions: HashMap<u128, C>,
}

impl<C> View for Registry<C> {
    type V = Map<u128, C>;

    closed spec fn view(&self) -> Map<u128, C> {
        self.sessions@
    }
}

impl<C> Registry<C> {
    /// A registry without sessions.
    pub fn new() -> (registry: Self)
        ensures
            registry@ == Map::<u128, C>::empty(),
    {
        Registry { sessions: HashMap::new() }
    }

    /// Adds a session. A session already registered under `id` is replaced.
    pub fn register(&mut self, id: u128, channel: C)
        ensures
            final(self)@ == old(self)@.insert(id, channel),
    {
        self.sessions.insert(id, channel);
    }

    /// Removes the session registered under `id` and says whether there was
    /// one. Removing an absent session changes nothing.
    pub fn unregister(&mut self, id: u128) -> (removed: bool)
        ensures
            final(self)@ == old(self)@.remove(id),
            removed == old(self)@.contains_key(id),
            !removed ==> final(self)@ == old(self)@,
    {
        self.sessions.remove(&id).is_some()
    }

    /// Whether a session is registered under `id`.
    pub fn is_registered(&self, id: u128) -> (registered: bool)
        ensures
            registered == self@.contains_key(id),
    {
        self.sessions.contains_key(&id)
    }

    /// The sessions one broadcast pass sends to: every open session, each
    /// exactly once, in no particular order.
    pub fn broadcast_targets(&self) -> (targets: Vec<(u128, &C)>)
        ensures
            is_broadcast_plan(targets@.map_values(|t: (u128, &C)| (t.0, *t.1)), self@),
    {
        let mut targets: Vec<(u128, &C)> = Vec::new();
        for entry in it: self.sessions.iter()
            invariant
                it.seq() == spec_hash_map_iter(&self.sessions).remaining(),
                it.seq().no_duplicates(),
                targets@.len() == it.index(),
                forall|i: int|
                    0 <= i < targets@.len() ==> (#[trigger] targets@[i]).0 == *it.seq()[i].0
                        && targets@[i].1 == it.seq()[i].1,
        {
            let (id, channel) = entry;
            targets.push((*id, channel));
        }
        proof {
            let entries = spec_hash_map_iter(&self.sessions).remaining();
            let plan = targets@.map_values(|t: (u128, &C)| (t.0, *t.1));
            assert forall|i: int, j: int| 0 <= i < j < plan.len() implies (#[trigger] plan[i]).0
                != (#[trigger] plan[j]).0 by {
                // Two entries under one identifier would carry one channel,
                // and the iterator yields no entry twice.
                if plan[i].0 == plan[j].0 {
                    assert(self.sessions@[*entries[i].0] == *entries[i].1);
                    assert(self.sessions@[*entries[j].0] == *entries[j].1);
                    assert(entries[i] == entries[j]);
                }
            }
            assert forall|id: u128| self@.contains_key(id) implies exists|i: int|
                0 <= i < plan.len() && (#[trigger] plan[i]).0 == id by {
                let entry = (&id, &self.sessions@[id]);
                assert(entries.contains(entry));
                let i = choose|i: int| 0 <= i < entries.len() && entries[i] == entry;
                assert(plan[i].0 == id);
            }
        }
        targets
    }

    /// Registers a channel that was just opened under a fresh random
    /// identifier and returns the identifier.
    pub fn open_session(&mut self, channel: C) -> (id: u128)
        ensures
            is_random_id(id),
            final(self)@ == old(self)@.insert(id, channel),
    {
        let id = fresh_session_id();
        self.register(id, channel);
        id
    }

    /// Applies `f` to the channel of every open session, each exactly once,
    /// and returns the sessions for which `f` said `false`. A failure does
    /// not keep `f` from the sessions that follow, and no session is
    /// unregistered for it.
    pub fn for_each_active<F: Fn(&C) -> bool>(&self, f: F) -> (failed: Vec<u128>)
        requires
            forall|id: u128| self@.contains_key(id) ==> call_requires(f, (&self@[id],)),
        ensures
            failed@.no_duplicates(),
            forall|i: int|
                0 <= i < failed@.len() ==> self@.contains_key(#[trigger] failed@[i])
                    && call_ensures(f, (&self@[failed@[i]],), false),
            forall|id: u128|
                self@.contains_key(id) && !failed@.contains(id) ==> call_ensures(
                    f,
                    (&self@[id],),
                    true,
                ),
    {
        let targets = self.broadcast_targets();
        let ghost plan = targets@.map_values(|t: (u128, &C)| (t.0, *t.1));
        let mut failed: Vec<u128> = Vec::new();
        let mut k: usize = 0;
        while k < targets.len()
            invariant
                k <= targets@.len(),
                plan == targets@.map_values(|t: (u128, &C)| (t.0, *t.1)),
                is_broadcast_plan(plan, self@),
                forall|id: u128| self@.contains_key(id) ==> call_requires(f, (&self@[id],)),
                failed@.no_duplicates(),
                forall|i: int|
                    0 <= i < failed@.len() ==> exists|j: int|
                        0 <= j < k && (#[trigger] plan[j]).0 == #[trigger] failed@[i],
                forall|i: int|
                    0 <= i < failed@.len() ==> self@.contains_key(#[trigger] failed@[i])
                        && call_ensures(f, (&self@[failed@[i]],), false),
                forall|j: int|
                    0 <= j < k && !failed@.contains((#[trigger] plan[j]).0) ==> call_ensures(
                        f,
                        (&self@[plan[j].0],),
                        true,
                    ),
            decreases targets@.len() - k,
        {
            let (id, channel) = targets[k];
            let ghost before = failed@;
            assert(plan[k as int] == (id, *channel));
            let delivered = f(channel);
            if !delivered {
                assert forall|a: int| 0 <= a < before.len() implies before[a] != id by {
                    // Every earlier failure sits at an earlier place of the
                    // plan, and the plan names no session twice.
                    let j = choose|j: int| 0 <= j < k && (#[trigger] plan[j]).0 == before[a];
                    assert(plan[j].0 != plan[k as int].0);
                }
                failed.push(id);
                assert(failed@[before.len() as int] == plan[k as int].0);
            }
            assert forall|j: int|
                0 <= j < k && !failed@.contains((#[trigger] plan[j]).0) implies !before.contains(
                plan[j].0,
            ) by {
                if before.contains(plan[j].0) {
                    let a = choose|a: int| 0 <= a < before.len() && before[a] == plan[j].0;
                    assert(failed@[a] == plan[j].0);
                }
            }
            k = k + 1;
        }
        assert forall|id: u128|
            self@.contains_key(id) && !failed@.contains(id) implies call_ensures(
            f,
            (&self@[id],),
            true,
        ) by {
            let j = choose|j: int| 0 <= j < plan.len() && (#[trigger] plan[j]).0 == id;
            assert(!failed@.contains(plan[j].0));
        }
        failed
    }

    /// The number of open sessions.
    pub fn len(&self) -> (n: usize)
        ensures
            n == self@.len(),
    {
        self.sessions.len()
    }
}

/// One step in the life of a registry.
pub ghost enum RegistryOp<C> {
    /// A session is registered with its channel.
    Register(u128, C),
    /// A session is unregistered.
    Unregister(u128),
    /// A broadcast pass runs; it leaves the registry as it is.
    Broadcast,
}

/// The sessions after one step.
pub open spec fn apply_op<C>(sessions: Map<u128, C>, op: RegistryOp<C>) -> Map<u128, C> {
    match op {
        RegistryOp::Register(id, channel) => sessions.insert(id, channel),
        RegistryOp::Unregister(id) => sessions.remove(id),
        RegistryOp::Broadcast => sessions,
    }
}

/// The sessions of a registry that started empty and went through `ops`.
pub open spec fn sessions_after<C>(ops: Seq<RegistryOp<C>>) -> Map<u128, C>
    decreases ops.len(),
{
    if ops.len() == 0 {
        Map::empty()
    } else {
        apply_op(sessions_after(ops.drop_last()), ops.last())
    }
}

/// Whether the step registers the session `id`.
pub open spec fn registers<C>(op: RegistryOp<C>, id: u128) -> bool {
    op matches RegistryOp::Register(registered, _) && registered == id
}

/// Whether the step unregisters the session `id`.
pub open spec fn unregisters<C>(op: RegistryOp<C>, id: u128) -> bool {
    op matches RegistryOp::Unregister(unregistered) && unregistered == id
}

/// Whether session `id` is live just before step `k`: one of the first `k`
/// steps registered it, and no step after that one and before `k`
/// unregistered it.
pub open spec fn live_before<C>(ops: Seq<RegistryOp<C>>, k: int, id: u128) -> bool {
    exists|i: int|
        0 <= i < k && #[trigger] registers(ops[i], id) && forall|j: int|
            i < j < k ==> !#[trigger] unregisters(ops[j], id)
}

/// Whether the plan sends to session `id` exactly once.
pub open spec fn reaches_once<C>(plan: Seq<(u128, C)>, id: u128) -> bool {
    exists|i: int|
        0 <= i < plan.len() && (#[trigger] plan[i]).0 == id && forall|j: int|
            0 <= j < plan.len() && (#[trigger] plan[j]).0 == id ==> j == i
}

/// Whether the plan sends to session `id` at all.
pub open spec fn reaches<C>(plan: Seq<(u128, C)>, id: u128) -> bool {
    exists|i: int| 0 <= i < plan.len() && (#[trigger] plan[i]).0 == id
}

proof fn lemma_registered_iff_live<C>(ops: Seq<RegistryOp<C>>, k: int, id: u128)
    requires
        0 <= k <= ops.len(),
    ensures
        sessions_after(ops.take(k)).contains_key(id) <==> live_before(ops, k, id),
    decreases k,
{
    if k > 0 {
        let last = ops[k - 1];
        assert(ops.take(k).drop_last() =~= ops.take(k - 1));
        lemma_registered_iff_live(ops, k - 1, id);
        if registers(last, id) {
            // The last step is itself the registration that keeps `id` live.
            assert(live_before(ops, k, id));
        } else if live_before(ops, k, id) {
            // The registration lies before the last step, which therefore
            // does not unregister `id`.
            assert(!unregisters(last, id));
            assert(live_before(ops, k - 1, id));
        } else if live_before(ops, k - 1, id) {
            // Only the last step can have ended it.
            assert(unregisters(last, id));
        }
    }
}

/// Delivery: however registrations, unregistrations and broadcast passes are
/// interleaved on a registry that started empty, the plan of a pass sends to
/// a session exactly once where the session was registered before the pass
/// and not unregistered since, and not at all otherwise.
pub proof fn law_broadcast_reaches_live_sessions<C>(
    ops: Seq<RegistryOp<C>>,
    k: int,
    plan: Seq<(u128, C)>,
    id: u128,
)
    requires
        0 <= k < ops.len(),
        ops[k] is Broadcast,
        is_broadcast_plan(plan, sessions_after(ops.take(k))),
    ensures
        live_before(ops, k, id) ==> reaches_once(plan, id),
        !live_before(ops, k, id) ==> !reaches(plan, id),
{
    lemma_registered_iff_live(ops, k, id);
}

/// Unregistering is idempotent: a second unregistration changes nothing, and
/// neither does the unregistration of a session that is not registered.
pub proof fn law_unregister_absent_is_noop<C>(sessions: Map<u128, C>, id: u128)
    ensures
        sessions.remove(id).remove(id) == sessions.remove(id),
        !sessions.contains_key(id) ==> sessions.remove(id) == sessions,
{
}

} // verus!
