//! The hub's general laws, stated over the same models its contracts use.

use vstd::prelude::*;
use crate::models::Boon;
use crate::honk::Honk;
use crate::honk::lists_sessions;

verus! {

/// Upserting an entity with one id twice leaves exactly one record for that
/// id, equal to the second payload: the second upsert replaces the first
/// rather than accumulating beside it.
pub proof fn lemma_upsert_replaces(m0: Map<i64, Boon>, b1: Boon, b2: Boon)
    requires
        b1.id == b2.id,
    ensures
        m0.insert(b1.id, b1).insert(b2.id, b2) == m0.insert(b2.id, b2),
        m0.insert(b1.id, b1).insert(b2.id, b2)[b2.id] == b2,
        m0.insert(b1.id, b1).insert(b2.id, b2).dom() == m0.dom().insert(b2.id),
{
    assert(m0.insert(b1.id, b1).insert(b2.id, b2) =~= m0.insert(b2.id, b2));
    assert(m0.insert(b1.id, b1).insert(b2.id, b2).dom() =~= m0.dom().insert(b2.id));
}

/// Fanning a payload out to a room whose session table lists n sessions,
/// one of which is broken, addresses all n and succeeds for exactly n - 1;
/// pruning the broken session leaves it absent from the table and keeps
/// every other session.
pub proof fn lemma_fanout_prunes_broken(
    sessions: Set<u128>,
    targets: Seq<u128>,
    broken: u128,
    failed: Seq<u128>,
)
    requires
        sessions.finite(),
        lists_sessions(targets, sessions),
        sessions.contains(broken),
        failed == Seq::<u128>::empty().push(broken),
    ensures
        targets.len() == sessions.len(),
        sessions.remove(broken).len() == sessions.len() - 1,
        !sessions.remove(broken).contains(broken),
        forall|s: u128|
            sessions.contains(s) && s != broken ==> sessions.remove(broken).contains(s),
        sessions.difference(failed.to_set()) == sessions.remove(broken),
{
    targets.unique_seq_to_set();
    assert(failed[0] == broken);
    assert forall|x: u128| #[trigger] failed.to_set().contains(x) implies x == broken by {
        let j = choose|j: int| 0 <= j < failed.len() && failed[j] == x;
        assert(j == 0);
    }
    assert(failed.to_set().contains(broken));
    assert(sessions.difference(failed.to_set()) =~= sessions.remove(broken));
}

/// Once the last session's leave has removed a room's path, that path is no
/// longer listed by the registry, and every other path keeps its room.
pub proof fn lemma_teardown_removes_path(m: Map<Seq<char>, Honk>, path: Seq<char>)
    ensures
        !m.remove(path).contains_key(path),
        forall|q: Seq<char>|
            q != path ==> (#[trigger] m.remove(path).contains_key(q) <==> m.contains_key(q)),
        forall|q: Seq<char>|
            q != path && #[trigger] m.contains_key(q) ==> m.remove(path)[q] == m[q],
{
}

} // verus!
