//! How the registry fills and empties as sessions come and go.
//!
//! A session is admitted when it is accepted and dismissed when its peer
//! closes the channel. The laws of this module hold of a registry that only
//! sessions change: it never holds more entries than there are live
//! sessions, and once every session that was admitted has been dismissed
//! it is empty again.

use vstd::prelude::*;
use crate::registry::{RegistryOpView, RegistryView};
use crate::session::SessionView;
use crate::types::{EntityType, EntityView};

verus! {

/// The connection ids of a run of sessions, in order.
pub open spec fn connection_ids_of<P>(sessions: Seq<SessionView<P>>) -> Seq<Seq<char>> {
    Seq::new(sessions.len(), |i: int| sessions[i].connection_id)
}

/// The entity ids of a run of sessions, in order.
pub open spec fn entity_ids_of<P>(sessions: Seq<SessionView<P>>) -> Seq<Seq<char>> {
    Seq::new(sessions.len(), |i: int| sessions[i].entity_id)
}

/// Every entry of `registry` belongs to one of the sessions in `live`:
/// each connection id is that of a live session, and each entity is the
/// player entity of a live session.
pub open spec fn accounted_for<P>(registry: RegistryView<P>, live: Seq<SessionView<P>>) -> bool {
    &&& registry.well_formed()
    &&& forall|id: Seq<char>| #[trigger]
        registry.connections.contains_key(id) ==> connection_ids_of(live).contains(id)
    &&& forall|id: Seq<char>| #[trigger]
        registry.entities.contains_key(id) ==> entity_ids_of(live).contains(id)
            && registry.entities[id].entity_type == EntityType::Player
}

/// The registry after `session` has been admitted under its identifiers.
pub open spec fn admitted<P>(
    registry: RegistryView<P>,
    session: SessionView<P>,
) -> RegistryView<P> {
    registry.apply_all(session.admission(session.connection_id, session.entity_id))
}

/// The registry after `session` has been dismissed.
pub open spec fn dismissed<P>(
    registry: RegistryView<P>,
    session: SessionView<P>,
) -> RegistryView<P> {
    registry.apply_all(session.dismissal())
}

/// The registry after each of `sessions` has been admitted, first to last.
pub open spec fn admitted_all<P>(
    registry: RegistryView<P>,
    sessions: Seq<SessionView<P>>,
) -> RegistryView<P>
    decreases sessions.len(),
{
    if sessions.len() == 0 {
        registry
    } else {
        admitted(admitted_all(registry, sessions.drop_last()), sessions.last())
    }
}

/// The registry after each of `sessions` has been dismissed, first to last.
pub open spec fn dismissed_all<P>(
    registry: RegistryView<P>,
    sessions: Seq<SessionView<P>>,
) -> RegistryView<P>
    decreases sessions.len(),
{
    if sessions.len() == 0 {
        registry
    } else {
        dismissed(dismissed_all(registry, sessions.drop_last()), sessions.last())
    }
}

/// Two changes in a row are the first, then the second.
proof fn lemma_apply_two<P>(registry: RegistryView<P>, ops: Seq<RegistryOpView<P>>)
    requires
        ops.len() == 2,
    ensures
        registry.apply_all(ops) == registry.apply(ops[0]).apply(ops[1]),
{
    let first = ops.drop_last();
    assert(registry.apply_all(first.drop_last()) == registry);
    assert(registry.apply_all(first) == registry.apply(first.last()));
}

/// Admitting a session files its record under its connection id and its
/// player entity, placed at the spawn point, under its entity id.
pub proof fn lemma_admitted<P>(registry: RegistryView<P>, session: SessionView<P>)
    ensures
        admitted(registry, session) == registry.register_connection(
            session.connection_id,
            session.address,
        ).register_entity(EntityView::player(session.entity_id, session.address, session.spawn)),
        registry.well_formed() ==> admitted(registry, session).well_formed(),
{
    lemma_apply_two(registry, session.admission(session.connection_id, session.entity_id));
}

/// Dismissing a session takes its connection id out, and its entity id
/// too where a player entity is filed under it. Nothing else changes.
pub proof fn lemma_dismissed<P>(registry: RegistryView<P>, session: SessionView<P>)
    ensures
        dismissed(registry, session) == registry.unregister_connection(
            session.connection_id,
        ).unregister_entity(EntityType::Player, session.entity_id),
        registry.well_formed() ==> dismissed(registry, session).well_formed(),
{
    lemma_apply_two(registry, session.dismissal());
}

/// A session that is admitted joins the live sessions, and every entry is
/// still accounted for.
pub proof fn lemma_admission_is_accounted_for<P>(
    registry: RegistryView<P>,
    live: Seq<SessionView<P>>,
    session: SessionView<P>,
)
    requires
        accounted_for(registry, live),
    ensures
        accounted_for(admitted(registry, session), live.push(session)),
{
    lemma_admitted(registry, session);
    let after = admitted(registry, session);
    let now = live.push(session);
    assert forall|id: Seq<char>| #[trigger] after.connections.contains_key(id) implies connection_ids_of(
        now,
    ).contains(id) by {
        if id == session.connection_id {
            assert(connection_ids_of(now)[live.len() as int] == id);
        } else {
            let i = connection_ids_of(live).index_of(id);
            assert(connection_ids_of(now)[i] == id);
        }
    }
    assert forall|id: Seq<char>| #[trigger] after.entities.contains_key(id) implies entity_ids_of(
        now,
    ).contains(id) && after.entities[id].entity_type == EntityType::Player by {
        if id == session.entity_id {
            assert(entity_ids_of(now)[live.len() as int] == id);
        } else {
            let i = entity_ids_of(live).index_of(id);
            assert(entity_ids_of(now)[i] == id);
        }
    }
}

/// A live session that is dismissed leaves the live sessions, and every
/// entry is still accounted for.
pub proof fn lemma_dismissal_is_accounted_for<P>(
    registry: RegistryView<P>,
    live: Seq<SessionView<P>>,
    i: int,
)
    requires
        accounted_for(registry, live),
        0 <= i < live.len(),
    ensures
        accounted_for(dismissed(registry, live[i]), live.remove(i)),
{
    let session = live[i];
    lemma_dismissed(registry, session);
    let after = dismissed(registry, session);
    let now = live.remove(i);
    assert forall|id: Seq<char>| #[trigger] after.connections.contains_key(id) implies connection_ids_of(
        now,
    ).contains(id) by {
        let j = connection_ids_of(live).index_of(id);
        let k = if j < i { j } else { j - 1 };
        assert(connection_ids_of(now)[k] == id);
    }
    assert forall|id: Seq<char>| #[trigger] after.entities.contains_key(id) implies entity_ids_of(
        now,
    ).contains(id) && after.entities[id].entity_type == EntityType::Player by {
        let j = entity_ids_of(live).index_of(id);
        let k = if j < i { j } else { j - 1 };
        assert(entity_ids_of(now)[k] == id);
    }
}

/// A registry whose entries are all accounted for holds no more
/// connections and no more entities than there are live sessions. With no
/// live session it is empty.
pub proof fn lemma_entries_bounded_by_live_sessions<P>(
    registry: RegistryView<P>,
    live: Seq<SessionView<P>>,
)
    requires
        accounted_for(registry, live),
    ensures
        registry.connections.len() <= live.len(),
        registry.entities.len() <= live.len(),
        live.len() == 0 ==> registry.is_empty(),
{
    let connection_ids = connection_ids_of(live);
    let entity_ids = entity_ids_of(live);
    vstd::seq_lib::seq_to_set_is_finite(connection_ids);
    vstd::seq_lib::seq_to_set_is_finite(entity_ids);
    connection_ids.lemma_cardinality_of_set();
    entity_ids.lemma_cardinality_of_set();
    vstd::set_lib::lemma_len_subset(registry.connections.dom(), connection_ids.to_set());
    vstd::set_lib::lemma_len_subset(registry.entities.dom(), entity_ids.to_set());
}

/// After the sessions have been admitted to the empty registry one after
/// another, every entry is accounted for by them.
proof fn lemma_admissions_accounted_for<P>(sessions: Seq<SessionView<P>>)
    ensures
        accounted_for(admitted_all(RegistryView::<P>::empty(), sessions), sessions),
    decreases sessions.len(),
{
    if sessions.len() > 0 {
        let earlier = sessions.drop_last();
        lemma_admissions_accounted_for(earlier);
        lemma_admission_is_accounted_for(
            admitted_all(RegistryView::<P>::empty(), earlier),
            earlier,
            sessions.last(),
        );
        assert(earlier.push(sessions.last()) =~= sessions);
    }
}

/// After the first `k` of the live sessions have been dismissed one after
/// another, every entry is accounted for by the rest.
proof fn lemma_dismissals_accounted_for<P>(
    registry: RegistryView<P>,
    sessions: Seq<SessionView<P>>,
    k: int,
)
    requires
        accounted_for(registry, sessions),
        0 <= k <= sessions.len(),
    ensures
        accounted_for(dismissed_all(registry, sessions.take(k)), sessions.skip(k)),
    decreases k,
{
    if k == 0 {
        assert(sessions.skip(0) =~= sessions);
    } else {
        lemma_dismissals_accounted_for(registry, sessions, k - 1);
        let gone = sessions.take(k);
        assert(gone.drop_last() =~= sessions.take(k - 1));
        let rest = sessions.skip(k - 1);
        lemma_dismissal_is_accounted_for(dismissed_all(registry, sessions.take(k - 1)), rest, 0);
        assert(rest.remove(0) =~= sessions.skip(k));
    }
}

/// For any number of sessions that connect one after another and then
/// disconnect one after another, starting from the empty registry: while
/// they connect, the registry holds no more entries than sessions have
/// connected; while they disconnect, no more than sessions are still
/// connected; and when the last has disconnected, both maps are empty.
pub proof fn lemma_connects_then_disconnects<P>(sessions: Seq<SessionView<P>>, k: int)
    requires
        0 <= k <= sessions.len(),
    ensures
        admitted_all(RegistryView::<P>::empty(), sessions.take(k)).connections.len() <= k,
        admitted_all(RegistryView::<P>::empty(), sessions.take(k)).entities.len() <= k,
        dismissed_all(
            admitted_all(RegistryView::<P>::empty(), sessions),
            sessions.take(k),
        ).connections.len() <= sessions.len() - k,
        dismissed_all(
            admitted_all(RegistryView::<P>::empty(), sessions),
            sessions.take(k),
        ).entities.len() <= sessions.len() - k,
        dismissed_all(admitted_all(RegistryView::<P>::empty(), sessions), sessions).is_empty(),
{
    let empty = RegistryView::<P>::empty();
    lemma_admissions_accounted_for(sessions.take(k));
    lemma_entries_bounded_by_live_sessions(admitted_all(empty, sessions.take(k)), sessions.take(k));
    let full = admitted_all(empty, sessions);
    lemma_admissions_accounted_for(sessions);
    lemma_dismissals_accounted_for(full, sessions, k);
    lemma_entries_bounded_by_live_sessions(
        dismissed_all(full, sessions.take(k)),
        sessions.skip(k),
    );
    lemma_dismissals_accounted_for(full, sessions, sessions.len() as int);
    assert(sessions.take(sessions.len() as int) =~= sessions);
    lemma_entries_bounded_by_live_sessions(
        dismissed_all(full, sessions),
        sessions.skip(sessions.len() as int),
    );
}

} // verus!
