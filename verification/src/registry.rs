//! The registry of connected sessions and of the entities they control.
//!
//! Abstractly the registry is two finite maps: connection id to peer
//! address, and entity id to entity. An entity is filed in the bucket of
//! its type, and an entity id names at most one entity over all buckets.
//! Every operation is a plain map update, so a caller that shares the
//! registry holds its lock for the length of one call only.

use vstd::prelude::*;
use crate::table::{
    lemma_table_entry, lemma_table_len, lemma_table_push, lemma_table_remove, lemma_table_update, table,
};
use crate::types::{Entity, EntityType, EntityView, SessionRecord, SessionRecordView};

verus! {

/// What the registry holds.
pub struct RegistryView<P> {
    pub connections: Map<Seq<char>, Seq<char>>,
    pub entities: Map<Seq<char>, EntityView<P>>,
}

/// One change to the registry.
#[derive(Debug, PartialEq)]
pub enum RegistryOp<P> {
    RegisterConnection(SessionRecord),
    RegisterEntity(Entity<P>),
    UnregisterConnection { connection_id: String },
    UnregisterEntity { entity_type: EntityType, entity_id: String },
}

/// A change to the registry, with every string as its characters.
pub enum RegistryOpView<P> {
    RegisterConnection(SessionRecordView),
    RegisterEntity(EntityView<P>),
    UnregisterConnection { connection_id: Seq<char> },
    UnregisterEntity { entity_type: EntityType, entity_id: Seq<char> },
}

impl<P> View for RegistryOp<P> {
    type V = RegistryOpView<P>;

    open spec fn view(&self) -> RegistryOpView<P> {
        match self {
            RegistryOp::RegisterConnection(record) => RegistryOpView::RegisterConnection(record@),
            RegistryOp::RegisterEntity(entity) => RegistryOpView::RegisterEntity(entity@),
            RegistryOp::UnregisterConnection { connection_id } => RegistryOpView::UnregisterConnection {
                connection_id: connection_id@,
            },
            RegistryOp::UnregisterEntity { entity_type, entity_id } => RegistryOpView::UnregisterEntity {
                entity_type: *entity_type,
                entity_id: entity_id@,
            },
        }
    }
}

impl<P> RegistryView<P> {
    /// The registry with no session and no entity.
    pub open spec fn empty() -> RegistryView<P> {
        RegistryView { connections: Map::empty(), entities: Map::empty() }
    }

    /// Both maps are finite and every entity is filed under its own id.
    pub open spec fn well_formed(self) -> bool {
        &&& self.connections.dom().finite()
        &&& self.entities.dom().finite()
        &&& forall|id: Seq<char>| #[trigger]
            self.entities.contains_key(id) ==> self.entities[id].id == id
    }

    /// Neither map holds an entry.
    pub open spec fn is_empty(self) -> bool {
        self.connections.dom() =~= Set::empty() && self.entities.dom() =~= Set::empty()
    }

    /// Files `address` under `connection_id`, replacing what was there.
    pub open spec fn register_connection(
        self,
        connection_id: Seq<char>,
        address: Seq<char>,
    ) -> RegistryView<P> {
        RegistryView { connections: self.connections.insert(connection_id, address), ..self }
    }

    /// Removes what is filed under `connection_id`, if anything.
    pub open spec fn unregister_connection(self, connection_id: Seq<char>) -> RegistryView<P> {
        RegistryView { connections: self.connections.remove(connection_id), ..self }
    }

    /// Files `entity` under its id, replacing any entity of that id.
    pub open spec fn register_entity(self, entity: EntityView<P>) -> RegistryView<P> {
        RegistryView { entities: self.entities.insert(entity.id, entity), ..self }
    }

    /// Whether the bucket of `entity_type` holds an entity `entity_id`.
    pub open spec fn has_entity(self, entity_type: EntityType, entity_id: Seq<char>) -> bool {
        self.entities.contains_key(entity_id) && self.entities[entity_id].entity_type == entity_type
    }

    /// Removes `entity_id` from the bucket of `entity_type`; other buckets
    /// are left as they are.
    pub open spec fn unregister_entity(
        self,
        entity_type: EntityType,
        entity_id: Seq<char>,
    ) -> RegistryView<P> {
        if self.has_entity(entity_type, entity_id) {
            RegistryView { entities: self.entities.remove(entity_id), ..self }
        } else {
            self
        }
    }

    /// The entities of one type, by id.
    pub open spec fn bucket(self, entity_type: EntityType) -> Map<Seq<char>, EntityView<P>> {
        Map::new(
            |id: Seq<char>| self.has_entity(entity_type, id),
            |id: Seq<char>| self.entities[id],
        )
    }

    /// The registry after one change.
    pub open spec fn apply(self, op: RegistryOpView<P>) -> RegistryView<P> {
        match op {
            RegistryOpView::RegisterConnection(record) => self.register_connection(
                record.connection_id,
                record.address,
            ),
            RegistryOpView::RegisterEntity(entity) => self.register_entity(entity),
            RegistryOpView::UnregisterConnection { connection_id } => self.unregister_connection(
                connection_id,
            ),
            RegistryOpView::UnregisterEntity { entity_type, entity_id } => self.unregister_entity(
                entity_type,
                entity_id,
            ),
        }
    }

    /// The registry after a run of changes, first to last.
    pub open spec fn apply_all(self, ops: Seq<RegistryOpView<P>>) -> RegistryView<P>
        decreases ops.len(),
    {
        if ops.len() == 0 {
            self
        } else {
            self.apply_all(ops.drop_last()).apply(ops.last())
        }
    }

    /// An entity id is filed in one bucket at most, and what a bucket
    /// holds is of the bucket's type and filed under its own id.
    pub proof fn lemma_buckets_are_disjoint(
        self,
        first: EntityType,
        second: EntityType,
        id: Seq<char>,
    )
        requires
            self.well_formed(),
            first != second,
        ensures
            !(self.bucket(first).contains_key(id) && self.bucket(second).contains_key(id)),
            self.bucket(first).contains_key(id) ==> self.bucket(first)[id].entity_type == first
                && self.bucket(first)[id].id == id,
    {
    }

    /// Every change keeps a well-formed registry well-formed.
    pub proof fn lemma_apply_well_formed(self, op: RegistryOpView<P>)
        requires
            self.well_formed(),
        ensures
            self.apply(op).well_formed(),
    {
    }
}

/// The connection ids of a run of session records, in order.
pub open spec fn connection_ids(records: Seq<SessionRecord>) -> Seq<Seq<char>> {
    Seq::new(records.len(), |i: int| records[i].connection_id@)
}

/// The addresses of a run of session records, in order.
pub open spec fn addresses(records: Seq<SessionRecord>) -> Seq<Seq<char>> {
    Seq::new(records.len(), |i: int| records[i].address@)
}

/// The map from connection id to address that a run of records stands for.
pub open spec fn connection_map(records: Seq<SessionRecord>) -> Map<Seq<char>, Seq<char>> {
    table(connection_ids(records), addresses(records))
}

/// The ids of a run of entities, in order.
pub open spec fn entity_ids<P>(entities: Seq<Entity<P>>) -> Seq<Seq<char>> {
    Seq::new(entities.len(), |i: int| entities[i].id@)
}

/// The views of a run of entities, in order.
pub open spec fn entity_views<P>(entities: Seq<Entity<P>>) -> Seq<EntityView<P>> {
    Seq::new(entities.len(), |i: int| entities[i]@)
}

/// The map from entity id to entity that a run of entities stands for.
pub open spec fn entity_map<P>(entities: Seq<Entity<P>>) -> Map<Seq<char>, EntityView<P>> {
    table(entity_ids(entities), entity_views(entities))
}

/// `selected` holds a copy of each entity of `entity_type` among the first
/// `upto` of `all`, once and in order; `origin[j]` is where in `all` the
/// entity `selected[j]` stands.
spec fn selects<P>(
    all: Seq<Entity<P>>,
    entity_type: EntityType,
    upto: int,
    selected: Seq<Entity<P>>,
    origin: Seq<int>,
) -> bool {
    &&& origin.len() == selected.len()
    &&& forall|j: int|
        0 <= j < origin.len() ==> {
            let k = #[trigger] origin[j];
            &&& 0 <= k < upto
            &&& selected[j]@ == all[k]@
            &&& all[k].entity_type == entity_type
        }
    &&& forall|j: int, k: int| 0 <= j < k < origin.len() ==> origin[j] < origin[k]
    &&& forall|k: int|
        0 <= k < upto && all[k].entity_type == entity_type ==> #[trigger] origin.contains(k)
}

/// The shared store of sessions and entities.
pub struct Registry<P> {
    connections: Vec<SessionRecord>,
    entities: Vec<Entity<P>>,
}

impl<P> View for Registry<P> {
    type V = RegistryView<P>;

    closed spec fn view(&self) -> RegistryView<P> {
        RegistryView {
            connections: connection_map(self.connections@),
            entities: entity_map(self.entities@),
        }
    }
}

/// Where the record of `connection_id` stands, if there is one.
fn find_connection(records: &Vec<SessionRecord>, connection_id: &String) -> (found: Option<usize>)
    ensures
        (match found {
            Some(i) => i < records.len() && records[i as int].connection_id@ == connection_id@,
            None => !connection_ids(records@).contains(connection_id@),
        }),
{
    let mut i: usize = 0;
    while i < records.len()
        invariant
            i <= records.len(),
            forall|j: int| 0 <= j < i ==> records[j].connection_id@ != connection_id@,
        decreases records.len() - i,
    {
        if records[i].connection_id == *connection_id {
            return Some(i);
        }
        i += 1;
    }
    proof {
        let ids = connection_ids(records@);
        if ids.contains(connection_id@) {
            let j = ids.index_of(connection_id@);
            assert(records[j].connection_id@ == connection_id@);
        }
    }
    None
}

/// Where the entity `entity_id` stands, if there is one.
fn find_entity<P>(entities: &Vec<Entity<P>>, entity_id: &String) -> (found: Option<usize>)
    ensures
        (match found {
            Some(i) => i < entities.len() && entities[i as int].id@ == entity_id@,
            None => !entity_ids(entities@).contains(entity_id@),
        }),
{
    let mut i: usize = 0;
    while i < entities.len()
        invariant
            i <= entities.len(),
            forall|j: int| 0 <= j < i ==> entities[j].id@ != entity_id@,
        decreases entities.len() - i,
    {
        if entities[i].id == *entity_id {
            return Some(i);
        }
        i += 1;
    }
    proof {
        let ids = entity_ids(entities@);
        if ids.contains(entity_id@) {
            let j = ids.index_of(entity_id@);
            assert(entities[j].id@ == entity_id@);
        }
    }
    None
}

impl<P> Registry<P> {
    /// No connection id and no entity id is filed twice.
    #[verifier::type_invariant]
    spec fn inv(self) -> bool {
        &&& connection_ids(self.connections@).no_duplicates()
        &&& entity_ids(self.entities@).no_duplicates()
    }
}

impl<P: Copy> Registry<P> {
    /// Creates the registry with no session and no entity.
    pub fn new() -> (registry: Registry<P>)
        ensures
            registry@ == RegistryView::<P>::empty(),
            registry@.well_formed(),
    {
        let registry = Registry { connections: Vec::new(), entities: Vec::new() };
        proof {
            assert(connection_map(registry.connections@) =~= Map::empty());
            assert(entity_map(registry.entities@) =~= Map::empty());
        }
        registry
    }

    /// Files `address` under `connection_id`. A record already filed under
    /// that id is replaced.
    pub fn register_connection(&mut self, connection_id: String, address: String)
        ensures
            final(self)@ == old(self)@.register_connection(connection_id@, address@),
            final(self)@.well_formed(),
    {
        proof {
            use_type_invariant(&*self);
        }
        let mut records: Vec<SessionRecord> = Vec::new();
        std::mem::swap(&mut records, &mut self.connections);
        let ghost before = records@;
        let found = find_connection(&records, &connection_id);
        let record = SessionRecord { connection_id, address };
        match found {
            Some(i) => {
                records.set(i, record);
                proof {
                    assert(connection_ids(records@) =~= connection_ids(before));
                    assert(addresses(records@) =~= addresses(before).update(i as int, address@));
                    lemma_table_update(connection_ids(before), addresses(before), i as int, address@);
                }
            },
            None => {
                records.push(record);
                proof {
                    assert(connection_ids(records@) =~= connection_ids(before).push(connection_id@));
                    assert(addresses(records@) =~= addresses(before).push(address@));
                    lemma_table_push(
                        connection_ids(before),
                        addresses(before),
                        connection_id@,
                        address@,
                    );
                }
            },
        }
        self.connections = records;
        proof {
            self.lemma_view_well_formed();
        }
    }

    /// Removes the record filed under `connection_id`, if there is one, and
    /// says whether there was.
    pub fn unregister_connection(&mut self, connection_id: &String) -> (removed: bool)
        ensures
            final(self)@ == old(self)@.unregister_connection(connection_id@),
            removed == old(self)@.connections.contains_key(connection_id@),
            final(self)@.well_formed(),
    {
        proof {
            use_type_invariant(&*self);
        }
        let mut records: Vec<SessionRecord> = Vec::new();
        std::mem::swap(&mut records, &mut self.connections);
        let ghost before = records@;
        let found = find_connection(&records, connection_id);
        let removed = match found {
            Some(i) => {
                records.remove(i);
                proof {
                    assert(connection_ids(records@) =~= connection_ids(before).remove(i as int));
                    assert(addresses(records@) =~= addresses(before).remove(i as int));
                    lemma_table_remove(connection_ids(before), addresses(before), i as int);
                }
                true
            },
            None => {
                proof {
                    assert(connection_map(before).remove(connection_id@) =~= connection_map(before));
                }
                false
            },
        };
        self.connections = records;
        proof {
            self.lemma_view_well_formed();
        }
        removed
    }

    /// Copies the session records out, so that the caller can walk them
    /// after it has let go of the registry. No record is left out and no
    /// connection id comes twice.
    pub fn snapshot_connections(&self) -> (records: Vec<SessionRecord>)
        ensures
            connection_map(records@) == self@.connections,
            connection_ids(records@).no_duplicates(),
            records@.len() == self@.connections.len(),
    {
        proof {
            use_type_invariant(self);
        }
        let mut records: Vec<SessionRecord> = Vec::new();
        let mut i: usize = 0;
        while i < self.connections.len()
            invariant
                i <= self.connections.len(),
                records@.len() == i,
                forall|j: int| 0 <= j < i ==> records[j]@ == self.connections[j]@,
            decreases self.connections.len() - i,
        {
            records.push(self.connections[i].clone());
            i += 1;
        }
        proof {
            assert(connection_ids(records@) =~= connection_ids(self.connections@));
            assert(addresses(records@) =~= addresses(self.connections@));
            lemma_table_len(connection_ids(records@), addresses(records@));
        }
        records
    }

    /// Files `entity` under its id in the bucket of its type. An entity
    /// already filed under that id, in whichever bucket, is replaced.
    pub fn register_entity(&mut self, entity: Entity<P>)
        ensures
            final(self)@ == old(self)@.register_entity(entity@),
            final(self)@.well_formed(),
    {
        proof {
            use_type_invariant(&*self);
        }
        let mut entities: Vec<Entity<P>> = Vec::new();
        std::mem::swap(&mut entities, &mut self.entities);
        let ghost before = entities@;
        let ghost filed = entity@;
        let found = find_entity(&entities, &entity.id);
        match found {
            Some(i) => {
                entities.set(i, entity);
                proof {
                    assert(entity_ids(entities@) =~= entity_ids(before));
                    assert(entity_views(entities@) =~= entity_views(before).update(i as int, filed));
                    lemma_table_update(entity_ids(before), entity_views(before), i as int, filed);
                }
            },
            None => {
                entities.push(entity);
                proof {
                    assert(entity_ids(entities@) =~= entity_ids(before).push(filed.id));
                    assert(entity_views(entities@) =~= entity_views(before).push(filed));
                    lemma_table_push(entity_ids(before), entity_views(before), filed.id, filed);
                }
            },
        }
        self.entities = entities;
        proof {
            self.lemma_view_well_formed();
        }
    }

    /// Removes the entity `entity_id` from the bucket of `entity_type`, if
    /// it is there, and says whether it was.
    pub fn unregister_entity(&mut self, entity_type: EntityType, entity_id: &String) -> (removed:
        bool)
        ensures
            final(self)@ == old(self)@.unregister_entity(entity_type, entity_id@),
            removed == old(self)@.has_entity(entity_type, entity_id@),
            final(self)@.well_formed(),
    {
        proof {
            use_type_invariant(&*self);
        }
        let mut entities: Vec<Entity<P>> = Vec::new();
        std::mem::swap(&mut entities, &mut self.entities);
        let ghost before = entities@;
        let found = find_entity(&entities, entity_id);
        let removed = match found {
            Some(i) => {
                proof {
                    lemma_table_entry(entity_ids(before), entity_views(before), i as int);
                }
                if entities[i].entity_type == entity_type {
                    entities.remove(i);
                    proof {
                        assert(entity_ids(entities@) =~= entity_ids(before).remove(i as int));
                        assert(entity_views(entities@) =~= entity_views(before).remove(i as int));
                        lemma_table_remove(entity_ids(before), entity_views(before), i as int);
                    }
                    true
                } else {
                    false
                }
            },
            None => false,
        };
        self.entities = entities;
        proof {
            self.lemma_view_well_formed();
        }
        removed
    }

    /// Copies the entities of one type out. None of that type is left out,
    /// none of another type is taken, and no entity id comes twice.
    pub fn snapshot_entities(&self, entity_type: EntityType) -> (entities: Vec<Entity<P>>)
        ensures
            entity_map(entities@) == self@.bucket(entity_type),
            entity_ids(entities@).no_duplicates(),
    {
        proof {
            use_type_invariant(self);
        }
        let mut entities: Vec<Entity<P>> = Vec::new();
        let ghost mut origin: Seq<int> = Seq::empty();
        let mut i: usize = 0;
        while i < self.entities.len()
            invariant
                i <= self.entities.len(),
                selects(self.entities@, entity_type, i as int, entities@, origin),
            decreases self.entities.len() - i,
        {
            if self.entities[i].entity_type == entity_type {
                entities.push(self.entities[i].clone());
                proof {
                    let earlier = origin;
                    origin = origin.push(i as int);
                    assert forall|k: int|
                        0 <= k < i + 1 && self.entities[k].entity_type
                            == entity_type implies #[trigger] origin.contains(k) by {
                        if k < i {
                            assert(earlier.contains(k));
                            let j = earlier.index_of(k);
                            assert(origin[j] == k);
                        } else {
                            assert(origin[earlier.len() as int] == k);
                        }
                    }
                }
            }
            i += 1;
        }
        proof {
            self.lemma_bucket_of_selection(entity_type, entities@, origin);
        }
        entities
    }

    /// Carries out one change.
    pub fn apply(&mut self, op: RegistryOp<P>)
        ensures
            final(self)@ == old(self)@.apply(op@),
            final(self)@.well_formed(),
    {
        match op {
            RegistryOp::RegisterConnection(record) => {
                self.register_connection(record.connection_id, record.address);
            },
            RegistryOp::RegisterEntity(entity) => {
                self.register_entity(entity);
            },
            RegistryOp::UnregisterConnection { connection_id } => {
                self.unregister_connection(&connection_id);
            },
            RegistryOp::UnregisterEntity { entity_type, entity_id } => {
                self.unregister_entity(entity_type, &entity_id);
            },
        }
    }

    /// A selection of the stored entities that takes exactly those of one
    /// type, each once and in order, stands for the bucket of that type.
    proof fn lemma_bucket_of_selection(
        self,
        entity_type: EntityType,
        selected: Seq<Entity<P>>,
        origin: Seq<int>,
    )
        requires
            self.inv(),
            selects(self.entities@, entity_type, self.entities@.len() as int, selected, origin),
        ensures
            entity_map(selected) == self@.bucket(entity_type),
            entity_ids(selected).no_duplicates(),
    {
        let all_ids = entity_ids(self.entities@);
        let all_views = entity_views(self.entities@);
        let ids = entity_ids(selected);
        let views = entity_views(selected);
        let bucket = self@.bucket(entity_type);
        // A selected entity carries the id of the stored entity it is a
        // copy of, and copies of different stored entities differ in it.
        assert forall|j: int| 0 <= j < ids.len() implies #[trigger] ids[j] == all_ids[origin[j]] by {
            assert(selected[j]@ == self.entities[origin[j]]@);
        }
        assert forall|a: int, b: int|
            0 <= a < ids.len() && 0 <= b < ids.len() && a != b implies ids[a] != ids[b] by {
            assert(ids[a] == all_ids[origin[a]] && ids[b] == all_ids[origin[b]]);
            assert(origin[a] != origin[b]);
        }
        assert forall|id: Seq<char>| ids.contains(id) implies bucket.contains_key(id) && entity_map(
            selected,
        )[id] == bucket[id] by {
            let j = ids.index_of(id);
            assert(ids[j] == all_ids[origin[j]]);
            lemma_table_entry(ids, views, j);
            lemma_table_entry(all_ids, all_views, origin[j]);
        }
        assert forall|id: Seq<char>| bucket.contains_key(id) implies ids.contains(id) by {
            let k = all_ids.index_of(id);
            lemma_table_entry(all_ids, all_views, k);
            assert(origin.contains(k));
            assert(ids[origin.index_of(k)] == id);
        }
        assert(entity_map(selected) =~= bucket);
    }

    /// The view of a registry whose invariant holds is well-formed.
    proof fn lemma_view_well_formed(self)
        requires
            self.inv(),
        ensures
            self@.well_formed(),
    {
        lemma_table_len(connection_ids(self.connections@), addresses(self.connections@));
        lemma_table_len(entity_ids(self.entities@), entity_views(self.entities@));
        assert forall|id: Seq<char>| #[trigger]
            self@.entities.contains_key(id) implies self@.entities[id].id == id by {
            let ids = entity_ids(self.entities@);
            let i = ids.index_of(id);
            assert(ids[i] == id);
        }
    }
}

} // verus!
